use radiant::components::selection::{SelectionComponent, SelectionMessage};
use radiant::components::transform::{TransformComponent, TransformMessage, MIN_SIZE};

#[test]
fn new_transform_is_at_the_origin_with_the_least_scale() {
    let t = TransformComponent::new();
    assert_eq!(t.get_xy(), [0, 0]);
    assert_eq!(t.get_scale(), [8, 8]);
    assert_eq!(t.get_rotation(), 0);
    assert_eq!(MIN_SIZE, 8);
}

#[test]
fn position_is_set_and_moved() {
    let mut t = TransformComponent::new();
    t.set_xy(&[10, -20]);
    assert_eq!(t.get_xy(), [10, -20]);
    t.transform_xy(&[5, 5]);
    assert_eq!(t.get_xy(), [15, -15]);
    t.transform_xy(&[-15, 15]);
    assert_eq!(t.get_xy(), [0, 0]);
    assert_eq!(t.get_scale(), [8, 8]);
}

#[test]
fn scale_is_never_below_the_least_size() {
    let mut t = TransformComponent::new();
    t.set_scale(&[50, 3]);
    assert_eq!(t.get_scale(), [50, 8]);
    t.set_scale(&[-100, 0]);
    assert_eq!(t.get_scale(), [8, 8]);
    t.set_scale(&[8, 9]);
    assert_eq!(t.get_scale(), [8, 9]);
    t.set_scale(&[i32::MIN, i32::MAX]);
    assert_eq!(t.get_scale(), [8, i32::MAX]);
}

#[test]
fn scale_grows_and_shrinks_down_to_the_least_size() {
    let mut t = TransformComponent::new();
    t.set_scale(&[50, 50]);
    t.transform_scale(&[10, -10]);
    assert_eq!(t.get_scale(), [60, 40]);
    t.transform_scale(&[-52, -33]);
    assert_eq!(t.get_scale(), [8, 8]);
    t.transform_scale(&[-1000, i32::MIN]);
    assert_eq!(t.get_scale(), [8, 8]);
    t.transform_scale(&[1, 0]);
    assert_eq!(t.get_scale(), [9, 8]);
}

#[test]
fn rotation_is_kept() {
    let mut t = TransformComponent::new();
    t.set_rotation(1571);
    assert_eq!(t.get_rotation(), 1571);
    assert_eq!(t.get_xy(), [0, 0]);
    t.set_rotation(-3);
    assert_eq!(t.get_rotation(), -3);
}

#[test]
fn transform_messages_do_what_the_methods_do() {
    let mut t = TransformComponent::new();
    t.handle_message(TransformMessage::SetXY([1, 2]));
    t.handle_message(TransformMessage::TransformXY([10, 20]));
    t.handle_message(TransformMessage::SetScale([30, 2]));
    t.handle_message(TransformMessage::TransformScale([-10, 1]));
    t.handle_message(TransformMessage::SetRotation(7));
    assert_eq!(t.get_xy(), [11, 22]);
    assert_eq!(t.get_scale(), [20, 9]);
    assert_eq!(t.get_rotation(), 7);
}

#[test]
fn requests_that_leave_the_coordinate_range_are_told_apart() {
    let mut t = TransformComponent::new();
    t.set_xy(&[i32::MAX - 1, i32::MIN + 1]);
    assert!(t.can_handle(&TransformMessage::TransformXY([1, -1])));
    assert!(!t.can_handle(&TransformMessage::TransformXY([2, 0])));
    assert!(!t.can_handle(&TransformMessage::TransformXY([0, -2])));
    assert!(t.can_handle(&TransformMessage::TransformScale([i32::MAX - 8, i32::MIN])));
    assert!(!t.can_handle(&TransformMessage::TransformScale([i32::MAX - 7, 0])));
    assert!(t.can_handle(&TransformMessage::SetXY([i32::MAX, i32::MIN])));
    assert!(t.can_handle(&TransformMessage::SetScale([i32::MIN, i32::MAX])));
    assert!(t.can_handle(&TransformMessage::SetRotation(i32::MIN)));
    t.handle_message(TransformMessage::TransformXY([1, -1]));
    assert_eq!(t.get_xy(), [i32::MAX, i32::MIN]);
}

#[test]
fn selection_component() {
    let mut s = SelectionComponent::new();
    assert!(!s.is_selected());
    s.set_selected(true);
    assert!(s.is_selected());
    s.handle_message(SelectionMessage::SetSelected(false));
    assert!(!s.is_selected());
    s.handle_message(SelectionMessage::SetSelected(true));
    assert!(s.is_selected());
}
