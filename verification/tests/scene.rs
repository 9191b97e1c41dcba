use radiant::buffers::ByteRange;
use radiant::color::{pick_color, pick_id, Color};
use radiant::components::transform::TransformMessage;
use radiant::error::RadiantError;
use radiant::geometry::{Point, Rect, ScreenDescriptor};
use radiant::mesh::TextureId;
use radiant::node::Node;
use radiant::renderer::{RadiantRenderer, RenderCommand};
use radiant::scene::{frame_jobs, RadiantScene};
use radiant::scissor::ScissorRect;
use radiant::tessellator::{Shape, Vec2};
use radiant::textures::{ImageDelta, TextureFilter, TextureOptions};

const LIGHT_RED: Color = Color { r: 255, g: 128, b: 128, a: 255 };
const RED: Color = Color { r: 255, g: 0, b: 0, a: 255 };

fn screen() -> ScreenDescriptor {
    ScreenDescriptor { size_in_pixels: [800, 600], pixels_per_point: 256 }
}

fn rectangle(id: u64, position: [i32; 2], scale: [i32; 2]) -> Node {
    Node::new(id, Shape::Rectangle, position, scale)
}

fn rect(x0: i64, y0: i64, x1: i64, y1: i64) -> Rect {
    Rect { min: Point { x: x0, y: y0 }, max: Point { x: x1, y: y1 } }
}

#[test]
fn new_scene_is_empty() {
    let mut scene = RadiantScene::new(screen());
    assert_eq!(scene.len(), 0);
    assert_eq!(scene.counter(), 0);
    assert_eq!(scene.screen_descriptor(), screen());
    assert!(scene.build_frame(256).is_empty());
    assert_eq!(scene.hit_test([0, 0]), None);
    assert!(scene.node(0).is_none());
}

#[test]
fn add_assigns_identities_that_never_repeat() {
    let mut scene = RadiantScene::new(screen());
    // The identity that the node came with is kept where it is free.
    assert_eq!(scene.add(rectangle(0, [0, 0], [10, 10])), 0);
    assert_eq!(scene.counter(), 1);
    assert_eq!(scene.add(rectangle(5, [0, 0], [10, 10])), 5);
    assert_eq!(scene.counter(), 6);
    // One that the scene has reached already is replaced by a fresh one.
    assert_eq!(scene.add(rectangle(5, [0, 0], [10, 10])), 6);
    assert_eq!(scene.add(rectangle(2, [0, 0], [10, 10])), 7);
    assert_eq!(scene.counter(), 8);
    assert_eq!(scene.len(), 4);
    // Not even after removal.
    scene.remove(7).unwrap();
    assert_eq!(scene.add(rectangle(7, [0, 0], [10, 10])), 8);
    let frame = scene.build_frame(256);
    let ids: Vec<u64> = frame.iter().map(|e| e.id).collect();
    assert_eq!(ids, vec![0, 5, 6, 8]);
}

#[test]
fn remove_fails_with_not_found_for_an_absent_node() {
    let mut scene = RadiantScene::new(screen());
    assert_eq!(scene.remove(0).err(), Some(RadiantError::NotFound));
    scene.add(rectangle(0, [0, 0], [10, 10]));
    scene.add(rectangle(1, [5, 5], [10, 10]));
    scene.add(rectangle(2, [9, 9], [10, 10]));
    assert_eq!(scene.remove(3).err(), Some(RadiantError::NotFound));
    assert_eq!(scene.len(), 3);
    let removed = scene.remove(1).unwrap();
    assert_eq!(removed.get_id(), 1);
    assert_eq!(removed.transform().get_xy(), [5, 5]);
    assert!(removed.paint_mesh().is_empty());
    assert!(removed.needs_tessellation());
    assert_eq!(scene.len(), 2);
    assert_eq!(scene.remove(1).err(), Some(RadiantError::NotFound));
    // The others keep their order.
    let ids: Vec<u64> = scene.build_frame(256).iter().map(|e| e.id).collect();
    assert_eq!(ids, vec![0, 2]);
    assert!(scene.node(1).is_none());
    assert_eq!(scene.node(2).unwrap().transform().get_xy(), [9, 9]);
}

#[test]
fn removed_image_node_names_its_texture() {
    let mut scene = RadiantScene::new(screen());
    let id = scene.add(Node::new(0, Shape::Image { texture: TextureId::User(3) }, [0, 0], [9, 9]));
    scene.build_frame(256);
    let other = scene.add(Node::new(0, Shape::Image { texture: TextureId::User(3) }, [5, 5], [9, 9]));
    scene.add(rectangle(0, [0, 0], [10, 10]));
    assert!(scene.references_texture(TextureId::User(3)));
    assert!(!scene.references_texture(TextureId::Managed(3)));
    assert!(!scene.references_texture(TextureId::Managed(0)));
    let removed = scene.remove(id).unwrap();
    assert_eq!(removed.texture(), Some(TextureId::User(3)));
    // Another node shows the texture still.
    assert!(scene.references_texture(TextureId::User(3)));
    scene.remove(other).unwrap();
    assert!(!scene.references_texture(TextureId::User(3)));
}

#[test]
fn build_frame_returns_the_nodes_in_paint_order() {
    let mut scene = RadiantScene::new(screen());
    scene.add(rectangle(0, [0, 0], [10, 10]));
    scene.add(Node::new(
        1,
        Shape::Line { start: Vec2 { x: 0, y: 0 }, end: Vec2 { x: 10, y: 0 } },
        [20, 20],
        [8, 8],
    ));
    scene.add(rectangle(2, [40, 40], [10, 20]));
    let frame = scene.build_frame(256);
    assert_eq!(frame.len(), 3);
    assert_eq!(frame[0].id, 0);
    assert_eq!(frame[1].id, 1);
    assert_eq!(frame[2].id, 2);
    assert_eq!(frame[0].clip_rect, rect(0, 0, 10, 10));
    assert_eq!(frame[1].clip_rect, rect(20, 19, 30, 21));
    assert_eq!(frame[2].clip_rect, rect(40, 40, 50, 60));
    assert_eq!(frame[2].paint.vertices[2].pos, Point { x: 12800, y: 15360 });
    let blue = Color { r: 0, g: 0, b: 255, a: 255 };
    assert!(frame[1].paint.vertices.iter().all(|v| v.color == blue));
    for entry in &frame {
        assert_eq!(entry.paint.indices, vec![0, 1, 2, 0, 2, 3]);
        assert!(entry.id == 1 || entry.paint.vertices.iter().all(|v| v.color == LIGHT_RED));
        assert!(entry.pick.vertices.iter().all(|v| v.color == pick_color(entry.id)));
        assert!(entry.pick.vertices.iter().all(|v| pick_id(v.color) == Some(entry.id)));
    }
    assert!(!scene.node(1).unwrap().needs_tessellation());
}

#[test]
fn change_of_scale_rebuilds_every_mesh() {
    let mut scene = RadiantScene::new(screen());
    scene.add(rectangle(0, [10, 10], [10, 10]));
    let frame = scene.build_frame(256);
    assert_eq!(frame[0].paint.vertices[0].pos, Point { x: 2560, y: 2560 });
    let frame = scene.build_frame(512);
    assert_eq!(frame[0].paint.vertices[0].pos, Point { x: 5120, y: 5120 });
    assert_eq!(scene.screen_descriptor().pixels_per_point, 512);
    assert_eq!(scene.screen_descriptor().size_in_pixels, [800, 600]);
    scene.set_screen_descriptor(ScreenDescriptor { size_in_pixels: [1, 2], pixels_per_point: 256 });
    assert!(scene.node(0).unwrap().needs_tessellation());
    let frame = scene.build_frame(256);
    assert_eq!(frame[0].paint.vertices[0].pos, Point { x: 2560, y: 2560 });
    scene.set_screen_descriptor(ScreenDescriptor { size_in_pixels: [3, 4], pixels_per_point: 256 });
    assert!(!scene.node(0).unwrap().needs_tessellation());
}

#[test]
fn mark_all_dirty_marks_every_node() {
    let mut scene = RadiantScene::new(screen());
    scene.add(rectangle(0, [10, 10], [10, 10]));
    scene.add(rectangle(1, [10, 10], [10, 10]));
    scene.build_frame(256);
    assert!(!scene.node(0).unwrap().needs_tessellation());
    scene.mark_all_dirty();
    assert!(scene.node(0).unwrap().needs_tessellation());
    assert!(scene.node(1).unwrap().needs_tessellation());
    scene.build_frame(256);
    assert!(!scene.node(1).unwrap().needs_tessellation());
}

#[test]
fn edits_of_an_absent_node_fail_with_not_found() {
    let mut scene = RadiantScene::new(screen());
    scene.add(rectangle(0, [10, 10], [10, 10]));
    assert_eq!(scene.set_selected(1, true), Err(RadiantError::NotFound));
    assert_eq!(
        scene.set_transform(1, TransformMessage::SetXY([0, 0])),
        Err(RadiantError::NotFound)
    );
    assert!(!scene.node(0).unwrap().selection().is_selected());
    assert_eq!(scene.set_selected(0, true), Ok(()));
    assert_eq!(scene.set_transform(0, TransformMessage::TransformXY([1, 2])), Ok(()));
    let node = scene.node(0).unwrap();
    assert!(node.selection().is_selected());
    assert_eq!(node.transform().get_xy(), [11, 12]);
    assert!(node.needs_tessellation());
}

#[test]
fn select_clears_every_other_selection() {
    let mut scene = RadiantScene::new(screen());
    for id in 0..3 {
        scene.add(rectangle(id, [0, 0], [10, 10]));
    }
    scene.build_frame(256);
    scene.select(Some(1));
    assert!(scene.node(1).unwrap().selection().is_selected());
    assert!(scene.node(1).unwrap().needs_tessellation());
    // Nodes whose state did not change are not rebuilt.
    assert!(!scene.node(0).unwrap().needs_tessellation());
    scene.build_frame(256);
    scene.select(Some(2));
    assert!(!scene.node(1).unwrap().selection().is_selected());
    assert!(scene.node(1).unwrap().needs_tessellation());
    assert!(scene.node(2).unwrap().selection().is_selected());
    assert!(!scene.node(0).unwrap().needs_tessellation());
    scene.select(Some(77));
    assert!(!scene.node(2).unwrap().selection().is_selected());
    scene.select(Some(0));
    scene.select(None);
    assert!(!scene.node(0).unwrap().selection().is_selected());
}

#[test]
fn hit_test_finds_the_node_under_a_point() {
    let mut scene = RadiantScene::new(screen());
    let a = scene.add(rectangle(0, [10, 10], [50, 50]));
    assert_eq!(scene.hit_test([30, 30]), Some(a));
    assert_eq!(scene.hit_test([10, 10]), Some(a));
    assert_eq!(scene.hit_test([60, 60]), Some(a));
    assert_eq!(scene.hit_test([61, 60]), None);
    assert_eq!(scene.hit_test([9, 30]), None);
    assert_eq!(scene.hit_test([-5, -5]), None);
    assert_eq!(scene.hit_test([i32::MAX, i32::MIN]), None);
}

#[test]
fn hit_test_prefers_the_topmost_node() {
    let mut scene = RadiantScene::new(screen());
    let a = scene.add(rectangle(0, [0, 0], [100, 100]));
    let b = scene.add(rectangle(1, [50, 50], [100, 100]));
    assert_eq!(scene.hit_test([75, 75]), Some(b));
    assert_eq!(scene.hit_test([25, 25]), Some(a));
    assert_eq!(scene.hit_test([125, 125]), Some(b));
    assert_eq!(scene.hit_test([100, 100]), Some(b));
    assert_eq!(scene.hit_test([50, 50]), Some(b));
    assert_eq!(scene.hit_test([49, 50]), Some(a));
    assert_eq!(scene.hit_test([200, 200]), None);
    assert_eq!(scene.hit_test([125, 25]), None);
    // With the upper node gone the lower one is hit.
    scene.remove(b).unwrap();
    assert_eq!(scene.hit_test([75, 75]), Some(a));
    assert_eq!(scene.hit_test([125, 125]), None);
}

#[test]
fn hit_test_sees_edits_at_once() {
    let mut scene = RadiantScene::new(screen());
    let a = scene.add(rectangle(0, [0, 0], [10, 10]));
    assert_eq!(scene.hit_test([5, 5]), Some(a));
    scene.set_transform(a, TransformMessage::TransformXY([100, 0])).unwrap();
    assert_eq!(scene.hit_test([5, 5]), None);
    assert_eq!(scene.hit_test([105, 5]), Some(a));
}

#[test]
fn hit_test_is_in_device_pixels() {
    let mut scene =
        RadiantScene::new(ScreenDescriptor { size_in_pixels: [800, 600], pixels_per_point: 512 });
    let a = scene.add(rectangle(0, [10, 10], [50, 50]));
    // At two pixels per point the rectangle spans the pixels 20 to 120.
    assert_eq!(scene.hit_test([19, 19]), None);
    assert_eq!(scene.hit_test([20, 20]), Some(a));
    assert_eq!(scene.hit_test([120, 120]), Some(a));
    assert_eq!(scene.hit_test([121, 120]), None);
}

#[test]
fn thin_line_is_hit_by_its_wider_pick_mesh() {
    let mut scene = RadiantScene::new(screen());
    let line = scene.add(Node::new(
        0,
        Shape::Line { start: Vec2 { x: 0, y: 0 }, end: Vec2 { x: 100, y: 0 } },
        [10, 50],
        [8, 8],
    ));
    assert_eq!(scene.hit_test([50, 50]), Some(line));
    assert_eq!(scene.hit_test([50, 54]), Some(line));
    assert_eq!(scene.hit_test([50, 46]), Some(line));
    assert_eq!(scene.hit_test([50, 55]), None);
    assert_eq!(scene.hit_test([9, 50]), None);
}

#[test]
fn rectangle_end_to_end() {
    let mut scene = RadiantScene::new(screen());
    let mut renderer = RadiantRenderer::new(1 << 28);
    let white = ImageDelta {
        width: 1,
        height: 1,
        texels: 1,
        pos: None,
        options: TextureOptions {
            magnification: TextureFilter::Linear,
            minification: TextureFilter::Linear,
        },
    };
    renderer.update_texture(TextureId::Managed(0), &white).unwrap();

    let id = scene.add(rectangle(0, [10, 10], [50, 50]));
    let frame = scene.build_frame(256);
    assert_eq!(frame.len(), 1);
    assert_eq!(frame[0].id, id);
    assert!(!frame[0].paint.is_empty());
    assert!(!frame[0].pick.is_empty());
    let jobs = frame_jobs(&frame, false);
    renderer.update_buffers(&scene.screen_descriptor(), &jobs).unwrap();
    let commands = renderer.render(&scene.screen_descriptor(), &jobs);
    assert_eq!(
        commands,
        vec![
            RenderCommand::Prepare { width: 800, height: 600 },
            RenderCommand::SetScissor(ScissorRect { x: 10, y: 10, width: 50, height: 50 }),
            RenderCommand::Draw {
                texture_id: TextureId::Managed(0),
                index_range: ByteRange { start: 0, end: 24 },
                vertex_range: ByteRange { start: 0, end: 80 },
                indices: 6,
            },
            RenderCommand::SetScissor(ScissorRect { x: 0, y: 0, width: 800, height: 600 }),
        ]
    );
    let first = frame[0].paint.vertices[0].color;
    assert_eq!(first, LIGHT_RED);

    scene.set_selected(id, true).unwrap();
    let frame = scene.build_frame(256);
    assert_eq!(frame.len(), 1);
    let second = frame[0].paint.vertices[0].color;
    assert_eq!(second, RED);
    assert_ne!(first, second);
    assert!(frame[0].paint.vertices.iter().all(|v| v.color == RED));
    // Geometry and pick colour are as before.
    assert_eq!(frame[0].paint.vertices[2].pos, Point { x: 15360, y: 15360 });
    assert!(frame[0].pick.vertices.iter().all(|v| v.color == pick_color(id)));
}

#[test]
fn overlapping_nodes_end_to_end() {
    let mut scene = RadiantScene::new(screen());
    let a = scene.add(rectangle(0, [0, 0], [60, 60]));
    let b = scene.add(rectangle(1, [30, 30], [60, 60]));
    assert_ne!(a, b);
    assert_eq!(scene.hit_test([45, 45]), Some(b));
}

#[test]
fn frame_jobs_take_the_paint_or_the_pick_mesh() {
    let mut scene = RadiantScene::new(screen());
    scene.add(rectangle(4, [10, 10], [50, 50]));
    scene.add(Node::new(
        9,
        Shape::Line { start: Vec2 { x: 0, y: 0 }, end: Vec2 { x: 0, y: 0 } },
        [10, 10],
        [8, 8],
    ));
    let frame = scene.build_frame(256);
    let paint = frame_jobs(&frame, false);
    let pick = frame_jobs(&frame, true);
    assert_eq!(paint.len(), 2);
    assert_eq!(pick.len(), 2);
    assert_eq!(paint[0].clip_rect, rect(10, 10, 60, 60));
    assert_eq!(paint[0].mesh.vertices, frame[0].paint.vertices);
    assert_eq!(pick[0].mesh.vertices, frame[0].pick.vertices);
    assert_eq!(pick[0].mesh.vertices[0].color, Color { r: 5, g: 0, b: 0, a: 255 });
    // A node without area gives a mesh without triangles, which is not drawn.
    assert!(paint[1].mesh.is_empty());
    let mut renderer = RadiantRenderer::new(1 << 28);
    renderer.update_buffers(&screen(), &pick).unwrap();
    let commands = renderer.render(&screen(), &pick);
    let reported = commands
        .iter()
        .filter(|c| matches!(c, RenderCommand::Draw { .. } | RenderCommand::MissingTexture(_)))
        .count();
    assert_eq!(reported, 1);
}
