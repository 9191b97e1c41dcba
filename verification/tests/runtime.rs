use radiant::geometry::ScreenDescriptor;
use radiant::mesh::{TextureId, Uv};
use radiant::runtime::{RadiantMessage, RadiantResponse, RadiantRuntime};
use radiant::tessellator::{Glyph, Vec2};
use radiant::nodes::image::RadiantImageMessage;

fn runtime() -> RadiantRuntime {
    RadiantRuntime::new(ScreenDescriptor { size_in_pixels: [800, 600], pixels_per_point: 256 })
}

fn selected(response: Option<RadiantResponse>) -> Option<u64> {
    match response {
        Some(RadiantResponse::Selected { id }) => id,
        other => panic!("not a selection: {:?}", other),
    }
}

#[test]
fn add_rectangle_adds_and_selects() {
    let mut runtime = runtime();
    let first = runtime
        .handle_message(RadiantMessage::AddRectangle { position: [10, 10], scale: [50, 50] });
    assert_eq!(selected(first), Some(0));
    let second = runtime
        .handle_message(RadiantMessage::AddRectangle { position: [30, 30], scale: [50, 2] });
    assert_eq!(selected(second), Some(1));
    let scene = runtime.scene();
    assert_eq!(scene.len(), 2);
    assert_eq!(scene.counter(), 2);
    assert!(!scene.node(0).unwrap().selection().is_selected());
    assert!(scene.node(1).unwrap().selection().is_selected());
    assert_eq!(scene.node(1).unwrap().transform().get_xy(), [30, 30]);
    assert_eq!(scene.node(1).unwrap().transform().get_scale(), [50, 8]);
}

#[test]
fn select_node_selects_one_or_none() {
    let mut runtime = runtime();
    runtime.handle_message(RadiantMessage::AddRectangle { position: [10, 10], scale: [50, 50] });
    runtime.handle_message(RadiantMessage::AddRectangle { position: [30, 30], scale: [50, 50] });
    let response = runtime.handle_message(RadiantMessage::SelectNode { id: Some(0) });
    assert_eq!(selected(response), Some(0));
    assert!(runtime.scene().node(0).unwrap().selection().is_selected());
    assert!(!runtime.scene().node(1).unwrap().selection().is_selected());
    let response = runtime.handle_message(RadiantMessage::SelectNode { id: None });
    assert_eq!(selected(response), None);
    assert!(!runtime.scene().node(0).unwrap().selection().is_selected());
}

#[test]
fn add_image_asks_the_host_to_load_it() {
    let mut runtime = runtime();
    let response = runtime.handle_message(RadiantMessage::AddImage {
        name: "logo".to_string(),
        path: "images/logo.png".to_string(),
    });
    match response {
        Some(RadiantResponse::LoadImage { path }) => assert_eq!(path, "images/logo.png"),
        other => panic!("not a load: {:?}", other),
    }
    assert_eq!(runtime.scene().len(), 0);
    // Once loaded, the image becomes a node that is not selected.
    let response =
        runtime.handle_message(RadiantMessage::ImageLoaded { texture: TextureId::Managed(7) });
    assert!(response.is_none());
    let node = runtime.scene().node(0).unwrap();
    assert_eq!(node.texture(), Some(TextureId::Managed(7)));
    assert_eq!(node.transform().get_xy(), [100, 200]);
    assert_eq!(node.transform().get_scale(), [100, 100]);
    assert!(!node.selection().is_selected());
}

#[test]
fn add_text_adds_and_selects() {
    let mut runtime = runtime();
    let glyph = Glyph {
        pos: Vec2 { x: 0, y: 0 },
        size: Vec2 { x: 6, y: 9 },
        uv_min: Uv { u: 0, v: 0 },
        uv_max: Uv { u: 100, v: 100 },
    };
    let response =
        runtime.handle_message(RadiantMessage::AddText { glyphs: vec![glyph], position: [5, 6] });
    assert_eq!(selected(response), Some(0));
    let mut scene = runtime.into_scene();
    let frame = scene.build_frame(256);
    assert_eq!(frame.len(), 1);
    assert_eq!(frame[0].paint.vertices.len(), 4);
    assert_eq!(frame[0].paint.vertices[1].uv, Uv { u: 100, v: 0 });
    assert_eq!(scene.node(0).unwrap().transform().get_scale(), [100, 100]);
    assert_eq!(scene.hit_test([8, 10]), Some(0));
}

#[test]
fn scene_of_the_runtime_can_be_changed_in_place() {
    let mut runtime = runtime();
    runtime.handle_message(RadiantMessage::AddRectangle { position: [10, 10], scale: [50, 50] });
    assert_eq!(runtime.scene_mut().hit_test([20, 20]), Some(0));
    let frame = runtime.scene_mut().build_frame(256);
    assert_eq!(frame.len(), 1);
    assert!(!runtime.scene().node(0).unwrap().needs_tessellation());
}

#[test]
fn image_message_holds_name_and_path() {
    let message =
        RadiantImageMessage::AddImage { name: "a".to_string(), path: "b.png".to_string() };
    let RadiantImageMessage::AddImage { name, path } = message.clone();
    assert_eq!(name, "a");
    assert_eq!(path, "b.png");
}
