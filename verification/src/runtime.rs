//! The runtime: the scene and the requests of the host that change it.

use vstd::prelude::*;
use crate::geometry::ScreenDescriptor;
use crate::mesh::TextureId;
use crate::node::{Node, NodeView};
use crate::scene::{RadiantScene, SceneView};
use crate::tessellator::{Glyph, Shape, ShapeView, MAX_POINTS};

verus! {

/// A request of the host.
#[derive(Debug)]
pub enum RadiantMessage {
    /// Select the node of the given identity and no other.
    SelectNode { id: Option<u64> },
    /// Add a rectangle and select it.
    AddRectangle { position: [i32; 2], scale: [i32; 2] },
    /// Load the image at `path`; the host answers with `ImageLoaded`.
    AddImage { name: String, path: String },
    /// An image was loaded and registered as a texture: add a node that
    /// shows it.
    ImageLoaded { texture: TextureId },
    /// Add a text of shaped glyphs and select it.
    AddText { glyphs: Vec<Glyph>, position: [i32; 2] },
}

/// What the host has to do or know after a request.
#[derive(Debug)]
pub enum RadiantResponse {
    /// The selection is now the node of the given identity, or none.
    Selected { id: Option<u64> },
    /// Load the image at `path` and register it as a texture.
    LoadImage { path: String },
}

/// The runtime of one document.
pub struct RadiantRuntime {
    scene: RadiantScene,
}

/// Where an image node is placed.
pub open spec fn image_position() -> [i32; 2] {
    [100, 200]
}

/// The extent of an image node, and of a text node.
pub open spec fn default_scale() -> [i32; 2] {
    [100, 100]
}

impl SceneView {
    /// The scene with a new node of a shape on top, under the identity
    /// that the counter holds.
    pub open spec fn adding(self, shape: ShapeView, position: [i32; 2], scale: [i32; 2])
        -> SceneView {
        SceneView {
            nodes: self.nodes.push(NodeView::created(self.counter, shape, position, scale)),
            counter: (self.counter + 1) as u64,
            screen: self.screen,
        }
    }
}

impl View for RadiantRuntime {
    type V = SceneView;

    closed spec fn view(&self) -> SceneView {
        self.scene@
    }
}

impl RadiantRuntime {
    /// A runtime with an empty scene.
    pub fn new(screen_descriptor: ScreenDescriptor) -> (runtime: Self)
        ensures
            runtime@.nodes == Seq::<NodeView>::empty(),
            runtime@.counter == 0,
            runtime@.screen == screen_descriptor,
            runtime@.wf(),
    {
        RadiantRuntime { scene: RadiantScene::new(screen_descriptor) }
    }

    /// The scene.
    pub fn scene(&self) -> (scene: &RadiantScene)
        ensures
            scene@ == self@,
    {
        &self.scene
    }

    /// The scene, to be changed in place.
    pub fn scene_mut(&mut self) -> (scene: &mut RadiantScene)
        ensures
            scene@ == old(self)@,
            final(self)@ == final(scene)@,
    {
        &mut self.scene
    }

    /// The scene, given up by the runtime.
    pub fn into_scene(self) -> (scene: RadiantScene)
        ensures
            scene@ == self@,
    {
        self.scene
    }

    fn add_selected(&mut self, shape: Shape, position: [i32; 2], scale: [i32; 2]) -> (id: u64)
        requires
            old(self)@.wf(),
            old(self)@.counter < u64::MAX,
            shape@.wf(),
        ensures
            id == old(self)@.counter,
            final(self)@ == old(self)@.adding(shape@, position, scale).selecting(Some(id)),
            final(self)@.wf(),
    {
        let node = Node::new(self.scene.counter(), shape, position, scale);
        let id: u64 = self.scene.add(node);
        assert(self@ == old(self)@.adding(shape@, position, scale));
        self.scene.select(Some(id));
        id
    }

    /// Carries out a request of the host.
    pub fn handle_message(&mut self, message: RadiantMessage) -> (response: Option<
        RadiantResponse,
    >)
        requires
            old(self)@.wf(),
            old(self)@.counter < u64::MAX,
            message matches RadiantMessage::AddText { glyphs, .. } ==> glyphs@.len() <= MAX_POINTS,
        ensures
            final(self)@.wf(),
            match message {
                RadiantMessage::SelectNode { id } => {
                    &&& final(self)@ == old(self)@.selecting(id)
                    &&& response == Some(RadiantResponse::Selected { id })
                },
                RadiantMessage::AddRectangle { position, scale } => {
                    &&& final(self)@ == old(self)@.adding(
                        ShapeView::Rectangle,
                        position,
                        scale,
                    ).selecting(Some(old(self)@.counter))
                    &&& response == Some(RadiantResponse::Selected { id: Some(old(self)@.counter) })
                },
                RadiantMessage::AddImage { name, path } => {
                    &&& final(self)@ == old(self)@
                    &&& response matches Some(RadiantResponse::LoadImage { path: asked })
                    &&& asked@ == path@
                },
                RadiantMessage::ImageLoaded { texture } => {
                    &&& final(self)@ == old(self)@.adding(
                        ShapeView::Image { texture },
                        image_position(),
                        default_scale(),
                    )
                    &&& response is None
                },
                RadiantMessage::AddText { glyphs, position } => {
                    &&& final(self)@ == old(self)@.adding(
                        ShapeView::Text { glyphs: glyphs@ },
                        position,
                        default_scale(),
                    ).selecting(Some(old(self)@.counter))
                    &&& response == Some(RadiantResponse::Selected { id: Some(old(self)@.counter) })
                },
            },
    {
        match message {
            RadiantMessage::SelectNode { id } => {
                self.scene.select(id);
                Some(RadiantResponse::Selected { id })
            },
            RadiantMessage::AddRectangle { position, scale } => {
                let id: u64 = self.add_selected(Shape::Rectangle, position, scale);
                Some(RadiantResponse::Selected { id: Some(id) })
            },
            RadiantMessage::AddImage { name, path } => Some(RadiantResponse::LoadImage { path }),
            RadiantMessage::ImageLoaded { texture } => {
                let node = Node::new(
                    self.scene.counter(),
                    Shape::Image { texture },
                    [100, 200],
                    [100, 100],
                );
                self.scene.add(node);
                None
            },
            RadiantMessage::AddText { glyphs, position } => {
                let id: u64 = self.add_selected(Shape::Text { glyphs }, position, [100, 100]);
                Some(RadiantResponse::Selected { id: Some(id) })
            },
        }
    }
}

} // verus!
