//! The path node.

use vstd::prelude::*;
use crate::components::selection::SelectionMessage;
use crate::components::transform::{TransformMessage, MIN_SIZE};
use crate::node::{Node, NodeView};
use crate::scene::RadiantScene;
use crate::tessellator::{Shape, ShapeView, Vec2};

verus! {

/// A request to a path node.
#[derive(Clone, Copy, Debug)]
pub enum RadiantPathMessage {
    Transform(TransformMessage),
    Selection(SelectionMessage),
}

/// A filled diamond, 400 points across and 400 high, whose top corner is at
/// the node's position.
#[derive(Debug)]
pub struct RadiantPathNode {
    node: Node,
    pixels_per_point: u16,
}

/// The control points of the diamond, from its top corner clockwise on a
/// screen whose y axis points down.
pub open spec fn diamond() -> ShapeView {
    ShapeView::Path {
        points: seq![
            Vec2 { x: 0, y: 0 },
            Vec2 { x: 200, y: 200 },
            Vec2 { x: 0, y: 400 },
            Vec2 { x: (-200) as i32, y: 200 },
        ],
        convex: true,
    }
}

impl View for RadiantPathNode {
    type V = NodeView;

    closed spec fn view(&self) -> NodeView {
        self.node@
    }
}

impl Clone for RadiantPathNode {
    /// A copy with the same identity, transform and selection state, and
    /// without the meshes: its cache is stale, for a screen of one pixel
    /// per point.
    fn clone(&self) -> (copy: Self)
        ensures
            copy@ == NodeView::created(self@.id, diamond(), [0, 0], [MIN_SIZE, MIN_SIZE]).with_state(
                self@.transform.after(
                    TransformMessage::SetScale([self@.transform.scale.x, self@.transform.scale.y]),
                ),
                self@.selected,
            ),
            self@.transform.wf() ==> copy@.transform == self@.transform,
            copy@.wf(),
            copy.scale() == 256,
    {
        let transform = self.node.transform();
        let mut copy = RadiantPathNode::new(self.node.get_id(), transform.get_xy());
        copy.node.set_transform(TransformMessage::SetScale(transform.get_scale()));
        copy.node.set_transform(TransformMessage::SetRotation(transform.get_rotation()));
        copy.node.set_selected(self.node.selection().is_selected());
        copy
    }
}

impl RadiantPathNode {
    /// The pixel scale that the node builds its meshes at.
    pub closed spec fn scale(&self) -> u16 {
        self.pixels_per_point
    }

    /// A diamond at a position, for a screen of one pixel per point.
    pub fn new(id: u64, position: [i32; 2]) -> (path: Self)
        ensures
            path@ == NodeView::created(id, diamond(), position, [MIN_SIZE, MIN_SIZE]),
            path@.wf(),
            path.scale() == 256,
    {
        let left: i32 = -200;
        let points = vec![
            Vec2 { x: 0, y: 0 },
            Vec2 { x: 200, y: 200 },
            Vec2 { x: 0, y: 400 },
            Vec2 { x: left, y: 200 },
        ];
        let shape = Shape::Path { points, convex: true };
        assert(shape@ =~= diamond()) by {
            assert(points@ =~= diamond()->Path_points);
        }
        RadiantPathNode {
            node: Node::new(id, shape, position, [MIN_SIZE, MIN_SIZE]),
            pixels_per_point: 256,
        }
    }

    /// The identity of the node.
    pub fn get_id(&self) -> (id: u64)
        ensures
            id == self@.id,
    {
        self.node.get_id()
    }

    /// Selects the node or clears its selection, and rebuilds the meshes
    /// at once, so that the change shows.
    pub fn set_selected(&mut self, selected: bool)
        requires
            old(self)@.wf(),
        ensures
            final(self)@ == (NodeView { selected, dirty: true, ..old(self)@ }).ensured(
                old(self).scale(),
            ),
            final(self)@.wf(),
            final(self).scale() == old(self).scale(),
    {
        self.node.set_selected(selected);
        self.node.ensure_tessellated(self.pixels_per_point);
    }

    /// Takes the pixel scale of the scene's screen and rebuilds the meshes
    /// at it.
    pub fn attach_to_scene(&mut self, scene: &RadiantScene)
        requires
            old(self)@.wf(),
        ensures
            final(self)@ == old(self)@.stale().ensured(scene@.screen.pixels_per_point),
            final(self)@.wf(),
            final(self).scale() == scene@.screen.pixels_per_point,
    {
        self.pixels_per_point = scene.screen_descriptor().pixels_per_point;
        self.node.set_needs_tessellation();
        self.node.ensure_tessellated(self.pixels_per_point);
    }

    /// Drops the cached meshes.
    pub fn detach(&mut self)
        ensures
            final(self)@ == old(self)@.detached(),
            old(self)@.wf() ==> final(self)@.wf(),
            final(self).scale() == old(self).scale(),
    {
        self.node.detach();
    }

    /// Carries out a request, and rebuilds the meshes at once.
    pub fn handle_message(&mut self, message: RadiantPathMessage)
        requires
            old(self)@.wf(),
            message matches RadiantPathMessage::Transform(m) ==> old(self)@.transform.accepts(m),
        ensures
            final(self)@ == (match message {
                RadiantPathMessage::Transform(m) => NodeView {
                    transform: old(self)@.transform.after(m),
                    dirty: true,
                    ..old(self)@
                },
                RadiantPathMessage::Selection(SelectionMessage::SetSelected(selected)) => NodeView {
                    selected,
                    dirty: true,
                    ..old(self)@
                },
            }).ensured(old(self).scale()),
            final(self)@.wf(),
            final(self).scale() == old(self).scale(),
    {
        match message {
            RadiantPathMessage::Transform(m) => {
                self.node.set_transform(m);
            },
            RadiantPathMessage::Selection(m) => {
                match m {
                    SelectionMessage::SetSelected(selected) => {
                        self.node.set_selected(selected);
                    },
                }
            },
        }
        self.node.ensure_tessellated(self.pixels_per_point);
    }

    /// The node that the scene would hold.
    pub fn as_node(&self) -> (node: &Node)
        ensures
            node@ == self@,
    {
        &self.node
    }

    /// The node, to be added to a scene.
    pub fn into_node(self) -> (node: Node)
        ensures
            node@ == self@,
    {
        self.node
    }
}

} // verus!
