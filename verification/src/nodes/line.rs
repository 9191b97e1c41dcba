//! The line node.

use vstd::prelude::*;
use crate::components::selection::SelectionComponent;
use crate::components::transform::{TransformComponent, MIN_SIZE};
use crate::geometry::{Rect, ScreenDescriptor};
use crate::mesh::ClippedPrimitive;
use crate::node::{Node, NodeView};
use crate::scene::RadiantScene;
use crate::tessellator::{Shape, ShapeView, Vec2};

verus! {

/// A straight line between two points.
#[derive(Debug)]
pub struct RadiantLineNode {
    node: Node,
}

/// The shape of a line that starts at the node's position: its end,
/// relative to its start.
pub open spec fn line_shape(start: [i32; 2], end: [i32; 2]) -> ShapeView {
    ShapeView::Line {
        start: Vec2 { x: 0, y: 0 },
        end: Vec2 { x: (end[0] - start[0]) as i32, y: (end[1] - start[1]) as i32 },
    }
}

/// Whether a line's extent on each axis is within the range of a
/// coordinate.
pub open spec fn line_fits(start: [i32; 2], end: [i32; 2]) -> bool {
    &&& i32::MIN <= end[0] - start[0] <= i32::MAX
    &&& i32::MIN <= end[1] - start[1] <= i32::MAX
}

impl View for RadiantLineNode {
    type V = NodeView;

    closed spec fn view(&self) -> NodeView {
        self.node@
    }
}

impl RadiantLineNode {
    /// A line from `start` to `end`. The node's position is the start.
    pub fn new(id: u64, start: [i32; 2], end: [i32; 2]) -> (line: Self)
        requires
            line_fits(start, end),
        ensures
            line@ == NodeView::created(id, line_shape(start, end), start, [MIN_SIZE, MIN_SIZE]),
            line@.wf(),
    {
        let shape = Shape::Line {
            start: Vec2 { x: 0, y: 0 },
            end: Vec2 { x: end[0] - start[0], y: end[1] - start[1] },
        };
        RadiantLineNode { node: Node::new(id, shape, start, [MIN_SIZE, MIN_SIZE]) }
    }

    /// Decides `line_fits`.
    pub fn fits(start: [i32; 2], end: [i32; 2]) -> (ok: bool)
        ensures
            ok == line_fits(start, end),
    {
        let dx: i64 = end[0] as i64 - start[0] as i64;
        let dy: i64 = end[1] as i64 - start[1] as i64;
        i32::MIN as i64 <= dx && dx <= i32::MAX as i64 && i32::MIN as i64 <= dy && dy
            <= i32::MAX as i64
    }

    /// Builds the meshes for the scene's screen, if they are stale.
    pub fn attach_to_scene(&mut self, scene: &RadiantScene)
        requires
            old(self)@.wf(),
        ensures
            final(self)@ == old(self)@.ensured(scene@.screen.pixels_per_point),
            final(self)@.wf(),
    {
        self.node.ensure_tessellated(scene.screen_descriptor().pixels_per_point);
    }

    /// Drops the cached meshes.
    pub fn detach(&mut self)
        ensures
            final(self)@ == old(self)@.detached(),
            old(self)@.wf() ==> final(self)@.wf(),
    {
        self.node.detach();
    }

    /// Marks the cache stale.
    pub fn set_needs_tessellation(&mut self)
        ensures
            final(self)@ == old(self)@.stale(),
    {
        self.node.set_needs_tessellation();
    }

    /// The pick mesh, or the paint mesh, for a screen: rebuilt first if
    /// stale, and handed out as a copy that is clipped by nothing. A mesh
    /// without triangles gives no primitive.
    pub fn tessellate(&mut self, selection: bool, screen_descriptor: &ScreenDescriptor) -> (primitives:
        Vec<ClippedPrimitive>)
        requires
            old(self)@.wf(),
        ensures
            final(self)@ == old(self)@.ensured(screen_descriptor.pixels_per_point),
            final(self)@.wf(),
            ({
                let mesh = if selection {
                    final(self)@.pick
                } else {
                    final(self)@.paint
                };
                if mesh.is_empty() {
                    primitives@.len() == 0
                } else {
                    &&& primitives@.len() == 1
                    &&& primitives@[0].mesh@ == mesh
                    &&& primitives@[0].clip_rect == Rect::everything_spec()
                }
            }),
    {
        let mesh = self.node.meshes(selection, screen_descriptor.pixels_per_point);
        let mut primitives: Vec<ClippedPrimitive> = Vec::new();
        if !mesh.is_empty() {
            primitives.push(ClippedPrimitive { clip_rect: Rect::everything(), mesh });
        }
        primitives
    }

    /// The identity of the node.
    pub fn get_id(&self) -> (id: u64)
        ensures
            id == self@.id,
    {
        self.node.get_id()
    }

    /// Gives the node another identity, and marks the cache stale.
    pub fn set_id(&mut self, id: u64)
        ensures
            final(self)@ == (NodeView { id, dirty: true, ..old(self)@ }),
    {
        self.node.set_id(id);
    }

    /// The cached bounding box, in logical points.
    pub fn get_bounding_rect(&self) -> (rect: Rect)
        ensures
            rect == self@.bounding_rect,
    {
        self.node.get_bounding_rect()
    }

    /// The transform of the node.
    pub fn transform(&self) -> (transform: &TransformComponent)
        ensures
            transform@ == self@.transform,
    {
        self.node.transform()
    }

    /// The selection state of the node.
    pub fn selection(&self) -> (selection: &SelectionComponent)
        ensures
            selection@ == self@.selected,
    {
        self.node.selection()
    }

    /// The node that the scene would hold.
    pub fn as_node(&self) -> (node: &Node)
        ensures
            node@ == self@,
    {
        &self.node
    }

    /// The node, to be added to a scene.
    pub fn into_node(self) -> (node: Node)
        ensures
            node@ == self@,
    {
        self.node
    }
}

} // verus!
