//! A node of the scene: a shape with its transform and selection state,
//! and the two meshes cached from them.

use vstd::prelude::*;
use crate::components::selection::SelectionComponent;
use crate::components::transform::{TransformComponent, TransformMessage, TransformView};
use crate::geometry::{logical_rect, Point, Rect};
use crate::mesh::{extent_of, in_reach, no_texture, Mesh, MeshView, TextureId};
use crate::tessellator::{
    lemma_mesh_of_color, selected_color, tessellate, tessellation, Shape,
    ShapeView, Style, Vec2, PICK_LINE_WIDTH,
};
use crate::color::{lemma_pick_round_trip, pick_color_of, pick_id_of, PICK_SPACE};

verus! {

/// A node. Its meshes are rebuilt only when something that they depend on
/// has changed and they are next asked for.
#[derive(Debug)]
pub struct Node {
    id: u64,
    shape: Shape,
    transform: TransformComponent,
    selection: SelectionComponent,
    primitives: Mesh,
    selection_primitives: Mesh,
    needs_tessellation: bool,
    bounding_rect: Rect,
    pixels_per_point: u16,
}

/// What a node holds.
pub struct NodeView {
    pub id: u64,
    pub shape: ShapeView,
    pub transform: TransformView,
    pub selected: bool,
    /// The cached paint mesh.
    pub paint: MeshView,
    /// The cached pick mesh.
    pub pick: MeshView,
    /// Whether the cached meshes are stale.
    pub dirty: bool,
    /// The cached bounding box, in logical points.
    pub bounding_rect: Rect,
    /// The pixel scale that the meshes were last built at.
    pub scale: u16,
}

/// The bounding box of a paint mesh in logical points: its extent brought
/// back from device space, or the empty rectangle at the origin where the
/// mesh has no vertex or the scale is zero.
pub open spec fn bounds_of(paint: MeshView, scale: u16) -> Rect {
    if paint.vertices.len() == 0 || scale == 0 {
        Rect::zero_spec()
    } else {
        logical_rect(extent_of(paint.vertices), scale)
    }
}

impl NodeView {
    /// The node as it is created: not selected, unturned, its scale raised
    /// to the least size, with empty meshes that are marked stale.
    pub open spec fn created(id: u64, shape: ShapeView, position: [i32; 2], scale: [i32; 2])
        -> NodeView {
        NodeView {
            id,
            shape,
            transform: TransformView {
                position: Vec2 { x: 0, y: 0 },
                scale: Vec2 { x: 0, y: 0 },
                rotation: 0,
            }.after(TransformMessage::SetXY(position)).after(TransformMessage::SetScale(scale)),
            selected: false,
            paint: MeshView::empty(shape.texture()),
            pick: MeshView::empty(no_texture()),
            dirty: true,
            bounding_rect: Rect::zero_spec(),
            scale: 256,
        }
    }

    /// The style of the node, which follows from its selection state.
    pub open spec fn style(self) -> Style {
        self.shape.style(self.selected)
    }

    /// The paint mesh and the pick mesh that the node's state gives at a
    /// pixel scale.
    pub open spec fn tessellated(self, scale: u16) -> (MeshView, MeshView) {
        tessellation(
            self.shape,
            self.transform.position,
            self.transform.scale,
            self.style(),
            self.id,
            scale,
        )
    }

    /// Whether the cache holds what the node's state gives at the scale it
    /// was built at.
    pub open spec fn fresh(self) -> bool {
        &&& (self.paint, self.pick) == self.tessellated(self.scale)
        &&& self.bounding_rect == bounds_of(self.paint, self.scale)
    }

    /// Whether the node is valid: its shape can be tessellated, its scale
    /// is at least the least size, its meshes are well formed, and unless
    /// it is marked stale its cache is fresh.
    pub open spec fn wf(self) -> bool {
        &&& self.shape.wf()
        &&& self.transform.wf()
        &&& self.paint.wf()
        &&& self.pick.wf()
        &&& !self.dirty ==> self.fresh()
    }

    /// The node with the selection state asked for: unchanged where it has
    /// it already, else changed and marked stale.
    pub open spec fn selecting(self, selected: bool) -> NodeView {
        if self.selected == selected {
            self
        } else {
            NodeView { selected, dirty: true, ..self }
        }
    }

    /// The node with another transform and selection state.
    pub open spec fn with_state(self, transform: TransformView, selected: bool) -> NodeView {
        NodeView { transform, selected, ..self }
    }

    /// The node without its meshes, marked stale.
    pub open spec fn detached(self) -> NodeView {
        NodeView {
            paint: MeshView::empty(self.paint.texture_id),
            pick: MeshView::empty(self.pick.texture_id),
            dirty: true,
            ..self
        }
    }

    /// The node with its cache marked stale.
    pub open spec fn stale(self) -> NodeView {
        NodeView { dirty: true, ..self }
    }

    /// The node after its meshes were asked for at a pixel scale: as it
    /// was if the cache was not stale, else with the cache rebuilt.
    pub open spec fn ensured(self, scale: u16) -> NodeView {
        if self.dirty {
            NodeView {
                paint: self.tessellated(scale).0,
                pick: self.tessellated(scale).1,
                dirty: false,
                bounding_rect: bounds_of(self.tessellated(scale).0, scale),
                scale,
                ..self
            }
        } else {
            self
        }
    }
}

impl View for Node {
    type V = NodeView;

    closed spec fn view(&self) -> NodeView {
        NodeView {
            id: self.id,
            shape: self.shape@,
            transform: self.transform@,
            selected: self.selection@,
            paint: self.primitives@,
            pick: self.selection_primitives@,
            dirty: self.needs_tessellation,
            bounding_rect: self.bounding_rect,
            scale: self.pixels_per_point,
        }
    }
}

impl Node {
    /// A node of the given shape at a position, of a scale.
    pub fn new(id: u64, shape: Shape, position: [i32; 2], scale: [i32; 2]) -> (node: Node)
        requires
            shape@.wf(),
        ensures
            node@ == NodeView::created(id, shape@, position, scale),
            node@.wf(),
    {
        let mut transform = TransformComponent::new();
        transform.set_xy(&position);
        transform.set_scale(&scale);
        let texture = match &shape {
            Shape::Image { texture } => *texture,
            _ => TextureId::Managed(0),
        };
        Node {
            id,
            shape,
            transform,
            selection: SelectionComponent::new(),
            primitives: Mesh::new(texture),
            selection_primitives: Mesh::new(TextureId::Managed(0)),
            needs_tessellation: true,
            bounding_rect: Rect::zero(),
            pixels_per_point: 256,
        }
    }

    /// The identity of the node.
    pub fn get_id(&self) -> (id: u64)
        ensures
            id == self@.id,
    {
        self.id
    }

    /// Gives the node another identity. The pick mesh encodes the
    /// identity, so the cache becomes stale.
    pub fn set_id(&mut self, id: u64)
        ensures
            final(self)@ == (NodeView { id, dirty: true, ..old(self)@ }),
    {
        self.id = id;
        self.needs_tessellation = true;
    }

    /// The transform of the node.
    pub fn transform(&self) -> (transform: &TransformComponent)
        ensures
            transform@ == self@.transform,
    {
        &self.transform
    }

    /// The selection state of the node.
    pub fn selection(&self) -> (selection: &SelectionComponent)
        ensures
            selection@ == self@.selected,
    {
        &self.selection
    }

    /// The shape of the node.
    pub fn shape(&self) -> (shape: &Shape)
        ensures
            shape@ == self@.shape,
    {
        &self.shape
    }

    /// The texture that the node's shape refers to, if it does: the node
    /// does not own it.
    pub fn texture(&self) -> (texture: Option<TextureId>)
        ensures
            texture == (match self@.shape {
                ShapeView::Image { texture } => Some(texture),
                _ => None,
            }),
    {
        match &self.shape {
            Shape::Image { texture } => Some(*texture),
            _ => None,
        }
    }

    /// Whether the cached meshes are stale.
    pub fn needs_tessellation(&self) -> (dirty: bool)
        ensures
            dirty == self@.dirty,
    {
        self.needs_tessellation
    }

    /// The cached bounding box, in logical points.
    pub fn get_bounding_rect(&self) -> (rect: Rect)
        ensures
            rect == self@.bounding_rect,
    {
        self.bounding_rect
    }

    /// Marks the cache stale.
    pub fn set_needs_tessellation(&mut self)
        ensures
            final(self)@ == old(self)@.stale(),
    {
        self.needs_tessellation = true;
    }

    /// Moves, resizes or turns the node, and marks the cache stale.
    pub fn set_transform(&mut self, message: TransformMessage)
        requires
            old(self)@.transform.accepts(message),
        ensures
            final(self)@ == (NodeView {
                transform: old(self)@.transform.after(message),
                dirty: true,
                ..old(self)@
            }),
            old(self)@.wf() ==> final(self)@.wf(),
    {
        self.transform.handle_message(message);
        self.needs_tessellation = true;
    }

    /// Selects the node or clears its selection, and marks the cache
    /// stale, as the style follows from the selection state.
    pub fn set_selected(&mut self, selected: bool)
        ensures
            final(self)@ == (NodeView { selected, dirty: true, ..old(self)@ }),
            old(self)@.wf() ==> final(self)@.wf(),
    {
        self.selection.set_selected(selected);
        self.needs_tessellation = true;
    }

    /// Rebuilds the cached meshes and the bounding box if they are stale,
    /// and does nothing if they are not.
    pub fn ensure_tessellated(&mut self, scale: u16)
        requires
            old(self)@.wf(),
        ensures
            final(self)@ == old(self)@.ensured(scale),
            final(self)@.wf(),
            !final(self)@.dirty,
    {
        if !self.needs_tessellation {
            return;
        }
        let origin = Vec2 { x: self.transform.get_xy()[0], y: self.transform.get_xy()[1] };
        let size = Vec2 { x: self.transform.get_scale()[0], y: self.transform.get_scale()[1] };
        let style = Style::for_selection(&self.shape, self.selection.is_selected());
        let (paint, pick) = tessellate(&self.shape, origin, size, style, self.id, scale);
        let rect = match paint.extent() {
            Some(extent) => if scale == 0 {
                Rect::zero()
            } else {
                extent.to_logical(scale)
            },
            None => Rect::zero(),
        };
        self.primitives = paint;
        self.selection_primitives = pick;
        self.bounding_rect = rect;
        self.pixels_per_point = scale;
        self.needs_tessellation = false;
    }

    /// A copy of the paint mesh, or of the pick mesh, at a pixel scale.
    /// The cache is rebuilt first if it is stale, so the copy is never
    /// stale.
    pub fn meshes(&mut self, want_pick: bool, scale: u16) -> (mesh: Mesh)
        requires
            old(self)@.wf(),
        ensures
            final(self)@ == old(self)@.ensured(scale),
            final(self)@.wf(),
            mesh@ == (if want_pick {
                final(self)@.pick
            } else {
                final(self)@.paint
            }),
            mesh@.wf(),
    {
        self.ensure_tessellated(scale);
        if want_pick {
            self.selection_primitives.duplicate()
        } else {
            self.primitives.duplicate()
        }
    }

    /// The cached paint mesh.
    pub fn paint_mesh(&self) -> (mesh: &Mesh)
        ensures
            mesh@ == self@.paint,
    {
        &self.primitives
    }

    /// The cached pick mesh.
    pub fn pick_mesh(&self) -> (mesh: &Mesh)
        ensures
            mesh@ == self@.pick,
    {
        &self.selection_primitives
    }

    /// Drops the cached meshes and marks the cache stale.
    pub fn detach(&mut self)
        ensures
            final(self)@ == old(self)@.detached(),
            old(self)@.wf() ==> final(self)@.wf(),
    {
        self.primitives = Mesh::new(self.primitives.texture_id);
        self.selection_primitives = Mesh::new(self.selection_primitives.texture_id);
        self.needs_tessellation = true;
    }

    /// Decides whether the cached pick mesh holds a point of device space.
    pub fn covers(&self, p: Point) -> (hit: bool)
        requires
            self@.wf(),
            in_reach(p),
        ensures
            hit == self@.pick.covers(p),
    {
        self.selection_primitives.covers(p)
    }
}

/// The meshes that a node's state gives are in the node's colours: the
/// paint mesh in the colour of its selection state, the pick mesh in the
/// colour that packs its identity.
pub proof fn lemma_tessellated_colors(node: NodeView, scale: u16)
    ensures
        node.tessellated(scale).0.has_color(node.style().color),
        node.tessellated(scale).1.has_color(pick_color_of(node.id)),
{
    lemma_mesh_of_color(
        node.shape.outline(
            node.transform.position,
            node.transform.scale,
            node.style().stroke_width,
            scale,
        ),
        node.style().color,
        node.shape.texture(),
        false,
    );
    lemma_mesh_of_color(
        node.shape.outline(node.transform.position, node.transform.scale, PICK_LINE_WIDTH, scale),
        pick_color_of(node.id),
        no_texture(),
        true,
    );
}

/// Selection law. Selecting a node that was not selected leaves its cache
/// stale; the cache is fresh again once the meshes are next asked for, and
/// the paint mesh is then in the selected colour, which is not the colour
/// it would have had.
pub proof fn lemma_selection_recolors(node: NodeView, scale: u16)
    requires
        !node.selected,
    ensures
        ({
            let selected = NodeView { selected: true, dirty: true, ..node };
            &&& selected.dirty
            &&& !selected.ensured(scale).dirty
            &&& selected.ensured(scale).paint.has_color(selected_color())
            &&& node.stale().ensured(scale).paint.has_color(node.shape.unselected_color())
            &&& selected_color() != node.shape.unselected_color()
        }),
{
    lemma_tessellated_colors(NodeView { selected: true, dirty: true, ..node }, scale);
    lemma_tessellated_colors(node.stale(), scale);
}

/// Pick law. Every vertex of a node's pick mesh has a colour that decodes
/// back to the node's identity, for every identity that leaves room for
/// the background code in 24 bits.
pub proof fn lemma_pick_mesh_decodes(node: NodeView, scale: u16, i: int)
    requires
        node.id <= PICK_SPACE - 2,
        0 <= i < node.tessellated(scale).1.vertices.len(),
    ensures
        pick_id_of(node.tessellated(scale).1.vertices[i].color) == Some(node.id),
{
    lemma_tessellated_colors(node, scale);
    lemma_pick_round_trip(node.id);
}

} // verus!
