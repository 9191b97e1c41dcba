//! The scene graph: the nodes in paint order, and what to draw this frame.

use vstd::prelude::*;
use crate::components::transform::TransformMessage;
use crate::error::RadiantError;
use crate::geometry::{Point, Rect, ScreenDescriptor};
use crate::mesh::{ClippedPrimitive, Mesh, TextureId};
use crate::tessellator::ShapeView;
use crate::node::{Node, NodeView};

verus! {

/// The scene graph. Nodes are painted in the order they are held in, so a
/// later node lies on top of an earlier one.
pub struct RadiantScene {
    nodes: Vec<Node>,
    counter: u64,
    screen_descriptor: ScreenDescriptor,
}

/// What a scene holds.
pub struct SceneView {
    /// The nodes in paint order.
    pub nodes: Seq<NodeView>,
    /// The identity counter: above every identity that the scene has held.
    pub counter: u64,
    /// The current screen.
    pub screen: ScreenDescriptor,
}

/// What one node contributes to a frame.
#[derive(Debug)]
pub struct FrameEntry {
    pub id: u64,
    pub paint: Mesh,
    pub pick: Mesh,
    /// The rectangle that the node's draw is clipped to, in logical points:
    /// the node's bounding box.
    pub clip_rect: Rect,
}

/// A point of the screen, given in whole device pixels, in device space.
pub open spec fn pixel_point(point: [i32; 2]) -> Point {
    Point { x: (point[0] * 256) as i64, y: (point[1] * 256) as i64 }
}

impl SceneView {
    /// Whether the scene is valid: every node is valid and below the
    /// counter, no identity occurs twice, and every cache that is not
    /// stale was built at the screen's pixel scale.
    pub open spec fn wf(self) -> bool {
        &&& forall|i: int| 0 <= i < self.nodes.len() ==> (#[trigger] self.nodes[i]).wf()
        &&& forall|i: int| 0 <= i < self.nodes.len() ==> (#[trigger] self.nodes[i]).id < self.counter
        &&& forall|i: int, j: int|
            0 <= i < j < self.nodes.len() ==> (#[trigger] self.nodes[i]).id != (
            #[trigger] self.nodes[j]).id
        &&& forall|i: int|
            0 <= i < self.nodes.len() ==> (#[trigger] self.nodes[i]).dirty || self.nodes[i].scale
                == self.screen.pixels_per_point
    }

    /// Whether the scene holds a node of the given identity.
    pub open spec fn contains(self, id: u64) -> bool {
        exists|i: int| 0 <= i < self.nodes.len() && (#[trigger] self.nodes[i]).id == id
    }

    /// The place in paint order of the node of the given identity.
    pub open spec fn index_of(self, id: u64) -> int {
        choose|i: int| 0 <= i < self.nodes.len() && (#[trigger] self.nodes[i]).id == id
    }

    /// The scene with another node at place `i`.
    pub open spec fn with_node(self, i: int, node: NodeView) -> SceneView {
        SceneView { nodes: self.nodes.update(i, node), ..self }
    }

    /// Whether some node shows the given texture.
    pub open spec fn references(self, texture: TextureId) -> bool {
        exists|i: int|
            0 <= i < self.nodes.len() && (#[trigger] self.nodes[i]).shape == (ShapeView::Image {
                texture,
            })
    }

    /// Whether node `i` is the topmost node whose pick mesh holds `p`.
    pub open spec fn topmost_at(self, i: int, p: Point) -> bool {
        &&& 0 <= i < self.nodes.len()
        &&& self.nodes[i].pick.covers(p)
        &&& forall|j: int| i < j < self.nodes.len() ==> !(#[trigger] self.nodes[j]).pick.covers(p)
    }

    /// The identity of the topmost node whose pick mesh holds `p`, or none
    /// where no node's does.
    pub open spec fn hit(self, p: Point) -> Option<u64> {
        if exists|i: int| self.topmost_at(i, p) {
            Some(self.nodes[choose|i: int| self.topmost_at(i, p)].id)
        } else {
            None
        }
    }

    /// The scene with the node of the given identity selected, if there is
    /// one, and no other.
    pub open spec fn selecting(self, id: Option<u64>) -> SceneView {
        SceneView {
            nodes: Seq::new(
                self.nodes.len(),
                |i: int| self.nodes[i].selecting(id == Some(self.nodes[i].id)),
            ),
            ..self
        }
    }

    /// The scene with every cache marked stale.
    pub open spec fn all_stale(self) -> SceneView {
        SceneView { nodes: Seq::new(self.nodes.len(), |i: int| self.nodes[i].stale()), ..self }
    }

    /// The scene shown at a pixel scale: where the scale differs from the
    /// screen's, the screen takes it and every cache becomes stale.
    pub open spec fn rescaled(self, scale: u16) -> SceneView {
        if scale == self.screen.pixels_per_point {
            self
        } else {
            SceneView {
                nodes: self.all_stale().nodes,
                screen: ScreenDescriptor {
                    size_in_pixels: self.screen.size_in_pixels,
                    pixels_per_point: scale,
                },
                ..self
            }
        }
    }

    /// The scene with every stale cache rebuilt at the screen's scale.
    pub open spec fn all_ensured(self) -> SceneView {
        SceneView {
            nodes: Seq::new(
                self.nodes.len(),
                |i: int| self.nodes[i].ensured(self.screen.pixels_per_point),
            ),
            ..self
        }
    }
}

impl View for RadiantScene {
    type V = SceneView;

    closed spec fn view(&self) -> SceneView {
        SceneView {
            nodes: Seq::new(self.nodes@.len(), |i: int| self.nodes@[i]@),
            counter: self.counter,
            screen: self.screen_descriptor,
        }
    }
}

impl RadiantScene {
    /// A scene without nodes.
    pub fn new(screen_descriptor: ScreenDescriptor) -> (scene: Self)
        ensures
            scene@.nodes == Seq::<NodeView>::empty(),
            scene@.counter == 0,
            scene@.screen == screen_descriptor,
            scene@.wf(),
    {
        let scene = RadiantScene { nodes: Vec::new(), counter: 0, screen_descriptor };
        assert(scene@.nodes =~= Seq::<NodeView>::empty());
        scene
    }

    /// The number of nodes.
    pub fn len(&self) -> (n: usize)
        ensures
            n == self@.nodes.len(),
    {
        self.nodes.len()
    }

    /// The identity counter.
    pub fn counter(&self) -> (counter: u64)
        ensures
            counter == self@.counter,
    {
        self.counter
    }

    /// The current screen.
    pub fn screen_descriptor(&self) -> (screen: ScreenDescriptor)
        ensures
            screen == self@.screen,
    {
        self.screen_descriptor
    }

    fn find(&self, id: u64) -> (found: Option<usize>)
        ensures
            match found {
                Some(i) => i < self@.nodes.len() && self@.nodes[i as int].id == id,
                None => !self@.contains(id),
            },
    {
        let mut i: usize = 0;
        while i < self.nodes.len()
            invariant
                i <= self.nodes.len(),
                forall|k: int| 0 <= k < i ==> (#[trigger] self@.nodes[k]).id != id,
            decreases self.nodes.len() - i,
        {
            if self.nodes[i].get_id() == id {
                return Some(i);
            }
            i += 1;
        }
        None
    }

    /// The node of the given identity, if the scene holds it.
    pub fn node(&self, id: u64) -> (node: Option<&Node>)
        ensures
            match node {
                Some(n) => n@.id == id && exists|i: int|
                    0 <= i < self@.nodes.len() && #[trigger] self@.nodes[i] == n@,
                None => !self@.contains(id),
            },
    {
        match self.find(id) {
            Some(i) => {
                let n = &self.nodes[i];
                assert(self@.nodes[i as int] == n@);
                Some(n)
            },
            None => None,
        }
    }

    /// Whether some node shows the given texture: while one does, the
    /// texture must stay registered.
    pub fn references_texture(&self, texture: TextureId) -> (used: bool)
        ensures
            used == self@.references(texture),
    {
        let mut i: usize = 0;
        while i < self.nodes.len()
            invariant
                i <= self.nodes.len(),
                forall|k: int|
                    0 <= k < i ==> (#[trigger] self@.nodes[k]).shape != (ShapeView::Image {
                        texture,
                    }),
            decreases self.nodes.len() - i,
        {
            let node = &self.nodes[i];
            assert(self@.nodes[i as int] == node@);
            match node.texture() {
                Some(shown) => {
                    if shown == texture {
                        return true;
                    }
                },
                None => {},
            }
            i += 1;
        }
        false
    }

    /// Appends a node to the paint order and returns its identity. The
    /// node keeps the identity it came with where the scene has never
    /// reached it; else it gets the counter's. The counter moves past the
    /// identity, and the node's cache is marked stale.
    pub fn add(&mut self, node: Node) -> (id: u64)
        requires
            old(self)@.wf(),
            node@.wf(),
            node@.id < u64::MAX,
            old(self)@.counter < u64::MAX,
        ensures
            id == (if node@.id >= old(self)@.counter {
                node@.id
            } else {
                old(self)@.counter
            }),
            final(self)@ == (SceneView {
                nodes: old(self)@.nodes.push(NodeView { id, dirty: true, ..node@ }),
                counter: (id + 1) as u64,
                screen: old(self)@.screen,
            }),
            !old(self)@.contains(id),
            final(self)@.wf(),
    {
        let mut node = node;
        let id: u64 = if node.get_id() >= self.counter {
            node.get_id()
        } else {
            self.counter
        };
        node.set_id(id);
        self.nodes.push(node);
        self.counter = id + 1;
        assert(self@.nodes =~= old(self)@.nodes.push(NodeView { id, dirty: true, ..node@ }));
        id
    }

    /// Removes the node of the given identity and hands it back, its
    /// meshes dropped; the other nodes keep their order. Fails with
    /// `NotFound`, and changes nothing, exactly when the scene holds no
    /// such node.
    pub fn remove(&mut self, id: u64) -> (result: Result<Node, RadiantError>)
        requires
            old(self)@.wf(),
        ensures
            final(self)@.wf(),
            match result {
                Ok(node) => {
                    let i = old(self)@.index_of(id);
                    &&& old(self)@.contains(id)
                    &&& node@ == old(self)@.nodes[i].detached()
                    &&& node@.id == id
                    &&& final(self)@ == (SceneView {
                        nodes: old(self)@.nodes.remove(i),
                        ..old(self)@
                    })
                    &&& !final(self)@.contains(id)
                },
                Err(e) => {
                    &&& e == RadiantError::NotFound
                    &&& !old(self)@.contains(id)
                    &&& final(self)@ == old(self)@
                },
            },
    {
        match self.find(id) {
            Some(i) => {
                assert(old(self)@.index_of(id) == i);
                let mut node = self.nodes.remove(i);
                node.detach();
                assert(self@.nodes =~= old(self)@.nodes.remove(i as int));
                Ok(node)
            },
            None => {
                assert(self@.nodes =~= old(self)@.nodes);
                Err(RadiantError::NotFound)
            },
        }
    }

    /// Selects the node of the given identity, if there is one, and clears
    /// the selection of every other node. A node whose selection state
    /// changes is marked stale.
    pub fn select(&mut self, id: Option<u64>)
        requires
            old(self)@.wf(),
        ensures
            final(self)@ == old(self)@.selecting(id),
            final(self)@.wf(),
    {
        let mut i: usize = 0;
        while i < self.nodes.len()
            invariant
                i <= self.nodes.len(),
                old(self)@.wf(),
                self.nodes@.len() == old(self).nodes@.len(),
                self.counter == old(self).counter,
                self.screen_descriptor == old(self).screen_descriptor,
                forall|k: int|
                    0 <= k < i ==> (#[trigger] self.nodes@[k])@ == old(self).nodes@[k]@.selecting(
                        id == Some(old(self).nodes@[k]@.id),
                    ),
                forall|k: int|
                    i <= k < self.nodes@.len() ==> (#[trigger] self.nodes@[k])@ == old(
                        self,
                    ).nodes@[k]@,
            decreases self.nodes.len() - i,
        {
            let want: bool = match id {
                Some(wanted) => wanted == self.nodes[i].get_id(),
                None => false,
            };
            if self.nodes[i].selection().is_selected() != want {
                self.nodes[i].set_selected(want);
            }
            i += 1;
        }
        assert(self@.nodes =~= old(self)@.selecting(id).nodes);
        assert forall|k: int| 0 <= k < self@.nodes.len() implies (#[trigger] self@.nodes[k]).wf()
            && self@.nodes[k].id == old(self)@.nodes[k].id && (self@.nodes[k].dirty
            || self@.nodes[k].scale == self@.screen.pixels_per_point) by {
            assert(old(self)@.nodes[k].wf());
            assert(old(self)@.nodes[k].dirty || old(self)@.nodes[k].scale == old(
                self,
            )@.screen.pixels_per_point);
        }
    }

    /// Marks every cache stale, so that the next frame rebuilds all
    /// meshes.
    pub fn mark_all_dirty(&mut self)
        requires
            old(self)@.wf(),
        ensures
            final(self)@ == old(self)@.all_stale(),
            final(self)@.wf(),
    {
        let mut i: usize = 0;
        while i < self.nodes.len()
            invariant
                i <= self.nodes.len(),
                self.nodes@.len() == old(self).nodes@.len(),
                self.counter == old(self).counter,
                self.screen_descriptor == old(self).screen_descriptor,
                forall|k: int| 0 <= k < i ==> (#[trigger] self.nodes@[k])@ == old(self).nodes@[k]@.stale(),
                forall|k: int|
                    i <= k < self.nodes@.len() ==> (#[trigger] self.nodes@[k])@ == old(
                        self,
                    ).nodes@[k]@,
            decreases self.nodes.len() - i,
        {
            self.nodes[i].set_needs_tessellation();
            i += 1;
        }
        assert(self@.nodes =~= old(self)@.all_stale().nodes);
    }

    fn ensure_all(&mut self)
        requires
            old(self)@.wf(),
        ensures
            final(self)@ == old(self)@.all_ensured(),
            final(self)@.wf(),
            forall|i: int| 0 <= i < final(self)@.nodes.len() ==> !(#[trigger] final(self)@.nodes[i]).dirty,
    {
        let scale: u16 = self.screen_descriptor.pixels_per_point;
        let mut i: usize = 0;
        while i < self.nodes.len()
            invariant
                i <= self.nodes.len(),
                old(self)@.wf(),
                scale == old(self).screen_descriptor.pixels_per_point,
                self.nodes@.len() == old(self).nodes@.len(),
                self.counter == old(self).counter,
                self.screen_descriptor == old(self).screen_descriptor,
                forall|k: int|
                    0 <= k < i ==> (#[trigger] self.nodes@[k])@ == old(self).nodes@[k]@.ensured(
                        scale,
                    ),
                forall|k: int| 0 <= k < i ==> (#[trigger] self.nodes@[k])@.wf(),
                forall|k: int|
                    i <= k < self.nodes@.len() ==> (#[trigger] self.nodes@[k])@ == old(
                        self,
                    ).nodes@[k]@,
            decreases self.nodes.len() - i,
        {
            assert(old(self)@.nodes[i as int].wf());
            self.nodes[i].ensure_tessellated(scale);
            i += 1;
        }
        assert(self@.nodes =~= old(self)@.all_ensured().nodes);
        assert forall|k: int| 0 <= k < self@.nodes.len() implies (#[trigger] self@.nodes[k]).id
            == old(self)@.nodes[k].id && !self@.nodes[k].dirty && self@.nodes[k].scale
            == scale by {
            assert(old(self)@.nodes[k].wf());
            assert(old(self)@.nodes[k].dirty || old(self)@.nodes[k].scale == scale);
        }
    }

    /// Takes a new screen. Where its pixel scale differs from the old
    /// one's, every cache is marked stale.
    pub fn set_screen_descriptor(&mut self, screen_descriptor: ScreenDescriptor)
        requires
            old(self)@.wf(),
        ensures
            final(self)@ == (SceneView {
                screen: screen_descriptor,
                ..old(self)@.rescaled(screen_descriptor.pixels_per_point)
            }),
            final(self)@.wf(),
    {
        if screen_descriptor.pixels_per_point != self.screen_descriptor.pixels_per_point {
            self.mark_all_dirty();
        }
        self.screen_descriptor = screen_descriptor;
    }

    /// Builds the frame at a pixel scale: rebuilds every stale cache, all
    /// of them if the scale differs from the screen's, and returns for each
    /// node, in paint order, its identity, copies of its two meshes, and
    /// its bounding box as the clip rectangle.
    pub fn build_frame(&mut self, scale: u16) -> (frame: Vec<FrameEntry>)
        requires
            old(self)@.wf(),
        ensures
            final(self)@ == old(self)@.rescaled(scale).all_ensured(),
            final(self)@.wf(),
            frame@.len() == final(self)@.nodes.len(),
            forall|i: int|
                0 <= i < frame@.len() ==> {
                    &&& (#[trigger] frame@[i]).id == final(self)@.nodes[i].id
                    &&& frame@[i].paint@ == final(self)@.nodes[i].paint
                    &&& frame@[i].pick@ == final(self)@.nodes[i].pick
                    &&& frame@[i].clip_rect == final(self)@.nodes[i].bounding_rect
                    &&& frame@[i].paint@.wf()
                    &&& frame@[i].pick@.wf()
                    &&& !final(self)@.nodes[i].dirty
                },
    {
        if scale != self.screen_descriptor.pixels_per_point {
            self.mark_all_dirty();
            self.screen_descriptor.pixels_per_point = scale;
        }
        assert(self@ == old(self)@.rescaled(scale));
        self.ensure_all();
        let mut frame: Vec<FrameEntry> = Vec::new();
        let mut i: usize = 0;
        while i < self.nodes.len()
            invariant
                i <= self.nodes.len(),
                self@.wf(),
                frame@.len() == i,
                forall|k: int|
                    0 <= k < i ==> {
                        &&& (#[trigger] frame@[k]).id == self@.nodes[k].id
                        &&& frame@[k].paint@ == self@.nodes[k].paint
                        &&& frame@[k].pick@ == self@.nodes[k].pick
                        &&& frame@[k].clip_rect == self@.nodes[k].bounding_rect
                        &&& frame@[k].paint@.wf()
                        &&& frame@[k].pick@.wf()
                    },
            decreases self.nodes.len() - i,
        {
            let node = &self.nodes[i];
            assert(self@.nodes[i as int] == node@);
            assert(node@.wf());
            frame.push(
                FrameEntry {
                    id: node.get_id(),
                    paint: node.paint_mesh().duplicate(),
                    pick: node.pick_mesh().duplicate(),
                    clip_rect: node.get_bounding_rect(),
                },
            );
            i += 1;
        }
        frame
    }

    /// Moves, resizes or turns the node of the given identity, and marks
    /// its cache stale. Fails with `NotFound`, and changes nothing, exactly
    /// when the scene holds no such node.
    pub fn set_transform(&mut self, id: u64, message: TransformMessage) -> (result: Result<
        (),
        RadiantError,
    >)
        requires
            old(self)@.wf(),
            forall|i: int|
                0 <= i < old(self)@.nodes.len() && (#[trigger] old(self)@.nodes[i]).id == id ==> old(
                    self,
                )@.nodes[i].transform.accepts(message),
        ensures
            final(self)@.wf(),
            match result {
                Ok(_) => {
                    let i = old(self)@.index_of(id);
                    &&& old(self)@.contains(id)
                    &&& final(self)@ == old(self)@.with_node(
                        i,
                        NodeView {
                            transform: old(self)@.nodes[i].transform.after(message),
                            dirty: true,
                            ..old(self)@.nodes[i]
                        },
                    )
                },
                Err(e) => {
                    &&& e == RadiantError::NotFound
                    &&& !old(self)@.contains(id)
                    &&& final(self)@ == old(self)@
                },
            },
    {
        match self.find(id) {
            Some(i) => {
                assert(old(self)@.nodes[i as int].wf());
                assert(old(self)@.index_of(id) == i);
                self.nodes[i].set_transform(message);
                assert(self@.nodes =~= old(self)@.nodes.update(i as int, self.nodes@[i as int]@));
                Ok(())
            },
            None => {
                assert(self@.nodes =~= old(self)@.nodes);
                Err(RadiantError::NotFound)
            },
        }
    }

    /// Selects the node of the given identity or clears its selection, and
    /// marks its cache stale. Fails with `NotFound`, and changes nothing,
    /// exactly when the scene holds no such node.
    pub fn set_selected(&mut self, id: u64, selected: bool) -> (result: Result<(), RadiantError>)
        requires
            old(self)@.wf(),
        ensures
            final(self)@.wf(),
            match result {
                Ok(_) => {
                    let i = old(self)@.index_of(id);
                    &&& old(self)@.contains(id)
                    &&& final(self)@ == old(self)@.with_node(
                        i,
                        NodeView { selected, dirty: true, ..old(self)@.nodes[i] },
                    )
                },
                Err(e) => {
                    &&& e == RadiantError::NotFound
                    &&& !old(self)@.contains(id)
                    &&& final(self)@ == old(self)@
                },
            },
    {
        match self.find(id) {
            Some(i) => {
                assert(old(self)@.nodes[i as int].wf());
                assert(old(self)@.index_of(id) == i);
                self.nodes[i].set_selected(selected);
                assert(self@.nodes =~= old(self)@.nodes.update(i as int, self.nodes@[i as int]@));
                Ok(())
            },
            None => {
                assert(self@.nodes =~= old(self)@.nodes);
                Err(RadiantError::NotFound)
            },
        }
    }

    /// The topmost node at a point of the screen, given in whole device
    /// pixels: the last node in paint order whose pick mesh holds the
    /// point, or none where no node's does. Stale caches are rebuilt first,
    /// so the answer is for the nodes as they are now.
    pub fn hit_test(&mut self, point: [i32; 2]) -> (hit: Option<u64>)
        requires
            old(self)@.wf(),
        ensures
            final(self)@ == old(self)@.all_ensured(),
            final(self)@.wf(),
            hit == final(self)@.hit(pixel_point(point)),
    {
        self.ensure_all();
        let p = Point { x: point[0] as i64 * 256, y: point[1] as i64 * 256 };
        let mut i: usize = self.nodes.len();
        while i > 0
            invariant
                i <= self.nodes.len(),
                self@.wf(),
                self@ == old(self)@.all_ensured(),
                p == pixel_point(point),
                forall|j: int| i <= j < self@.nodes.len() ==> !(#[trigger] self@.nodes[j]).pick.covers(p),
            decreases i,
        {
            i -= 1;
            let node = &self.nodes[i];
            assert(self@.nodes[i as int] == node@);
            assert(node@.wf());
            if node.covers(p) {
                proof {
                    assert(self@.topmost_at(i as int, p));
                    lemma_topmost_unique(self@, i as int, choose|k: int| self@.topmost_at(k, p), p);
                }
                return Some(node.get_id());
            }
        }
        assert forall|k: int| !self@.topmost_at(k, p) by {
            if 0 <= k < self@.nodes.len() {
                assert(!self@.nodes[k].pick.covers(p));
            }
        }
        None
    }
}

/// At most one node is the topmost at a point.
pub proof fn lemma_topmost_unique(scene: SceneView, i: int, j: int, p: Point)
    requires
        scene.topmost_at(i, p),
        scene.topmost_at(j, p),
    ensures
        i == j,
{
    if i < j {
        assert(!scene.nodes[j].pick.covers(p));
    }
    if j < i {
        assert(!scene.nodes[i].pick.covers(p));
    }
}

/// Hit-test law. The hit at a point is a node whose pick mesh holds the
/// point and above which no node's does; and there is no hit exactly where
/// no node's pick mesh holds the point.
pub proof fn lemma_hit_is_topmost(scene: SceneView, p: Point)
    ensures
        match scene.hit(p) {
            Some(id) => exists|i: int| scene.topmost_at(i, p) && (#[trigger] scene.nodes[i]).id == id,
            None => forall|i: int|
                0 <= i < scene.nodes.len() ==> !(#[trigger] scene.nodes[i]).pick.covers(p),
        },
{
    if exists|i: int| scene.topmost_at(i, p) {
        let i = choose|i: int| scene.topmost_at(i, p);
        assert(scene.topmost_at(i, p) && scene.nodes[i].id == scene.hit(p).unwrap());
    } else {
        lemma_no_hit(scene, p, scene.nodes.len() as int);
    }
}

/// Where no node is topmost at a point, no node from place `n` down holds
/// it.
proof fn lemma_no_hit(scene: SceneView, p: Point, n: int)
    requires
        forall|i: int| !scene.topmost_at(i, p),
        0 <= n <= scene.nodes.len(),
        forall|j: int| n <= j < scene.nodes.len() ==> !(#[trigger] scene.nodes[j]).pick.covers(p),
    ensures
        forall|i: int| 0 <= i < scene.nodes.len() ==> !(#[trigger] scene.nodes[i]).pick.covers(p),
    decreases n,
{
    if n > 0 {
        if scene.nodes[n - 1].pick.covers(p) {
            assert(scene.topmost_at(n - 1, p));
        }
        lemma_no_hit(scene, p, n - 1);
    }
}

/// Where two nodes overlap at a point, the hit is not the one below.
pub proof fn lemma_hit_prefers_later(scene: SceneView, below: int, above: int, p: Point)
    requires
        scene.wf(),
        0 <= below < above < scene.nodes.len(),
        scene.nodes[below].pick.covers(p),
        scene.nodes[above].pick.covers(p),
    ensures
        scene.hit(p).is_some(),
        scene.hit(p) != Some(scene.nodes[below].id),
{
    lemma_hit_is_topmost(scene, p);
    if scene.hit(p).is_none() {
        assert(!scene.nodes[above].pick.covers(p));
    } else {
        let i = choose|i: int| scene.topmost_at(i, p) && (#[trigger] scene.nodes[i]).id == scene.hit(
            p,
        ).unwrap();
        if scene.nodes[i].id == scene.nodes[below].id {
            if i < below {
                assert(scene.nodes[i].id != scene.nodes[below].id);
            }
            if below < i {
                assert(scene.nodes[below].id != scene.nodes[i].id);
            }
            assert(i == below);
            assert(!scene.nodes[above].pick.covers(p));
        }
    }
}

/// The meshes of a frame as the renderer takes them: for each node, in
/// paint order, a copy of its pick mesh or of its paint mesh with its clip
/// rectangle.
pub fn frame_jobs(frame: &Vec<FrameEntry>, want_pick: bool) -> (jobs: Vec<ClippedPrimitive>)
    ensures
        jobs@.len() == frame@.len(),
        forall|i: int|
            0 <= i < jobs@.len() ==> {
                &&& (#[trigger] jobs@[i]).clip_rect == frame@[i].clip_rect
                &&& jobs@[i].mesh@ == (if want_pick {
                    frame@[i].pick@
                } else {
                    frame@[i].paint@
                })
            },
{
    let mut jobs: Vec<ClippedPrimitive> = Vec::new();
    let mut i: usize = 0;
    while i < frame.len()
        invariant
            i <= frame.len(),
            jobs@.len() == i,
            forall|k: int|
                0 <= k < i ==> {
                    &&& (#[trigger] jobs@[k]).clip_rect == frame@[k].clip_rect
                    &&& jobs@[k].mesh@ == (if want_pick {
                        frame@[k].pick@
                    } else {
                        frame@[k].paint@
                    })
                },
        decreases frame.len() - i,
    {
        let entry = &frame[i];
        let mesh = if want_pick {
            entry.pick.duplicate()
        } else {
            entry.paint.duplicate()
        };
        jobs.push(ClippedPrimitive { clip_rect: entry.clip_rect, mesh });
        i += 1;
    }
    jobs
}

} // verus!
