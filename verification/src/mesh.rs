//! Triangle meshes: vertices, indices and the texture they are drawn with.

use vstd::prelude::*;
use crate::color::Color;
use crate::geometry::{Point, Rect};

verus! {

/// Greatest magnitude of a mesh coordinate, in 256ths of a pixel. Every
/// mesh that the tessellator builds stays far below it.
pub const COORD_LIMIT: i64 = 0x0100_0000_0000_0000;

/// A normalised texture coordinate: 0 is the first texel edge, 65535 the
/// last.
#[derive(Clone, Copy, Debug, PartialEq, Eq, Structural)]
pub struct Uv {
    pub u: u16,
    pub v: u16,
}

/// A texture reference. The texture itself is owned by a cache elsewhere.
#[derive(Clone, Copy, Debug, PartialEq, Eq, Structural)]
pub enum TextureId {
    /// A texture that the renderer allocated. `Managed(0)` is the reserved
    /// solid-white texture of untextured geometry.
    Managed(u64),
    /// A texture that the host supplied.
    User(u64),
}

/// One corner of a triangle.
#[derive(Clone, Copy, Debug, PartialEq, Eq, Structural)]
pub struct Vertex {
    /// Position in device pixels, in 256ths.
    pub pos: Point,
    pub uv: Uv,
    pub color: Color,
}

/// Triangles in the plane: each three consecutive indices name the corners
/// of one triangle among the vertices.
#[derive(Debug)]
pub struct Mesh {
    pub indices: Vec<u32>,
    pub vertices: Vec<Vertex>,
    pub texture_id: TextureId,
}

/// What a mesh holds, as mathematical sequences.
pub struct MeshView {
    pub indices: Seq<u32>,
    pub vertices: Seq<Vertex>,
    pub texture_id: TextureId,
}

/// A mesh with the logical rectangle that its draw is clipped to.
#[derive(Debug)]
pub struct ClippedPrimitive {
    pub clip_rect: Rect,
    pub mesh: Mesh,
}

/// The texture of untextured geometry.
pub open spec fn no_texture() -> TextureId {
    TextureId::Managed(0)
}

impl MeshView {
    /// The mesh without triangles.
    pub open spec fn empty(texture_id: TextureId) -> MeshView {
        MeshView { indices: Seq::empty(), vertices: Seq::empty(), texture_id }
    }

    /// Whether the indices come in threes, each names a vertex, and every
    /// coordinate is within `COORD_LIMIT`.
    pub open spec fn wf(self) -> bool {
        &&& self.indices.len() % 3 == 0
        &&& forall|i: int|
            0 <= i < self.indices.len() ==> (#[trigger] self.indices[i]) < self.vertices.len()
        &&& forall|i: int|
            0 <= i < self.vertices.len() ==> {
                &&& -COORD_LIMIT <= (#[trigger] self.vertices[i]).pos.x <= COORD_LIMIT
                &&& -COORD_LIMIT <= self.vertices[i].pos.y <= COORD_LIMIT
            }
    }

    /// Whether the mesh draws nothing.
    pub open spec fn is_empty(self) -> bool {
        self.indices.len() == 0 || self.vertices.len() == 0
    }

    /// Whether every vertex has the given colour.
    pub open spec fn has_color(self, color: Color) -> bool {
        forall|i: int| 0 <= i < self.vertices.len() ==> (#[trigger] self.vertices[i]).color == color
    }
}

impl View for Mesh {
    type V = MeshView;

    open spec fn view(&self) -> MeshView {
        MeshView {
            indices: self.indices@,
            vertices: self.vertices@,
            texture_id: self.texture_id,
        }
    }
}

impl Mesh {
    /// A mesh without triangles.
    pub fn new(texture_id: TextureId) -> (mesh: Mesh)
        ensures
            mesh@ == MeshView::empty(texture_id),
            mesh@.wf(),
    {
        Mesh { indices: Vec::new(), vertices: Vec::new(), texture_id }
    }

    /// Whether the mesh draws nothing.
    pub fn is_empty(&self) -> (empty: bool)
        ensures
            empty == self@.is_empty(),
    {
        self.indices.len() == 0 || self.vertices.len() == 0
    }

    /// A copy of the mesh.
    pub fn duplicate(&self) -> (copy: Mesh)
        ensures
            copy@ == self@,
    {
        let mut indices: Vec<u32> = Vec::new();
        let mut i: usize = 0;
        while i < self.indices.len()
            invariant
                i <= self.indices.len(),
                indices@ == self.indices@.take(i as int),
            decreases self.indices.len() - i,
        {
            indices.push(self.indices[i]);
            assert(self.indices@.take(i + 1) == self.indices@.take(i as int).push(
                self.indices@[i as int],
            ));
            i += 1;
        }
        let mut vertices: Vec<Vertex> = Vec::new();
        let mut j: usize = 0;
        while j < self.vertices.len()
            invariant
                j <= self.vertices.len(),
                vertices@ == self.vertices@.take(j as int),
            decreases self.vertices.len() - j,
        {
            vertices.push(self.vertices[j]);
            assert(self.vertices@.take(j + 1) == self.vertices@.take(j as int).push(
                self.vertices@[j as int],
            ));
            j += 1;
        }
        assert(self.indices@.take(self.indices@.len() as int) == self.indices@);
        assert(self.vertices@.take(self.vertices@.len() as int) == self.vertices@);
        Mesh { indices, vertices, texture_id: self.texture_id }
    }

    /// Decides whether the mesh is well formed.
    pub fn is_valid(&self) -> (valid: bool)
        ensures
            valid == self@.wf(),
    {
        if self.indices.len() % 3 != 0 {
            return false;
        }
        let mut i: usize = 0;
        while i < self.indices.len()
            invariant
                i <= self.indices.len(),
                forall|k: int| 0 <= k < i ==> (#[trigger] self.indices@[k]) < self.vertices.len(),
            decreases self.indices.len() - i,
        {
            if self.indices[i] as usize >= self.vertices.len() {
                return false;
            }
            i += 1;
        }
        let mut j: usize = 0;
        while j < self.vertices.len()
            invariant
                j <= self.vertices.len(),
                forall|k: int|
                    0 <= k < j ==> {
                        &&& -COORD_LIMIT <= (#[trigger] self.vertices@[k]).pos.x <= COORD_LIMIT
                        &&& -COORD_LIMIT <= self.vertices@[k].pos.y <= COORD_LIMIT
                    },
            decreases self.vertices.len() - j,
        {
            let p: Point = self.vertices[j].pos;
            if p.x < -COORD_LIMIT || p.x > COORD_LIMIT || p.y < -COORD_LIMIT || p.y > COORD_LIMIT {
                assert(self@.vertices[j as int].pos == p);
                return false;
            }
            j += 1;
        }
        true
    }
}

/// Twice the signed area of the triangle `o`, `a`, `b`: positive where the
/// turn from `a` to `b` about `o` goes one way, negative the other way, and
/// zero where the three lie on a line.
pub open spec fn cross(o: Point, a: Point, b: Point) -> int {
    (a.x - o.x) * (b.y - o.y) - (a.y - o.y) * (b.x - o.x)
}

/// Whether `p` lies in the triangle `a`, `b`, `c`, edges included. A
/// triangle without area holds no point.
pub open spec fn in_triangle(a: Point, b: Point, c: Point, p: Point) -> bool {
    let d1 = cross(a, b, p);
    let d2 = cross(b, c, p);
    let d3 = cross(c, a, p);
    &&& cross(a, b, c) != 0
    &&& (d1 >= 0 && d2 >= 0 && d3 >= 0) || (d1 <= 0 && d2 <= 0 && d3 <= 0)
}

/// Whether a point's coordinates are within `COORD_LIMIT`.
pub open spec fn in_reach(p: Point) -> bool {
    -COORD_LIMIT <= p.x <= COORD_LIMIT && -COORD_LIMIT <= p.y <= COORD_LIMIT
}

/// Whether `rect` is the least rectangle that holds every vertex position.
pub open spec fn is_extent(rect: Rect, vertices: Seq<Vertex>) -> bool {
    &&& forall|i: int| 0 <= i < vertices.len() ==> rect.contains((#[trigger] vertices[i]).pos)
    &&& exists|i: int| 0 <= i < vertices.len() && (#[trigger] vertices[i]).pos.x == rect.min.x
    &&& exists|i: int| 0 <= i < vertices.len() && (#[trigger] vertices[i]).pos.y == rect.min.y
    &&& exists|i: int| 0 <= i < vertices.len() && (#[trigger] vertices[i]).pos.x == rect.max.x
    &&& exists|i: int| 0 <= i < vertices.len() && (#[trigger] vertices[i]).pos.y == rect.max.y
}

/// The least rectangle that holds every vertex position.
pub open spec fn extent_of(vertices: Seq<Vertex>) -> Rect {
    choose|rect: Rect| is_extent(rect, vertices)
}

impl MeshView {
    /// The corners of the `t`-th triangle.
    pub open spec fn corner(self, t: int, k: int) -> Point {
        self.vertices[self.indices[3 * t + k] as int].pos
    }

    /// Whether the `t`-th triangle holds `p`.
    pub open spec fn triangle_covers(self, t: int, p: Point) -> bool {
        in_triangle(self.corner(t, 0), self.corner(t, 1), self.corner(t, 2), p)
    }

    /// Whether some triangle of the mesh holds `p`.
    pub open spec fn covers(self, p: Point) -> bool {
        exists|t: int| 0 <= t < self.indices.len() / 3 && #[trigger] self.triangle_covers(t, p)
    }
}

pub(crate) fn cross_of(o: Point, a: Point, b: Point) -> (c: i128)
    requires
        in_reach(o),
        in_reach(a),
        in_reach(b),
    ensures
        c == cross(o, a, b),
{
    let ax: i128 = a.x as i128 - o.x as i128;
    let ay: i128 = a.y as i128 - o.y as i128;
    let bx: i128 = b.x as i128 - o.x as i128;
    let by: i128 = b.y as i128 - o.y as i128;
    assert(-0x0200_0000_0000_0000 * 0x0200_0000_0000_0000 <= ax * by <= 0x0200_0000_0000_0000
        * 0x0200_0000_0000_0000 && -0x0200_0000_0000_0000 * 0x0200_0000_0000_0000 <= ay * bx
        <= 0x0200_0000_0000_0000 * 0x0200_0000_0000_0000) by (nonlinear_arith)
        requires
            -0x0200_0000_0000_0000 <= ax <= 0x0200_0000_0000_0000,
            -0x0200_0000_0000_0000 <= ay <= 0x0200_0000_0000_0000,
            -0x0200_0000_0000_0000 <= bx <= 0x0200_0000_0000_0000,
            -0x0200_0000_0000_0000 <= by <= 0x0200_0000_0000_0000,
    ;
    ax * by - ay * bx
}

/// Decides whether a point lies in a triangle.
pub fn point_in_triangle(a: Point, b: Point, c: Point, p: Point) -> (inside: bool)
    requires
        in_reach(a),
        in_reach(b),
        in_reach(c),
        in_reach(p),
    ensures
        inside == in_triangle(a, b, c, p),
{
    if cross_of(a, b, c) == 0 {
        return false;
    }
    let d1: i128 = cross_of(a, b, p);
    let d2: i128 = cross_of(b, c, p);
    let d3: i128 = cross_of(c, a, p);
    (d1 >= 0 && d2 >= 0 && d3 >= 0) || (d1 <= 0 && d2 <= 0 && d3 <= 0)
}

impl Mesh {
    /// Decides whether some triangle of the mesh holds a point.
    pub fn covers(&self, p: Point) -> (hit: bool)
        requires
            self@.wf(),
            in_reach(p),
        ensures
            hit == self@.covers(p),
    {
        let triangles: usize = self.indices.len() / 3;
        let mut t: usize = 0;
        while t < triangles
            invariant
                self@.wf(),
                in_reach(p),
                triangles == self.indices@.len() / 3,
                self.indices@.len() <= usize::MAX,
                t <= triangles,
                forall|k: int| 0 <= k < t ==> !#[trigger] self@.triangle_covers(k, p),
            decreases triangles - t,
        {
            let a: Point = self.vertices[self.indices[3 * t] as usize].pos;
            let b: Point = self.vertices[self.indices[3 * t + 1] as usize].pos;
            let c: Point = self.vertices[self.indices[3 * t + 2] as usize].pos;
            assert(a == self@.corner(t as int, 0));
            assert(b == self@.corner(t as int, 1));
            assert(c == self@.corner(t as int, 2));
            if point_in_triangle(a, b, c, p) {
                assert(self@.triangle_covers(t as int, p));
                return true;
            }
            t += 1;
        }
        false
    }

    /// The least rectangle that holds every vertex, or none for a mesh
    /// without vertices.
    pub fn extent(&self) -> (rect: Option<Rect>)
        ensures
            match rect {
                Some(r) => is_extent(r, self@.vertices) && r == extent_of(self@.vertices),
                None => self@.vertices.len() == 0,
            },
    {
        if self.vertices.len() == 0 {
            return None;
        }
        let first: Point = self.vertices[0].pos;
        let mut rect = Rect { min: first, max: first };
        let mut i: usize = 1;
        assert(self@.vertices.take(1)[0].pos == first);
        while i < self.vertices.len()
            invariant
                1 <= i <= self.vertices.len(),
                is_extent(rect, self@.vertices.take(i as int)),
            decreases self.vertices.len() - i,
        {
            let p: Point = self.vertices[i].pos;
            let ghost prior = rect;
            let ghost seen = self@.vertices.take(i as int);
            let ghost now = self@.vertices.take(i + 1);
            proof {
                let ix = choose|k: int| 0 <= k < seen.len() && (#[trigger] seen[k]).pos.x == prior.min.x;
                let iy = choose|k: int| 0 <= k < seen.len() && (#[trigger] seen[k]).pos.y == prior.min.y;
                let ax = choose|k: int| 0 <= k < seen.len() && (#[trigger] seen[k]).pos.x == prior.max.x;
                let ay = choose|k: int| 0 <= k < seen.len() && (#[trigger] seen[k]).pos.y == prior.max.y;
                assert(now[ix] == seen[ix] && now[iy] == seen[iy] && now[ax] == seen[ax] && now[ay]
                    == seen[ay]);
                assert(now[i as int].pos == p);
                assert forall|k: int| 0 <= k < i implies prior.contains((#[trigger] now[k]).pos) by {
                    assert(now[k] == seen[k]);
                }
            }
            if p.x < rect.min.x {
                rect.min.x = p.x;
            }
            if p.y < rect.min.y {
                rect.min.y = p.y;
            }
            if p.x > rect.max.x {
                rect.max.x = p.x;
            }
            if p.y > rect.max.y {
                rect.max.y = p.y;
            }
            i += 1;
        }
        assert(self@.vertices.take(self@.vertices.len() as int) == self@.vertices);
        proof {
            lemma_extent_unique(rect, extent_of(self@.vertices), self@.vertices);
        }
        Some(rect)
    }
}

/// A set of vertices has one extent only.
pub proof fn lemma_extent_unique(a: Rect, b: Rect, vertices: Seq<Vertex>)
    requires
        is_extent(a, vertices),
        is_extent(b, vertices),
    ensures
        a == b,
{
}

} // verus!
