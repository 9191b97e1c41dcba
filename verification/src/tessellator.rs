//! The geometry tessellator: from a shape, a style and the pixel scale to
//! the paint mesh and the pick mesh, in device pixel space.

use vstd::prelude::*;
use crate::color::{opaque, opaque_color, pick_color, pick_color_of, Color};
use crate::error::RadiantError;
use crate::geometry::Point;
use crate::mesh::{cross, in_reach, no_texture, Mesh, MeshView, TextureId, Uv, Vertex};
use crate::stroke::{offset_of, segment_offset, strokable};

verus! {

/// Width of a line in the paint mesh, in points.
pub const LINE_WIDTH: u16 = 1;

/// Width of a line in the pick mesh, in points: wider than it is drawn, so
/// that it can be hit.
pub const PICK_LINE_WIDTH: u16 = 8;

/// Most control points that a path may have, and most glyphs a text.
pub const MAX_POINTS: usize = 0x10_0000;

/// A position or an extent in logical points.
#[derive(Clone, Copy, Debug, PartialEq, Eq, Structural)]
pub struct Vec2 {
    pub x: i32,
    pub y: i32,
}

/// One shaped glyph: where it goes, relative to the node's position, and
/// the part of the font texture that it shows.
#[derive(Clone, Copy, Debug, PartialEq, Eq, Structural)]
pub struct Glyph {
    pub pos: Vec2,
    pub size: Vec2,
    pub uv_min: Uv,
    pub uv_max: Uv,
}

/// What a node shows. Positions are relative to the node's position.
#[derive(Debug)]
pub enum Shape {
    /// A straight line between two points.
    Line { start: Vec2, end: Vec2 },
    /// A path through control points: a filled polygon where it is convex,
    /// else an open run of lines.
    Path { points: Vec<Vec2>, convex: bool },
    /// The rectangle that the node's position and scale span.
    Rectangle,
    /// Glyph runs that were shaped elsewhere.
    Text { glyphs: Vec<Glyph> },
    /// The node's rectangle, showing a texture.
    Image { texture: TextureId },
}

/// What a shape holds, as mathematical sequences.
pub enum ShapeView {
    Line { start: Vec2, end: Vec2 },
    Path { points: Seq<Vec2>, convex: bool },
    Rectangle,
    Text { glyphs: Seq<Glyph> },
    Image { texture: TextureId },
}

/// How a mesh is drawn: the width of its lines in points, and its colour.
#[derive(Clone, Copy, Debug, PartialEq, Eq, Structural)]
pub struct Style {
    pub stroke_width: u16,
    pub color: Color,
}

/// One corner of a polygon in device space.
#[derive(Clone, Copy, Debug, PartialEq, Eq, Structural)]
pub struct Corner {
    pub pos: Point,
    pub uv: Uv,
}

impl View for Shape {
    type V = ShapeView;

    open spec fn view(&self) -> ShapeView {
        match *self {
            Shape::Line { start, end } => ShapeView::Line { start, end },
            Shape::Path { points, convex } => ShapeView::Path { points: points@, convex },
            Shape::Rectangle => ShapeView::Rectangle,
            Shape::Text { glyphs } => ShapeView::Text { glyphs: glyphs@ },
            Shape::Image { texture } => ShapeView::Image { texture },
        }
    }
}

impl Shape {
    /// Checks that the shape can be tessellated. A shape that cannot is a
    /// fault of the caller, to be met before the shape reaches a node.
    pub fn validate(&self) -> (result: Result<(), RadiantError>)
        ensures
            result == (if self@.wf() {
                Ok::<(), RadiantError>(())
            } else {
                Err::<(), RadiantError>(RadiantError::InvalidGeometry)
            }),
    {
        let valid = match self {
            Shape::Path { points, convex } => {
                let least: usize = if *convex {
                    3
                } else {
                    2
                };
                least <= points.len() && points.len() <= MAX_POINTS
            },
            Shape::Text { glyphs } => glyphs.len() <= MAX_POINTS,
            _ => true,
        };
        if valid {
            Ok(())
        } else {
            Err(RadiantError::InvalidGeometry)
        }
    }
}

/// The colour of a selected node: red.
pub open spec fn selected_color() -> Color {
    opaque(255, 0, 0)
}

impl ShapeView {
    /// The colour of a node of this shape that is not selected: blue for a
    /// line, white for an image, so that its texture shows as it is, and
    /// light red for every other shape.
    pub open spec fn unselected_color(self) -> Color {
        match self {
            ShapeView::Line { .. } => opaque(0, 0, 255),
            ShapeView::Image { .. } => opaque(255, 255, 255),
            _ => opaque(255, 128, 128),
        }
    }

    /// The style of a node of this shape, which follows from its selection
    /// state: lines one point wide, in the selected colour or in the
    /// shape's own.
    pub open spec fn style(self, selected: bool) -> Style {
        Style {
            stroke_width: LINE_WIDTH,
            color: if selected {
                selected_color()
            } else {
                self.unselected_color()
            },
        }
    }
}

impl Style {
    /// The style of a node of a shape, by its selection state.
    pub fn for_selection(shape: &Shape, selected: bool) -> (style: Style)
        ensures
            style == shape@.style(selected),
    {
        let color = if selected {
            opaque_color(255, 0, 0)
        } else {
            match shape {
                Shape::Line { .. } => opaque_color(0, 0, 255),
                Shape::Image { .. } => opaque_color(255, 255, 255),
                _ => opaque_color(255, 128, 128),
            }
        };
        Style { stroke_width: LINE_WIDTH, color }
    }
}

/// The texture coordinate of solid colour.
pub open spec fn solid_uv() -> Uv {
    Uv { u: 0, v: 0 }
}

/// The texture coordinate of a texture's far corner.
pub open spec fn far_uv() -> Uv {
    Uv { u: 0xffff, v: 0xffff }
}

/// A logical position brought to device space.
pub open spec fn device_point(x: int, y: int, scale: u16) -> Point {
    Point { x: (x * scale) as i64, y: (y * scale) as i64 }
}

/// Half the width of a line in device space.
pub open spec fn half_width(width: u16, scale: u16) -> int {
    width * scale / 2
}

/// The four corners of a rectangle, with the texture's corners on them.
pub open spec fn rect_quad(min: Point, max: Point, uv_min: Uv, uv_max: Uv) -> Seq<Corner> {
    seq![
        Corner { pos: min, uv: uv_min },
        Corner { pos: Point { x: max.x, y: min.y }, uv: Uv { u: uv_max.u, v: uv_min.v } },
        Corner { pos: max, uv: uv_max },
        Corner { pos: Point { x: min.x, y: max.y }, uv: Uv { u: uv_min.u, v: uv_max.v } },
    ]
}

/// The four corners of a segment drawn `2 * half` wide.
pub open spec fn segment_quad(a: Point, b: Point, half: int) -> Seq<Corner> {
    let o = segment_offset(a, b, half);
    seq![
        Corner { pos: Point { x: (a.x + o.0) as i64, y: (a.y + o.1) as i64 }, uv: solid_uv() },
        Corner { pos: Point { x: (b.x + o.0) as i64, y: (b.y + o.1) as i64 }, uv: solid_uv() },
        Corner { pos: Point { x: (b.x - o.0) as i64, y: (b.y - o.1) as i64 }, uv: solid_uv() },
        Corner { pos: Point { x: (a.x - o.0) as i64, y: (a.y - o.1) as i64 }, uv: solid_uv() },
    ]
}

impl ShapeView {
    /// Whether the shape can be tessellated: a convex path has three
    /// points or more, an open one two or more, and neither a path nor a
    /// text is longer than `MAX_POINTS`.
    pub open spec fn wf(self) -> bool {
        match self {
            ShapeView::Path { points, convex } => {
                &&& points.len() <= MAX_POINTS
                &&& points.len() >= (if convex {
                    3nat
                } else {
                    2nat
                })
            },
            ShapeView::Text { glyphs } => glyphs.len() <= MAX_POINTS,
            _ => true,
        }
    }

    /// The texture that the shape is painted with.
    pub open spec fn texture(self) -> TextureId {
        match self {
            ShapeView::Image { texture } => texture,
            _ => no_texture(),
        }
    }

    /// The polygons that make up the shape, in device space, for a node at
    /// `origin` of extent `size`, with lines `width` points wide.
    pub open spec fn outline(self, origin: Vec2, size: Vec2, width: u16, scale: u16) -> Seq<
        Seq<Corner>,
    > {
        match self {
            ShapeView::Line { start, end } => seq![
                segment_quad(
                    device_point(origin.x + start.x, origin.y + start.y, scale),
                    device_point(origin.x + end.x, origin.y + end.y, scale),
                    half_width(width, scale),
                ),
            ],
            ShapeView::Path { points, convex } => if convex {
                seq![
                    Seq::new(
                        points.len(),
                        |i: int|
                            Corner {
                                pos: device_point(
                                    origin.x + points[i].x,
                                    origin.y + points[i].y,
                                    scale,
                                ),
                                uv: solid_uv(),
                            },
                    ),
                ]
            } else {
                Seq::new(
                    (points.len() - 1) as nat,
                    |i: int|
                        segment_quad(
                            device_point(origin.x + points[i].x, origin.y + points[i].y, scale),
                            device_point(
                                origin.x + points[i + 1].x,
                                origin.y + points[i + 1].y,
                                scale,
                            ),
                            half_width(width, scale),
                        ),
                )
            },
            ShapeView::Rectangle => seq![
                rect_quad(
                    device_point(origin.x as int, origin.y as int, scale),
                    device_point(origin.x + size.x, origin.y + size.y, scale),
                    solid_uv(),
                    solid_uv(),
                ),
            ],
            ShapeView::Text { glyphs } => Seq::new(
                glyphs.len(),
                |i: int|
                    rect_quad(
                        device_point(origin.x + glyphs[i].pos.x, origin.y + glyphs[i].pos.y, scale),
                        device_point(
                            origin.x + glyphs[i].pos.x + glyphs[i].size.x,
                            origin.y + glyphs[i].pos.y + glyphs[i].size.y,
                            scale,
                        ),
                        glyphs[i].uv_min,
                        glyphs[i].uv_max,
                    ),
            ),
            ShapeView::Image { texture } => seq![
                rect_quad(
                    device_point(origin.x as int, origin.y as int, scale),
                    device_point(origin.x + size.x, origin.y + size.y, scale),
                    solid_uv(),
                    far_uv(),
                ),
            ],
        }
    }
}

/// Whether a polygon has no area: it has fewer than three corners, or all
/// its corners lie on one line.
pub open spec fn degenerate(poly: Seq<Corner>) -> bool {
    poly.len() < 3 || forall|i: int|
        1 <= i < poly.len() - 1 ==> cross(poly[0].pos, (#[trigger] poly[i]).pos, poly[i + 1].pos)
            == 0
}

/// The indices of a fan over `n` corners, the first of which is vertex
/// `base`: the triangles `(0, 1, 2)`, `(0, 2, 3)` and so on.
pub open spec fn fan_indices(n: nat, base: nat) -> Seq<u32> {
    Seq::new(
        (3 * (n - 2)) as nat,
        |k: int|
            (base + if k % 3 == 0 {
                0
            } else {
                k / 3 + k % 3
            }) as u32,
    )
}

/// The vertices of a polygon in one colour; without texture coordinates
/// where the mesh is flat.
pub open spec fn fan_vertices(poly: Seq<Corner>, color: Color, flat: bool) -> Seq<Vertex> {
    Seq::new(
        poly.len(),
        |i: int|
            Vertex {
                pos: poly[i].pos,
                uv: if flat {
                    solid_uv()
                } else {
                    poly[i].uv
                },
                color,
            },
    )
}

/// A mesh with the fan of one more polygon. A polygon without area adds
/// nothing.
pub open spec fn with_fan(mesh: MeshView, poly: Seq<Corner>, color: Color, flat: bool)
    -> MeshView {
    if degenerate(poly) {
        mesh
    } else {
        MeshView {
            indices: mesh.indices + fan_indices(poly.len(), mesh.vertices.len()),
            vertices: mesh.vertices + fan_vertices(poly, color, flat),
            texture_id: mesh.texture_id,
        }
    }
}

/// The mesh of a run of convex polygons: the fan of each, one after
/// another.
pub open spec fn mesh_of(polys: Seq<Seq<Corner>>, color: Color, texture: TextureId, flat: bool)
    -> MeshView
    decreases polys.len(),
{
    if polys.len() == 0 {
        MeshView::empty(texture)
    } else {
        with_fan(mesh_of(polys.drop_last(), color, texture, flat), polys.last(), color, flat)
    }
}

/// The polygons as sequences.
pub open spec fn views(polys: Seq<Vec<Corner>>) -> Seq<Seq<Corner>> {
    Seq::new(polys.len(), |i: int| polys[i]@)
}

/// Whether the polygons are few and small enough for 32-bit indices, and
/// every corner is within reach: at most `MAX_POINTS` polygons of at most
/// four corners, or one polygon of at most `MAX_POINTS` corners.
pub open spec fn meshable(polys: Seq<Seq<Corner>>) -> bool {
    &&& polys.len() <= MAX_POINTS
    &&& forall|i: int| 0 <= i < polys.len() ==> (#[trigger] polys[i]).len() <= 4 || (polys.len()
        == 1 && polys[i].len() <= MAX_POINTS)
    &&& forall|i: int, j: int|
        0 <= i < polys.len() && 0 <= j < polys[i].len() ==> in_reach(#[trigger] polys[i][j].pos)
}

fn is_degenerate(poly: &Vec<Corner>) -> (flat: bool)
    requires
        forall|j: int| 0 <= j < poly@.len() ==> in_reach(#[trigger] poly@[j].pos),
    ensures
        flat == degenerate(poly@),
{
    let n: usize = poly.len();
    if n < 3 {
        return true;
    }
    let mut i: usize = 1;
    while i + 1 < n
        invariant
            n == poly@.len(),
            n >= 3,
            1 <= i < n,
            forall|j: int| 0 <= j < poly@.len() ==> in_reach(#[trigger] poly@[j].pos),
            forall|k: int|
                1 <= k < i ==> cross(poly@[0].pos, (#[trigger] poly@[k]).pos, poly@[k + 1].pos)
                    == 0,
        decreases n - i,
    {
        if crate::mesh::cross_of(poly[0].pos, poly[i].pos, poly[i + 1].pos) != 0 {
            return false;
        }
        i += 1;
    }
    true
}

fn add_fan(mesh: &mut Mesh, poly: &Vec<Corner>, color: Color, flat: bool)
    requires
        old(mesh)@.wf(),
        forall|j: int| 0 <= j < poly@.len() ==> in_reach(#[trigger] poly@[j].pos),
        old(mesh)@.vertices.len() + poly@.len() <= u32::MAX,
    ensures
        final(mesh)@ == with_fan(old(mesh)@, poly@, color, flat),
        final(mesh)@.wf(),
{
    if is_degenerate(poly) {
        return;
    }
    let n: usize = poly.len();
    let base: u32 = mesh.vertices.len() as u32;
    let ghost fan = fan_indices(n as nat, base as nat);
    let mut t: usize = 1;
    while t + 1 < n
        invariant
            n == poly@.len(),
            n >= 3,
            1 <= t < n,
            base + n <= u32::MAX,
            fan == fan_indices(n as nat, base as nat),
            mesh.vertices@ == old(mesh).vertices@,
            mesh.texture_id == old(mesh).texture_id,
            mesh.indices@ == old(mesh).indices@ + fan.take(3 * (t - 1)),
        decreases n - t,
    {
        let second: u32 = base + t as u32;
        mesh.indices.push(base);
        mesh.indices.push(second);
        mesh.indices.push(second + 1);
        proof {
            let k = 3 * (t - 1);
            assert(fan[k] == base);
            assert(fan[k + 1] == second);
            assert(fan[k + 2] == second + 1);
            assert(fan.take(k + 3) =~= fan.take(k).push(fan[k]).push(fan[k + 1]).push(fan[k + 2]));
            assert(mesh.indices@ =~= old(mesh).indices@ + fan.take(k + 3));
        }
        t += 1;
    }
    assert(fan.take(3 * (n - 2)) =~= fan);
    let ghost corners = fan_vertices(poly@, color, flat);
    let mut i: usize = 0;
    while i < n
        invariant
            n == poly@.len(),
            i <= n,
            corners == fan_vertices(poly@, color, flat),
            mesh.indices@ == old(mesh).indices@ + fan,
            mesh.texture_id == old(mesh).texture_id,
            mesh.vertices@ == old(mesh).vertices@ + corners.take(i as int),
        decreases n - i,
    {
        let corner: Corner = poly[i];
        let uv = if flat {
            Uv { u: 0, v: 0 }
        } else {
            corner.uv
        };
        mesh.vertices.push(Vertex { pos: corner.pos, uv, color });
        assert(corners.take(i + 1) =~= corners.take(i as int).push(corners[i as int]));
        assert(mesh.vertices@ =~= old(mesh).vertices@ + corners.take(i + 1));
        i += 1;
    }
    proof {
        assert(corners.take(n as int) =~= corners);
        assert forall|k: int| 0 <= k < mesh@.indices.len() implies (#[trigger] mesh@.indices[k])
            < mesh@.vertices.len() by {
            if k >= old(mesh)@.indices.len() {
                let f = k - old(mesh)@.indices.len();
                assert(mesh@.indices[k] == fan[f]);
            } else {
                assert(mesh@.indices[k] == old(mesh)@.indices[k]);
            }
        }
        assert forall|k: int| 0 <= k < mesh@.vertices.len() implies in_reach(
            (#[trigger] mesh@.vertices[k]).pos,
        ) by {
            if k >= old(mesh)@.vertices.len() {
                let f = k - old(mesh)@.vertices.len();
                assert(mesh@.vertices[k] == corners[f]);
                assert(corners[f].pos == poly@[f].pos);
            } else {
                assert(mesh@.vertices[k] == old(mesh)@.vertices[k]);
            }
        }
    }
}

/// Builds the mesh of a run of convex polygons.
pub fn build_mesh(polys: &Vec<Vec<Corner>>, color: Color, texture: TextureId, flat: bool) -> (mesh:
    Mesh)
    requires
        meshable(views(polys@)),
    ensures
        mesh@ == mesh_of(views(polys@), color, texture, flat),
        mesh@.wf(),
{
    let mut mesh = Mesh::new(texture);
    let mut i: usize = 0;
    while i < polys.len()
        invariant
            i <= polys.len(),
            meshable(views(polys@)),
            mesh@ == mesh_of(views(polys@).take(i as int), color, texture, flat),
            mesh@.wf(),
            mesh@.vertices.len() <= 4 * i || (polys@.len() == 1 && mesh@.vertices.len()
                <= MAX_POINTS),
        decreases polys.len() - i,
    {
        let poly = &polys[i];
        proof {
            let all = views(polys@);
            assert(all[i as int] == poly@);
            assert(all.take(i + 1).drop_last() =~= all.take(i as int));
            assert(all.take(i + 1).last() == poly@);
            assert(all[i as int].len() <= 4 || (all.len() == 1 && all[i as int].len()
                <= MAX_POINTS));
            assert forall|j: int| 0 <= j < poly@.len() implies in_reach(
                #[trigger] poly@[j].pos,
            ) by {
                assert(in_reach(all[i as int][j].pos));
            }
        }
        add_fan(&mut mesh, poly, color, flat);
        i += 1;
    }
    assert(views(polys@).take(polys@.len() as int) =~= views(polys@));
    mesh
}

fn to_device(x: i64, y: i64, scale: u16) -> (p: Point)
    requires
        -0x2_0000_0000 <= x <= 0x2_0000_0000,
        -0x2_0000_0000 <= y <= 0x2_0000_0000,
    ensures
        p == device_point(x as int, y as int, scale),
        p.x == x * scale,
        p.y == y * scale,
        strokable(p),
{
    assert(-0x2_0000_0000 * 0xffff <= x * scale <= 0x2_0000_0000 * 0xffff && -0x2_0000_0000
        * 0xffff <= y * scale <= 0x2_0000_0000 * 0xffff) by (nonlinear_arith)
        requires
            -0x2_0000_0000 <= x <= 0x2_0000_0000,
            -0x2_0000_0000 <= y <= 0x2_0000_0000,
            0 <= scale <= 0xffff,
    ;
    Point { x: x * (scale as i64), y: y * (scale as i64) }
}

fn half_width_of(width: u16, scale: u16) -> (half: u32)
    ensures
        half == half_width(width, scale),
        half <= crate::stroke::MAX_HALF_WIDTH,
{
    assert(width * scale <= 0xffff * 0xffff) by (nonlinear_arith)
        requires
            0 <= width <= 0xffff,
            0 <= scale <= 0xffff,
    ;
    (width as u32) * (scale as u32) / 2
}

fn rect_corners(min: Point, max: Point, uv_min: Uv, uv_max: Uv) -> (quad: Vec<Corner>)
    ensures
        quad@ == rect_quad(min, max, uv_min, uv_max),
{
    let quad = vec![
        Corner { pos: min, uv: uv_min },
        Corner { pos: Point { x: max.x, y: min.y }, uv: Uv { u: uv_max.u, v: uv_min.v } },
        Corner { pos: max, uv: uv_max },
        Corner { pos: Point { x: min.x, y: max.y }, uv: Uv { u: uv_min.u, v: uv_max.v } },
    ];
    assert(quad@ =~= rect_quad(min, max, uv_min, uv_max));
    quad
}

fn segment_corners(a: Point, b: Point, half: u32) -> (quad: Vec<Corner>)
    requires
        strokable(a),
        strokable(b),
        half <= crate::stroke::MAX_HALF_WIDTH,
    ensures
        quad@ == segment_quad(a, b, half as int),
        forall|j: int| 0 <= j < quad@.len() ==> in_reach(#[trigger] quad@[j].pos),
{
    let (ox, oy) = offset_of(a, b, half);
    let uv = Uv { u: 0, v: 0 };
    let a_left = Point { x: a.x + ox, y: a.y + oy };
    let b_left = Point { x: b.x + ox, y: b.y + oy };
    let b_right = Point { x: b.x - ox, y: b.y - oy };
    let a_right = Point { x: a.x - ox, y: a.y - oy };
    let quad = vec![
        Corner { pos: a_left, uv },
        Corner { pos: b_left, uv },
        Corner { pos: b_right, uv },
        Corner { pos: a_right, uv },
    ];
    assert(quad@ =~= segment_quad(a, b, half as int));
    quad
}

/// Lowers a shape to its polygons in device space.
pub fn outline(shape: &Shape, origin: Vec2, size: Vec2, width: u16, scale: u16) -> (polys: Vec<
    Vec<Corner>,
>)
    requires
        shape@.wf(),
    ensures
        views(polys@) == shape@.outline(origin, size, width, scale),
        meshable(views(polys@)),
{
    let ox: i64 = origin.x as i64;
    let oy: i64 = origin.y as i64;
    let mut polys: Vec<Vec<Corner>> = Vec::new();
    match shape {
        Shape::Line { start, end } => {
            let a = to_device(ox + start.x as i64, oy + start.y as i64, scale);
            let b = to_device(ox + end.x as i64, oy + end.y as i64, scale);
            polys.push(segment_corners(a, b, half_width_of(width, scale)));
            assert(views(polys@) =~= shape@.outline(origin, size, width, scale));
        },
        Shape::Path { points, convex } => {
            if *convex {
                let mut poly: Vec<Corner> = Vec::new();
                let mut i: usize = 0;
                while i < points.len()
                    invariant
                        i <= points.len(),
                        ox == origin.x,
                        oy == origin.y,
                        poly@.len() == i,
                        forall|k: int|
                            0 <= k < i ==> #[trigger] poly@[k] == (Corner {
                                pos: device_point(
                                    origin.x + points@[k].x,
                                    origin.y + points@[k].y,
                                    scale,
                                ),
                                uv: solid_uv(),
                            }),
                        forall|k: int| 0 <= k < i ==> in_reach(#[trigger] poly@[k].pos),
                    decreases points.len() - i,
                {
                    let p: Vec2 = points[i];
                    let pos = to_device(ox + p.x as i64, oy + p.y as i64, scale);
                    poly.push(Corner { pos, uv: Uv { u: 0, v: 0 } });
                    i += 1;
                }
                polys.push(poly);
                assert(views(polys@)[0] =~= shape@.outline(origin, size, width, scale)[0]);
                assert(views(polys@) =~= shape@.outline(origin, size, width, scale));
            } else {
                let half: u32 = half_width_of(width, scale);
                let mut i: usize = 0;
                while i + 1 < points.len()
                    invariant
                        i < points.len(),
                        points.len() <= MAX_POINTS,
                        ox == origin.x,
                        oy == origin.y,
                        half == half_width(width, scale),
                        half <= crate::stroke::MAX_HALF_WIDTH,
                        polys@.len() == i,
                        forall|k: int|
                            0 <= k < i ==> (#[trigger] polys@[k])@ == segment_quad(
                                device_point(
                                    origin.x + points@[k].x,
                                    origin.y + points@[k].y,
                                    scale,
                                ),
                                device_point(
                                    origin.x + points@[k + 1].x,
                                    origin.y + points@[k + 1].y,
                                    scale,
                                ),
                                half as int,
                            ),
                        forall|k: int, j: int|
                            0 <= k < i && 0 <= j < polys@[k]@.len() ==> in_reach(
                                #[trigger] polys@[k]@[j].pos,
                            ),
                    decreases points.len() - i,
                {
                    let p: Vec2 = points[i];
                    let q: Vec2 = points[i + 1];
                    let a = to_device(ox + p.x as i64, oy + p.y as i64, scale);
                    let b = to_device(ox + q.x as i64, oy + q.y as i64, scale);
                    polys.push(segment_corners(a, b, half));
                    i += 1;
                }
                assert(views(polys@) =~= shape@.outline(origin, size, width, scale));
            }
        },
        Shape::Rectangle => {
            let min = to_device(ox, oy, scale);
            let max = to_device(ox + size.x as i64, oy + size.y as i64, scale);
            let uv = Uv { u: 0, v: 0 };
            polys.push(rect_corners(min, max, uv, uv));
            assert(views(polys@) =~= shape@.outline(origin, size, width, scale));
        },
        Shape::Text { glyphs } => {
            let mut i: usize = 0;
            while i < glyphs.len()
                invariant
                    i <= glyphs.len(),
                    glyphs.len() <= MAX_POINTS,
                    ox == origin.x,
                    oy == origin.y,
                    polys@.len() == i,
                    forall|k: int|
                        0 <= k < i ==> (#[trigger] polys@[k])@ == rect_quad(
                            device_point(
                                origin.x + glyphs@[k].pos.x,
                                origin.y + glyphs@[k].pos.y,
                                scale,
                            ),
                            device_point(
                                origin.x + glyphs@[k].pos.x + glyphs@[k].size.x,
                                origin.y + glyphs@[k].pos.y + glyphs@[k].size.y,
                                scale,
                            ),
                            glyphs@[k].uv_min,
                            glyphs@[k].uv_max,
                        ),
                    forall|k: int, j: int|
                        0 <= k < i && 0 <= j < polys@[k]@.len() ==> in_reach(
                            #[trigger] polys@[k]@[j].pos,
                        ),
                decreases glyphs.len() - i,
            {
                let g: Glyph = glyphs[i];
                let x: i64 = ox + g.pos.x as i64;
                let y: i64 = oy + g.pos.y as i64;
                let min = to_device(x, y, scale);
                let max = to_device(x + g.size.x as i64, y + g.size.y as i64, scale);
                polys.push(rect_corners(min, max, g.uv_min, g.uv_max));
                i += 1;
            }
            assert(views(polys@) =~= shape@.outline(origin, size, width, scale));
        },
        Shape::Image { texture } => {
            let min = to_device(ox, oy, scale);
            let max = to_device(ox + size.x as i64, oy + size.y as i64, scale);
            polys.push(rect_corners(min, max, Uv { u: 0, v: 0 }, Uv { u: 0xffff, v: 0xffff }));
            assert(views(polys@) =~= shape@.outline(origin, size, width, scale));
        },
    }
    polys
}

/// The paint mesh and the pick mesh of a shape: the fans of its polygons,
/// the first in the style's colour and with the shape's texture, the second
/// in the colour that packs the node's identity, without texture, and with
/// lines as wide as `PICK_LINE_WIDTH`. Where either would hold no triangle,
/// both are empty.
pub open spec fn tessellation(
    shape: ShapeView,
    origin: Vec2,
    size: Vec2,
    style: Style,
    id: u64,
    scale: u16,
) -> (MeshView, MeshView) {
    let paint = mesh_of(
        shape.outline(origin, size, style.stroke_width, scale),
        style.color,
        shape.texture(),
        false,
    );
    let pick = mesh_of(
        shape.outline(origin, size, PICK_LINE_WIDTH, scale),
        pick_color_of(id),
        no_texture(),
        true,
    );
    if paint.is_empty() || pick.is_empty() {
        (MeshView::empty(shape.texture()), MeshView::empty(no_texture()))
    } else {
        (paint, pick)
    }
}

/// Every vertex of a mesh of polygons has the colour it was built with.
pub proof fn lemma_mesh_of_color(
    polys: Seq<Seq<Corner>>,
    color: Color,
    texture: TextureId,
    flat: bool,
)
    ensures
        mesh_of(polys, color, texture, flat).has_color(color),
        mesh_of(polys, color, texture, flat).texture_id == texture,
    decreases polys.len(),
{
    if polys.len() > 0 {
        lemma_mesh_of_color(polys.drop_last(), color, texture, flat);
    }
}

/// Whether two meshes have the same triangles in the same places.
pub open spec fn same_geometry(a: MeshView, b: MeshView) -> bool {
    &&& a.indices == b.indices
    &&& a.vertices.len() == b.vertices.len()
    &&& forall|i: int| 0 <= i < a.vertices.len() ==> (#[trigger] a.vertices[i]).pos == b.vertices[i].pos
}

/// The geometry of a mesh of polygons does not depend on its colour, its
/// texture, or whether it is flat.
pub proof fn lemma_mesh_of_geometry(
    polys: Seq<Seq<Corner>>,
    color: Color,
    texture: TextureId,
    flat: bool,
    other_color: Color,
    other_texture: TextureId,
    other_flat: bool,
)
    ensures
        same_geometry(
            mesh_of(polys, color, texture, flat),
            mesh_of(polys, other_color, other_texture, other_flat),
        ),
    decreases polys.len(),
{
    if polys.len() > 0 {
        lemma_mesh_of_geometry(
            polys.drop_last(),
            color,
            texture,
            flat,
            other_color,
            other_texture,
            other_flat,
        );
    }
}

impl ShapeView {
    /// Whether the shape is made of areas, not of lines: its polygons are
    /// the same at every line width.
    pub open spec fn filled(self) -> bool {
        match self {
            ShapeView::Line { .. } => false,
            ShapeView::Path { convex, .. } => convex,
            _ => true,
        }
    }
}

/// The pick mesh of a shape made of areas has the geometry of its paint
/// mesh: only colour and texture tell the two apart.
pub proof fn lemma_pick_matches_paint(
    shape: ShapeView,
    origin: Vec2,
    size: Vec2,
    style: Style,
    id: u64,
    scale: u16,
)
    requires
        shape.filled(),
    ensures
        same_geometry(
            tessellation(shape, origin, size, style, id, scale).0,
            tessellation(shape, origin, size, style, id, scale).1,
        ),
{
    assert(shape.outline(origin, size, style.stroke_width, scale) == shape.outline(
        origin,
        size,
        PICK_LINE_WIDTH,
        scale,
    ));
    lemma_mesh_of_geometry(
        shape.outline(origin, size, PICK_LINE_WIDTH, scale),
        style.color,
        shape.texture(),
        false,
        pick_color_of(id),
        no_texture(),
        true,
    );
}

/// Tessellation is a function of its inputs: the same shape, placement,
/// style, identity and scale give the same two meshes, vertex for vertex
/// and index for index.
pub proof fn lemma_tessellation_deterministic(
    shape: ShapeView,
    again: ShapeView,
    origin: Vec2,
    size: Vec2,
    style: Style,
    id: u64,
    scale: u16,
)
    requires
        shape == again,
    ensures
        tessellation(shape, origin, size, style, id, scale) == tessellation(
            again,
            origin,
            size,
            style,
            id,
            scale,
        ),
{
}

/// Tessellates a shape for a node at `origin` of extent `size`.
pub fn tessellate(shape: &Shape, origin: Vec2, size: Vec2, style: Style, id: u64, scale: u16)
    -> (meshes: (Mesh, Mesh))
    requires
        shape@.wf(),
    ensures
        (meshes.0@, meshes.1@) == tessellation(shape@, origin, size, style, id, scale),
        meshes.0@.wf(),
        meshes.1@.wf(),
        meshes.0@.is_empty() == meshes.1@.is_empty(),
        meshes.0@.has_color(style.color),
        meshes.1@.has_color(pick_color_of(id)),
        meshes.0@.texture_id == shape@.texture(),
        meshes.1@.texture_id == no_texture(),
{
    let texture = match shape {
        Shape::Image { texture } => *texture,
        _ => TextureId::Managed(0),
    };
    let paint_polys = outline(shape, origin, size, style.stroke_width, scale);
    let paint = build_mesh(&paint_polys, style.color, texture, false);
    let pick_polys = outline(shape, origin, size, PICK_LINE_WIDTH, scale);
    let pick = build_mesh(&pick_polys, pick_color(id), TextureId::Managed(0), true);
    proof {
        lemma_mesh_of_color(views(paint_polys@), style.color, texture, false);
        lemma_mesh_of_color(views(pick_polys@), pick_color_of(id), no_texture(), true);
    }
    if paint.is_empty() || pick.is_empty() {
        (Mesh::new(texture), Mesh::new(TextureId::Managed(0)))
    } else {
        (paint, pick)
    }
}

} // verus!
