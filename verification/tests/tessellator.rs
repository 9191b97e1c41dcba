use radiant::color::{pick_color, Color};
use radiant::error::RadiantError;
use radiant::geometry::Point;
use radiant::mesh::{Mesh, TextureId, Uv, Vertex};
use radiant::tessellator::{
    build_mesh, outline, tessellate, Corner, Glyph, Shape, Style, Vec2, LINE_WIDTH,
    PICK_LINE_WIDTH,
};

const LIGHT_RED: Color = Color { r: 255, g: 128, b: 128, a: 255 };
const RED: Color = Color { r: 255, g: 0, b: 0, a: 255 };

fn v2(x: i32, y: i32) -> Vec2 {
    Vec2 { x, y }
}

fn positions(mesh: &Mesh) -> Vec<(i64, i64)> {
    mesh.vertices.iter().map(|v| (v.pos.x, v.pos.y)).collect()
}

fn same(a: &Mesh, b: &Mesh) -> bool {
    a.indices == b.indices && a.vertices == b.vertices && a.texture_id == b.texture_id
}

fn plain(selected: bool) -> Style {
    Style::for_selection(&Shape::Rectangle, selected)
}

#[test]
fn style_follows_selection() {
    assert_eq!(plain(false), Style { stroke_width: 1, color: LIGHT_RED });
    assert_eq!(plain(true), Style { stroke_width: 1, color: RED });
    assert_eq!(LINE_WIDTH, 1);
    assert_eq!(PICK_LINE_WIDTH, 8);
}

#[test]
fn unselected_colour_follows_the_shape() {
    let line = Shape::Line { start: v2(0, 0), end: v2(1, 1) };
    let image = Shape::Image { texture: TextureId::User(1) };
    let path = Shape::Path { points: vec![v2(0, 0), v2(1, 1)], convex: false };
    let text = Shape::Text { glyphs: Vec::new() };
    let blue = Color { r: 0, g: 0, b: 255, a: 255 };
    let white = Color { r: 255, g: 255, b: 255, a: 255 };
    assert_eq!(Style::for_selection(&line, false).color, blue);
    assert_eq!(Style::for_selection(&image, false).color, white);
    assert_eq!(Style::for_selection(&path, false).color, LIGHT_RED);
    assert_eq!(Style::for_selection(&text, false).color, LIGHT_RED);
    for shape in [&line, &image, &path, &text] {
        assert_eq!(Style::for_selection(shape, true), Style { stroke_width: 1, color: RED });
    }
}

#[test]
fn rectangle_is_a_fan_of_two_triangles() {
    let (paint, pick) = tessellate(
        &Shape::Rectangle,
        v2(10, 10),
        v2(50, 50),
        plain(false),
        0,
        256,
    );
    assert_eq!(positions(&paint), vec![(2560, 2560), (15360, 2560), (15360, 15360), (2560, 15360)]);
    assert_eq!(paint.indices, vec![0, 1, 2, 0, 2, 3]);
    assert!(paint.vertices.iter().all(|v| v.color == LIGHT_RED && v.uv == Uv { u: 0, v: 0 }));
    assert_eq!(paint.texture_id, TextureId::Managed(0));
    assert_eq!(positions(&pick), positions(&paint));
    assert_eq!(pick.indices, paint.indices);
    assert!(pick.vertices.iter().all(|v| v.color == Color { r: 1, g: 0, b: 0, a: 255 }));
    assert_eq!(pick.texture_id, TextureId::Managed(0));
    assert!(paint.is_valid() && pick.is_valid());
}

#[test]
fn mesh_positions_scale_with_pixels_per_point() {
    let (paint, _) =
        tessellate(&Shape::Rectangle, v2(-4, 6), v2(8, 10), plain(true), 5, 384);
    assert_eq!(positions(&paint), vec![(-1536, 2304), (1536, 2304), (1536, 6144), (-1536, 6144)]);
    assert!(paint.vertices.iter().all(|v| v.color == RED));
}

#[test]
fn line_is_a_quad_one_point_wide_and_eight_for_picking() {
    let line = Shape::Line { start: v2(0, 0), end: v2(10, 0) };
    let (paint, pick) = tessellate(&line, v2(0, 0), v2(8, 8), plain(false), 41, 256);
    assert_eq!(positions(&paint), vec![(0, 128), (2560, 128), (2560, -128), (0, -128)]);
    assert_eq!(paint.indices, vec![0, 1, 2, 0, 2, 3]);
    assert_eq!(positions(&pick), vec![(0, 1024), (2560, 1024), (2560, -1024), (0, -1024)]);
    assert_eq!(pick.indices, vec![0, 1, 2, 0, 2, 3]);
    assert!(pick.vertices.iter().all(|v| v.color == pick_color(41)));
    assert!(pick.vertices.iter().all(|v| v.color == Color { r: 42, g: 0, b: 0, a: 255 }));
}

#[test]
fn line_is_placed_by_the_node_position() {
    let line = Shape::Line { start: v2(0, 0), end: v2(3, 4) };
    let (paint, _) = tessellate(&line, v2(100, 200), v2(8, 8), plain(false), 0, 256);
    // From (25600, 51200) to (26368, 52224), offset (-102, 76).
    assert_eq!(
        positions(&paint),
        vec![(25498, 51276), (26266, 52300), (26470, 52148), (25702, 51124)]
    );
}

#[test]
fn line_width_scales_with_pixels_per_point() {
    let line = Shape::Line { start: v2(0, 0), end: v2(0, 10) };
    let (paint, pick) = tessellate(&line, v2(0, 0), v2(8, 8), plain(false), 0, 512);
    assert_eq!(positions(&paint), vec![(-256, 0), (-256, 5120), (256, 5120), (256, 0)]);
    assert_eq!(positions(&pick), vec![(-2048, 0), (-2048, 5120), (2048, 5120), (2048, 0)]);
}

#[test]
fn convex_path_is_fan_triangulated() {
    let diamond = Shape::Path {
        points: vec![v2(0, 0), v2(200, 200), v2(0, 400), v2(-200, 200)],
        convex: true,
    };
    let (paint, pick) = tessellate(&diamond, v2(0, 0), v2(8, 8), plain(true), 2, 256);
    assert_eq!(positions(&paint), vec![(0, 0), (51200, 51200), (0, 102400), (-51200, 51200)]);
    assert_eq!(paint.indices, vec![0, 1, 2, 0, 2, 3]);
    assert!(paint.vertices.iter().all(|v| v.color == RED));
    assert_eq!(positions(&pick), positions(&paint));
    assert!(pick.vertices.iter().all(|v| v.color == Color { r: 3, g: 0, b: 0, a: 255 }));

    let hexagon = Shape::Path {
        points: vec![v2(1, 0), v2(2, 0), v2(3, 1), v2(2, 2), v2(1, 2), v2(0, 1)],
        convex: true,
    };
    let (paint, _) = tessellate(&hexagon, v2(10, 10), v2(8, 8), plain(false), 0, 256);
    assert_eq!(paint.vertices.len(), 6);
    assert_eq!(paint.indices, vec![0, 1, 2, 0, 2, 3, 0, 3, 4, 0, 4, 5]);
    assert_eq!(paint.vertices[5].pos, Point { x: 2560, y: 2816 });
}

#[test]
fn open_path_is_a_run_of_line_quads() {
    let path = Shape::Path { points: vec![v2(0, 0), v2(10, 0), v2(10, 10)], convex: false };
    let (paint, pick) = tessellate(&path, v2(0, 0), v2(8, 8), plain(false), 0, 256);
    assert_eq!(
        positions(&paint),
        vec![
            (0, 128),
            (2560, 128),
            (2560, -128),
            (0, -128),
            (2432, 0),
            (2432, 2560),
            (2688, 2560),
            (2688, 0)
        ]
    );
    // The second quad's indices are moved past the first quad's vertices.
    assert_eq!(paint.indices, vec![0, 1, 2, 0, 2, 3, 4, 5, 6, 4, 6, 7]);
    assert_eq!(pick.vertices.len(), 8);
    assert_eq!(pick.vertices[4].pos, Point { x: 1536, y: 0 });
}

#[test]
fn segment_without_length_adds_nothing() {
    let path =
        Shape::Path { points: vec![v2(0, 0), v2(0, 0), v2(10, 0), v2(10, 0)], convex: false };
    let (paint, _) = tessellate(&path, v2(0, 0), v2(8, 8), plain(false), 0, 256);
    assert_eq!(positions(&paint), vec![(0, 128), (2560, 128), (2560, -128), (0, -128)]);
    assert_eq!(paint.indices, vec![0, 1, 2, 0, 2, 3]);
}

#[test]
fn image_carries_its_texture_and_the_pick_mesh_none() {
    let texture = TextureId::User(9);
    let (paint, pick) = tessellate(
        &Shape::Image { texture },
        v2(100, 200),
        v2(100, 100),
        plain(false),
        7,
        256,
    );
    assert_eq!(paint.texture_id, texture);
    assert_eq!(
        paint.vertices,
        vec![
            Vertex { pos: Point { x: 25600, y: 51200 }, uv: Uv { u: 0, v: 0 }, color: LIGHT_RED },
            Vertex {
                pos: Point { x: 51200, y: 51200 },
                uv: Uv { u: 65535, v: 0 },
                color: LIGHT_RED
            },
            Vertex {
                pos: Point { x: 51200, y: 76800 },
                uv: Uv { u: 65535, v: 65535 },
                color: LIGHT_RED
            },
            Vertex {
                pos: Point { x: 25600, y: 76800 },
                uv: Uv { u: 0, v: 65535 },
                color: LIGHT_RED
            },
        ]
    );
    assert_eq!(pick.texture_id, TextureId::Managed(0));
    assert!(pick.vertices.iter().all(|v| v.uv == Uv { u: 0, v: 0 } && v.color == pick_color(7)));
    assert_eq!(positions(&pick), positions(&paint));
}

#[test]
fn text_is_one_quad_for_each_glyph() {
    let glyphs = vec![
        Glyph {
            pos: v2(0, 0),
            size: v2(5, 8),
            uv_min: Uv { u: 10, v: 20 },
            uv_max: Uv { u: 30, v: 40 },
        },
        Glyph {
            pos: v2(6, 0),
            size: v2(4, 8),
            uv_min: Uv { u: 50, v: 60 },
            uv_max: Uv { u: 70, v: 80 },
        },
    ];
    let (paint, pick) =
        tessellate(&Shape::Text { glyphs }, v2(1, 2), v2(100, 100), plain(false), 0, 256);
    assert_eq!(
        positions(&paint),
        vec![
            (256, 512),
            (1536, 512),
            (1536, 2560),
            (256, 2560),
            (1792, 512),
            (2816, 512),
            (2816, 2560),
            (1792, 2560)
        ]
    );
    assert_eq!(paint.indices, vec![0, 1, 2, 0, 2, 3, 4, 5, 6, 4, 6, 7]);
    assert_eq!(paint.vertices[0].uv, Uv { u: 10, v: 20 });
    assert_eq!(paint.vertices[1].uv, Uv { u: 30, v: 20 });
    assert_eq!(paint.vertices[2].uv, Uv { u: 30, v: 40 });
    assert_eq!(paint.vertices[3].uv, Uv { u: 10, v: 40 });
    assert_eq!(paint.vertices[6].uv, Uv { u: 70, v: 80 });
    assert!(pick.vertices.iter().all(|v| v.uv == Uv { u: 0, v: 0 }));
    // No glyph, no mesh.
    let (paint, pick) = tessellate(
        &Shape::Text { glyphs: Vec::new() },
        v2(1, 2),
        v2(100, 100),
        plain(false),
        0,
        256,
    );
    assert!(paint.is_empty() && pick.is_empty());
}

#[test]
fn shape_without_area_gives_an_empty_pair() {
    let style = plain(false);
    let point = Shape::Line { start: v2(3, 3), end: v2(3, 3) };
    let (paint, pick) = tessellate(&point, v2(0, 0), v2(8, 8), style, 0, 256);
    assert!(paint.is_empty() && pick.is_empty());
    assert!(paint.vertices.is_empty() && paint.indices.is_empty());

    let collinear = Shape::Path { points: vec![v2(0, 0), v2(1, 1), v2(2, 2)], convex: true };
    let (paint, pick) = tessellate(&collinear, v2(0, 0), v2(8, 8), style, 0, 256);
    assert!(paint.is_empty() && pick.is_empty());

    // At a scale of zero nothing has area.
    let (paint, pick) = tessellate(&Shape::Rectangle, v2(0, 0), v2(50, 50), style, 0, 0);
    assert!(paint.is_empty() && pick.is_empty());
    let image = Shape::Image { texture: TextureId::User(1) };
    let (paint, pick) = tessellate(&image, v2(0, 0), v2(50, 50), style, 0, 0);
    assert!(paint.is_empty() && pick.is_empty());
    assert_eq!(paint.texture_id, TextureId::User(1));
    assert_eq!(pick.texture_id, TextureId::Managed(0));
}

#[test]
fn line_too_thin_to_paint_is_not_picked_either() {
    // At 1/256 pixel per point the paint line has no width, the pick line has.
    let line = Shape::Line { start: v2(0, 0), end: v2(1000, 0) };
    let (paint, pick) = tessellate(&line, v2(0, 0), v2(8, 8), plain(false), 0, 1);
    assert!(paint.is_empty() && pick.is_empty());
    let polys = outline(&line, v2(0, 0), v2(8, 8), PICK_LINE_WIDTH, 1);
    let alone = build_mesh(&polys, RED, TextureId::Managed(0), true);
    assert_eq!(positions(&alone), vec![(0, 4), (1000, 4), (1000, -4), (0, -4)]);
}

#[test]
fn tessellating_twice_gives_identical_meshes() {
    let shapes = vec![
        Shape::Rectangle,
        Shape::Line { start: v2(0, 0), end: v2(37, -91) },
        Shape::Path { points: vec![v2(0, 0), v2(200, 200), v2(0, 400), v2(-200, 200)], convex: true },
        Shape::Path { points: vec![v2(0, 0), v2(5, 9), v2(-3, 4)], convex: false },
        Shape::Image { texture: TextureId::Managed(4) },
    ];
    for shape in &shapes {
        for scale in [1u16, 256, 300, 512, 65535] {
            let style = plain(true);
            let (paint_a, pick_a) = tessellate(shape, v2(-7, 13), v2(50, 60), style, 99, scale);
            let (paint_b, pick_b) = tessellate(shape, v2(-7, 13), v2(50, 60), style, 99, scale);
            assert!(same(&paint_a, &paint_b));
            assert!(same(&pick_a, &pick_b));
            assert!(paint_a.is_valid() && pick_a.is_valid());
            assert_eq!(paint_a.is_empty(), pick_a.is_empty());
        }
    }
}

#[test]
fn extreme_coordinates_stay_within_reach() {
    let (paint, pick) = tessellate(
        &Shape::Rectangle,
        v2(i32::MIN, i32::MAX),
        v2(i32::MAX, i32::MAX),
        plain(false),
        u64::MAX,
        65535,
    );
    assert!(paint.is_valid() && pick.is_valid());
    assert_eq!(paint.vertices[0].pos, Point { x: -2147483648 * 65535, y: 2147483647 * 65535 });
    assert_eq!(paint.vertices[2].pos, Point { x: -65535, y: 4294967294 * 65535 });
    let line = Shape::Line { start: v2(i32::MIN, i32::MIN), end: v2(i32::MAX, i32::MAX) };
    let (paint, _) =
        tessellate(&line, v2(i32::MIN, i32::MIN), v2(8, 8), plain(false), 0, 65535);
    assert!(paint.is_valid());
    assert_eq!(paint.vertices.len(), 4);
}

#[test]
fn build_mesh_leaves_out_polygons_without_area() {
    let corner = |x: i64, y: i64| Corner { pos: Point { x, y }, uv: Uv { u: 1, v: 2 } };
    let polys = vec![
        vec![corner(0, 0), corner(4, 0), corner(0, 4)],
        vec![corner(0, 0), corner(4, 0)],
        vec![corner(0, 0), corner(1, 1), corner(2, 2), corner(3, 3)],
        vec![corner(9, 9), corner(9, 0), corner(0, 9), corner(0, 0)],
    ];
    let mesh = build_mesh(&polys, RED, TextureId::User(2), false);
    assert_eq!(positions(&mesh), vec![(0, 0), (4, 0), (0, 4), (9, 9), (9, 0), (0, 9), (0, 0)]);
    assert_eq!(mesh.indices, vec![0, 1, 2, 3, 4, 5, 3, 5, 6]);
    assert!(mesh.vertices.iter().all(|v| v.uv == Uv { u: 1, v: 2 } && v.color == RED));
    assert_eq!(mesh.texture_id, TextureId::User(2));
    let flat = build_mesh(&polys, RED, TextureId::User(2), true);
    assert!(flat.vertices.iter().all(|v| v.uv == Uv { u: 0, v: 0 }));
}

#[test]
fn malformed_shapes_are_invalid_geometry() {
    let invalid = Err(RadiantError::InvalidGeometry);
    assert_eq!(Shape::Path { points: vec![], convex: false }.validate(), invalid);
    assert_eq!(Shape::Path { points: vec![v2(0, 0)], convex: false }.validate(), invalid);
    assert_eq!(Shape::Path { points: vec![v2(0, 0), v2(1, 1)], convex: false }.validate(), Ok(()));
    assert_eq!(Shape::Path { points: vec![v2(0, 0), v2(1, 1)], convex: true }.validate(), invalid);
    assert_eq!(
        Shape::Path { points: vec![v2(0, 0), v2(1, 1), v2(0, 1)], convex: true }.validate(),
        Ok(())
    );
    let many = vec![v2(0, 0); (1 << 20) + 1];
    assert_eq!(Shape::Path { points: many.clone(), convex: true }.validate(), invalid);
    assert_eq!(Shape::Path { points: many[1..].to_vec(), convex: true }.validate(), Ok(()));
    assert_eq!(Shape::Rectangle.validate(), Ok(()));
    assert_eq!(Shape::Line { start: v2(0, 0), end: v2(0, 0) }.validate(), Ok(()));
    assert_eq!(Shape::Text { glyphs: vec![] }.validate(), Ok(()));
    assert_eq!(Shape::Image { texture: TextureId::User(0) }.validate(), Ok(()));
}
