use radiant::color::Color;
use radiant::geometry::{Point, Rect};
use radiant::mesh::{point_in_triangle, Mesh, TextureId, Uv, Vertex, COORD_LIMIT};

fn p(x: i64, y: i64) -> Point {
    Point { x, y }
}

fn vertex(x: i64, y: i64) -> Vertex {
    Vertex { pos: p(x, y), uv: Uv { u: 0, v: 0 }, color: Color { r: 0, g: 0, b: 0, a: 255 } }
}

fn square() -> Mesh {
    Mesh {
        indices: vec![0, 1, 2, 0, 2, 3],
        vertices: vec![vertex(0, 0), vertex(10, 0), vertex(10, 10), vertex(0, 10)],
        texture_id: TextureId::Managed(0),
    }
}

#[test]
fn point_in_triangle_includes_edges_and_corners() {
    let (a, b, c) = (p(0, 0), p(10, 0), p(0, 10));
    assert!(point_in_triangle(a, b, c, p(1, 1)));
    assert!(point_in_triangle(a, b, c, p(0, 0)));
    assert!(point_in_triangle(a, b, c, p(10, 0)));
    assert!(point_in_triangle(a, b, c, p(5, 5)));
    assert!(point_in_triangle(a, b, c, p(0, 7)));
    assert!(!point_in_triangle(a, b, c, p(6, 5)));
    assert!(!point_in_triangle(a, b, c, p(-1, 0)));
    assert!(!point_in_triangle(a, b, c, p(11, 0)));
    // The other winding holds the same points.
    assert!(point_in_triangle(a, c, b, p(1, 1)));
    assert!(!point_in_triangle(a, c, b, p(6, 5)));
}

#[test]
fn triangle_without_area_holds_no_point() {
    assert!(!point_in_triangle(p(0, 0), p(5, 5), p(10, 10), p(5, 5)));
    assert!(!point_in_triangle(p(0, 0), p(5, 5), p(10, 10), p(20, 20)));
    assert!(!point_in_triangle(p(3, 3), p(3, 3), p(3, 3), p(3, 3)));
}

#[test]
fn point_in_triangle_at_the_coordinate_limit() {
    let l = COORD_LIMIT;
    assert!(point_in_triangle(p(-l, -l), p(l, -l), p(-l, l), p(0, 0)));
    assert!(!point_in_triangle(p(-l, -l), p(l, -l), p(-l, l), p(l, l)));
    assert!(point_in_triangle(p(-l, -l), p(l, -l), p(-l, l), p(-l, l)));
}

#[test]
fn mesh_covers_what_its_triangles_hold() {
    let mesh = square();
    assert!(mesh.covers(p(5, 5)));
    assert!(mesh.covers(p(0, 0)));
    assert!(mesh.covers(p(10, 10)));
    assert!(mesh.covers(p(1, 9)));
    assert!(mesh.covers(p(9, 1)));
    assert!(!mesh.covers(p(11, 5)));
    assert!(!mesh.covers(p(5, -1)));
    assert!(!Mesh::new(TextureId::Managed(0)).covers(p(0, 0)));
}

#[test]
fn extent_is_the_least_rectangle_around_the_vertices() {
    assert_eq!(square().extent(), Some(Rect { min: p(0, 0), max: p(10, 10) }));
    let mesh = Mesh {
        indices: vec![],
        vertices: vec![vertex(3, -4), vertex(-7, 2), vertex(5, 1)],
        texture_id: TextureId::Managed(0),
    };
    assert_eq!(mesh.extent(), Some(Rect { min: p(-7, -4), max: p(5, 2) }));
    let one = Mesh { indices: vec![], vertices: vec![vertex(3, -4)], texture_id: TextureId::User(0) };
    assert_eq!(one.extent(), Some(Rect { min: p(3, -4), max: p(3, -4) }));
    assert_eq!(Mesh::new(TextureId::Managed(0)).extent(), None);
}

#[test]
fn mesh_validity() {
    assert!(square().is_valid());
    assert!(Mesh::new(TextureId::Managed(0)).is_valid());
    let mut short = square();
    short.indices.pop();
    assert!(!short.is_valid());
    let mut dangling = square();
    dangling.indices[4] = 4;
    assert!(!dangling.is_valid());
    let mut far = square();
    far.vertices[1].pos.x = COORD_LIMIT + 1;
    assert!(!far.is_valid());
    far.vertices[1].pos.x = COORD_LIMIT;
    assert!(far.is_valid());
    far.vertices[1].pos.y = -COORD_LIMIT - 1;
    assert!(!far.is_valid());
}

#[test]
fn duplicate_is_equal_and_independent() {
    let mesh = square();
    let mut copy = mesh.duplicate();
    assert_eq!(copy.indices, mesh.indices);
    assert_eq!(copy.vertices, mesh.vertices);
    assert_eq!(copy.texture_id, mesh.texture_id);
    copy.indices.clear();
    assert_eq!(mesh.indices.len(), 6);
    assert!(copy.is_empty());
    assert!(!mesh.is_empty());
}

#[test]
fn logical_rect_rounds_outward() {
    let device = Rect { min: p(2560, -2561), max: p(15361, -1) };
    assert_eq!(device.to_logical(256), Rect { min: p(10, -11), max: p(61, 0) });
    assert_eq!(device.to_logical(1), device);
    let exact = Rect { min: p(-512, 512), max: p(1024, 1536) };
    assert_eq!(exact.to_logical(512), Rect { min: p(-1, 1), max: p(2, 3) });
    let far = Rect { min: p(i64::MIN, i64::MIN), max: p(i64::MAX, i64::MAX) };
    assert_eq!(far.to_logical(1), far);
    assert_eq!(
        far.to_logical(2),
        Rect { min: p(i64::MIN / 2, i64::MIN / 2), max: p(i64::MAX / 2 + 1, i64::MAX / 2 + 1) }
    );
}
