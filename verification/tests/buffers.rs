use radiant::buffers::{
    flatten_indices, flatten_vertices, grow_capacity, INDEX_BUFFER_START_CAPACITY,
    VERTEX_BUFFER_START_CAPACITY,
};
use radiant::color::Color;
use radiant::geometry::{Point, Rect};
use radiant::mesh::{ClippedPrimitive, Mesh, TextureId, Uv, Vertex};

fn vertex(x: i64, y: i64) -> Vertex {
    Vertex {
        pos: Point { x, y },
        uv: Uv { u: 0, v: 0 },
        color: Color { r: 1, g: 2, b: 3, a: 255 },
    }
}

fn job(vertices: Vec<Vertex>, indices: Vec<u32>) -> ClippedPrimitive {
    ClippedPrimitive {
        clip_rect: Rect::everything(),
        mesh: Mesh { indices, vertices, texture_id: TextureId::Managed(0) },
    }
}

#[test]
fn start_capacities() {
    assert_eq!(VERTEX_BUFFER_START_CAPACITY, 20480);
    assert_eq!(INDEX_BUFFER_START_CAPACITY, 12288);
}

#[test]
fn capacity_that_suffices_is_kept() {
    assert_eq!(grow_capacity(100, 0, 1000), 100);
    assert_eq!(grow_capacity(100, 99, 1000), 100);
    assert_eq!(grow_capacity(100, 100, 1000), 100);
    // Kept even where it is above the limit.
    assert_eq!(grow_capacity(5000, 900, 1000), 5000);
}

#[test]
fn capacity_doubles_until_it_suffices() {
    assert_eq!(grow_capacity(100, 101, 1000), 200);
    assert_eq!(grow_capacity(100, 200, 1000), 200);
    assert_eq!(grow_capacity(100, 201, 1000), 400);
    assert_eq!(grow_capacity(100, 350, 1000), 400);
    assert_eq!(grow_capacity(12288, 16000, 1 << 28), 24576);
    assert_eq!(grow_capacity(3, 1000, 1 << 28), 1536);
    assert_eq!(grow_capacity(1, u64::MAX / 2 + 1, u64::MAX), 1 << 63);
}

#[test]
fn capacity_is_held_to_the_limit() {
    assert_eq!(grow_capacity(100, 900, 1000), 1000);
    assert_eq!(grow_capacity(100, 1000, 1000), 1000);
    assert_eq!(grow_capacity(1, u64::MAX, u64::MAX), u64::MAX);
}

#[test]
fn growth_stays_within_its_bounds() {
    for &(capacity, required) in
        &[(1u64, 2u64), (7, 100), (100, 101), (100, 6400), (100, 6401), (12288, 1_000_000)]
    {
        let grown = grow_capacity(capacity, required, u64::MAX);
        assert!(grown >= required);
        assert!(grown < 2 * required);
        // A power-of-two multiple of the prior capacity.
        assert_eq!(grown % capacity, 0);
        assert!((grown / capacity).is_power_of_two());
    }
}

#[test]
fn flattening_keeps_every_mesh_in_order() {
    let jobs = vec![
        job(vec![vertex(0, 0), vertex(1, 0), vertex(1, 1), vertex(0, 1)], vec![0, 1, 2, 0, 2, 3]),
        job(vec![], vec![]),
        job(vec![vertex(5, 5), vertex(6, 5), vertex(6, 6)], vec![0, 1, 2]),
    ];
    // Indices stay relative to each mesh's own vertices.
    assert_eq!(flatten_indices(&jobs), vec![0, 1, 2, 0, 2, 3, 0, 1, 2]);
    assert_eq!(
        flatten_vertices(&jobs),
        vec![
            vertex(0, 0),
            vertex(1, 0),
            vertex(1, 1),
            vertex(0, 1),
            vertex(5, 5),
            vertex(6, 5),
            vertex(6, 6)
        ]
    );
    assert_eq!(flatten_indices(&Vec::new()), Vec::<u32>::new());
}
