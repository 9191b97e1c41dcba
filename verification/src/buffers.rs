//! Growable device buffers as an arena: a capacity that grows by doubling
//! and the byte range that each mesh takes in the shared storage.

use vstd::prelude::*;
use crate::mesh::{ClippedPrimitive, Vertex};

verus! {

/// Bytes that one vertex takes in the vertex buffer.
pub const VERTEX_SIZE: u64 = 20;

/// Bytes that one index takes in the index buffer.
pub const INDEX_SIZE: u64 = 4;

/// Capacity in bytes that a vertex buffer starts with.
pub const VERTEX_BUFFER_START_CAPACITY: u64 = 20 * 1024;

/// Capacity in bytes that an index buffer starts with.
pub const INDEX_BUFFER_START_CAPACITY: u64 = 4 * 1024 * 3;

/// A range of bytes in a buffer, from `start` up to but not including `end`.
#[derive(Clone, Copy, Debug, PartialEq, Eq, Structural)]
pub struct ByteRange {
    pub start: u64,
    pub end: u64,
}

/// `capacity` doubled until it is at least `required`.
pub open spec fn doubled_to(capacity: nat, required: nat) -> nat
    decreases
        (if required > capacity {
            required - capacity
        } else {
            0
        }),
{
    if capacity == 0 || capacity >= required {
        capacity
    } else {
        doubled_to(2 * capacity, required)
    }
}

/// The capacity of a buffer after room for `required` bytes was asked of
/// it: unchanged while it suffices, else doubled until it does, and held to
/// the device's limit.
pub open spec fn grown_capacity(capacity: nat, required: nat, limit: nat) -> nat {
    if capacity >= required {
        capacity
    } else if doubled_to(capacity, required) <= limit {
        doubled_to(capacity, required)
    } else {
        limit
    }
}

/// Doubling never shrinks a capacity, reaches what is required, and stops
/// at the first doubling that suffices: half of the result would not have.
pub proof fn lemma_doubled_to_bounds(capacity: nat, required: nat)
    requires
        capacity > 0,
    ensures
        doubled_to(capacity, required) >= capacity,
        doubled_to(capacity, required) >= required,
        capacity < required ==> doubled_to(capacity, required) < 2 * required,
    decreases
        (if required > capacity {
            required - capacity
        } else {
            0
        }),
{
    if capacity < required {
        lemma_doubled_to_bounds(2 * capacity, required);
    }
}

/// Growth law. When a buffer is too small for what a frame requires, and
/// the requirement is within the device's limit, the new capacity is at
/// least the requirement and at most the prior capacity doubled until
/// sufficient, which is less than twice the requirement.
pub proof fn lemma_growth_bounds(capacity: nat, required: nat, limit: nat)
    requires
        0 < capacity < required,
        required <= limit,
    ensures
        required <= grown_capacity(capacity, required, limit) <= doubled_to(capacity, required),
        grown_capacity(capacity, required, limit) < 2 * required,
        grown_capacity(capacity, required, limit) <= limit,
{
    lemma_doubled_to_bounds(capacity, required);
}

/// Brings a capacity to at least `required` bytes.
pub fn grow_capacity(capacity: u64, required: u64, limit: u64) -> (grown: u64)
    requires
        capacity > 0,
        required <= limit,
    ensures
        grown == grown_capacity(capacity as nat, required as nat, limit as nat),
        grown >= required,
        grown >= capacity,
{
    let mut current: u64 = capacity;
    while current < required
        invariant
            0 < capacity <= current,
            required <= limit,
            current <= limit || current == capacity,
            current < required ==> doubled_to(current as nat, required as nat) == doubled_to(
                capacity as nat,
                required as nat,
            ),
            current >= required ==> (capacity < required && current == doubled_to(
                capacity as nat,
                required as nat,
            )) || current == capacity,
        decreases
            (if required > current {
                required - current
            } else {
                0
            }),
    {
        if current > limit / 2 {
            proof {
                lemma_doubled_to_bounds(2 * current as nat, required as nat);
            }
            return limit;
        }
        proof {
            if 2 * current >= required {
                assert(doubled_to(2 * current as nat, required as nat) == 2 * current);
            }
        }
        current = 2 * current;
    }
    current
}

/// The sum of the first `i` counts.
pub open spec fn prefix_total(counts: Seq<nat>, i: int) -> nat
    decreases i,
{
    if i <= 0 {
        0
    } else {
        prefix_total(counts, i - 1) + counts[i - 1]
    }
}

/// The byte ranges that items of the given counts take when laid out one
/// after another, `stride` bytes to the item.
pub open spec fn slices_of(counts: Seq<nat>, stride: nat) -> Seq<ByteRange> {
    Seq::new(
        counts.len(),
        |i: int|
            ByteRange {
                start: (stride * prefix_total(counts, i)) as u64,
                end: (stride * prefix_total(counts, i + 1)) as u64,
            },
    )
}

/// The number of indices of each mesh, in order.
pub open spec fn index_counts(jobs: Seq<ClippedPrimitive>) -> Seq<nat> {
    Seq::new(jobs.len(), |i: int| jobs[i].mesh.indices@.len())
}

/// The number of vertices of each mesh, in order.
pub open spec fn vertex_counts(jobs: Seq<ClippedPrimitive>) -> Seq<nat> {
    Seq::new(jobs.len(), |i: int| jobs[i].mesh.vertices@.len())
}

/// The indices of all meshes, one mesh after another. Each mesh's indices
/// stay relative to its own vertices.
pub open spec fn flat_indices(jobs: Seq<ClippedPrimitive>) -> Seq<u32>
    decreases jobs.len(),
{
    if jobs.len() == 0 {
        Seq::empty()
    } else {
        flat_indices(jobs.drop_last()) + jobs.last().mesh.indices@
    }
}

/// The vertices of all meshes, one mesh after another.
pub open spec fn flat_vertices(jobs: Seq<ClippedPrimitive>) -> Seq<Vertex>
    decreases jobs.len(),
{
    if jobs.len() == 0 {
        Seq::empty()
    } else {
        flat_vertices(jobs.drop_last()) + jobs.last().mesh.vertices@
    }
}

/// Bytes of index storage that a frame requires.
pub open spec fn required_index_bytes(jobs: Seq<ClippedPrimitive>) -> nat {
    INDEX_SIZE as nat * prefix_total(index_counts(jobs), jobs.len() as int)
}

/// Bytes of vertex storage that a frame requires.
pub open spec fn required_vertex_bytes(jobs: Seq<ClippedPrimitive>) -> nat {
    VERTEX_SIZE as nat * prefix_total(vertex_counts(jobs), jobs.len() as int)
}

/// The sum of counts grows with the number of counts taken.
pub proof fn lemma_prefix_total_monotonic(counts: Seq<nat>, i: int, j: int)
    requires
        i <= j,
    ensures
        prefix_total(counts, i) <= prefix_total(counts, j),
    decreases j - i,
{
    if i < j {
        lemma_prefix_total_monotonic(counts, i, j - 1);
    }
}

/// The sum of the first counts depends on those counts alone.
pub proof fn lemma_prefix_total_agrees(a: Seq<nat>, b: Seq<nat>, i: int)
    requires
        0 <= i <= a.len(),
        i <= b.len(),
        forall|k: int| 0 <= k < i ==> a[k] == b[k],
    ensures
        prefix_total(a, i) == prefix_total(b, i),
    decreases i,
{
    if i > 0 {
        lemma_prefix_total_agrees(a, b, i - 1);
    }
}

/// The flattened indices are as many as the counts add up to.
pub proof fn lemma_flat_indices_len(jobs: Seq<ClippedPrimitive>)
    ensures
        flat_indices(jobs).len() == prefix_total(index_counts(jobs), jobs.len() as int),
    decreases jobs.len(),
{
    if jobs.len() > 0 {
        lemma_flat_indices_len(jobs.drop_last());
        lemma_prefix_total_agrees(
            index_counts(jobs),
            index_counts(jobs.drop_last()),
            jobs.len() - 1,
        );
    }
}

/// The flattened vertices are as many as the counts add up to.
pub proof fn lemma_flat_vertices_len(jobs: Seq<ClippedPrimitive>)
    ensures
        flat_vertices(jobs).len() == prefix_total(vertex_counts(jobs), jobs.len() as int),
    decreases jobs.len(),
{
    if jobs.len() > 0 {
        lemma_flat_vertices_len(jobs.drop_last());
        lemma_prefix_total_agrees(
            vertex_counts(jobs),
            vertex_counts(jobs.drop_last()),
            jobs.len() - 1,
        );
    }
}

/// No index is lost in packing: the part of the flattened indices that a
/// mesh's range names holds that mesh's indices, unchanged and in order.
pub proof fn lemma_flat_indices_keep(jobs: Seq<ClippedPrimitive>, i: int)
    requires
        0 <= i < jobs.len(),
    ensures
        prefix_total(index_counts(jobs), i) <= prefix_total(index_counts(jobs), i + 1)
            <= flat_indices(jobs).len(),
        flat_indices(jobs).subrange(
            prefix_total(index_counts(jobs), i) as int,
            prefix_total(index_counts(jobs), i + 1) as int,
        ) == jobs[i].mesh.indices@,
    decreases jobs.len(),
{
    let front = jobs.drop_last();
    lemma_flat_indices_len(jobs);
    lemma_flat_indices_len(front);
    lemma_prefix_total_monotonic(index_counts(jobs), i + 1, jobs.len() as int);
    lemma_prefix_total_agrees(index_counts(jobs), index_counts(front), jobs.len() - 1);
    if i < jobs.len() - 1 {
        lemma_flat_indices_keep(front, i);
        lemma_prefix_total_agrees(index_counts(jobs), index_counts(front), i + 1);
        lemma_prefix_total_agrees(index_counts(jobs), index_counts(front), i);
        assert(flat_indices(jobs).subrange(
            prefix_total(index_counts(jobs), i) as int,
            prefix_total(index_counts(jobs), i + 1) as int,
        ) == flat_indices(front).subrange(
            prefix_total(index_counts(front), i) as int,
            prefix_total(index_counts(front), i + 1) as int,
        ));
    } else {
        assert(flat_indices(jobs).subrange(
            prefix_total(index_counts(jobs), i) as int,
            prefix_total(index_counts(jobs), i + 1) as int,
        ) == jobs[i].mesh.indices@);
    }
}

/// No vertex is lost in packing: the part of the flattened vertices that a
/// mesh's range names holds that mesh's vertices, unchanged and in order.
pub proof fn lemma_flat_vertices_keep(jobs: Seq<ClippedPrimitive>, i: int)
    requires
        0 <= i < jobs.len(),
    ensures
        prefix_total(vertex_counts(jobs), i) <= prefix_total(vertex_counts(jobs), i + 1)
            <= flat_vertices(jobs).len(),
        flat_vertices(jobs).subrange(
            prefix_total(vertex_counts(jobs), i) as int,
            prefix_total(vertex_counts(jobs), i + 1) as int,
        ) == jobs[i].mesh.vertices@,
    decreases jobs.len(),
{
    let front = jobs.drop_last();
    lemma_flat_vertices_len(jobs);
    lemma_flat_vertices_len(front);
    lemma_prefix_total_monotonic(vertex_counts(jobs), i + 1, jobs.len() as int);
    lemma_prefix_total_agrees(vertex_counts(jobs), vertex_counts(front), jobs.len() - 1);
    if i < jobs.len() - 1 {
        lemma_flat_vertices_keep(front, i);
        lemma_prefix_total_agrees(vertex_counts(jobs), vertex_counts(front), i + 1);
        lemma_prefix_total_agrees(vertex_counts(jobs), vertex_counts(front), i);
        assert(flat_vertices(jobs).subrange(
            prefix_total(vertex_counts(jobs), i) as int,
            prefix_total(vertex_counts(jobs), i + 1) as int,
        ) == flat_vertices(front).subrange(
            prefix_total(vertex_counts(front), i) as int,
            prefix_total(vertex_counts(front), i + 1) as int,
        ));
    } else {
        assert(flat_vertices(jobs).subrange(
            prefix_total(vertex_counts(jobs), i) as int,
            prefix_total(vertex_counts(jobs), i + 1) as int,
        ) == jobs[i].mesh.vertices@);
    }
}

/// The byte ranges of a frame tile the front of the buffer: the first
/// starts at zero, each starts where the one before it ends, each is as
/// long as its mesh takes, and the last ends where the required bytes end.
pub proof fn lemma_slices_tile(counts: Seq<nat>, stride: nat, i: int)
    requires
        0 <= i < counts.len(),
        stride * prefix_total(counts, counts.len() as int) <= u64::MAX,
    ensures
        slices_of(counts, stride)[0].start == 0,
        slices_of(counts, stride)[i].end - slices_of(counts, stride)[i].start == stride * counts[i],
        i + 1 < counts.len() ==> slices_of(counts, stride)[i].end == slices_of(counts, stride)[i
            + 1].start,
        slices_of(counts, stride)[counts.len() - 1].end == stride * prefix_total(
            counts,
            counts.len() as int,
        ),
{
    lemma_prefix_total_monotonic(counts, i, i + 1);
    lemma_prefix_total_monotonic(counts, i + 1, counts.len() as int);
    let all = prefix_total(counts, counts.len() as int);
    let before = prefix_total(counts, i);
    let after = prefix_total(counts, i + 1);
    assert(stride * before <= stride * after <= stride * all && stride * after - stride * before
        == stride * counts[i]) by (nonlinear_arith)
        requires
            before <= after <= all,
            after == before + counts[i],
    ;
    assert(stride * prefix_total(counts, 0) == 0) by (nonlinear_arith)
        requires
            prefix_total(counts, 0) == 0,
    ;
}

/// The byte of a word at place `k`, counted from its least significant
/// byte.
pub open spec fn byte_of(word: u32, k: int) -> u8 {
    if k == 0 {
        (word % 256) as u8
    } else if k == 1 {
        (word / 256 % 256) as u8
    } else if k == 2 {
        (word / 65536 % 256) as u8
    } else {
        (word / 16777216) as u8
    }
}

/// The bytes of words, four to the word: the least significant byte of
/// each first, or the most significant.
pub open spec fn word_bytes(words: Seq<u32>, big_endian: bool) -> Seq<u8> {
    Seq::new(
        4 * words.len(),
        |i: int|
            byte_of(
                words[i / 4],
                if big_endian {
                    3 - i % 4
                } else {
                    i % 4
                },
            ),
    )
}

/// Whether bytes are words as they lie in memory, in one of the two byte
/// orders that a machine can have.
pub open spec fn in_memory_order(bytes: Seq<u8>, words: Seq<u32>) -> bool {
    bytes == word_bytes(words, false) || bytes == word_bytes(words, true)
}

/// `bytemuck::cast_slice` from `u32` to `u8`, copied: the words as they lie
/// in memory, each as four bytes in the byte order of the machine.
#[verifier::external_body]
pub(crate) fn words_as_bytes(words: &Vec<u32>) -> (bytes: Vec<u8>)
    ensures
        in_memory_order(bytes@, words@),
{
    bytemuck::cast_slice::<u32, u8>(words.as_slice()).to_vec()
}

/// The bytes of a part of some words are that part of their bytes.
pub proof fn lemma_word_bytes_of_part(words: Seq<u32>, big_endian: bool, from: int, to: int)
    requires
        0 <= from <= to <= words.len(),
    ensures
        word_bytes(words, big_endian).subrange(4 * from, 4 * to) == word_bytes(
            words.subrange(from, to),
            big_endian,
        ),
{
    let part = word_bytes(words, big_endian).subrange(4 * from, 4 * to);
    let direct = word_bytes(words.subrange(from, to), big_endian);
    assert forall|i: int| 0 <= i < part.len() implies part[i] == direct[i] by {
        assert((4 * from + i) / 4 == from + i / 4);
        assert((4 * from + i) % 4 == i % 4);
        assert(words.subrange(from, to)[i / 4] == words[from + i / 4]);
    }
    assert(part =~= direct);
}

/// No index is lost on the way to the device: the bytes that a mesh's
/// range names in the index buffer are the bytes of that mesh's indices.
pub proof fn lemma_index_bytes_keep(jobs: Seq<ClippedPrimitive>, big_endian: bool, i: int)
    requires
        0 <= i < jobs.len(),
    ensures
        4 * prefix_total(index_counts(jobs), i) <= 4 * prefix_total(index_counts(jobs), i + 1)
            <= word_bytes(flat_indices(jobs), big_endian).len(),
        word_bytes(flat_indices(jobs), big_endian).subrange(
            4 * prefix_total(index_counts(jobs), i) as int,
            4 * prefix_total(index_counts(jobs), i + 1) as int,
        ) == word_bytes(jobs[i].mesh.indices@, big_endian),
{
    lemma_flat_indices_keep(jobs, i);
    lemma_word_bytes_of_part(
        flat_indices(jobs),
        big_endian,
        prefix_total(index_counts(jobs), i) as int,
        prefix_total(index_counts(jobs), i + 1) as int,
    );
}

/// Lengths as counts.
pub open spec fn counts_of(lens: Seq<usize>) -> Seq<nat> {
    Seq::new(lens.len(), |i: int| lens[i] as nat)
}

/// The bytes that items of the given lengths take together, if that is
/// within the limit.
pub(crate) fn total_bytes(lens: &Vec<usize>, stride: u64, limit: u64) -> (total: Option<u64>)
    requires
        stride > 0,
    ensures
        match total {
            Some(bytes) => bytes == stride * prefix_total(counts_of(lens@), lens.len() as int)
                && bytes <= limit,
            None => stride * prefix_total(counts_of(lens@), lens.len() as int) > limit,
        },
{
    let mut bytes: u64 = 0;
    let mut i: usize = 0;
    assert(stride * prefix_total(counts_of(lens@), 0) == 0) by (nonlinear_arith)
        requires
            prefix_total(counts_of(lens@), 0) == 0,
    ;
    while i < lens.len()
        invariant
            stride > 0,
            i <= lens.len(),
            bytes == stride * prefix_total(counts_of(lens@), i as int),
            bytes <= limit,
        decreases lens.len() - i,
    {
        let len: u64 = lens[i] as u64;
        let room: u64 = (limit - bytes) / stride;
        let ghost before = prefix_total(counts_of(lens@), i as int);
        let ghost after = prefix_total(counts_of(lens@), i + 1);
        assert(after == before + len);
        assert(stride * after == stride * before + stride * len) by (nonlinear_arith)
            requires
                after == before + len,
        ;
        if len > room {
            proof {
                assert(stride * len > limit - bytes) by (nonlinear_arith)
                    requires
                        stride > 0,
                        len >= room + 1,
                        room == (limit - bytes) / (stride as int),
                        limit - bytes >= 0,
                ;
                lemma_prefix_total_monotonic(counts_of(lens@), i + 1, lens.len() as int);
                assert(stride * after <= stride * prefix_total(
                    counts_of(lens@),
                    lens.len() as int,
                )) by (nonlinear_arith)
                    requires
                        stride > 0,
                        after <= prefix_total(counts_of(lens@), lens.len() as int),
                ;
            }
            return None;
        }
        assert(stride * len <= limit - bytes) by (nonlinear_arith)
            requires
                stride > 0,
                0 <= len <= room,
                room == (limit - bytes) / (stride as int),
                limit - bytes >= 0,
        ;
        bytes = bytes + stride * len;
        i += 1;
    }
    Some(bytes)
}

/// The byte range of each item when items of the given lengths are laid out
/// one after another.
pub(crate) fn layout(lens: &Vec<usize>, stride: u64) -> (slices: Vec<ByteRange>)
    requires
        stride * prefix_total(counts_of(lens@), lens.len() as int) <= u64::MAX,
    ensures
        slices@ == slices_of(counts_of(lens@), stride as nat),
{
    let mut slices: Vec<ByteRange> = Vec::new();
    let mut offset: u64 = 0;
    let mut i: usize = 0;
    assert(stride * prefix_total(counts_of(lens@), 0) == 0) by (nonlinear_arith)
        requires
            prefix_total(counts_of(lens@), 0) == 0,
    ;
    while i < lens.len()
        invariant
            i <= lens.len(),
            stride * prefix_total(counts_of(lens@), lens.len() as int) <= u64::MAX,
            offset == stride * prefix_total(counts_of(lens@), i as int),
            slices@ == slices_of(counts_of(lens@), stride as nat).take(i as int),
        decreases lens.len() - i,
    {
        let len: u64 = lens[i] as u64;
        let ghost before = prefix_total(counts_of(lens@), i as int);
        let ghost after = prefix_total(counts_of(lens@), i + 1);
        let ghost all = prefix_total(counts_of(lens@), lens.len() as int);
        proof {
            assert(after == before + len);
            lemma_prefix_total_monotonic(counts_of(lens@), i + 1, lens.len() as int);
            assert(stride * after == stride * before + stride * len && stride * after <= stride
                * all) by (nonlinear_arith)
                requires
                    after == before + len,
                    after <= all,
                    stride >= 0,
            ;
        }
        let end: u64 = offset + stride * len;
        slices.push(ByteRange { start: offset, end });
        assert(slices@ == slices_of(counts_of(lens@), stride as nat).take(i + 1));
        offset = end;
        i += 1;
    }
    assert(slices@ == slices_of(counts_of(lens@), stride as nat));
    slices
}

/// Copies the indices of all meshes into one array, one mesh after
/// another.
pub fn flatten_indices(jobs: &Vec<ClippedPrimitive>) -> (flat: Vec<u32>)
    ensures
        flat@ == flat_indices(jobs@),
{
    let mut flat: Vec<u32> = Vec::new();
    let mut i: usize = 0;
    while i < jobs.len()
        invariant
            i <= jobs.len(),
            flat@ == flat_indices(jobs@.take(i as int)),
        decreases jobs.len() - i,
    {
        let mesh = &jobs[i].mesh;
        let ghost front = flat@;
        let mut k: usize = 0;
        while k < mesh.indices.len()
            invariant
                k <= mesh.indices.len(),
                flat@ == front + mesh.indices@.take(k as int),
            decreases mesh.indices.len() - k,
        {
            flat.push(mesh.indices[k]);
            assert(mesh.indices@.take(k + 1) == mesh.indices@.take(k as int).push(
                mesh.indices@[k as int],
            ));
            k += 1;
        }
        proof {
            assert(mesh.indices@.take(mesh.indices@.len() as int) == mesh.indices@);
            assert(jobs@.take(i + 1).drop_last() == jobs@.take(i as int));
            assert(jobs@.take(i + 1).last() == jobs@[i as int]);
        }
        i += 1;
    }
    assert(jobs@.take(jobs@.len() as int) == jobs@);
    flat
}

/// Copies the vertices of all meshes into one array, one mesh after
/// another.
pub fn flatten_vertices(jobs: &Vec<ClippedPrimitive>) -> (flat: Vec<Vertex>)
    ensures
        flat@ == flat_vertices(jobs@),
{
    let mut flat: Vec<Vertex> = Vec::new();
    let mut i: usize = 0;
    while i < jobs.len()
        invariant
            i <= jobs.len(),
            flat@ == flat_vertices(jobs@.take(i as int)),
        decreases jobs.len() - i,
    {
        let mesh = &jobs[i].mesh;
        let ghost front = flat@;
        let mut k: usize = 0;
        while k < mesh.vertices.len()
            invariant
                k <= mesh.vertices.len(),
                flat@ == front + mesh.vertices@.take(k as int),
            decreases mesh.vertices.len() - k,
        {
            flat.push(mesh.vertices[k]);
            assert(mesh.vertices@.take(k + 1) == mesh.vertices@.take(k as int).push(
                mesh.vertices@[k as int],
            ));
            k += 1;
        }
        proof {
            assert(mesh.vertices@.take(mesh.vertices@.len() as int) == mesh.vertices@);
            assert(jobs@.take(i + 1).drop_last() == jobs@.take(i as int));
            assert(jobs@.take(i + 1).last() == jobs@[i as int]);
        }
        i += 1;
    }
    assert(jobs@.take(jobs@.len() as int) == jobs@);
    flat
}

/// The number of indices and of vertices of each mesh.
pub(crate) fn mesh_lens(jobs: &Vec<ClippedPrimitive>) -> (lens: (Vec<usize>, Vec<usize>))
    ensures
        counts_of(lens.0@) == index_counts(jobs@),
        counts_of(lens.1@) == vertex_counts(jobs@),
        lens.0@.len() == jobs@.len(),
        lens.1@.len() == jobs@.len(),
{
    let mut index_lens: Vec<usize> = Vec::new();
    let mut vertex_lens: Vec<usize> = Vec::new();
    let mut i: usize = 0;
    while i < jobs.len()
        invariant
            i <= jobs.len(),
            index_lens@.len() == i,
            vertex_lens@.len() == i,
            forall|k: int| 0 <= k < i ==> index_lens@[k] == jobs@[k].mesh.indices@.len(),
            forall|k: int| 0 <= k < i ==> vertex_lens@[k] == jobs@[k].mesh.vertices@.len(),
        decreases jobs.len() - i,
    {
        index_lens.push(jobs[i].mesh.indices.len());
        vertex_lens.push(jobs[i].mesh.vertices.len());
        i += 1;
    }
    assert(counts_of(index_lens@) =~= index_counts(jobs@));
    assert(counts_of(vertex_lens@) =~= vertex_counts(jobs@));
    (index_lens, vertex_lens)
}

} // verus!
