//! Mesh upload through a staging buffer: the sizes of the device buffers
//! and of the staging buffer, the bytes written into the staging buffer, and
//! the two copies from it into the index and vertex buffers.

use crate::gpu::{pack_words, vertices_as_words, vertices_words, words_le, Vertex, VERTEX_SIZE};
use vstd::prelude::*;

verus! {

/// The size in bytes of one index.
pub const INDEX_SIZE: u64 = 4;

/// One buffer-to-buffer copy.
#[derive(Clone, Copy, Debug, PartialEq, Eq, Structural)]
pub struct BufferCopy {
    pub src_offset: u64,
    pub dst_offset: u64,
    pub size: u64,
}

/// The buffer sizes of one mesh upload. The staging buffer holds the vertex
/// bytes, padding up to `alignment`, then the index bytes.
#[derive(Clone, Copy, Debug, PartialEq, Eq, Structural)]
pub struct MeshUpload {
    pub index_buffer_size: u64,
    pub vertex_buffer_size: u64,
    pub index_offset: u64,
    pub staging_size: u64,
}

/// `x` rounded up to a multiple of `a`.
pub open spec fn align_up(x: int, a: int) -> int {
    (x + a - 1) / a * a
}

/// Sizes the upload of `index_count` indices and `vertex_count` vertices,
/// with the index bytes starting at the first multiple of `alignment` past
/// the vertex bytes.
pub fn plan_mesh_upload(index_count: u64, vertex_count: u64, alignment: u64) -> (r: MeshUpload)
    requires
        alignment >= 1,
        VERTEX_SIZE * vertex_count + alignment + INDEX_SIZE * index_count <= u64::MAX,
    ensures
        r.index_buffer_size == INDEX_SIZE * index_count,
        r.vertex_buffer_size == VERTEX_SIZE * vertex_count,
        r.index_offset == align_up(r.vertex_buffer_size as int, alignment as int),
        r.index_offset >= r.vertex_buffer_size,
        r.staging_size == r.index_offset + r.index_buffer_size,
{
    let vertex_buffer_size = VERTEX_SIZE * vertex_count;
    let index_buffer_size = INDEX_SIZE * index_count;
    let padded = vertex_buffer_size + alignment - 1;
    let blocks = padded / alignment;
    proof {
        let v = vertex_buffer_size as int;
        let a = alignment as int;
        vstd::arithmetic::div_mod::lemma_fundamental_div_mod(v + a - 1, a);
        vstd::arithmetic::div_mod::lemma_mod_bound(v + a - 1, a);
        assert((v + a - 1) / a * a >= v && (v + a - 1) / a * a <= v + a - 1) by (nonlinear_arith)
            requires
                a >= 1,
                v + a - 1 == a * ((v + a - 1) / a) + (v + a - 1) % a,
                0 <= (v + a - 1) % a < a,
        ;
    }
    let index_offset = blocks * alignment;
    MeshUpload {
        index_buffer_size,
        vertex_buffer_size,
        index_offset,
        staging_size: index_offset + index_buffer_size,
    }
}

/// The bytes of the vertices and of the indices as the device buffers hold
/// them.
pub fn mesh_bytes(indices: &Vec<u32>, vertices: &Vec<Vertex>) -> (r: (Vec<u8>, Vec<u8>))
    requires
        4 * indices@.len() <= usize::MAX,
        48 * vertices@.len() <= usize::MAX,
    ensures
        r.0@ == words_le(vertices_words(vertices@)),
        r.1@ == words_le(indices@),
{
    let words = vertices_as_words(vertices);
    (pack_words(&words), pack_words(indices))
}

/// The two copies out of the staging buffer, given where the vertex bytes
/// and the index bytes were written in it: vertex bytes into the vertex
/// buffer, index bytes into the index buffer, each from offset zero on.
pub fn mesh_copy_regions(upload: &MeshUpload, vertex_start: u64, index_start: u64) -> (r: (
    BufferCopy,
    BufferCopy,
))
    ensures
        r.0 == (BufferCopy { src_offset: vertex_start, dst_offset: 0, size: upload.vertex_buffer_size }),
        r.1 == (BufferCopy { src_offset: index_start, dst_offset: 0, size: upload.index_buffer_size }),
{
    (
        BufferCopy { src_offset: vertex_start, dst_offset: 0, size: upload.vertex_buffer_size },
        BufferCopy { src_offset: index_start, dst_offset: 0, size: upload.index_buffer_size },
    )
}

/// What a copy puts into a fresh buffer of its size: the copied range of
/// the source.
pub open spec fn copied(src: Seq<u8>, c: BufferCopy) -> Seq<u8> {
    src.subrange(c.src_offset as int, c.src_offset + c.size)
}

/// Performs `copy` from `src` into a fresh buffer of `copy.size` bytes
/// (with `dst_offset` zero).
pub fn copy_region(src: &Vec<u8>, copy: &BufferCopy) -> (r: Vec<u8>)
    requires
        copy.src_offset + copy.size <= src@.len(),
    ensures
        r@ == copied(src@, *copy),
{
    let mut out: Vec<u8> = Vec::new();
    let len = src.len();
    let start = copy.src_offset as usize;
    let end = start + copy.size as usize;
    let mut i: usize = start;
    while i < end
        invariant
            start <= i <= end,
            len == src@.len(),
            end <= src@.len(),
            start == copy.src_offset,
            end == copy.src_offset + copy.size,
            out@ == src@.subrange(start as int, i as int),
        decreases end - i,
    {
        out.push(src[i]);
        i += 1;
        proof {
            assert(out@ =~= src@.subrange(start as int, i as int));
        }
    }
    out
}

proof fn lemma_word_from_bytes(x: u32, y: u32)
    requires
        (x & 0xff) as u8 == (y & 0xff) as u8,
        ((x >> 8u32) & 0xff) as u8 == ((y >> 8u32) & 0xff) as u8,
        ((x >> 16u32) & 0xff) as u8 == ((y >> 16u32) & 0xff) as u8,
        ((x >> 24u32) & 0xff) as u8 == ((y >> 24u32) & 0xff) as u8,
    ensures
        x == y,
{
    assert(x == y) by (bit_vector)
        requires
            (x & 0xff) as u8 == (y & 0xff) as u8,
            ((x >> 8u32) & 0xff) as u8 == ((y >> 8u32) & 0xff) as u8,
            ((x >> 16u32) & 0xff) as u8 == ((y >> 16u32) & 0xff) as u8,
            ((x >> 24u32) & 0xff) as u8 == ((y >> 24u32) & 0xff) as u8,
    ;
}

/// Different runs of words have different bytes, so bytes decode to at most
/// one run of words.
pub proof fn lemma_words_le_injective(a: Seq<u32>, b: Seq<u32>)
    requires
        words_le(a) == words_le(b),
    ensures
        a == b,
{
    assert(words_le(a).len() == 4 * a.len());
    assert forall|k: int| 0 <= k < a.len() implies a[k] == b[k] by {
        let wa = words_le(a);
        let wb = words_le(b);
        assert(wa[4 * k] == wb[4 * k]);
        assert(wa[4 * k + 1] == wb[4 * k + 1]);
        assert(wa[4 * k + 2] == wb[4 * k + 2]);
        assert(wa[4 * k + 3] == wb[4 * k + 3]);
        assert((4 * k) / 4 == k && (4 * k) % 4 == 0);
        assert((4 * k + 1) / 4 == k && (4 * k + 1) % 4 == 1);
        assert((4 * k + 2) / 4 == k && (4 * k + 2) % 4 == 2);
        assert((4 * k + 3) / 4 == k && (4 * k + 3) % 4 == 3);
        crate::gpu::lemma_word_bytes(a[k]);
        crate::gpu::lemma_word_bytes(b[k]);
        lemma_word_from_bytes(a[k], b[k]);
    }
    assert(a =~= b);
}

/// Uploading a mesh and reading the device buffers back gives the bytes
/// that went in: whatever the staging buffer holds around them, the two
/// copies take exactly the vertex bytes and the index bytes, and the index
/// bytes decode to the indices alone.
pub proof fn lemma_upload_round_trip(
    vertices: Seq<Vertex>,
    indices: Seq<u32>,
    staging: Seq<u8>,
    upload: MeshUpload,
    vertex_start: u64,
    index_start: u64,
)
    requires
        upload.vertex_buffer_size == VERTEX_SIZE * vertices.len(),
        upload.index_buffer_size == 4 * indices.len(),
        vertex_start + upload.vertex_buffer_size <= staging.len(),
        index_start + upload.index_buffer_size <= staging.len(),
        staging.subrange(vertex_start as int, vertex_start + upload.vertex_buffer_size) == words_le(
            vertices_words(vertices),
        ),
        staging.subrange(index_start as int, index_start + upload.index_buffer_size) == words_le(
            indices,
        ),
    ensures
        copied(
            staging,
            BufferCopy { src_offset: vertex_start, dst_offset: 0, size: upload.vertex_buffer_size },
        ) == words_le(vertices_words(vertices)),
        copied(
            staging,
            BufferCopy { src_offset: index_start, dst_offset: 0, size: upload.index_buffer_size },
        ) == words_le(indices),
        forall|ws: Seq<u32>|
            words_le(ws) == copied(
                staging,
                BufferCopy { src_offset: index_start, dst_offset: 0, size: upload.index_buffer_size },
            ) ==> ws == indices,
{
    assert forall|ws: Seq<u32>|
        words_le(ws) == copied(
            staging,
            BufferCopy { src_offset: index_start, dst_offset: 0, size: upload.index_buffer_size },
        ) implies ws == indices by {
        lemma_words_le_injective(ws, indices);
    }
}

} // verus!
