//! Byte layouts shared with shaders: push constants and vertices, built
//! from 32-bit words (floats travel as their bit patterns) and written
//! little-endian, word after word, without padding.

use vstd::prelude::*;

verus! {

/// The bit pattern of the float 1.0.
pub const F32_ONE_BITS: u32 = 0x3f80_0000;

/// The size in bytes of the graphics push constants: a 4x4 matrix of floats
/// and an 8-byte device address.
pub const PUSH_CONSTANTS_SIZE: u64 = 72;

/// The size in bytes of a vertex: three vectors of four floats.
pub const VERTEX_SIZE: u64 = 48;

/// Byte `j` (0 is the lowest) of a 32-bit word.
pub open spec fn word_byte(x: u32, j: int) -> u8 {
    ((x as int / pow2_8(j)) % 256) as u8
}

/// Byte `j` (0 is the lowest) of a 64-bit word.
pub open spec fn dword_byte(x: u64, j: int) -> u8 {
    ((x as int / pow2_8(j)) % 256) as u8
}

/// 256 to the power `j`.
pub open spec fn pow2_8(j: int) -> int
    decreases j,
{
    if j <= 0 {
        1
    } else {
        256 * pow2_8(j - 1)
    }
}

/// The little-endian bytes of a run of 32-bit words.
pub open spec fn words_le(words: Seq<u32>) -> Seq<u8> {
    Seq::new(4 * words.len(), |k: int| word_byte(words[k / 4], k % 4))
}

/// The little-endian bytes of a 64-bit word.
pub open spec fn dword_le(x: u64) -> Seq<u8> {
    Seq::new(8, |k: int| dword_byte(x, k))
}

pub(crate) proof fn lemma_word_bytes(x: u32)
    ensures
        word_byte(x, 0) == (x & 0xff) as u8,
        word_byte(x, 1) == ((x >> 8u32) & 0xff) as u8,
        word_byte(x, 2) == ((x >> 16u32) & 0xff) as u8,
        word_byte(x, 3) == ((x >> 24u32) & 0xff) as u8,
{
    reveal_with_fuel(pow2_8, 4);
    assert((x & 0xff) == x % 256) by (bit_vector);
    assert(((x >> 8u32) & 0xff) == (x / 256) % 256) by (bit_vector);
    assert(((x >> 16u32) & 0xff) == (x / 65536) % 256) by (bit_vector);
    assert(((x >> 24u32) & 0xff) == (x / 16777216) % 256) by (bit_vector);
}

/// Appends the four little-endian bytes of `x`.
pub fn push_word_le(out: &mut Vec<u8>, x: u32)
    ensures
        final(out)@ == old(out)@ + words_le(seq![x]),
{
    proof {
        lemma_word_bytes(x);
    }
    out.push((x & 0xff) as u8);
    out.push(((x >> 8u32) & 0xff) as u8);
    out.push(((x >> 16u32) & 0xff) as u8);
    out.push(((x >> 24u32) & 0xff) as u8);
    proof {
        assert(out@ =~= old(out)@ + words_le(seq![x]));
    }
}

proof fn lemma_dword_bytes(x: u64, lo: u32, hi: u32)
    requires
        lo == (x & 0xffff_ffff) as u32,
        hi == (x >> 32u64) as u32,
    ensures
        dword_byte(x, 0) == word_byte(lo, 0),
        dword_byte(x, 1) == word_byte(lo, 1),
        dword_byte(x, 2) == word_byte(lo, 2),
        dword_byte(x, 3) == word_byte(lo, 3),
        dword_byte(x, 4) == word_byte(hi, 0),
        dword_byte(x, 5) == word_byte(hi, 1),
        dword_byte(x, 6) == word_byte(hi, 2),
        dword_byte(x, 7) == word_byte(hi, 3),
{
    reveal_with_fuel(pow2_8, 8);
    lemma_word_bytes(lo);
    lemma_word_bytes(hi);
    assert((x % 256) as u32 == (lo & 0xff) && ((x / 0x100) % 256) as u32 == ((lo >> 8u32) & 0xff)
        && ((x / 0x1_0000) % 256) as u32 == ((lo >> 16u32) & 0xff) && ((x / 0x100_0000) % 256) as u32
        == ((lo >> 24u32) & 0xff)) by (bit_vector)
        requires
            lo == (x & 0xffff_ffff) as u32,
    ;
    assert(((x / 0x1_0000_0000) % 256) as u32 == (hi & 0xff) && ((x / 0x100_0000_0000) % 256) as u32
        == ((hi >> 8u32) & 0xff) && ((x / 0x1_0000_0000_0000) % 256) as u32 == ((hi >> 16u32)
        & 0xff) && ((x / 0x100_0000_0000_0000) % 256) as u32 == ((hi >> 24u32) & 0xff))
        by (bit_vector)
        requires
            hi == (x >> 32u64) as u32,
    ;
}

/// Appends the eight little-endian bytes of `x`.
pub fn push_dword_le(out: &mut Vec<u8>, x: u64)
    ensures
        final(out)@ == old(out)@ + dword_le(x),
{
    let lo = (x & 0xffff_ffff) as u32;
    let hi = (x >> 32u64) as u32;
    proof {
        lemma_dword_bytes(x, lo, hi);
    }
    push_word_le(out, lo);
    push_word_le(out, hi);
    proof {
        assert(out@ =~= old(out)@ + dword_le(x));
    }
}

/// The little-endian bytes of `words`, in order.
pub fn pack_words(words: &Vec<u32>) -> (r: Vec<u8>)
    requires
        4 * words@.len() <= usize::MAX,
    ensures
        r@ == words_le(words@),
{
    let mut out: Vec<u8> = Vec::new();
    let mut i: usize = 0;
    while i < words.len()
        invariant
            i <= words@.len(),
            out@ == words_le(words@.subrange(0, i as int)),
        decreases words@.len() - i,
    {
        let ghost before = out@;
        push_word_le(&mut out, words[i]);
        proof {
            assert(words_le(words@.subrange(0, i + 1)) =~= before + words_le(seq![words@[i as int]]));
        }
        i += 1;
    }
    proof {
        assert(words@.subrange(0, words@.len() as int) =~= words@);
    }
    out
}

/// The 32-bit words whose little-endian bytes are `bytes`.
pub fn unpack_words(bytes: &Vec<u8>) -> (r: Vec<u32>)
    requires
        bytes@.len() % 4 == 0,
    ensures
        words_le(r@) == bytes@,
        4 * r@.len() == bytes@.len(),
{
    let mut out: Vec<u32> = Vec::new();
    let len = bytes.len();
    let n = len / 4;
    let mut i: usize = 0;
    while i < n
        invariant
            len == bytes@.len(),
            n * 4 == len,
            i <= n,
            out@.len() == i,
            words_le(out@) == bytes@.subrange(0, 4 * i),
        decreases n - i,
    {
        let b0 = bytes[4 * i] as u32;
        let b1 = bytes[4 * i + 1] as u32;
        let b2 = bytes[4 * i + 2] as u32;
        let b3 = bytes[4 * i + 3] as u32;
        let w = b0 | (b1 << 8u32) | (b2 << 16u32) | (b3 << 24u32);
        proof {
            lemma_word_bytes(w);
            assert((w & 0xff) == b0 && ((w >> 8u32) & 0xff) == b1 && ((w >> 16u32) & 0xff) == b2
                && ((w >> 24u32) & 0xff) == b3) by (bit_vector)
                requires
                    w == b0 | (b1 << 8u32) | (b2 << 16u32) | (b3 << 24u32),
                    b0 < 256,
                    b1 < 256,
                    b2 < 256,
                    b3 < 256,
            ;
        }
        let ghost before = out@;
        out.push(w);
        proof {
            assert(words_le(out@) =~= words_le(before) + words_le(seq![w]));
            assert(bytes@.subrange(0, 4 * i + 4) =~= bytes@.subrange(0, 4 * i) + bytes@.subrange(
                4 * i,
                4 * i + 4,
            ));
            assert(words_le(seq![w]) =~= bytes@.subrange(4 * i, 4 * i + 4));
        }
        i += 1;
    }
    proof {
        assert(bytes@.subrange(0, 4 * n as int) =~= bytes@);
    }
    out
}

/// The identity matrix, column-major, as float bit patterns.
pub open spec fn identity_bits() -> Seq<u32> {
    Seq::new(16, |k: int| if k % 5 == 0 { F32_ONE_BITS } else { 0u32 })
}

/// The graphics push constants: a transform (a 4x4 float matrix, column
/// by column, as bit patterns) and the device address of the vertex buffer.
#[derive(Clone, Copy, Debug, PartialEq, Eq)]
pub struct PushConstants {
    pub transform: [u32; 16],
    pub vertex_buffer_address: u64,
}

/// The 72 bytes a shader reads: the sixteen matrix words, then the address.
pub open spec fn push_constant_bytes(transform: Seq<u32>, address: u64) -> Seq<u8> {
    words_le(transform) + dword_le(address)
}

impl PushConstants {
    /// The identity transform and a zero address.
    pub fn default() -> (r: PushConstants)
        ensures
            r.transform@ == identity_bits(),
            r.vertex_buffer_address == 0,
    {
        let r = PushConstants {
            transform: [
                F32_ONE_BITS, 0, 0, 0,
                0, F32_ONE_BITS, 0, 0,
                0, 0, F32_ONE_BITS, 0,
                0, 0, 0, F32_ONE_BITS,
            ],
            vertex_buffer_address: 0,
        };
        proof {
            assert(r.transform@ =~= identity_bits());
        }
        r
    }

    pub fn transform(self, transform: [u32; 16]) -> (r: PushConstants)
        ensures
            r.transform@ == transform@,
            r.vertex_buffer_address == self.vertex_buffer_address,
    {
        PushConstants { transform, ..self }
    }

    pub fn vertex_buffer_address(self, address: u64) -> (r: PushConstants)
        ensures
            r.transform@ == self.transform@,
            r.vertex_buffer_address == address,
    {
        PushConstants { vertex_buffer_address: address, ..self }
    }

    /// The bytes handed to the draw: the matrix, column by column, each
    /// float as four little-endian bytes, then the address as eight.
    pub fn as_buffer(&self) -> (r: Vec<u8>)
        ensures
            r@ == push_constant_bytes(self.transform@, self.vertex_buffer_address),
            r@.len() == PUSH_CONSTANTS_SIZE,
    {
        let mut out: Vec<u8> = Vec::new();
        let mut i: usize = 0;
        while i < 16
            invariant
                i <= 16,
                out@ == words_le(self.transform@.subrange(0, i as int)),
            decreases 16 - i,
        {
            let ghost before = out@;
            push_word_le(&mut out, self.transform[i]);
            proof {
                assert(words_le(self.transform@.subrange(0, i + 1)) =~= before + words_le(
                    seq![self.transform@[i as int]],
                ));
            }
            i += 1;
        }
        proof {
            assert(self.transform@.subrange(0, 16) =~= self.transform@);
        }
        push_dword_le(&mut out, self.vertex_buffer_address);
        out
    }
}

/// The compute push constants: four vectors of four floats, as bit
/// patterns.
#[derive(Clone, Copy, Debug, PartialEq, Eq)]
pub struct ComputePushConstants {
    pub data_0: [u32; 4],
    pub data_1: [u32; 4],
    pub data_2: [u32; 4],
    pub data_3: [u32; 4],
}

impl ComputePushConstants {
    /// All four vectors zero.
    pub fn default() -> (r: ComputePushConstants)
        ensures
            r.data_0@ == seq![0u32, 0, 0, 0],
            r.data_1@ == seq![0u32, 0, 0, 0],
            r.data_2@ == seq![0u32, 0, 0, 0],
            r.data_3@ == seq![0u32, 0, 0, 0],
    {
        let r = ComputePushConstants { data_0: [0; 4], data_1: [0; 4], data_2: [0; 4], data_3: [0; 4] };
        proof {
            assert(r.data_0@ =~= seq![0u32, 0, 0, 0]);
            assert(r.data_1@ =~= seq![0u32, 0, 0, 0]);
            assert(r.data_2@ =~= seq![0u32, 0, 0, 0]);
            assert(r.data_3@ =~= seq![0u32, 0, 0, 0]);
        }
        r
    }

    pub fn data_0(self, data_0: [u32; 4]) -> (r: ComputePushConstants)
        ensures
            r == (ComputePushConstants { data_0, ..self }),
    {
        ComputePushConstants { data_0, ..self }
    }

    pub fn data_1(self, data_1: [u32; 4]) -> (r: ComputePushConstants)
        ensures
            r == (ComputePushConstants { data_1, ..self }),
    {
        ComputePushConstants { data_1, ..self }
    }

    pub fn data_2(self, data_2: [u32; 4]) -> (r: ComputePushConstants)
        ensures
            r == (ComputePushConstants { data_2, ..self }),
    {
        ComputePushConstants { data_2, ..self }
    }

    pub fn data_3(self, data_3: [u32; 4]) -> (r: ComputePushConstants)
        ensures
            r == (ComputePushConstants { data_3, ..self }),
    {
        ComputePushConstants { data_3, ..self }
    }

    /// The 64 bytes a compute shader reads: the four vectors in order, each
    /// float as four little-endian bytes.
    pub fn as_buffer(&self) -> (r: Vec<u8>)
        ensures
            r@ == words_le(self.data_0@ + self.data_1@ + self.data_2@ + self.data_3@),
            r@.len() == 64,
    {
        let mut words: Vec<u32> = Vec::new();
        let mut i: usize = 0;
        while i < 4
            invariant
                i <= 4,
                words@ == self.data_0@.subrange(0, i as int),
            decreases 4 - i,
        {
            words.push(self.data_0[i]);
            i += 1;
            proof {
                assert(words@ =~= self.data_0@.subrange(0, i as int));
            }
        }
        let ghost w0 = words@;
        i = 0;
        while i < 4
            invariant
                i <= 4,
                words@ == w0 + self.data_1@.subrange(0, i as int),
            decreases 4 - i,
        {
            words.push(self.data_1[i]);
            i += 1;
            proof {
                assert(words@ =~= w0 + self.data_1@.subrange(0, i as int));
            }
        }
        let ghost w1 = words@;
        i = 0;
        while i < 4
            invariant
                i <= 4,
                words@ == w1 + self.data_2@.subrange(0, i as int),
            decreases 4 - i,
        {
            words.push(self.data_2[i]);
            i += 1;
            proof {
                assert(words@ =~= w1 + self.data_2@.subrange(0, i as int));
            }
        }
        let ghost w2 = words@;
        i = 0;
        while i < 4
            invariant
                i <= 4,
                words@ == w2 + self.data_3@.subrange(0, i as int),
            decreases 4 - i,
        {
            words.push(self.data_3[i]);
            i += 1;
            proof {
                assert(words@ =~= w2 + self.data_3@.subrange(0, i as int));
            }
        }
        proof {
            assert(words@ =~= self.data_0@ + self.data_1@ + self.data_2@ + self.data_3@);
        }
        pack_words(&words)
    }
}

/// A vertex as the vertex shader reads it through the buffer's device
/// address: position and the texture `u`, normal and the texture `v`, and
/// colour; each a vector of four floats as bit patterns.
#[derive(Clone, Copy, Debug, PartialEq, Eq)]
pub struct Vertex {
    pub position_uv_x: [u32; 4],
    pub normal_uv_y: [u32; 4],
    pub color: [u32; 4],
}

/// The twelve words of a vertex, in memory order.
pub open spec fn vertex_words(v: Vertex) -> Seq<u32> {
    v.position_uv_x@ + v.normal_uv_y@ + v.color@
}

/// The words of a run of vertices, one after the other.
pub open spec fn vertices_words(vs: Seq<Vertex>) -> Seq<u32>
    decreases vs.len(),
{
    if vs.len() == 0 {
        seq![]
    } else {
        vertices_words(vs.drop_last()) + vertex_words(vs.last())
    }
}

impl Vertex {
    pub fn new(position: [u32; 3], normal: [u32; 3], uv: [u32; 2], color: [u32; 4]) -> (r: Vertex)
        ensures
            r.position_uv_x@ == position@.push(uv@[0]),
            r.normal_uv_y@ == normal@.push(uv@[1]),
            r.color == color,
    {
        let r = Vertex {
            position_uv_x: [position[0], position[1], position[2], uv[0]],
            normal_uv_y: [normal[0], normal[1], normal[2], uv[1]],
            color,
        };
        proof {
            assert(r.position_uv_x@ =~= position@.push(uv@[0]));
            assert(r.normal_uv_y@ =~= normal@.push(uv@[1]));
        }
        r
    }
}

/// The words of `vertices`, twelve per vertex, in order.
pub fn vertices_as_words(vertices: &Vec<Vertex>) -> (r: Vec<u32>)
    ensures
        r@ == vertices_words(vertices@),
        r@.len() == 12 * vertices@.len(),
{
    let mut out: Vec<u32> = Vec::new();
    let mut i: usize = 0;
    while i < vertices.len()
        invariant
            i <= vertices@.len(),
            out@ == vertices_words(vertices@.subrange(0, i as int)),
            out@.len() == 12 * i,
        decreases vertices@.len() - i,
    {
        let v = vertices[i];
        let ghost before = out@;
        let mut k: usize = 0;
        while k < 4
            invariant
                k <= 4,
                out@ == before + v.position_uv_x@.subrange(0, k as int),
            decreases 4 - k,
        {
            out.push(v.position_uv_x[k]);
            k += 1;
            proof {
                assert(out@ =~= before + v.position_uv_x@.subrange(0, k as int));
            }
        }
        let ghost b1 = out@;
        k = 0;
        while k < 4
            invariant
                k <= 4,
                out@ == b1 + v.normal_uv_y@.subrange(0, k as int),
            decreases 4 - k,
        {
            out.push(v.normal_uv_y[k]);
            k += 1;
            proof {
                assert(out@ =~= b1 + v.normal_uv_y@.subrange(0, k as int));
            }
        }
        let ghost b2 = out@;
        k = 0;
        while k < 4
            invariant
                k <= 4,
                out@ == b2 + v.color@.subrange(0, k as int),
            decreases 4 - k,
        {
            out.push(v.color[k]);
            k += 1;
            proof {
                assert(out@ =~= b2 + v.color@.subrange(0, k as int));
            }
        }
        proof {
            assert(vertices@.subrange(0, i + 1).drop_last() =~= vertices@.subrange(0, i as int));
            assert(out@ =~= before + vertex_words(v));
        }
        i += 1;
    }
    proof {
        assert(vertices@.subrange(0, vertices@.len() as int) =~= vertices@);
    }
    out
}

} // verus!
