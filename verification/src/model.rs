//! The mathematical definition of RIPEMD-160.
//!
//! Everything here is specification-level: the round tables, the two 80-step
//! lines of the compression function, the block chaining, the padding and
//! length encoding, and the little-endian digest serialization. The
//! executable code elsewhere in the crate is proved to agree with these
//! definitions, so [`digest_spec`] is the single statement of what the
//! library computes.
use vstd::prelude::*;

verus! {

/// The five standard 32-bit initialization words h0..h4.
pub open spec fn init_state() -> Seq<u32> {
    seq![0x67452301u32, 0xefcdab89u32, 0x98badcfeu32, 0x10325476u32, 0xc3d2e1f0u32]
}

/// Left rotation of a 32-bit word by `s` bits.
pub open spec fn rol32(x: u32, s: u32) -> u32
    recommends
        1 <= s < 32,
{
    (x << s) | (x >> ((32 - s) as u32))
}

/// The five nonlinear boolean functions, selected by round number `r` in 0..5.
pub open spec fn round_fn(r: int, x: u32, y: u32, z: u32) -> u32
    recommends
        0 <= r < 5,
{
    if r == 0 {
        x ^ y ^ z
    } else if r == 1 {
        (x & y) | ((!x) & z)
    } else if r == 2 {
        (x | (!y)) ^ z
    } else if r == 3 {
        (x & z) | (y & (!z))
    } else {
        x ^ (y | (!z))
    }
}

/// Additive round constant of the left line, by round number.
pub open spec fn k_left(r: int) -> u32
    recommends
        0 <= r < 5,
{
    if r == 0 {
        0
    } else if r == 1 {
        0x5a827999
    } else if r == 2 {
        0x6ed9eba1
    } else if r == 3 {
        0x8f1bbcdc
    } else {
        0xa953fd4e
    }
}

/// Additive round constant of the right line, by round number.
pub open spec fn k_right(r: int) -> u32
    recommends
        0 <= r < 5,
{
    if r == 0 {
        0x50a28be6
    } else if r == 1 {
        0x5c4dd124
    } else if r == 2 {
        0x6d703ef3
    } else if r == 3 {
        0x7a6d76e9
    } else {
        0
    }
}
/// Index of the message word used by step `j` of the left line.
pub open spec fn word_sel_left(j: int) -> int
    recommends
        0 <= j < 80,
{
    if j == 0 {
        0
    } else if j == 1 {
        1
    } else if j == 2 {
        2
    } else if j == 3 {
        3
    } else if j == 4 {
        4
    } else if j == 5 {
        5
    } else if j == 6 {
        6
    } else if j == 7 {
        7
    } else if j == 8 {
        8
    } else if j == 9 {
        9
    } else if j == 10 {
        10
    } else if j == 11 {
        11
    } else if j == 12 {
        12
    } else if j == 13 {
        13
    } else if j == 14 {
        14
    } else if j == 15 {
        15
    } else if j == 16 {
        7
    } else if j == 17 {
        4
    } else if j == 18 {
        13
    } else if j == 19 {
        1
    } else if j == 20 {
        10
    } else if j == 21 {
        6
    } else if j == 22 {
        15
    } else if j == 23 {
        3
    } else if j == 24 {
        12
    } else if j == 25 {
        0
    } else if j == 26 {
        9
    } else if j == 27 {
        5
    } else if j == 28 {
        2
    } else if j == 29 {
        14
    } else if j == 30 {
        11
    } else if j == 31 {
        8
    } else if j == 32 {
        3
    } else if j == 33 {
        10
    } else if j == 34 {
        14
    } else if j == 35 {
        4
    } else if j == 36 {
        9
    } else if j == 37 {
        15
    } else if j == 38 {
        8
    } else if j == 39 {
        1
    } else if j == 40 {
        2
    } else if j == 41 {
        7
    } else if j == 42 {
        0
    } else if j == 43 {
        6
    } else if j == 44 {
        13
    } else if j == 45 {
        11
    } else if j == 46 {
        5
    } else if j == 47 {
        12
    } else if j == 48 {
        1
    } else if j == 49 {
        9
    } else if j == 50 {
        11
    } else if j == 51 {
        10
    } else if j == 52 {
        0
    } else if j == 53 {
        8
    } else if j == 54 {
        12
    } else if j == 55 {
        4
    } else if j == 56 {
        13
    } else if j == 57 {
        3
    } else if j == 58 {
        7
    } else if j == 59 {
        15
    } else if j == 60 {
        14
    } else if j == 61 {
        5
    } else if j == 62 {
        6
    } else if j == 63 {
        2
    } else if j == 64 {
        4
    } else if j == 65 {
        0
    } else if j == 66 {
        5
    } else if j == 67 {
        9
    } else if j == 68 {
        7
    } else if j == 69 {
        12
    } else if j == 70 {
        2
    } else if j == 71 {
        10
    } else if j == 72 {
        14
    } else if j == 73 {
        1
    } else if j == 74 {
        3
    } else if j == 75 {
        8
    } else if j == 76 {
        11
    } else if j == 77 {
        6
    } else if j == 78 {
        15
    } else {
        13
    }
}

/// Index of the message word used by step `j` of the right line.
pub open spec fn word_sel_right(j: int) -> int
    recommends
        0 <= j < 80,
{
    if j == 0 {
        5
    } else if j == 1 {
        14
    } else if j == 2 {
        7
    } else if j == 3 {
        0
    } else if j == 4 {
        9
    } else if j == 5 {
        2
    } else if j == 6 {
        11
    } else if j == 7 {
        4
    } else if j == 8 {
        13
    } else if j == 9 {
        6
    } else if j == 10 {
        15
    } else if j == 11 {
        8
    } else if j == 12 {
        1
    } else if j == 13 {
        10
    } else if j == 14 {
        3
    } else if j == 15 {
        12
    } else if j == 16 {
        6
    } else if j == 17 {
        11
    } else if j == 18 {
        3
    } else if j == 19 {
        7
    } else if j == 20 {
        0
    } else if j == 21 {
        13
    } else if j == 22 {
        5
    } else if j == 23 {
        10
    } else if j == 24 {
        14
    } else if j == 25 {
        15
    } else if j == 26 {
        8
    } else if j == 27 {
        12
    } else if j == 28 {
        4
    } else if j == 29 {
        9
    } else if j == 30 {
        1
    } else if j == 31 {
        2
    } else if j == 32 {
        15
    } else if j == 33 {
        5
    } else if j == 34 {
        1
    } else if j == 35 {
        3
    } else if j == 36 {
        7
    } else if j == 37 {
        14
    } else if j == 38 {
        6
    } else if j == 39 {
        9
    } else if j == 40 {
        11
    } else if j == 41 {
        8
    } else if j == 42 {
        12
    } else if j == 43 {
        2
    } else if j == 44 {
        10
    } else if j == 45 {
        0
    } else if j == 46 {
        4
    } else if j == 47 {
        13
    } else if j == 48 {
        8
    } else if j == 49 {
        6
    } else if j == 50 {
        4
    } else if j == 51 {
        1
    } else if j == 52 {
        3
    } else if j == 53 {
        11
    } else if j == 54 {
        15
    } else if j == 55 {
        0
    } else if j == 56 {
        5
    } else if j == 57 {
        12
    } else if j == 58 {
        2
    } else if j == 59 {
        13
    } else if j == 60 {
        9
    } else if j == 61 {
        7
    } else if j == 62 {
        10
    } else if j == 63 {
        14
    } else if j == 64 {
        12
    } else if j == 65 {
        15
    } else if j == 66 {
        10
    } else if j == 67 {
        4
    } else if j == 68 {
        1
    } else if j == 69 {
        5
    } else if j == 70 {
        8
    } else if j == 71 {
        7
    } else if j == 72 {
        6
    } else if j == 73 {
        2
    } else if j == 74 {
        13
    } else if j == 75 {
        14
    } else if j == 76 {
        0
    } else if j == 77 {
        3
    } else if j == 78 {
        9
    } else {
        11
    }
}

/// Rotation amount used by step `j` of the left line.
pub open spec fn rot_left(j: int) -> u32
    recommends
        0 <= j < 80,
{
    if j == 0 {
        11
    } else if j == 1 {
        14
    } else if j == 2 {
        15
    } else if j == 3 {
        12
    } else if j == 4 {
        5
    } else if j == 5 {
        8
    } else if j == 6 {
        7
    } else if j == 7 {
        9
    } else if j == 8 {
        11
    } else if j == 9 {
        13
    } else if j == 10 {
        14
    } else if j == 11 {
        15
    } else if j == 12 {
        6
    } else if j == 13 {
        7
    } else if j == 14 {
        9
    } else if j == 15 {
        8
    } else if j == 16 {
        7
    } else if j == 17 {
        6
    } else if j == 18 {
        8
    } else if j == 19 {
        13
    } else if j == 20 {
        11
    } else if j == 21 {
        9
    } else if j == 22 {
        7
    } else if j == 23 {
        15
    } else if j == 24 {
        7
    } else if j == 25 {
        12
    } else if j == 26 {
        15
    } else if j == 27 {
        9
    } else if j == 28 {
        11
    } else if j == 29 {
        7
    } else if j == 30 {
        13
    } else if j == 31 {
        12
    } else if j == 32 {
        11
    } else if j == 33 {
        13
    } else if j == 34 {
        6
    } else if j == 35 {
        7
    } else if j == 36 {
        14
    } else if j == 37 {
        9
    } else if j == 38 {
        13
    } else if j == 39 {
        15
    } else if j == 40 {
        14
    } else if j == 41 {
        8
    } else if j == 42 {
        13
    } else if j == 43 {
        6
    } else if j == 44 {
        5
    } else if j == 45 {
        12
    } else if j == 46 {
        7
    } else if j == 47 {
        5
    } else if j == 48 {
        11
    } else if j == 49 {
        12
    } else if j == 50 {
        14
    } else if j == 51 {
        15
    } else if j == 52 {
        14
    } else if j == 53 {
        15
    } else if j == 54 {
        9
    } else if j == 55 {
        8
    } else if j == 56 {
        9
    } else if j == 57 {
        14
    } else if j == 58 {
        5
    } else if j == 59 {
        6
    } else if j == 60 {
        8
    } else if j == 61 {
        6
    } else if j == 62 {
        5
    } else if j == 63 {
        12
    } else if j == 64 {
        9
    } else if j == 65 {
        15
    } else if j == 66 {
        5
    } else if j == 67 {
        11
    } else if j == 68 {
        6
    } else if j == 69 {
        8
    } else if j == 70 {
        13
    } else if j == 71 {
        12
    } else if j == 72 {
        5
    } else if j == 73 {
        12
    } else if j == 74 {
        13
    } else if j == 75 {
        14
    } else if j == 76 {
        11
    } else if j == 77 {
        8
    } else if j == 78 {
        5
    } else {
        6
    }
}

/// Rotation amount used by step `j` of the right line.
pub open spec fn rot_right(j: int) -> u32
    recommends
        0 <= j < 80,
{
    if j == 0 {
        8
    } else if j == 1 {
        9
    } else if j == 2 {
        9
    } else if j == 3 {
        11
    } else if j == 4 {
        13
    } else if j == 5 {
        15
    } else if j == 6 {
        15
    } else if j == 7 {
        5
    } else if j == 8 {
        7
    } else if j == 9 {
        7
    } else if j == 10 {
        8
    } else if j == 11 {
        11
    } else if j == 12 {
        14
    } else if j == 13 {
        14
    } else if j == 14 {
        12
    } else if j == 15 {
        6
    } else if j == 16 {
        9
    } else if j == 17 {
        13
    } else if j == 18 {
        15
    } else if j == 19 {
        7
    } else if j == 20 {
        12
    } else if j == 21 {
        8
    } else if j == 22 {
        9
    } else if j == 23 {
        11
    } else if j == 24 {
        7
    } else if j == 25 {
        7
    } else if j == 26 {
        12
    } else if j == 27 {
        7
    } else if j == 28 {
        6
    } else if j == 29 {
        15
    } else if j == 30 {
        13
    } else if j == 31 {
        11
    } else if j == 32 {
        9
    } else if j == 33 {
        7
    } else if j == 34 {
        15
    } else if j == 35 {
        11
    } else if j == 36 {
        8
    } else if j == 37 {
        6
    } else if j == 38 {
        6
    } else if j == 39 {
        14
    } else if j == 40 {
        12
    } else if j == 41 {
        13
    } else if j == 42 {
        5
    } else if j == 43 {
        14
    } else if j == 44 {
        13
    } else if j == 45 {
        13
    } else if j == 46 {
        7
    } else if j == 47 {
        5
    } else if j == 48 {
        15
    } else if j == 49 {
        5
    } else if j == 50 {
        8
    } else if j == 51 {
        11
    } else if j == 52 {
        14
    } else if j == 53 {
        14
    } else if j == 54 {
        6
    } else if j == 55 {
        14
    } else if j == 56 {
        6
    } else if j == 57 {
        9
    } else if j == 58 {
        12
    } else if j == 59 {
        9
    } else if j == 60 {
        12
    } else if j == 61 {
        5
    } else if j == 62 {
        15
    } else if j == 63 {
        8
    } else if j == 64 {
        8
    } else if j == 65 {
        5
    } else if j == 66 {
        12
    } else if j == 67 {
        9
    } else if j == 68 {
        12
    } else if j == 69 {
        5
    } else if j == 70 {
        14
    } else if j == 71 {
        6
    } else if j == 72 {
        8
    } else if j == 73 {
        13
    } else if j == 74 {
        6
    } else if j == 75 {
        5
    } else if j == 76 {
        15
    } else if j == 77 {
        13
    } else if j == 78 {
        11
    } else {
        11
    }
}
/// Message word `i` of a 64-byte block, read little-endian.
pub open spec fn word_at(block: Seq<u8>, i: int) -> u32
    recommends
        block.len() == 64,
        0 <= i < 16,
{
    (block[4 * i] as u32) | ((block[4 * i + 1] as u32) << 8u32) | ((block[4 * i + 2] as u32)
        << 16u32) | ((block[4 * i + 3] as u32) << 24u32)
}

/// One step of either line: mixes message word `w` under boolean function
/// value `f`, constant `k` and rotation `s` into the rolling registers, then
/// cycles the registers with the extra 10-bit rotation of the third one.
pub open spec fn step(regs: (u32, u32, u32, u32, u32), f: u32, w: u32, k: u32, s: u32) -> (
    u32,
    u32,
    u32,
    u32,
    u32,
) {
    let t = rol32(regs.0.wrapping_add(f).wrapping_add(w).wrapping_add(k), s).wrapping_add(regs.4);
    (regs.4, t, regs.1, rol32(regs.2, 10), regs.3)
}

/// Step `j` of the left line applied to registers `regs`.
pub open spec fn step_left(block: Seq<u8>, regs: (u32, u32, u32, u32, u32), j: int) -> (
    u32,
    u32,
    u32,
    u32,
    u32,
) {
    step(
        regs,
        round_fn(j / 16, regs.1, regs.2, regs.3),
        word_at(block, word_sel_left(j)),
        k_left(j / 16),
        rot_left(j),
    )
}

/// Step `j` of the right line applied to registers `regs`.
pub open spec fn step_right(block: Seq<u8>, regs: (u32, u32, u32, u32, u32), j: int) -> (
    u32,
    u32,
    u32,
    u32,
    u32,
) {
    step(
        regs,
        round_fn(4 - j / 16, regs.1, regs.2, regs.3),
        word_at(block, word_sel_right(j)),
        k_right(j / 16),
        rot_right(j),
    )
}

/// Registers of the left line after its first `j` steps, starting from state `h`.
pub open spec fn line_left(h: Seq<u32>, block: Seq<u8>, j: nat) -> (u32, u32, u32, u32, u32)
    recommends
        h.len() == 5,
        j <= 80,
    decreases j,
{
    if j == 0 {
        (h[0], h[1], h[2], h[3], h[4])
    } else {
        step_left(block, line_left(h, block, (j - 1) as nat), j - 1)
    }
}

/// Registers of the right line after its first `j` steps, starting from state `h`.
pub open spec fn line_right(h: Seq<u32>, block: Seq<u8>, j: nat) -> (u32, u32, u32, u32, u32)
    recommends
        h.len() == 5,
        j <= 80,
    decreases j,
{
    if j == 0 {
        (h[0], h[1], h[2], h[3], h[4])
    } else {
        step_right(block, line_right(h, block, (j - 1) as nat), j - 1)
    }
}

/// The compression function: the state after mixing one 64-byte block into
/// the five-word state `h`, by the standard cross-combination of the final
/// registers of the two lines with the incoming state.
pub open spec fn compress_spec(h: Seq<u32>, block: Seq<u8>) -> Seq<u32>
    recommends
        h.len() == 5,
        block.len() == 64,
{
    let l = line_left(h, block, 80);
    let r = line_right(h, block, 80);
    seq![
        h[1].wrapping_add(l.2).wrapping_add(r.3),
        h[2].wrapping_add(l.3).wrapping_add(r.4),
        h[3].wrapping_add(l.4).wrapping_add(r.0),
        h[4].wrapping_add(l.0).wrapping_add(r.1),
        h[0].wrapping_add(l.1).wrapping_add(r.2),
    ]
}

/// The state after absorbing each complete 64-byte block of `m`, in order,
/// starting from `h`. Trailing bytes short of a block are ignored.
pub open spec fn chain(h: Seq<u32>, m: Seq<u8>) -> Seq<u32>
    recommends
        h.len() == 5,
    decreases m.len(),
{
    if m.len() < 64 {
        h
    } else {
        chain(compress_spec(h, m.take(64)), m.skip(64))
    }
}

/// How many zero bytes follow the 0x80 marker when padding a stream of
/// `len` bytes, so that the padded length before the length suffix is
/// congruent to 56 modulo 64.
pub open spec fn pad_zeros(len: int) -> int {
    (55 - len % 64) % 64
}

/// A run of `n` zero bytes.
pub open spec fn zero_seq(n: int) -> Seq<u8> {
    Seq::new(n as nat, |i: int| 0u8)
}

/// The low 64 bits of the stream length in bits.
pub open spec fn bit_count(len: u64) -> u64 {
    len << 3u64
}

/// Byte `k` of the 64-bit little-endian encoding of `x`.
pub open spec fn le64_byte(x: u64, k: int) -> u8
    recommends
        0 <= k < 8,
{
    ((x >> ((8 * k) as u64)) & 0xff) as u8
}

/// The 64-bit little-endian encoding of `x`.
pub open spec fn length_bytes(x: u64) -> Seq<u8> {
    Seq::new(8, |k: int| le64_byte(x, k))
}

/// The suffix appended to a stream of `len` bytes at finalization: the 0x80
/// marker, the zero fill, and the bit length of the stream encoded as a
/// 64-bit little-endian integer.
pub open spec fn padding(len: nat) -> Seq<u8>
    recommends
        len <= u64::MAX,
{
    seq![0x80u8] + zero_seq(pad_zeros(len as int)) + length_bytes(bit_count(len as u64))
}

/// `m` extended with its padding; the result is a whole number of blocks.
pub open spec fn padded(m: Seq<u8>) -> Seq<u8>
    recommends
        m.len() <= u64::MAX,
{
    m + padding(m.len())
}

/// Byte `k` of the 32-bit little-endian encoding of `w`.
pub open spec fn le32_byte(w: u32, k: int) -> u8
    recommends
        0 <= k < 4,
{
    ((w >> ((8 * k) as u32)) & 0xff) as u8
}

/// The 20-byte serialization of a five-word state: h0..h4, each
/// little-endian.
pub open spec fn digest_bytes(h: Seq<u32>) -> Seq<u8>
    recommends
        h.len() == 5,
{
    Seq::new(20, |i: int| le32_byte(h[i / 4], i % 4))
}

/// The RIPEMD-160 digest of the byte sequence `m`.
pub open spec fn digest_spec(m: Seq<u8>) -> Seq<u8>
    recommends
        m.len() <= u64::MAX,
{
    digest_bytes(chain(init_state(), padded(m)))
}

/// Chaining distributes over concatenation at a block boundary: absorbing
/// `a + b` is absorbing `a`, then `b`, provided `a` is whole blocks.
pub proof fn lemma_chain_append(h: Seq<u32>, a: Seq<u8>, b: Seq<u8>)
    requires
        a.len() % 64 == 0,
    ensures
        chain(h, a + b) == chain(chain(h, a), b),
    decreases a.len(),
{
    if a.len() == 0 {
        assert(a + b =~= b);
    } else {
        assert(a.len() >= 64);
        assert((a + b).take(64) =~= a.take(64));
        assert((a + b).skip(64) =~= a.skip(64) + b);
        assert(a.skip(64).len() % 64 == 0);
        lemma_chain_append(compress_spec(h, a.take(64)), a.skip(64), b);
    }
}

/// Absorbing a single whole block is one application of the compression
/// function.
pub proof fn lemma_chain_block(h: Seq<u32>, blk: Seq<u8>)
    requires
        blk.len() == 64,
    ensures
        chain(h, blk) == compress_spec(h, blk),
{
    assert(blk.take(64) =~= blk);
    assert(chain(h, blk) == chain(compress_spec(h, blk.take(64)), blk.skip(64)));
}

} // verus!
