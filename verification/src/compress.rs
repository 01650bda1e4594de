//! The executable compression function, proved bit-for-bit equal to
//! [`crate::model::compress_spec`].
use vstd::prelude::*;

use crate::model::{
    compress_spec, k_left, k_right, line_left, line_right, rol32, rot_left, rot_right, round_fn,
    step, step_left, step_right, word_at, word_sel_left, word_sel_right,
};

verus! {

/// Left rotation of a 32-bit word by `s` bits, `1 <= s < 32`.
fn rol(x: u32, s: u32) -> (r: u32)
    requires
        1 <= s < 32,
    ensures
        r == rol32(x, s),
{
    (x << s) | (x >> (32 - s))
}

/// The boolean function of round `r`, shared by both lines.
fn round_fn_x(r: usize, x: u32, y: u32, z: u32) -> (res: u32)
    requires
        r < 5,
    ensures
        res == round_fn(r as int, x, y, z),
{
    if r == 0 {
        x ^ y ^ z
    } else if r == 1 {
        (x & y) | ((!x) & z)
    } else if r == 2 {
        (x | (!y)) ^ z
    } else if r == 3 {
        (x & z) | (y & (!z))
    } else {
        x ^ (y | (!z))
    }
}

/// Round constant of the left line.
fn k_left_x(r: usize) -> (res: u32)
    requires
        r < 5,
    ensures
        res == k_left(r as int),
{
    if r == 0 {
        0
    } else if r == 1 {
        0x5a827999
    } else if r == 2 {
        0x6ed9eba1
    } else if r == 3 {
        0x8f1bbcdc
    } else {
        0xa953fd4e
    }
}

/// Round constant of the right line.
fn k_right_x(r: usize) -> (res: u32)
    requires
        r < 5,
    ensures
        res == k_right(r as int),
{
    if r == 0 {
        0x50a28be6
    } else if r == 1 {
        0x5c4dd124
    } else if r == 2 {
        0x6d703ef3
    } else if r == 3 {
        0x7a6d76e9
    } else {
        0
    }
}
/// Message-word index for step `j` of the left line.
fn word_sel_left_x(j: usize) -> (r: usize)
    requires
        j < 80,
    ensures
        r as int == word_sel_left(j as int),
        r < 16,
{
    if j == 0 {
        0
    } else if j == 1 {
        1
    } else if j == 2 {
        2
    } else if j == 3 {
        3
    } else if j == 4 {
        4
    } else if j == 5 {
        5
    } else if j == 6 {
        6
    } else if j == 7 {
        7
    } else if j == 8 {
        8
    } else if j == 9 {
        9
    } else if j == 10 {
        10
    } else if j == 11 {
        11
    } else if j == 12 {
        12
    } else if j == 13 {
        13
    } else if j == 14 {
        14
    } else if j == 15 {
        15
    } else if j == 16 {
        7
    } else if j == 17 {
        4
    } else if j == 18 {
        13
    } else if j == 19 {
        1
    } else if j == 20 {
        10
    } else if j == 21 {
        6
    } else if j == 22 {
        15
    } else if j == 23 {
        3
    } else if j == 24 {
        12
    } else if j == 25 {
        0
    } else if j == 26 {
        9
    } else if j == 27 {
        5
    } else if j == 28 {
        2
    } else if j == 29 {
        14
    } else if j == 30 {
        11
    } else if j == 31 {
        8
    } else if j == 32 {
        3
    } else if j == 33 {
        10
    } else if j == 34 {
        14
    } else if j == 35 {
        4
    } else if j == 36 {
        9
    } else if j == 37 {
        15
    } else if j == 38 {
        8
    } else if j == 39 {
        1
    } else if j == 40 {
        2
    } else if j == 41 {
        7
    } else if j == 42 {
        0
    } else if j == 43 {
        6
    } else if j == 44 {
        13
    } else if j == 45 {
        11
    } else if j == 46 {
        5
    } else if j == 47 {
        12
    } else if j == 48 {
        1
    } else if j == 49 {
        9
    } else if j == 50 {
        11
    } else if j == 51 {
        10
    } else if j == 52 {
        0
    } else if j == 53 {
        8
    } else if j == 54 {
        12
    } else if j == 55 {
        4
    } else if j == 56 {
        13
    } else if j == 57 {
        3
    } else if j == 58 {
        7
    } else if j == 59 {
        15
    } else if j == 60 {
        14
    } else if j == 61 {
        5
    } else if j == 62 {
        6
    } else if j == 63 {
        2
    } else if j == 64 {
        4
    } else if j == 65 {
        0
    } else if j == 66 {
        5
    } else if j == 67 {
        9
    } else if j == 68 {
        7
    } else if j == 69 {
        12
    } else if j == 70 {
        2
    } else if j == 71 {
        10
    } else if j == 72 {
        14
    } else if j == 73 {
        1
    } else if j == 74 {
        3
    } else if j == 75 {
        8
    } else if j == 76 {
        11
    } else if j == 77 {
        6
    } else if j == 78 {
        15
    } else {
        13
    }
}

/// Message-word index for step `j` of the right line.
fn word_sel_right_x(j: usize) -> (r: usize)
    requires
        j < 80,
    ensures
        r as int == word_sel_right(j as int),
        r < 16,
{
    if j == 0 {
        5
    } else if j == 1 {
        14
    } else if j == 2 {
        7
    } else if j == 3 {
        0
    } else if j == 4 {
        9
    } else if j == 5 {
        2
    } else if j == 6 {
        11
    } else if j == 7 {
        4
    } else if j == 8 {
        13
    } else if j == 9 {
        6
    } else if j == 10 {
        15
    } else if j == 11 {
        8
    } else if j == 12 {
        1
    } else if j == 13 {
        10
    } else if j == 14 {
        3
    } else if j == 15 {
        12
    } else if j == 16 {
        6
    } else if j == 17 {
        11
    } else if j == 18 {
        3
    } else if j == 19 {
        7
    } else if j == 20 {
        0
    } else if j == 21 {
        13
    } else if j == 22 {
        5
    } else if j == 23 {
        10
    } else if j == 24 {
        14
    } else if j == 25 {
        15
    } else if j == 26 {
        8
    } else if j == 27 {
        12
    } else if j == 28 {
        4
    } else if j == 29 {
        9
    } else if j == 30 {
        1
    } else if j == 31 {
        2
    } else if j == 32 {
        15
    } else if j == 33 {
        5
    } else if j == 34 {
        1
    } else if j == 35 {
        3
    } else if j == 36 {
        7
    } else if j == 37 {
        14
    } else if j == 38 {
        6
    } else if j == 39 {
        9
    } else if j == 40 {
        11
    } else if j == 41 {
        8
    } else if j == 42 {
        12
    } else if j == 43 {
        2
    } else if j == 44 {
        10
    } else if j == 45 {
        0
    } else if j == 46 {
        4
    } else if j == 47 {
        13
    } else if j == 48 {
        8
    } else if j == 49 {
        6
    } else if j == 50 {
        4
    } else if j == 51 {
        1
    } else if j == 52 {
        3
    } else if j == 53 {
        11
    } else if j == 54 {
        15
    } else if j == 55 {
        0
    } else if j == 56 {
        5
    } else if j == 57 {
        12
    } else if j == 58 {
        2
    } else if j == 59 {
        13
    } else if j == 60 {
        9
    } else if j == 61 {
        7
    } else if j == 62 {
        10
    } else if j == 63 {
        14
    } else if j == 64 {
        12
    } else if j == 65 {
        15
    } else if j == 66 {
        10
    } else if j == 67 {
        4
    } else if j == 68 {
        1
    } else if j == 69 {
        5
    } else if j == 70 {
        8
    } else if j == 71 {
        7
    } else if j == 72 {
        6
    } else if j == 73 {
        2
    } else if j == 74 {
        13
    } else if j == 75 {
        14
    } else if j == 76 {
        0
    } else if j == 77 {
        3
    } else if j == 78 {
        9
    } else {
        11
    }
}

/// Rotation amount for step `j` of the left line.
fn rot_left_x(j: usize) -> (r: u32)
    requires
        j < 80,
    ensures
        r as int == rot_left(j as int),
        1 <= r < 32,
{
    if j == 0 {
        11
    } else if j == 1 {
        14
    } else if j == 2 {
        15
    } else if j == 3 {
        12
    } else if j == 4 {
        5
    } else if j == 5 {
        8
    } else if j == 6 {
        7
    } else if j == 7 {
        9
    } else if j == 8 {
        11
    } else if j == 9 {
        13
    } else if j == 10 {
        14
    } else if j == 11 {
        15
    } else if j == 12 {
        6
    } else if j == 13 {
        7
    } else if j == 14 {
        9
    } else if j == 15 {
        8
    } else if j == 16 {
        7
    } else if j == 17 {
        6
    } else if j == 18 {
        8
    } else if j == 19 {
        13
    } else if j == 20 {
        11
    } else if j == 21 {
        9
    } else if j == 22 {
        7
    } else if j == 23 {
        15
    } else if j == 24 {
        7
    } else if j == 25 {
        12
    } else if j == 26 {
        15
    } else if j == 27 {
        9
    } else if j == 28 {
        11
    } else if j == 29 {
        7
    } else if j == 30 {
        13
    } else if j == 31 {
        12
    } else if j == 32 {
        11
    } else if j == 33 {
        13
    } else if j == 34 {
        6
    } else if j == 35 {
        7
    } else if j == 36 {
        14
    } else if j == 37 {
        9
    } else if j == 38 {
        13
    } else if j == 39 {
        15
    } else if j == 40 {
        14
    } else if j == 41 {
        8
    } else if j == 42 {
        13
    } else if j == 43 {
        6
    } else if j == 44 {
        5
    } else if j == 45 {
        12
    } else if j == 46 {
        7
    } else if j == 47 {
        5
    } else if j == 48 {
        11
    } else if j == 49 {
        12
    } else if j == 50 {
        14
    } else if j == 51 {
        15
    } else if j == 52 {
        14
    } else if j == 53 {
        15
    } else if j == 54 {
        9
    } else if j == 55 {
        8
    } else if j == 56 {
        9
    } else if j == 57 {
        14
    } else if j == 58 {
        5
    } else if j == 59 {
        6
    } else if j == 60 {
        8
    } else if j == 61 {
        6
    } else if j == 62 {
        5
    } else if j == 63 {
        12
    } else if j == 64 {
        9
    } else if j == 65 {
        15
    } else if j == 66 {
        5
    } else if j == 67 {
        11
    } else if j == 68 {
        6
    } else if j == 69 {
        8
    } else if j == 70 {
        13
    } else if j == 71 {
        12
    } else if j == 72 {
        5
    } else if j == 73 {
        12
    } else if j == 74 {
        13
    } else if j == 75 {
        14
    } else if j == 76 {
        11
    } else if j == 77 {
        8
    } else if j == 78 {
        5
    } else {
        6
    }
}

/// Rotation amount for step `j` of the right line.
fn rot_right_x(j: usize) -> (r: u32)
    requires
        j < 80,
    ensures
        r as int == rot_right(j as int),
        1 <= r < 32,
{
    if j == 0 {
        8
    } else if j == 1 {
        9
    } else if j == 2 {
        9
    } else if j == 3 {
        11
    } else if j == 4 {
        13
    } else if j == 5 {
        15
    } else if j == 6 {
        15
    } else if j == 7 {
        5
    } else if j == 8 {
        7
    } else if j == 9 {
        7
    } else if j == 10 {
        8
    } else if j == 11 {
        11
    } else if j == 12 {
        14
    } else if j == 13 {
        14
    } else if j == 14 {
        12
    } else if j == 15 {
        6
    } else if j == 16 {
        9
    } else if j == 17 {
        13
    } else if j == 18 {
        15
    } else if j == 19 {
        7
    } else if j == 20 {
        12
    } else if j == 21 {
        8
    } else if j == 22 {
        9
    } else if j == 23 {
        11
    } else if j == 24 {
        7
    } else if j == 25 {
        7
    } else if j == 26 {
        12
    } else if j == 27 {
        7
    } else if j == 28 {
        6
    } else if j == 29 {
        15
    } else if j == 30 {
        13
    } else if j == 31 {
        11
    } else if j == 32 {
        9
    } else if j == 33 {
        7
    } else if j == 34 {
        15
    } else if j == 35 {
        11
    } else if j == 36 {
        8
    } else if j == 37 {
        6
    } else if j == 38 {
        6
    } else if j == 39 {
        14
    } else if j == 40 {
        12
    } else if j == 41 {
        13
    } else if j == 42 {
        5
    } else if j == 43 {
        14
    } else if j == 44 {
        13
    } else if j == 45 {
        13
    } else if j == 46 {
        7
    } else if j == 47 {
        5
    } else if j == 48 {
        15
    } else if j == 49 {
        5
    } else if j == 50 {
        8
    } else if j == 51 {
        11
    } else if j == 52 {
        14
    } else if j == 53 {
        14
    } else if j == 54 {
        6
    } else if j == 55 {
        14
    } else if j == 56 {
        6
    } else if j == 57 {
        9
    } else if j == 58 {
        12
    } else if j == 59 {
        9
    } else if j == 60 {
        12
    } else if j == 61 {
        5
    } else if j == 62 {
        15
    } else if j == 63 {
        8
    } else if j == 64 {
        8
    } else if j == 65 {
        5
    } else if j == 66 {
        12
    } else if j == 67 {
        9
    } else if j == 68 {
        12
    } else if j == 69 {
        5
    } else if j == 70 {
        14
    } else if j == 71 {
        6
    } else if j == 72 {
        8
    } else if j == 73 {
        13
    } else if j == 74 {
        6
    } else if j == 75 {
        5
    } else if j == 76 {
        15
    } else if j == 77 {
        13
    } else if j == 78 {
        11
    } else {
        11
    }
}
/// Mixes one 64-byte block into the five-word state: the RIPEMD-160
/// compression function. Pure and deterministic; the new state is exactly
/// the one the model prescribes.
pub fn compress(h: &[u32; 5], block: &[u8; 64]) -> (r: [u32; 5])
    ensures
        r@ == compress_spec(h@, block@),
{
    broadcast use vstd::array::group_array_axioms;

    let mut w: [u32; 16] = [0u32; 16];
    for i in 0..16usize
        invariant
            forall|k: int| 0 <= k < i ==> w@[k] == word_at(block@, k),
    {
        w[i] = (block[4 * i] as u32) | ((block[4 * i + 1] as u32) << 8u32) | ((block[4 * i + 2]
            as u32) << 16u32) | ((block[4 * i + 3] as u32) << 24u32);
    }
    let mut a = h[0];
    let mut b = h[1];
    let mut c = h[2];
    let mut d = h[3];
    let mut e = h[4];
    let mut aa = h[0];
    let mut bb = h[1];
    let mut cc = h[2];
    let mut dd = h[3];
    let mut ee = h[4];
    for j in 0..80usize
        invariant
            (a, b, c, d, e) == line_left(h@, block@, j as nat),
            (aa, bb, cc, dd, ee) == line_right(h@, block@, j as nat),
            forall|k: int| 0 <= k < 16 ==> w@[k] == word_at(block@, k),
    {
        let rnd = j / 16;
        let f = round_fn_x(rnd, b, c, d);
        let xw = w[word_sel_left_x(j)];
        let t = rol(a.wrapping_add(f).wrapping_add(xw).wrapping_add(k_left_x(rnd)), rot_left_x(j))
            .wrapping_add(e);
        let prev_b = b;
        let prev_c = c;
        let prev_d = d;
        a = e;
        b = t;
        c = prev_b;
        d = rol(prev_c, 10);
        e = prev_d;
        let f2 = round_fn_x(4 - rnd, bb, cc, dd);
        let xw2 = w[word_sel_right_x(j)];
        let t2 = rol(
            aa.wrapping_add(f2).wrapping_add(xw2).wrapping_add(k_right_x(rnd)),
            rot_right_x(j),
        ).wrapping_add(ee);
        let prev_bb = bb;
        let prev_cc = cc;
        let prev_dd = dd;
        aa = ee;
        bb = t2;
        cc = prev_bb;
        dd = rol(prev_cc, 10);
        ee = prev_dd;
        proof {
            assert((a, b, c, d, e) == step_left(
                block@,
                line_left(h@, block@, j as nat),
                j as int,
            ));
            assert((aa, bb, cc, dd, ee) == step_right(
                block@,
                line_right(h@, block@, j as nat),
                j as int,
            ));
        }
    }
    let mut r = [0u32; 5];
    r[0] = h[1].wrapping_add(c).wrapping_add(dd);
    r[1] = h[2].wrapping_add(d).wrapping_add(ee);
    r[2] = h[3].wrapping_add(e).wrapping_add(aa);
    r[3] = h[4].wrapping_add(a).wrapping_add(bb);
    r[4] = h[0].wrapping_add(b).wrapping_add(cc);
    proof {
        assert(r@ =~= compress_spec(h@, block@));
    }
    r
}

} // verus!
