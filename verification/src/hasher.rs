//! The streaming RIPEMD-160 hasher: accumulates arbitrary-length input into
//! 64-byte blocks, runs the compression function once per full block, and
//! applies the padding and length-encoding protocol at finalization.
use vstd::prelude::*;

use crate::compress::compress;
use crate::model::{
    bit_count, chain, digest_bytes, digest_spec, init_state, le32_byte, le64_byte, length_bytes,
    pad_zeros, padded, zero_seq,
};

verus! {

broadcast use vstd::array::group_array_axioms;

/// Size of the digest in bytes.
pub const DIGEST_LEN: usize = 20;

/// Size of the compression function's block in bytes.
pub const BLOCK_LEN: usize = 64;

/// An incremental RIPEMD-160 computation.
///
/// The abstract value (the view) of a hasher is the sequence of all bytes
/// fed to it so far; [`Ripemd160::finalize`] returns the digest of exactly
/// that sequence.
pub struct Ripemd160 {
    /// The five running state words.
    h: [u32; 5],
    /// Bytes not yet forming a complete block; only the first `buf_len` are live.
    buf: [u8; 64],
    /// Number of live bytes in `buf`, always below 64.
    buf_len: usize,
    /// Count of all bytes ever fed in.
    len: u64,
    /// The whole stream fed so far, kept only for specification.
    stream: Ghost<Seq<u8>>,
}

impl View for Ripemd160 {
    type V = Seq<u8>;

    closed spec fn view(&self) -> Seq<u8> {
        self.stream@
    }
}

impl Ripemd160 {
    /// The state words, buffer and buffer fill agree with the absorbed stream.
    spec fn abs_ok(self) -> bool {
        &&& self.buf_len < 64
        &&& self.stream@.len() % 64 == self.buf_len
        &&& self.h@ == chain(
            init_state(),
            self.stream@.take(self.stream@.len() - self.buf_len),
        )
        &&& forall|i: int|
            0 <= i < self.buf_len ==> self.buf@[i] == self.stream@[self.stream@.len()
                - self.buf_len + i]
    }

    /// The hasher's invariant: established by the constructors, preserved by
    /// every operation.
    pub closed spec fn wf(self) -> bool {
        &&& self.abs_ok()
        &&& self.len == self.stream@.len()
    }

    /// A fresh hasher: standard initial state, empty buffer, zero length.
    pub fn new() -> (r: Self)
        ensures
            r.wf(),
            r@ == Seq::<u8>::empty(),
    {
        let mut h = [0u32; 5];
        h[0] = 0x67452301;
        h[1] = 0xefcdab89;
        h[2] = 0x98badcfe;
        h[3] = 0x10325476;
        h[4] = 0xc3d2e1f0;
        let r = Ripemd160 { h, buf: [0u8; 64], buf_len: 0, len: 0, stream: Ghost(Seq::empty()) };
        proof {
            assert(r.h@ =~= init_state());
            assert(r.stream@.take(0) =~= Seq::<u8>::empty());
        }
        r
    }

    /// Absorbs one byte: appends it to the buffer and, on the 64th byte,
    /// runs the compression function and empties the buffer.
    fn absorb(&mut self, x: u8)
        requires
            old(self).abs_ok(),
        ensures
            final(self).abs_ok(),
            final(self).stream@ == old(self).stream@.push(x),
            final(self).len == old(self).len,
    {
        let ghost pre = self.stream@;
        let ghost pre_fill = self.buf_len as int;
        self.buf[self.buf_len] = x;
        self.buf_len = self.buf_len + 1;
        proof {
            self.stream@ = pre.push(x);
            assert(self.stream@.take(pre.len() - pre_fill) =~= pre.take(pre.len() - pre_fill));
        }
        if self.buf_len == 64 {
            let ghost whole = self.stream@;
            let nh = compress(&self.h, &self.buf);
            proof {
                let done = whole.take(whole.len() - 64);
                assert(done =~= pre.take(pre.len() - pre_fill));
                assert(whole.take(whole.len() as int) =~= whole);
                assert(done + self.buf@ =~= whole) by {
                    assert(forall|i: int|
                        0 <= i < 64 ==> self.buf@[i] == whole[whole.len() - 64 + i]);
                };
                assert(done.len() % 64 == 0);
                crate::model::lemma_chain_append(init_state(), done, self.buf@);
                crate::model::lemma_chain_block(chain(init_state(), done), self.buf@);
            }
            self.h = nh;
            self.buf_len = 0;
        }
    }

    /// Appends `data` to the stream being hashed. May be called any number
    /// of times with any chunking; only the concatenation of all the chunks
    /// determines the digest.
    pub fn input(&mut self, data: &[u8])
        requires
            old(self).wf(),
            old(self)@.len() + data@.len() <= u64::MAX,
        ensures
            final(self).wf(),
            final(self)@ == old(self)@ + data@,
    {
        let ghost pre = self.stream@;
        let mut i: usize = 0;
        while i < data.len()
            invariant
                i <= data.len(),
                self.abs_ok(),
                self.stream@ == pre + data@.take(i as int),
                self.len == old(self).len,
            decreases data.len() - i,
        {
            self.absorb(data[i]);
            proof {
                assert(pre + data@.take(i + 1) =~= (pre + data@.take(i as int)).push(data@[i as int]));
            }
            i = i + 1;
        }
        proof {
            assert(pre + data@.take(data@.len() as int) =~= pre + data@);
        }
        self.len = self.len + data.len() as u64;
    }

    /// Consumes the hasher and returns the 20-byte digest of everything fed
    /// to it: the little-endian serialization of the state after the padded
    /// stream has been absorbed.
    #[verifier::rlimit(100)]
    pub fn finalize(self) -> (out: [u8; 20])
        requires
            self.wf(),
        ensures
            out@ == digest_spec(self@),
    {
        let mut this = self;
        let ghost msg = this.stream@;
        let bits: u64 = this.len << 3u64;
        this.absorb(0x80);
        let rem: usize = (this.len % 64) as usize;
        let zn: usize = if rem <= 55 {
            55 - rem
        } else {
            119 - rem
        };
        proof {
            assert(zn == pad_zeros(msg.len() as int));
            assert(msg.push(0x80u8) + zero_seq(0) =~= msg.push(0x80u8));
        }
        let mut k: usize = 0;
        while k < zn
            invariant
                k <= zn,
                this.abs_ok(),
                this.len == msg.len(),
                this.stream@ == msg.push(0x80u8) + zero_seq(k as int),
            decreases zn - k,
        {
            this.absorb(0x00);
            proof {
                assert(msg.push(0x80u8) + zero_seq(k + 1) =~= (msg.push(0x80u8) + zero_seq(
                    k as int,
                )).push(0u8));
            }
            k = k + 1;
        }
        let ghost zpadded = this.stream@;
        let mut k2: usize = 0;
        while k2 < 8
            invariant
                k2 <= 8,
                this.abs_ok(),
                this.len == msg.len(),
                bits == bit_count(msg.len() as u64),
                this.stream@ == zpadded + length_bytes(bits).take(k2 as int),
            decreases 8 - k2,
        {
            let sh: u64 = 8 * (k2 as u64);
            proof {
                let b0 = bits;
                let s0 = sh;
                assert(s0 < 64 ==> ((b0 >> s0) & 0xff) <= 0xff) by (bit_vector);
            }
            let byt: u8 = ((bits >> sh) & 0xff) as u8;
            this.absorb(byt);
            proof {
                assert(byt == le64_byte(bits, k2 as int));
                assert(zpadded + length_bytes(bits).take(k2 + 1) =~= (zpadded + length_bytes(
                    bits,
                ).take(k2 as int)).push(le64_byte(bits, k2 as int)));
            }
            k2 = k2 + 1;
        }
        proof {
            assert(length_bytes(bits).take(8) =~= length_bytes(bits));
            assert(this.stream@ =~= padded(msg));
            assert(this.stream@.len() % 64 == 0);
            assert(this.buf_len == 0);
            assert(this.stream@.take(this.stream@.len() as int) =~= this.stream@);
        }
        let mut out = [0u8; 20];
        let mut i: usize = 0;
        while i < 20
            invariant
                i <= 20,
                this.h@ == chain(init_state(), padded(msg)),
                forall|k3: int| 0 <= k3 < i ==> out@[k3] == le32_byte(this.h@[k3 / 4], k3 % 4),
            decreases 20 - i,
        {
            let wrd: u32 = this.h[i / 4];
            let sh: u32 = 8 * ((i as u32) % 4);
            proof {
                let w0 = wrd;
                let s0 = sh;
                assert(s0 < 32 ==> ((w0 >> s0) & 0xff) <= 0xff) by (bit_vector);
            }
            out[i] = ((wrd >> sh) & 0xff) as u8;
            i = i + 1;
        }
        proof {
            assert(out@ =~= digest_bytes(chain(init_state(), padded(msg))));
        }
        out
    }

    /// Returns the digest of everything fed so far, exactly as
    /// [`Ripemd160::finalize`] would, and restores the hasher to its initial
    /// state so it can absorb a new, unrelated stream.
    pub fn finalize_reset(&mut self) -> (out: [u8; 20])
        requires
            old(self).wf(),
        ensures
            out@ == digest_spec(old(self)@),
            final(self).wf(),
            final(self)@ == Seq::<u8>::empty(),
    {
        let prev = self.clone();
        *self = Ripemd160::new();
        prev.finalize()
    }
}

/// The absorbed stream of a hasher whose stream was `v` after the chunks in
/// `parts` have been fed to it by one [`Ripemd160::input`] call each, in
/// order.
pub open spec fn fed_all(v: Seq<u8>, parts: Seq<Seq<u8>>) -> Seq<u8>
    decreases parts.len(),
{
    if parts.len() == 0 {
        v
    } else {
        fed_all(v + parts.first(), parts.drop_first())
    }
}

/// Chunking invariance: however a byte sequence is partitioned into
/// consecutive chunks fed by separate [`Ripemd160::input`] calls, the
/// absorbed stream is the concatenation of the chunks — so, by the contract
/// of [`Ripemd160::finalize`], the digest equals that of hashing the whole
/// sequence in one call.
pub proof fn lemma_chunking_invariance(v: Seq<u8>, parts: Seq<Seq<u8>>)
    ensures
        fed_all(v, parts) == v + parts.flatten(),
    decreases parts.len(),
{
    if parts.len() == 0 {
        assert(v + parts.flatten() =~= v);
    } else {
        lemma_chunking_invariance(v + parts.first(), parts.drop_first());
        assert((v + parts.first()) + parts.drop_first().flatten() =~= v + parts.flatten());
    }
}

impl Clone for Ripemd160 {
    /// A clone is a full, independent copy of the computation's state.
    fn clone(&self) -> (r: Self)
        ensures
            r == *self,
    {
        Ripemd160 {
            h: self.h,
            buf: self.buf,
            buf_len: self.buf_len,
            len: self.len,
            stream: self.stream,
        }
    }
}

impl Default for Ripemd160 {
    /// Same as [`Ripemd160::new`].
    fn default() -> (r: Self)
        ensures
            r.wf(),
            r@ == Seq::<u8>::empty(),
    {
        Ripemd160::new()
    }
}

} // verus!
