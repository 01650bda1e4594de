//! Streaming behavior: chunking invariance, reset, cloning, and sensitivity
//! of the digest to single-bit changes.
use ripemd160::{Ripemd160, BLOCK_LEN, DIGEST_LEN};

fn one_shot(data: &[u8]) -> [u8; 20] {
    let mut hasher = Ripemd160::new();
    hasher.input(data);
    hasher.finalize()
}

#[test]
fn sizes() {
    assert_eq!(DIGEST_LEN, 20);
    assert_eq!(BLOCK_LEN, 64);
}

#[test]
fn chunked_equals_one_shot() {
    let data = b"Hello world!";
    let whole = one_shot(data);

    let mut byte_by_byte = Ripemd160::new();
    for b in data.iter() {
        byte_by_byte.input(&[*b]);
    }
    assert_eq!(byte_by_byte.finalize(), whole);

    let mut split = Ripemd160::new();
    split.input(b"Hello");
    split.input(b" world!");
    assert_eq!(split.finalize(), whole);

    let mut with_empties = Ripemd160::new();
    with_empties.input(b"");
    with_empties.input(b"Hello world");
    with_empties.input(b"");
    with_empties.input(b"!");
    assert_eq!(with_empties.finalize(), whole);
}

#[test]
fn chunked_across_block_boundaries() {
    let data: Vec<u8> = (0..200u8).collect();
    let whole = one_shot(&data);

    let mut blocks = Ripemd160::new();
    blocks.input(&data[..64]);
    blocks.input(&data[64..128]);
    blocks.input(&data[128..192]);
    blocks.input(&data[192..]);
    assert_eq!(blocks.finalize(), whole);

    let mut odd = Ripemd160::new();
    odd.input(&data[..63]);
    odd.input(&data[63..65]);
    odd.input(&data[65..]);
    assert_eq!(odd.finalize(), whole);
}

#[test]
fn finalize_reset_returns_first_digest() {
    let mut hasher = Ripemd160::new();
    hasher.input(b"first message, long enough to cross a sixty-four byte block boundary!");
    let first = hasher.finalize_reset();
    assert_eq!(
        first,
        one_shot(b"first message, long enough to cross a sixty-four byte block boundary!")
    );

    hasher.input(b"second message");
    let second = hasher.finalize();
    assert_eq!(second, one_shot(b"second message"));
    assert_ne!(first, second);
}

#[test]
fn reset_is_independent_of_first_stream() {
    let mut reused = Ripemd160::new();
    reused.input(&vec![0x5au8; 300]);
    let _ = reused.finalize_reset();
    reused.input(b"payload");

    let mut fresh = Ripemd160::new();
    fresh.input(b"payload");
    assert_eq!(reused.finalize(), fresh.finalize());
}

#[test]
fn clone_independence() {
    let prefix = b"shared prefix of the two streams, ";
    let mut original = Ripemd160::new();
    original.input(prefix);
    let mut fork = original.clone();

    original.input(b"then one continuation");
    fork.input(b"then another");

    let mut direct_one = Vec::from(&prefix[..]);
    direct_one.extend_from_slice(b"then one continuation");
    let mut direct_two = Vec::from(&prefix[..]);
    direct_two.extend_from_slice(b"then another");

    assert_eq!(original.finalize(), one_shot(&direct_one));
    assert_eq!(fork.finalize(), one_shot(&direct_two));
}

#[test]
fn default_matches_new() {
    let mut from_default: Ripemd160 = Default::default();
    from_default.input(b"abc");
    assert_eq!(from_default.finalize(), one_shot(b"abc"));
}

#[test]
fn single_bit_changes_digest() {
    let base = b"near-duplicate corpus";
    let mut digests: Vec<[u8; 20]> = Vec::new();
    digests.push(one_shot(base));
    for byte_idx in 0..base.len() {
        for bit in 0..8 {
            let mut flipped = Vec::from(&base[..]);
            flipped[byte_idx] ^= 1u8 << bit;
            digests.push(one_shot(&flipped));
        }
    }
    for i in 0..digests.len() {
        for j in (i + 1)..digests.len() {
            assert_ne!(digests[i], digests[j]);
        }
    }
}

#[test]
fn longer_input_changes_digest() {
    let mut digests: Vec<[u8; 20]> = Vec::new();
    for n in 0..130usize {
        digests.push(one_shot(&vec![0u8; n]));
    }
    for i in 0..digests.len() {
        for j in (i + 1)..digests.len() {
            assert_ne!(digests[i], digests[j]);
        }
    }
}
