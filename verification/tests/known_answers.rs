//! Known-answer tests: published RIPEMD-160 vectors and block-boundary
//! lengths checked against independently computed digests.
use ripemd160::Ripemd160;

fn digest_hex(data: &[u8]) -> String {
    let mut hasher = Ripemd160::new();
    hasher.input(data);
    let digest = hasher.finalize();
    let mut s = String::new();
    for b in digest.iter() {
        s.push_str(&format!("{:02x}", b));
    }
    s
}

#[test]
fn empty_input() {
    assert_eq!(digest_hex(b""), "9c1185a5c5e9fc54612808977ee8f548b2258d31");
}

#[test]
fn single_a() {
    assert_eq!(digest_hex(b"a"), "0bdc9d2d256b3ee9daae347be6f4dc835a467ffe");
}

#[test]
fn abc() {
    assert_eq!(digest_hex(b"abc"), "8eb208f7e05d987a9b044a8e98c6b087f15a0bfc");
}

#[test]
fn message_digest() {
    assert_eq!(
        digest_hex(b"message digest"),
        "5d0689ef49d2fae572b881b123a85ffa21595f36"
    );
}

#[test]
fn lowercase_alphabet() {
    assert_eq!(
        digest_hex(b"abcdefghijklmnopqrstuvwxyz"),
        "f71c27109c692c1b56bbdceb5b9d2865b3708dbc"
    );
}

#[test]
fn overlapping_quartets() {
    assert_eq!(
        digest_hex(b"abcdbcdecdefdefgefghfghighijhijkijkljklmklmnlmnomnopnopq"),
        "12a053384a9c0c88e405a06c27dcf49ada62eb2b"
    );
}

#[test]
fn alphanumeric() {
    assert_eq!(
        digest_hex(b"ABCDEFGHIJKLMNOPQRSTUVWXYZabcdefghijklmnopqrstuvwxyz0123456789"),
        "b0e20b6e3116640286ed3a87a5713079b21f5189"
    );
}

#[test]
fn eight_times_ten_digits() {
    let mut data = Vec::new();
    for _ in 0..8 {
        data.extend_from_slice(b"1234567890");
    }
    assert_eq!(digest_hex(&data), "9b752e45573d4b39f4dbd3323cab82bf63326bfb");
}

#[test]
fn hello_world() {
    assert_eq!(
        digest_hex(b"Hello world!"),
        "7f772647d88750add82d8e1a7a3e5c0902a346a3"
    );
}

#[test]
fn million_a() {
    let data = vec![b'a'; 1000000];
    assert_eq!(digest_hex(&data), "52783243c1697bdbe16d37f97f68f08325dc1528");
}

#[test]
fn boundary_55() {
    let data = vec![b'a'; 55];
    assert_eq!(digest_hex(&data), "0d8a8c9063a48576a7c97e9f95253a6e53ff6765");
}

#[test]
fn boundary_56() {
    let data = vec![b'a'; 56];
    assert_eq!(digest_hex(&data), "e72334b46c83cc70bef979e15453706c95b888be");
}

#[test]
fn boundary_63() {
    let data = vec![b'a'; 63];
    assert_eq!(digest_hex(&data), "e640041293fe663b9bf3f8c21ffecac03819e6b2");
}

#[test]
fn boundary_64() {
    let data = vec![b'a'; 64];
    assert_eq!(digest_hex(&data), "9dfb7d374ad924f3f88de96291c33e9abed53e32");
}

#[test]
fn boundary_119() {
    let data = vec![b'a'; 119];
    assert_eq!(digest_hex(&data), "23e398ff2bac815aa1bbb57ca2a669c841872919");
}
