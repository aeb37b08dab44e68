use cargo_aur::sha256::{sha256sum, to_hex, Sha256};

const EMPTY: &str = "e3b0c44298fc1c149afbf4c8996fb92427ae41e4649b934ca495991b7852b855";
const ABC: &str = "ba7816bf8f01cfea414140de5dae2223b00361a396177a9cb410ff61f20015ad";
const HELLO_WORLD: &str = "b94d27b9934d3e08a52e52d7da7dabfac484efe37a5380ee9088f7ace2efcde9";

#[test]
fn to_hex_of_nothing() {
    assert_eq!(to_hex(&[]), "");
}

#[test]
fn to_hex_is_lowercase_and_two_digits_a_byte() {
    assert_eq!(to_hex(&[0x00, 0x01, 0x0a, 0x10, 0xab, 0xff]), "00010a10abff");
}

#[test]
fn to_hex_of_every_digit() {
    assert_eq!(to_hex(&[0x01, 0x23, 0x45, 0x67, 0x89, 0xab, 0xcd, 0xef]), "0123456789abcdef");
}

#[test]
fn sha256sum_of_nothing() {
    assert_eq!(sha256sum(b""), Some(EMPTY.to_string()));
}

#[test]
fn sha256sum_of_abc() {
    assert_eq!(sha256sum(b"abc"), Some(ABC.to_string()));
}

#[test]
fn sha256sum_is_64_hex_digits() {
    let digest = sha256sum(b"some archive").unwrap();
    assert_eq!(digest.len(), 64);
    assert!(digest.chars().all(|c| c.is_ascii_digit() || ('a'..='f').contains(&c)));
}

#[test]
fn sha256sum_is_stable() {
    assert_eq!(sha256sum(b"same bytes"), sha256sum(b"same bytes"));
    assert_ne!(sha256sum(b"same bytes"), sha256sum(b"other bytes"));
}

#[test]
fn sha256sum_agrees_with_the_hasher() {
    let bytes = b"the bytes of an archive";
    assert_eq!(sha256sum(bytes), Some(to_hex(&hmac_sha256::Hash::hash(bytes))));
}

#[test]
fn hasher_fed_nothing() {
    assert_eq!(Sha256::new().hex_digest(), EMPTY);
}

#[test]
fn hasher_fed_in_chunks() {
    let mut state = Sha256::new();
    assert!(state.update(b"hello"));
    assert!(state.update(b""));
    assert!(state.update(b" "));
    assert!(state.update(b"world"));
    assert_eq!(state.hex_digest(), HELLO_WORLD);
}

#[test]
fn hasher_chunking_does_not_matter() {
    let bytes: Vec<u8> = (0..1000u32).map(|i| (i % 251) as u8).collect();
    let whole = sha256sum(&bytes).unwrap();
    for size in [1usize, 7, 63, 64, 65, 999, 1000, 4096] {
        let mut state = Sha256::new();
        for chunk in bytes.chunks(size) {
            assert!(state.update(chunk));
        }
        assert_eq!(state.hex_digest(), whole);
    }
}

#[test]
fn hasher_order_matters() {
    let mut one = Sha256::new();
    one.update(b"ab");
    one.update(b"c");
    let mut other = Sha256::new();
    other.update(b"c");
    other.update(b"ab");
    assert_eq!(one.hex_digest(), ABC);
    assert_ne!(other.hex_digest(), ABC);
}
