use qrshare::hash::{bytes_hash, digest_key};
use qrshare::registry::{FileKind, PathCandidate, Registry};
use qrshare::textfmt::hex_bytes;

const SHA512_EMPTY: &str = "cf83e1357eefb8bdf1542850d66d8007d620e4050b5715dc83f4a921d36ce9ce\
47d0d13c5d85f2b0ff8318d2877eec2f63b931bd47417a81a538327af927da3e";

const SHA512_ABC: &str = "ddaf35a193617abacc417349ae20413112e6fa4e89a97ea20a9eeee64b55d39a\
2192992a274fc1a836ba3c23a3feebbd454d4423643ce80e2a9ac94fa54ca49f";

const BLAKE2B_EMPTY: &str = "786a02f742015903c6c6fd852552d272912f4740e15847618a86e217f71f5419\
d25e1031afee585313896444934eb04b903a685b1448b755d56f701afe9be2ce";

#[test]
fn sha512_known_values() {
    assert_eq!(digest_key(&vec![]), SHA512_EMPTY);
    assert_eq!(digest_key(&b"abc".to_vec()), SHA512_ABC);
}

#[test]
fn digest_is_deterministic() {
    let a = digest_key(&b"some file contents".to_vec());
    let b = digest_key(&b"some file contents".to_vec());
    assert_eq!(a, b);
    assert_eq!(a.len(), 128);
}

#[test]
fn digest_differs_for_different_contents() {
    let a = digest_key(&b"contents one".to_vec());
    let b = digest_key(&b"contents two".to_vec());
    assert_ne!(a, b);
}

#[test]
fn blake2b_known_value() {
    let d = bytes_hash(&vec![]);
    assert_eq!(hex_bytes(&d), BLAKE2B_EMPTY);
    assert_eq!(d.len(), 64);
}

#[test]
fn hex_encoding() {
    assert_eq!(hex_bytes(&vec![0x00u8, 0xff, 0x10]), "00ff10");
    assert_eq!(hex_bytes(&vec![]), "");
}

#[test]
fn recorded_digest_matches_contents() {
    let cands = vec![PathCandidate {
        supplied: "a".to_string(),
        canonical: Some("/abs/a".to_string()),
    }];
    let mut reg = Registry::new(&cands, false).unwrap();
    let bytes = b"abc".to_vec();
    let path = "/abs/a".to_string();
    reg.record_file(&path, FileKind::File, Some(&bytes));
    let found = reg.lookup_by_digest(SHA512_ABC).unwrap();
    assert_eq!(found, "/abs/a");
}
