//! The digest engine: cryptographic hashes of byte strings, and their
//! canonical lowercase-hex key form.
//!
//! The registry keys files by the SHA-512 digest of their contents; the
//! standalone `bytes_hash` entry point uses BLAKE2b-512. Both digests are
//! functions of the input bytes alone, so each is given a name that the
//! wrappers' contracts and the callers' contracts share.

use vstd::prelude::*;

use blake2::Digest as Blake2Digest;
use sha2::Digest as Sha2Digest;

use crate::textfmt::{hex_bytes, spec_hex_bytes};

verus! {

/// The SHA-512 digest of a byte string: 64 bytes, a function of the
/// input alone.
pub uninterp spec fn spec_sha512(data: Seq<u8>) -> Seq<u8>;

/// The BLAKE2b-512 digest of a byte string: 64 bytes, a function of the
/// input alone.
pub uninterp spec fn spec_blake2b(data: Seq<u8>) -> Seq<u8>;

/// Relies on sha2::Sha512 (the Digest::digest convenience) computing the
/// 64-byte SHA-512 digest of the input bytes, dependent on them alone.
#[verifier::external_body]
pub(crate) fn sha512_bytes(data: &Vec<u8>) -> (r: Vec<u8>)
    ensures
        r@ == spec_sha512(data@),
        r@.len() == 64,
{
    sha2::Sha512::digest(data.as_slice()).to_vec()
}

/// Relies on blake2::Blake2b512 (the Digest::digest convenience)
/// computing the 64-byte BLAKE2b-512 digest of the input bytes,
/// dependent on them alone.
#[verifier::external_body]
pub(crate) fn blake2b_bytes(data: &Vec<u8>) -> (r: Vec<u8>)
    ensures
        r@ == spec_blake2b(data@),
        r@.len() == 64,
{
    blake2::Blake2b512::digest(data.as_slice()).to_vec()
}

/// Hash a byte string with BLAKE2b-512.
pub fn bytes_hash(data: &Vec<u8>) -> (r: Vec<u8>)
    ensures
        r@ == spec_blake2b(data@),
        r@.len() == 64,
{
    blake2b_bytes(data)
}

/// The canonical key of a file's contents: the SHA-512 digest rendered
/// as lowercase hex, 128 digits.
pub open spec fn spec_digest_key(data: Seq<u8>) -> Seq<char> {
    spec_hex_bytes(spec_sha512(data))
}

/// The digest key of a byte string: its SHA-512 digest in lowercase hex.
pub fn digest_key(data: &Vec<u8>) -> (r: String)
    ensures
        r@ == spec_digest_key(data@),
        r@.len() == 128,
{
    let d = sha512_bytes(data);
    proof {
        lemma_hex_bytes_len(d@);
    }
    hex_bytes(&d)
}

/// Hex text is two digits per byte.
pub proof fn lemma_hex_bytes_len(b: Seq<u8>)
    ensures
        spec_hex_bytes(b).len() == 2 * b.len(),
    decreases b.len(),
{
    if b.len() > 0 {
        lemma_hex_bytes_len(b.drop_first());
    }
}

/// The digest key is determined by the contents alone: equal byte
/// strings always yield equal keys, in every run.
pub proof fn lemma_digest_deterministic(a: Seq<u8>, b: Seq<u8>)
    requires
        a == b,
    ensures
        spec_digest_key(a) == spec_digest_key(b),
{
}

} // verus!
