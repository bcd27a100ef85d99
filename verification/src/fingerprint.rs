//! Request fingerprints: the SHA-256 digest of a request's serialized body,
//! in lower-case hexadecimal. Two requests under one idempotency key are the
//! same request exactly when their fingerprints agree.
use vstd::prelude::*;
use sha2::Digest;
use crate::text::{hex_text, lemma_hex_text_len, to_hex};

verus! {

/// The SHA-256 digest of a byte string.
pub uninterp spec fn sha256_of(data: Seq<u8>) -> Seq<u8>;

/// Calls `sha2::Sha256::digest`. Trusted to return the digest of `data`
/// (a function of `data` alone, named `sha256_of`), 32 bytes long as the
/// type of the digest fixes.
#[verifier::external_body]
fn sha256(data: &[u8]) -> (d: Vec<u8>)
    ensures
        d@ == sha256_of(data@),
        d@.len() == 32,
{
    sha2::Sha256::digest(data).to_vec()
}

/// The fingerprint of a request body: its SHA-256 digest in lower-case
/// hexadecimal (64 characters).
pub fn hash_request(body: &[u8]) -> (h: String)
    ensures
        h@ == hex_text(sha256_of(body@)),
        h@.len() == 64,
{
    let digest = sha256(body);
    proof {
        lemma_hex_text_len(digest@);
    }
    to_hex(digest.as_slice())
}

} // verus!
