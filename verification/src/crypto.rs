//! Cryptographic primitives, taken on trust from outside crates.
//!
//! The authorization protocol needs a fixed-output hash and Ed25519
//! signature verification. Both are black boxes to the proofs: their
//! results are named by uninterpreted spec functions, and every contract
//! upstream speaks of those names. Nothing here promises anything about
//! the bytes of a digest or the validity of a signature beyond determinism
//! and the documented output length.

use vstd::prelude::*;

verus! {

/// The SHA-256 digest of a byte sequence. The digest depends on the input
/// bytes alone.
pub uninterp spec fn sha256_of(data: Seq<u8>) -> Seq<u8>;

/// Whether `sig` is a valid Ed25519 signature by the key encoded in `pk`
/// over `msg`, under strict verification. The outcome depends on the three
/// arguments alone; it is `false` whenever `pk` is not 32 bytes, `sig` is
/// not 64 bytes, or `pk` does not decode to a curve point.
pub uninterp spec fn ed25519_valid(pk: Seq<u8>, msg: Seq<u8>, sig: Seq<u8>) -> bool;

/// Relies on sha2's `Sha256`: a 32-byte digest computed from the input
/// bytes alone.
#[verifier::external_body]
pub fn sha256(data: &Vec<u8>) -> (r: Vec<u8>)
    ensures
        r@ == sha256_of(data@),
        r@.len() == 32,
{
    <sha2::Sha256 as sha2::Digest>::digest(data.as_slice()).to_vec()
}

/// Relies on ed25519-dalek's `VerifyingKey::from_bytes` and
/// `verify_strict`: returns whether `sig` is a valid signature by `pk`
/// over `msg`, and `false` when `pk` or `sig` has the wrong length or `pk`
/// does not decode.
#[verifier::external_body]
pub fn ed25519_verify(pk: &Vec<u8>, msg: &Vec<u8>, sig: &Vec<u8>) -> (r: bool)
    ensures
        r == ed25519_valid(pk@, msg@, sig@),
{
    let pk_bytes: [u8; 32] = match pk.as_slice().try_into() {
        Ok(b) => b,
        Err(_) => return false,
    };
    let sig_bytes: [u8; 64] = match sig.as_slice().try_into() {
        Ok(b) => b,
        Err(_) => return false,
    };
    let key = match ed25519_dalek::VerifyingKey::from_bytes(&pk_bytes) {
        Ok(k) => k,
        Err(_) => return false,
    };
    let signature = ed25519_dalek::Signature::from_bytes(&sig_bytes);
    key.verify_strict(msg.as_slice(), &signature).is_ok()
}

} // verus!
