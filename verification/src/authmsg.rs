//! The canonical authorization message for a sweep.
//!
//! An authorization signs the SHA-256 digest of a deterministic byte
//! string binding three things: the destination of the sweep, the
//! controller's current nonce, and the controller's own identity. Each
//! component is encoded as 8 big-endian bytes, so the 24-byte message
//! determines the three components uniquely — a stale nonce or a foreign
//! controller can never reproduce the bytes of a current authorization.

use vstd::prelude::*;

use crate::crypto;
use crate::crypto::sha256_of;
use crate::types::Identity;

verus! {

/// The 8-byte big-endian encoding of a 64-bit integer.
pub open spec fn u64_be_bytes(n: u64) -> Seq<u8> {
    seq![
        ((n >> 56) & 0xff) as u8,
        ((n >> 48) & 0xff) as u8,
        ((n >> 40) & 0xff) as u8,
        ((n >> 32) & 0xff) as u8,
        ((n >> 24) & 0xff) as u8,
        ((n >> 16) & 0xff) as u8,
        ((n >> 8) & 0xff) as u8,
        (n & 0xff) as u8,
    ]
}

/// The canonical message bytes authorizing a sweep to `destination` at
/// `nonce`, issued for the controller identified by `controller`.
pub open spec fn sweep_message(destination: Identity, nonce: u64, controller: Identity) -> Seq<u8> {
    u64_be_bytes(destination.id) + u64_be_bytes(nonce) + u64_be_bytes(controller.id)
}

pub fn u64_to_be_bytes(n: u64) -> (r: Vec<u8>)
    ensures
        r@ == u64_be_bytes(n),
{
    let mut r: Vec<u8> = Vec::new();
    r.push(((n >> 56) & 0xff) as u8);
    r.push(((n >> 48) & 0xff) as u8);
    r.push(((n >> 40) & 0xff) as u8);
    r.push(((n >> 32) & 0xff) as u8);
    r.push(((n >> 24) & 0xff) as u8);
    r.push(((n >> 16) & 0xff) as u8);
    r.push(((n >> 8) & 0xff) as u8);
    r.push((n & 0xff) as u8);
    proof {
        assert(r@ =~= u64_be_bytes(n));
    }
    r
}

/// The canonical message bytes, as executable code: the concatenation of
/// the three big-endian components.
pub fn sweep_message_bytes(destination: Identity, nonce: u64, controller: Identity) -> (r: Vec<u8>)
    ensures
        r@ == sweep_message(destination, nonce, controller),
{
    let mut r = u64_to_be_bytes(destination.id);
    let mut nonce_bytes = u64_to_be_bytes(nonce);
    let mut controller_bytes = u64_to_be_bytes(controller.id);
    r.append(&mut nonce_bytes);
    r.append(&mut controller_bytes);
    r
}

/// The digest an authorization must sign: SHA-256 of the canonical
/// message.
pub fn sweep_auth_digest(destination: Identity, nonce: u64, controller: Identity) -> (r: Vec<u8>)
    ensures
        r@ == sha256_of(sweep_message(destination, nonce, controller)),
        r@.len() == 32,
{
    let message = sweep_message_bytes(destination, nonce, controller);
    crypto::sha256(&message)
}

pub proof fn lemma_u64_be_injective(a: u64, b: u64)
    requires
        u64_be_bytes(a) == u64_be_bytes(b),
    ensures
        a == b,
{
    assert(u64_be_bytes(a)[0] == u64_be_bytes(b)[0]);
    assert(u64_be_bytes(a)[1] == u64_be_bytes(b)[1]);
    assert(u64_be_bytes(a)[2] == u64_be_bytes(b)[2]);
    assert(u64_be_bytes(a)[3] == u64_be_bytes(b)[3]);
    assert(u64_be_bytes(a)[4] == u64_be_bytes(b)[4]);
    assert(u64_be_bytes(a)[5] == u64_be_bytes(b)[5]);
    assert(u64_be_bytes(a)[6] == u64_be_bytes(b)[6]);
    assert(u64_be_bytes(a)[7] == u64_be_bytes(b)[7]);
    assert(a == b) by (bit_vector)
        requires
            ((a >> 56) & 0xff) as u8 == ((b >> 56) & 0xff) as u8,
            ((a >> 48) & 0xff) as u8 == ((b >> 48) & 0xff) as u8,
            ((a >> 40) & 0xff) as u8 == ((b >> 40) & 0xff) as u8,
            ((a >> 32) & 0xff) as u8 == ((b >> 32) & 0xff) as u8,
            ((a >> 24) & 0xff) as u8 == ((b >> 24) & 0xff) as u8,
            ((a >> 16) & 0xff) as u8 == ((b >> 16) & 0xff) as u8,
            ((a >> 8) & 0xff) as u8 == ((b >> 8) & 0xff) as u8,
            (a & 0xff) as u8 == (b & 0xff) as u8,
    ;
}

/// The canonical message determines destination, nonce and controller
/// uniquely: an authorization issued for one triple can never carry the
/// bytes of another. This is the replay defence at the level of the
/// message construction; that distinct messages also yield distinct
/// digests and signatures is the collision resistance of SHA-256 and the
/// unforgeability of Ed25519, which are assumed of the outside crates.
pub proof fn lemma_sweep_message_injective(
    d1: Identity,
    n1: u64,
    c1: Identity,
    d2: Identity,
    n2: u64,
    c2: Identity,
)
    requires
        sweep_message(d1, n1, c1) == sweep_message(d2, n2, c2),
    ensures
        d1 == d2,
        n1 == n2,
        c1 == c2,
{
    let m1 = sweep_message(d1, n1, c1);
    let m2 = sweep_message(d2, n2, c2);
    assert forall|k: int| 0 <= k < 8 implies u64_be_bytes(d1.id)[k] == u64_be_bytes(d2.id)[k] by {
        assert(m1[k] == m2[k]);
    }
    assert(u64_be_bytes(d1.id) =~= u64_be_bytes(d2.id));
    lemma_u64_be_injective(d1.id, d2.id);
    assert forall|k: int| 0 <= k < 8 implies u64_be_bytes(n1)[k] == u64_be_bytes(n2)[k] by {
        assert(m1[8 + k] == m2[8 + k]);
    }
    assert(u64_be_bytes(n1) =~= u64_be_bytes(n2));
    lemma_u64_be_injective(n1, n2);
    assert forall|k: int| 0 <= k < 8 implies u64_be_bytes(c1.id)[k] == u64_be_bytes(c2.id)[k] by {
        assert(m1[16 + k] == m2[16 + k]);
    }
    assert(u64_be_bytes(c1.id) =~= u64_be_bytes(c2.id));
    lemma_u64_be_injective(c1.id, c2.id);
}

} // verus!
