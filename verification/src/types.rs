//! Plain identifiers shared by the escrow account and the sweep controller.
//!
//! On the host ledger, participants and asset contracts are both named by
//! addresses. Here each is modelled as an opaque numeric identifier: the
//! library never inspects an address beyond comparing it for equality and
//! feeding its canonical encoding into the authorization message.

use vstd::prelude::*;

verus! {

/// An address on the host ledger: a participant, a contract, or a
/// destination wallet. Only equality and the canonical byte encoding
/// (see `authmsg`) are ever used.
#[derive(Clone, Copy, PartialEq, Eq, Structural, Debug)]
pub struct Identity {
    pub id: u64,
}

impl Identity {
    pub fn new(id: u64) -> (r: Identity)
        ensures
            r.id == id,
    {
        Identity { id }
    }
}

/// The address of an asset (token) contract. Distinct from `Identity`
/// only to keep the two roles apart in signatures and records.
#[derive(Clone, Copy, PartialEq, Eq, Structural, Debug)]
pub struct AssetId {
    pub id: u64,
}

impl AssetId {
    pub fn new(id: u64) -> (r: AssetId)
        ensures
            r.id == id,
    {
        AssetId { id }
    }
}

/// One entry of a sweep or payment enumeration: an asset and the amount
/// held in it.
#[derive(Clone, Copy, PartialEq, Eq, Structural, Debug)]
pub struct AssetAmount {
    pub asset: AssetId,
    pub amount: i128,
}

} // verus!
