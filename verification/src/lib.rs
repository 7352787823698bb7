//! A two-party escrow primitive: an ephemeral holding account that accepts
//! one payment per asset on behalf of a creator, and a sweep controller that
//! authorizes and executes the atomic withdrawal of everything held to a
//! destination, protected against replay by a strictly increasing nonce.
//! A time-bound expiry path returns funds to a recovery address instead.
//!
//! The library owns the account lifecycle state machine, the multi-asset
//! ledger accounting (including minimum-reserve bookkeeping) and the
//! authorization protocol. The host environment — persistent storage, the
//! ledger clock, caller authentication, record publication and the actual
//! value transfers — stays outside: operations take the current ledger
//! height and timestamp as arguments, and return the records and transfer
//! amounts for the host to publish and perform.

pub mod account;
pub mod authmsg;
pub mod controller;
pub mod crypto;
pub mod laws;
pub mod types;
