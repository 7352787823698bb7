//! The library-wide laws, proved over the transition functions that the
//! operations' own contracts are stated with.
//!
//! Each proof function here is a statement about every reachable state
//! and every input, not about one scenario: the scenarios live in the
//! test suite.

use vstd::prelude::*;

use crate::account::{
    has_asset, reclaimable_reserve, AccountStatus, AccountView, Error, Payment, SweepExecutedView,
    MAX_ASSETS,
};
use crate::authmsg::{lemma_sweep_message_injective, sweep_message};
use crate::controller;
use crate::controller::ControllerView;
use crate::types::{AssetId, Identity};

verus! {

/// The ledger length counts exactly the successful `record_payment`
/// calls, capped at `MAX_ASSETS`: a successful call grows the ledger by
/// one, a failed call leaves the account unchanged, the ledger never
/// exceeds `MAX_ASSETS`, and a distinct-asset payment offered to a full
/// ledger fails with `TooManyPayments`.
pub proof fn lemma_record_payment_count(
    a: AccountView,
    amount: i128,
    asset: AssetId,
    timestamp: u64,
)
    requires
        a.inv(),
    ensures
        a.spec_record_payment(amount, asset, timestamp).1 is Ok
            ==> a.spec_record_payment(amount, asset, timestamp).0.payments.len()
            == a.payments.len() + 1,
        a.spec_record_payment(amount, asset, timestamp).1 is Err
            ==> a.spec_record_payment(amount, asset, timestamp).0 == a,
        a.spec_record_payment(amount, asset, timestamp).0.payments.len() <= MAX_ASSETS,
        (a.initialized && amount > 0 && !a.status.is_terminal() && !has_asset(a.payments, asset)
            && a.payments.len() == MAX_ASSETS) ==> a.spec_record_payment(
            amount,
            asset,
            timestamp,
        ).1 == Err::<crate::account::PaymentEvent, Error>(Error::TooManyPayments),
{
}

/// Every `record_payment` transition preserves the account invariant.
pub proof fn lemma_record_payment_preserves_inv(
    a: AccountView,
    amount: i128,
    asset: AssetId,
    timestamp: u64,
)
    requires
        a.inv(),
    ensures
        a.spec_record_payment(amount, asset, timestamp).0.inv(),
{
    if a.spec_record_payment(amount, asset, timestamp).1 is Ok {
        crate::account::lemma_sum_push(a.payments, Payment { asset, amount, timestamp });
    }
}

/// The account after a whole sequence of `record_payment` calls, applied
/// first to last.
pub open spec fn apply_record_payments(a: AccountView, calls: Seq<(i128, AssetId, u64)>) -> AccountView
    decreases calls.len(),
{
    if calls.len() == 0 {
        a
    } else {
        apply_record_payments(
            a.spec_record_payment(calls[0].0, calls[0].1, calls[0].2).0,
            calls.drop_first(),
        )
    }
}

/// How many of the calls in the sequence succeed, applied first to last.
pub open spec fn count_successful_payments(a: AccountView, calls: Seq<(i128, AssetId, u64)>) -> int
    decreases calls.len(),
{
    if calls.len() == 0 {
        0
    } else {
        (if a.spec_record_payment(calls[0].0, calls[0].1, calls[0].2).1 is Ok {
            1int
        } else {
            0int
        }) + count_successful_payments(
            a.spec_record_payment(calls[0].0, calls[0].1, calls[0].2).0,
            calls.drop_first(),
        )
    }
}

/// Over any sequence of `record_payment` calls, the ledger grows by
/// exactly the number of successful calls and never beyond `MAX_ASSETS`.
pub proof fn lemma_payment_count_over_sequence(a: AccountView, calls: Seq<(i128, AssetId, u64)>)
    requires
        a.inv(),
    ensures
        apply_record_payments(a, calls).inv(),
        apply_record_payments(a, calls).payments.len() == a.payments.len()
            + count_successful_payments(a, calls),
        apply_record_payments(a, calls).payments.len() <= MAX_ASSETS,
    decreases calls.len(),
{
    if calls.len() > 0 {
        lemma_record_payment_preserves_inv(a, calls[0].0, calls[0].1, calls[0].2);
        lemma_payment_count_over_sequence(
            a.spec_record_payment(calls[0].0, calls[0].1, calls[0].2).0,
            calls.drop_first(),
        );
    }
}

/// A payment under an already-used asset is rejected with
/// `DuplicateAsset`, and the account — the existing record included —
/// is left unchanged. (An invalid amount or a terminal status is
/// reported ahead of the duplicate: those inputs are excluded here.)
pub proof fn lemma_record_payment_duplicate(
    a: AccountView,
    amount: i128,
    asset: AssetId,
    timestamp: u64,
)
    requires
        a.inv(),
        has_asset(a.payments, asset),
        amount > 0,
        !a.status.is_terminal(),
    ensures
        a.spec_record_payment(amount, asset, timestamp).1 == Err::<
            crate::account::PaymentEvent,
            Error,
        >(Error::DuplicateAsset),
        a.spec_record_payment(amount, asset, timestamp).0 == a,
{
    assert(a.payments.len() > 0);
    assert(a.status != AccountStatus::Active);
    assert(a.status == AccountStatus::PaymentReceived);
}

/// After a successful sweep the account is `Swept`, and any further
/// sweep — whatever destination or ledger height — fails with
/// `AlreadySwept` and changes nothing, so no second enumeration of
/// transfers is ever produced.
pub proof fn lemma_sweep_idempotent_safe(
    a: AccountView,
    d1: Identity,
    l1: u32,
    d2: Identity,
    l2: u32,
)
    requires
        a.inv(),
        a.spec_sweep(d1, l1).1 is Ok,
    ensures
        a.spec_sweep(d1, l1).0.status == AccountStatus::Swept,
        a.spec_sweep(d1, l1).0.spec_sweep(d2, l2).1 == Err::<SweepExecutedView, Error>(
            Error::AlreadySwept,
        ),
        a.spec_sweep(d1, l1).0.spec_sweep(d2, l2).0 == a.spec_sweep(d1, l1).0,
{
}

/// `Swept` and `Expired` are absorbing: from a terminal status,
/// initialization, payments, sweeps and expiry all fail and leave the
/// account unchanged.
pub proof fn lemma_terminal_absorbing(a: AccountView)
    requires
        a.inv(),
        a.status.is_terminal(),
    ensures
        forall|asset: AssetId, amount: i128, ts: u64|
            (#[trigger] a.spec_record_payment(amount, asset, ts)).0 == a && a.spec_record_payment(
                amount,
                asset,
                ts,
            ).1 is Err,
        forall|d: Identity, l: u32|
            (#[trigger] a.spec_sweep(d, l)).0 == a && a.spec_sweep(d, l).1 is Err,
        forall|l: u32| (#[trigger] a.spec_expire(l)).0 == a && a.spec_expire(l).1 is Err,
        forall|c: Identity, e: u32, rec: Identity, n: u32, l: u32|
            (#[trigger] a.spec_initialize(c, e, rec, n, l)).0 == a && a.spec_initialize(
                c,
                e,
                rec,
                n,
                l,
            ).1 is Err,
{
}

/// Before the expiry height, `expire` fails with `NotExpired`; at or
/// after it, from `Active` or `PaymentReceived`, it succeeds and leaves
/// the account `Expired` — a terminal status, by
/// `lemma_terminal_absorbing`.
pub proof fn lemma_expire(a: AccountView, current_ledger: u32)
    requires
        a.inv(),
        a.initialized,
        !a.status.is_terminal(),
    ensures
        current_ledger < a.expiry_ledger ==> a.spec_expire(current_ledger).1 == Err::<
            crate::account::AccountExpired,
            Error,
        >(Error::NotExpired) && a.spec_expire(current_ledger).0 == a,
        current_ledger >= a.expiry_ledger ==> a.spec_expire(current_ledger).1 is Ok
            && a.spec_expire(current_ledger).0.status == AccountStatus::Expired
            && a.spec_expire(current_ledger).0.status.is_terminal(),
{
}

/// The reclaimable reserve is `base_reserve - MIN_BALANCE_FOR_CLOSE`,
/// floored at zero, and is released exactly once: the second
/// `reclaim_reserve` fails with `AlreadySwept` and changes nothing.
pub proof fn lemma_reclaim_reserve_once(a: AccountView)
    requires
        a.inv(),
        a.spec_reclaim_reserve().1 is Ok,
    ensures
        a.spec_reclaim_reserve().1 == Ok::<i128, Error>(reclaimable_reserve(a.base_reserve)),
        a.spec_reclaim_reserve().0.spec_reclaim_reserve().1 == Err::<i128, Error>(
            Error::AlreadySwept,
        ),
        a.spec_reclaim_reserve().0.spec_reclaim_reserve().0 == a.spec_reclaim_reserve().0,
{
}

/// Every successful `execute_sweep` advances the nonce by exactly one;
/// a failed one leaves the controller unchanged. After a success, no
/// canonical message formed at the new nonce — for any destination and
/// any controller identity — equals the message whose authorization was
/// just consumed: a replay finds different bytes to verify against.
/// That distinct messages also carry distinct digests and signatures is
/// the collision resistance of SHA-256 and the unforgeability of
/// Ed25519, assumed of the outside crates.
pub proof fn lemma_nonce_monotonic(
    c: ControllerView,
    a: AccountView,
    account_id: Identity,
    destination: Identity,
    sig: Seq<u8>,
    current_ledger: u32,
)
    requires
        c.inv(),
        a.inv(),
    ensures
        c.spec_execute_sweep(a, account_id, destination, sig, current_ledger).2 is Ok
            ==> c.spec_execute_sweep(a, account_id, destination, sig, current_ledger).0.sweep_nonce
            == c.sweep_nonce + 1,
        c.spec_execute_sweep(a, account_id, destination, sig, current_ledger).2 is Err
            ==> c.spec_execute_sweep(a, account_id, destination, sig, current_ledger).0 == c,
        c.spec_execute_sweep(a, account_id, destination, sig, current_ledger).2 is Ok
            ==> forall|d2: Identity, c2: Identity|
            #[trigger] sweep_message(
                d2,
                c.spec_execute_sweep(a, account_id, destination, sig, current_ledger).0.sweep_nonce,
                c2,
            ) != sweep_message(destination, c.sweep_nonce, c.identity),
{
    let c1 = c.spec_execute_sweep(a, account_id, destination, sig, current_ledger).0;
    if c.spec_execute_sweep(a, account_id, destination, sig, current_ledger).2 is Ok {
        assert forall|d2: Identity, c2: Identity|
            #[trigger] sweep_message(d2, c1.sweep_nonce, c2) != sweep_message(
                destination,
                c.sweep_nonce,
                c.identity,
            ) by {
            if sweep_message(d2, c1.sweep_nonce, c2) == sweep_message(
                destination,
                c.sweep_nonce,
                c.identity,
            ) {
                lemma_sweep_message_injective(
                    d2,
                    c1.sweep_nonce,
                    c2,
                    destination,
                    c.sweep_nonce,
                    c.identity,
                );
            }
        }
    }
}

/// The pre-check is sound: when `can_sweep` reports true, the sweep
/// transition itself succeeds, whatever the destination.
pub proof fn lemma_can_sweep_sound(a: AccountView, destination: Identity, current_ledger: u32)
    requires
        a.inv(),
        controller::spec_can_sweep(a, current_ledger),
    ensures
        a.spec_sweep(destination, current_ledger).1 is Ok,
{
}

/// With a pinned destination, a sweep to any other destination is
/// rejected with `UnauthorizedDestination` before anything — the
/// account included — is touched.
pub proof fn lemma_pinned_destination(
    c: ControllerView,
    a: AccountView,
    account_id: Identity,
    destination: Identity,
    sig: Seq<u8>,
    current_ledger: u32,
)
    requires
        c.inv(),
        a.inv(),
        c.authorized_destination matches Some(pinned) && pinned != destination,
    ensures
        c.spec_execute_sweep(a, account_id, destination, sig, current_ledger).2 == Err::<
            controller::SweepCompletedView,
            controller::Error,
        >(controller::Error::UnauthorizedDestination),
        c.spec_execute_sweep(a, account_id, destination, sig, current_ledger).0 == c,
        c.spec_execute_sweep(a, account_id, destination, sig, current_ledger).1 == a,
{
}

/// A sweep attempted through the controller on an already-swept account
/// fails and leaves both the controller and the account unchanged: in
/// particular, no transfer enumeration is produced a second time.
pub proof fn lemma_execute_sweep_after_sweep(
    c: ControllerView,
    a: AccountView,
    account_id: Identity,
    destination: Identity,
    sig: Seq<u8>,
    current_ledger: u32,
)
    requires
        c.inv(),
        a.inv(),
        a.status == AccountStatus::Swept,
    ensures
        c.spec_execute_sweep(a, account_id, destination, sig, current_ledger).2 is Err,
        c.spec_execute_sweep(a, account_id, destination, sig, current_ledger).0 == c,
        c.spec_execute_sweep(a, account_id, destination, sig, current_ledger).1 == a,
{
}

} // verus!
