//! The ephemeral escrow account: lifecycle state machine, multi-asset
//! payment ledger and minimum-reserve bookkeeping.
//!
//! The account is a plain value; the host keeps it in persistent storage
//! and calls the operations below, passing in the current ledger height
//! and timestamp. Every operation validates all of its preconditions
//! before mutating anything, so an error always leaves the account
//! exactly as it was. Each mutating operation is specified by a total
//! transition function on the account's mathematical view, and returns
//! the record the host is expected to publish.

use vstd::prelude::*;

use crate::types::{AssetAmount, AssetId, Identity};

verus! {

/// Most assets an account may hold payments in.
pub const MAX_ASSETS: u32 = 10;

/// Reserve the host ledger demands per ledger entry (trustline), in the
/// smallest asset unit.
pub const BASE_RESERVE_PER_ENTRY: i128 = 5_000_000;

/// Reserve the host ledger demands for the account itself.
pub const ACCOUNT_BASE_RESERVE: i128 = 10_000_000;

/// Balance that must stay behind for the closing transaction when the
/// reserve is reclaimed.
pub const MIN_BALANCE_FOR_CLOSE: i128 = 1_000_000;

/// Everything an account operation can reject.
#[derive(Clone, Copy, PartialEq, Eq, Structural, Debug)]
pub enum Error {
    AlreadyInitialized,
    NotInitialized,
    PaymentAlreadyReceived,
    InvalidAmount,
    InvalidExpiry,
    NotExpired,
    AlreadySwept,
    Unauthorized,
    InvalidSignature,
    NoPaymentReceived,
    AccountExpired,
    InvalidStatus,
    DuplicateAsset,
    TooManyPayments,
}

/// Lifecycle of an account. `Swept` and `Expired` are terminal and
/// mutually exclusive: once either is reached no status change is
/// possible.
#[derive(Clone, Copy, PartialEq, Eq, Structural, Debug)]
pub enum AccountStatus {
    Active,
    PaymentReceived,
    Swept,
    Expired,
}

impl AccountStatus {
    /// A terminal status admits no further transition.
    pub open spec fn is_terminal(self) -> bool {
        self == AccountStatus::Swept || self == AccountStatus::Expired
    }
}

/// One recorded payment: at most one per asset.
#[derive(Clone, Copy, PartialEq, Eq, Structural, Debug)]
pub struct Payment {
    pub asset: AssetId,
    pub amount: i128,
    pub timestamp: u64,
}

/// Record of a successful initialization.
#[derive(Clone, Copy, PartialEq, Eq, Structural, Debug)]
pub struct AccountCreated {
    pub creator: Identity,
    pub expiry_ledger: u32,
}

/// Record of the first payment an account receives.
#[derive(Clone, Copy, PartialEq, Eq, Structural, Debug)]
pub struct PaymentReceived {
    pub amount: i128,
    pub asset: AssetId,
}

/// Record of any payment after the first.
#[derive(Clone, Copy, PartialEq, Eq, Structural, Debug)]
pub struct MultiPaymentReceived {
    pub asset: AssetId,
    pub amount: i128,
}

/// What `record_payment` asks the host to publish: the first payment is
/// distinguished from the ones after it.
#[derive(Clone, Copy, PartialEq, Eq, Structural, Debug)]
pub enum PaymentEvent {
    First(PaymentReceived),
    Subsequent(MultiPaymentReceived),
}

/// Record of a successful sweep: every held asset with its amount, and
/// the reserve figure at the time of the sweep.
#[derive(Clone, Debug, PartialEq, Eq)]
pub struct SweepExecuted {
    pub destination: Identity,
    pub assets: Vec<AssetAmount>,
    pub reserve_reclaimed: i128,
}

/// Mathematical view of `SweepExecuted`.
#[verifier::ext_equal]
pub struct SweepExecutedView {
    pub destination: Identity,
    pub assets: Seq<AssetAmount>,
    pub reserve_reclaimed: i128,
}

impl View for SweepExecuted {
    type V = SweepExecutedView;

    open spec fn view(&self) -> SweepExecutedView {
        SweepExecutedView {
            destination: self.destination,
            assets: self.assets@,
            reserve_reclaimed: self.reserve_reclaimed,
        }
    }
}

/// Record of a reclaimed reserve, for the host to publish when the
/// reclaimable amount is positive.
#[derive(Clone, Copy, PartialEq, Eq, Structural, Debug)]
pub struct ReserveReclaimed {
    pub recipient: Identity,
    pub amount: i128,
}

/// Record of a successful expiry: where the funds went, how many assets
/// and how much value were returned, and the reserve folded into the
/// refund.
#[derive(Clone, Copy, PartialEq, Eq, Structural, Debug)]
pub struct AccountExpired {
    pub recovery_address: Identity,
    pub total_assets: u32,
    pub amount_returned: i128,
    pub reserve_returned: i128,
}

/// A snapshot of the whole account, as `get_info` reports it.
#[derive(Clone, Debug, PartialEq, Eq)]
pub struct AccountInfo {
    pub creator: Identity,
    pub status: AccountStatus,
    pub expiry_ledger: u32,
    pub recovery_address: Identity,
    pub payment_received: bool,
    pub payments: Vec<AssetAmount>,
    pub swept_to: Option<Identity>,
    pub base_reserve: i128,
    pub reserve_reclaimed: bool,
}

/// Mathematical view of `AccountInfo`.
#[verifier::ext_equal]
pub struct AccountInfoView {
    pub creator: Identity,
    pub status: AccountStatus,
    pub expiry_ledger: u32,
    pub recovery_address: Identity,
    pub payment_received: bool,
    pub payments: Seq<AssetAmount>,
    pub swept_to: Option<Identity>,
    pub base_reserve: i128,
    pub reserve_reclaimed: bool,
}

impl View for AccountInfo {
    type V = AccountInfoView;

    open spec fn view(&self) -> AccountInfoView {
        AccountInfoView {
            creator: self.creator,
            status: self.status,
            expiry_ledger: self.expiry_ledger,
            recovery_address: self.recovery_address,
            payment_received: self.payment_received,
            payments: self.payments@,
            swept_to: self.swept_to,
            base_reserve: self.base_reserve,
            reserve_reclaimed: self.reserve_reclaimed,
        }
    }
}

/// Sum of the recorded payment amounts.
pub open spec fn sum_amounts(s: Seq<Payment>) -> int
    decreases s.len(),
{
    if s.len() == 0 {
        0
    } else {
        sum_amounts(s.drop_last()) + s.last().amount
    }
}

/// Whether some payment in `s` is recorded under `asset`.
pub open spec fn has_asset(s: Seq<Payment>, asset: AssetId) -> bool {
    exists|i: int| 0 <= i < s.len() && s[i].asset == asset
}

/// The payments reduced to asset/amount pairs, in recording order.
pub open spec fn assets_of(s: Seq<Payment>) -> Seq<AssetAmount> {
    s.map_values(|p: Payment| AssetAmount { asset: p.asset, amount: p.amount })
}

/// The portion of a reserve that may be returned: everything above the
/// minimum balance needed to close the account, floored at zero.
pub open spec fn reclaimable_reserve(base_reserve: i128) -> i128 {
    if base_reserve > MIN_BALANCE_FOR_CLOSE {
        (base_reserve - MIN_BALANCE_FOR_CLOSE) as i128
    } else {
        0
    }
}

/// Mathematical view of an account, over which the transition functions
/// and the laws are stated.
#[verifier::ext_equal]
pub struct AccountView {
    pub initialized: bool,
    pub creator: Identity,
    pub expiry_ledger: u32,
    pub recovery_address: Identity,
    pub payments: Seq<Payment>,
    pub status: AccountStatus,
    pub swept_to: Option<Identity>,
    pub base_reserve: i128,
    pub reserve_reclaimed: bool,
}

impl AccountView {
    /// The account as deployed, before initialization.
    pub open spec fn initial() -> AccountView {
        AccountView {
            initialized: false,
            creator: Identity { id: 0 },
            expiry_ledger: 0,
            recovery_address: Identity { id: 0 },
            payments: Seq::empty(),
            status: AccountStatus::Active,
            swept_to: None,
            base_reserve: 0,
            reserve_reclaimed: false,
        }
    }

    /// Well-formedness: what every reachable account state satisfies.
    pub open spec fn inv(self) -> bool {
        &&& self.payments.len() <= MAX_ASSETS
        &&& forall|i: int, j: int|
            0 <= i < j < self.payments.len() ==> self.payments[i].asset != self.payments[j].asset
        &&& forall|i: int| 0 <= i < self.payments.len() ==> self.payments[i].amount > 0
        &&& sum_amounts(self.payments) <= i128::MAX
        &&& (!self.initialized ==> self.status == AccountStatus::Active && self.base_reserve == 0)
        &&& (self.status == AccountStatus::Active ==> self.payments.len() == 0)
        &&& (self.status == AccountStatus::PaymentReceived ==> self.initialized
            && self.payments.len() > 0)
        &&& (self.status == AccountStatus::Swept ==> self.initialized && self.payments.len() > 0)
        &&& (self.status == AccountStatus::Expired ==> self.initialized)
        &&& (self.swept_to is Some <==> self.status.is_terminal())
        &&& (self.reserve_reclaimed ==> self.status.is_terminal())
        &&& 0 <= self.base_reserve
        &&& self.base_reserve <= ACCOUNT_BASE_RESERVE + BASE_RESERVE_PER_ENTRY * (u32::MAX as int)
    }

    /// Transition of `initialize`.
    pub open spec fn spec_initialize(
        self,
        creator: Identity,
        expiry_ledger: u32,
        recovery_address: Identity,
        expected_assets: u32,
        current_ledger: u32,
    ) -> (AccountView, Result<AccountCreated, Error>) {
        if self.initialized {
            (self, Err(Error::AlreadyInitialized))
        } else if expiry_ledger <= current_ledger {
            (self, Err(Error::InvalidExpiry))
        } else {
            (
                AccountView {
                    initialized: true,
                    creator,
                    expiry_ledger,
                    recovery_address,
                    status: AccountStatus::Active,
                    base_reserve: (ACCOUNT_BASE_RESERVE + BASE_RESERVE_PER_ENTRY * (expected_assets
                        as i128)) as i128,
                    reserve_reclaimed: false,
                    ..self
                },
                Ok(AccountCreated { creator, expiry_ledger }),
            )
        }
    }

    /// Transition of `record_payment`.
    pub open spec fn spec_record_payment(
        self,
        amount: i128,
        asset: AssetId,
        timestamp: u64,
    ) -> (AccountView, Result<PaymentEvent, Error>) {
        if !self.initialized {
            (self, Err(Error::NotInitialized))
        } else if amount <= 0 {
            (self, Err(Error::InvalidAmount))
        } else if self.status.is_terminal() {
            (self, Err(Error::InvalidStatus))
        } else if has_asset(self.payments, asset) {
            (self, Err(Error::DuplicateAsset))
        } else if self.payments.len() >= MAX_ASSETS {
            (self, Err(Error::TooManyPayments))
        } else if amount > i128::MAX - sum_amounts(self.payments) {
            (self, Err(Error::InvalidAmount))
        } else {
            (
                AccountView {
                    payments: self.payments.push(Payment { asset, amount, timestamp }),
                    status: AccountStatus::PaymentReceived,
                    ..self
                },
                Ok(
                    if self.payments.len() == 0 {
                        PaymentEvent::First(PaymentReceived { amount, asset })
                    } else {
                        PaymentEvent::Subsequent(MultiPaymentReceived { asset, amount })
                    },
                ),
            )
        }
    }

    /// Transition of `sweep`.
    pub open spec fn spec_sweep(self, destination: Identity, current_ledger: u32) -> (
        AccountView,
        Result<SweepExecutedView, Error>,
    ) {
        if !self.initialized {
            (self, Err(Error::NotInitialized))
        } else if self.status == AccountStatus::Swept {
            (self, Err(Error::AlreadySwept))
        } else if self.payments.len() == 0 {
            (self, Err(Error::NoPaymentReceived))
        } else if self.status == AccountStatus::Expired || current_ledger >= self.expiry_ledger {
            (self, Err(Error::AccountExpired))
        } else {
            (
                AccountView { status: AccountStatus::Swept, swept_to: Some(destination), ..self },
                Ok(
                    SweepExecutedView {
                        destination,
                        assets: assets_of(self.payments),
                        reserve_reclaimed: self.base_reserve,
                    },
                ),
            )
        }
    }

    /// Transition of `reclaim_reserve`.
    pub open spec fn spec_reclaim_reserve(self) -> (AccountView, Result<i128, Error>) {
        if !self.initialized {
            (self, Err(Error::NotInitialized))
        } else if self.status != AccountStatus::Swept {
            (self, Err(Error::InvalidStatus))
        } else if self.reserve_reclaimed {
            (self, Err(Error::AlreadySwept))
        } else {
            (
                AccountView { reserve_reclaimed: true, ..self },
                Ok(reclaimable_reserve(self.base_reserve)),
            )
        }
    }

    /// Transition of `expire`.
    pub open spec fn spec_expire(self, current_ledger: u32) -> (
        AccountView,
        Result<AccountExpired, Error>,
    ) {
        if !self.initialized {
            (self, Err(Error::NotInitialized))
        } else if self.status.is_terminal() {
            (self, Err(Error::InvalidStatus))
        } else if current_ledger < self.expiry_ledger {
            (self, Err(Error::NotExpired))
        } else {
            (
                AccountView {
                    status: AccountStatus::Expired,
                    swept_to: Some(self.recovery_address),
                    reserve_reclaimed: true,
                    ..self
                },
                Ok(
                    AccountExpired {
                        recovery_address: self.recovery_address,
                        total_assets: self.payments.len() as u32,
                        amount_returned: sum_amounts(self.payments) as i128,
                        reserve_returned: reclaimable_reserve(self.base_reserve),
                    },
                ),
            )
        }
    }

    /// What `get_info` reports of an initialized account.
    pub open spec fn spec_info(self) -> AccountInfoView {
        AccountInfoView {
            creator: self.creator,
            status: self.status,
            expiry_ledger: self.expiry_ledger,
            recovery_address: self.recovery_address,
            payment_received: self.payments.len() > 0,
            payments: assets_of(self.payments),
            swept_to: self.swept_to,
            base_reserve: self.base_reserve,
            reserve_reclaimed: self.reserve_reclaimed,
        }
    }
}

pub proof fn lemma_sum_push(s: Seq<Payment>, p: Payment)
    ensures
        sum_amounts(s.push(p)) == sum_amounts(s) + p.amount,
{
    assert(s.push(p).drop_last() =~= s);
    assert(s.push(p).last() == p);
}

pub proof fn lemma_sum_nonneg(s: Seq<Payment>)
    requires
        forall|i: int| 0 <= i < s.len() ==> s[i].amount > 0,
    ensures
        sum_amounts(s) >= 0,
    decreases s.len(),
{
    if s.len() > 0 {
        assert(forall|i: int| 0 <= i < s.drop_last().len() ==> s.drop_last()[i].amount > 0);
        lemma_sum_nonneg(s.drop_last());
    }
}

pub proof fn lemma_sum_take_succ(s: Seq<Payment>, i: int)
    requires
        0 <= i < s.len(),
    ensures
        sum_amounts(s.take(i + 1)) == sum_amounts(s.take(i)) + s[i].amount,
{
    assert(s.take(i + 1).drop_last() =~= s.take(i));
    assert(s.take(i + 1).last() == s[i]);
}

pub proof fn lemma_sum_take_bounds(s: Seq<Payment>, i: int)
    requires
        forall|k: int| 0 <= k < s.len() ==> s[k].amount > 0,
        0 <= i <= s.len(),
    ensures
        0 <= sum_amounts(s.take(i)) <= sum_amounts(s),
    decreases s.len() - i,
{
    assert(forall|k: int| 0 <= k < s.take(i).len() ==> s.take(i)[k].amount > 0);
    lemma_sum_nonneg(s.take(i));
    if i == s.len() {
        assert(s.take(i) =~= s);
    } else {
        lemma_sum_take_succ(s, i);
        lemma_sum_take_bounds(s, i + 1);
    }
}

/// The escrow account itself. The host owns exactly one per deployed
/// escrow and persists it between operations.
pub struct EphemeralAccount {
    pub(crate) initialized: bool,
    pub(crate) creator: Identity,
    pub(crate) expiry_ledger: u32,
    pub(crate) recovery_address: Identity,
    pub(crate) payments: Vec<Payment>,
    pub(crate) status: AccountStatus,
    pub(crate) swept_to: Option<Identity>,
    pub(crate) base_reserve: i128,
    pub(crate) reserve_reclaimed: bool,
}

impl View for EphemeralAccount {
    type V = AccountView;

    closed spec fn view(&self) -> AccountView {
        AccountView {
            initialized: self.initialized,
            creator: self.creator,
            expiry_ledger: self.expiry_ledger,
            recovery_address: self.recovery_address,
            payments: self.payments@,
            status: self.status,
            swept_to: self.swept_to,
            base_reserve: self.base_reserve,
            reserve_reclaimed: self.reserve_reclaimed,
        }
    }
}

impl EphemeralAccount {
    /// Well-formedness of the in-memory account.
    pub open spec fn wf(&self) -> bool {
        self@.inv()
    }

    /// A fresh, uninitialized account.
    pub fn new() -> (r: EphemeralAccount)
        ensures
            r.wf(),
            r@ == AccountView::initial(),
    {
        let r = EphemeralAccount {
            initialized: false,
            creator: Identity { id: 0 },
            expiry_ledger: 0,
            recovery_address: Identity { id: 0 },
            payments: Vec::new(),
            status: AccountStatus::Active,
            swept_to: None,
            base_reserve: 0,
            reserve_reclaimed: false,
        };
        proof {
            assert(r@ =~= AccountView::initial());
        }
        r
    }

    /// Set up the account: creator, expiry, recovery address, and the
    /// base reserve computed from the declared number of expected assets.
    /// The host must have authenticated the caller as `creator` before
    /// calling.
    pub fn initialize(
        &mut self,
        creator: Identity,
        expiry_ledger: u32,
        recovery_address: Identity,
        expected_assets: u32,
        current_ledger: u32,
    ) -> (r: Result<AccountCreated, Error>)
        requires
            old(self).wf(),
        ensures
            final(self).wf(),
            final(self)@ == old(self)@.spec_initialize(
                creator,
                expiry_ledger,
                recovery_address,
                expected_assets,
                current_ledger,
            ).0,
            r == old(self)@.spec_initialize(
                creator,
                expiry_ledger,
                recovery_address,
                expected_assets,
                current_ledger,
            ).1,
    {
        if self.initialized {
            return Err(Error::AlreadyInitialized);
        }
        if expiry_ledger <= current_ledger {
            return Err(Error::InvalidExpiry);
        }
        let base_reserve = calculate_base_reserve(expected_assets);
        self.initialized = true;
        self.creator = creator;
        self.expiry_ledger = expiry_ledger;
        self.recovery_address = recovery_address;
        self.status = AccountStatus::Active;
        self.base_reserve = base_reserve;
        self.reserve_reclaimed = false;
        proof {
            assert(self@ =~= old(self)@.spec_initialize(
                creator,
                expiry_ledger,
                recovery_address,
                expected_assets,
                current_ledger,
            ).0);
        }
        Ok(AccountCreated { creator, expiry_ledger })
    }

    /// Record an inbound payment. At most one payment per asset, at most
    /// `MAX_ASSETS` assets, positive amounts only, and only before a
    /// terminal transition; an amount that would push the recorded total
    /// past `i128::MAX` is rejected as invalid. The first payment moves
    /// the account to `PaymentReceived`.
    pub fn record_payment(&mut self, amount: i128, asset: AssetId, timestamp: u64) -> (r: Result<
        PaymentEvent,
        Error,
    >)
        requires
            old(self).wf(),
        ensures
            final(self).wf(),
            final(self)@ == old(self)@.spec_record_payment(amount, asset, timestamp).0,
            r == old(self)@.spec_record_payment(amount, asset, timestamp).1,
    {
        if !self.initialized {
            return Err(Error::NotInitialized);
        }
        if amount <= 0 {
            return Err(Error::InvalidAmount);
        }
        if self.status == AccountStatus::Swept || self.status == AccountStatus::Expired {
            return Err(Error::InvalidStatus);
        }
        if self.contains_asset(asset) {
            return Err(Error::DuplicateAsset);
        }
        if self.payments.len() >= MAX_ASSETS as usize {
            return Err(Error::TooManyPayments);
        }
        let total = self.total_amount();
        proof {
            lemma_sum_nonneg(self@.payments);
        }
        if amount > i128::MAX - total {
            return Err(Error::InvalidAmount);
        }
        let first = self.payments.len() == 0;
        proof {
            lemma_sum_push(self@.payments, Payment { asset, amount, timestamp });
        }
        self.payments.push(Payment { asset, amount, timestamp });
        self.status = AccountStatus::PaymentReceived;
        proof {
            assert(self@ =~= old(self)@.spec_record_payment(amount, asset, timestamp).0);
        }
        if first {
            Ok(PaymentEvent::First(PaymentReceived { amount, asset }))
        } else {
            Ok(PaymentEvent::Subsequent(MultiPaymentReceived { asset, amount }))
        }
    }

    /// Mark the account swept to `destination` and report every held
    /// asset for the host to transfer. The terminal status is committed
    /// before any value moves, so a reentrant call observes `Swept` and
    /// is rejected.
    ///
    /// The account performs no signature check itself: verification is
    /// the sweep controller's duty, and the host must not expose this
    /// operation outside the verified path. The signature is accepted
    /// here only so the authorized call chain carries it through.
    pub fn sweep(&mut self, destination: Identity, auth_signature: &Vec<u8>, current_ledger: u32) -> (r:
        Result<SweepExecuted, Error>)
        requires
            old(self).wf(),
        ensures
            final(self).wf(),
            final(self)@ == old(self)@.spec_sweep(destination, current_ledger).0,
            (match r {
                Ok(ev) => old(self)@.spec_sweep(destination, current_ledger).1 == Ok::<
                    SweepExecutedView,
                    Error,
                >(ev@),
                Err(e) => old(self)@.spec_sweep(destination, current_ledger).1 == Err::<
                    SweepExecutedView,
                    Error,
                >(e),
            }),
    {
        if !self.initialized {
            return Err(Error::NotInitialized);
        }
        if self.status == AccountStatus::Swept {
            return Err(Error::AlreadySwept);
        }
        if self.payments.len() == 0 {
            return Err(Error::NoPaymentReceived);
        }
        if self.status == AccountStatus::Expired || current_ledger >= self.expiry_ledger {
            return Err(Error::AccountExpired);
        }
        let assets = self.collect_assets();
        self.status = AccountStatus::Swept;
        self.swept_to = Some(destination);
        proof {
            assert(self@ =~= old(self)@.spec_sweep(destination, current_ledger).0);
        }
        Ok(SweepExecuted { destination, assets, reserve_reclaimed: self.base_reserve })
    }

    /// Release the reclaimable part of the base reserve, exactly once,
    /// and only after a sweep. The host pays the returned amount to
    /// `recipient`.
    pub fn reclaim_reserve(&mut self, recipient: Identity) -> (r: Result<i128, Error>)
        requires
            old(self).wf(),
        ensures
            final(self).wf(),
            final(self)@ == old(self)@.spec_reclaim_reserve().0,
            r == old(self)@.spec_reclaim_reserve().1,
    {
        if !self.initialized {
            return Err(Error::NotInitialized);
        }
        if self.status != AccountStatus::Swept {
            return Err(Error::InvalidStatus);
        }
        if self.reserve_reclaimed {
            return Err(Error::AlreadySwept);
        }
        let reclaimable: i128 = if self.base_reserve > MIN_BALANCE_FOR_CLOSE {
            self.base_reserve - MIN_BALANCE_FOR_CLOSE
        } else {
            0
        };
        self.reserve_reclaimed = true;
        proof {
            assert(self@ =~= old(self)@.spec_reclaim_reserve().0);
        }
        Ok(reclaimable)
    }

    /// Expire the account: after the expiry height, and only from a
    /// non-terminal status, funds and reserve are marked for return to
    /// the recovery address.
    pub fn expire(&mut self, current_ledger: u32) -> (r: Result<AccountExpired, Error>)
        requires
            old(self).wf(),
        ensures
            final(self).wf(),
            final(self)@ == old(self)@.spec_expire(current_ledger).0,
            r == old(self)@.spec_expire(current_ledger).1,
    {
        if !self.initialized {
            return Err(Error::NotInitialized);
        }
        if self.status == AccountStatus::Swept || self.status == AccountStatus::Expired {
            return Err(Error::InvalidStatus);
        }
        if current_ledger < self.expiry_ledger {
            return Err(Error::NotExpired);
        }
        let total = self.total_amount();
        proof {
            lemma_sum_nonneg(self@.payments);
        }
        let total_assets = self.payments.len() as u32;
        let reserve_returned: i128 = if self.base_reserve > MIN_BALANCE_FOR_CLOSE {
            self.base_reserve - MIN_BALANCE_FOR_CLOSE
        } else {
            0
        };
        let recovery = self.recovery_address;
        self.status = AccountStatus::Expired;
        self.swept_to = Some(recovery);
        self.reserve_reclaimed = true;
        proof {
            assert(self@ =~= old(self)@.spec_expire(current_ledger).0);
        }
        Ok(
            AccountExpired {
                recovery_address: recovery,
                total_assets,
                amount_returned: total,
                reserve_returned,
            },
        )
    }

    /// The recorded payments as asset/amount pairs, in recording order.
    pub fn get_payments(&self) -> (r: Vec<AssetAmount>)
        ensures
            r@ == assets_of(self@.payments),
    {
        self.collect_assets()
    }

    /// A full snapshot of the account, or `NotInitialized` before
    /// initialization.
    pub fn get_info(&self) -> (r: Result<AccountInfo, Error>)
        ensures
            (match r {
                Ok(info) => self@.initialized && info@ == self@.spec_info(),
                Err(e) => !self@.initialized && e == Error::NotInitialized,
            }),
    {
        if !self.initialized {
            return Err(Error::NotInitialized);
        }
        let payments = self.collect_assets();
        let info = AccountInfo {
            creator: self.creator,
            status: self.status,
            expiry_ledger: self.expiry_ledger,
            recovery_address: self.recovery_address,
            payment_received: self.payments.len() > 0,
            payments,
            swept_to: self.swept_to,
            base_reserve: self.base_reserve,
            reserve_reclaimed: self.reserve_reclaimed,
        };
        proof {
            assert(info@ =~= self@.spec_info());
        }
        Ok(info)
    }

    /// Whether the account has been initialized.
    pub fn is_initialized(&self) -> (r: bool)
        ensures
            r == self@.initialized,
    {
        self.initialized
    }

    /// Whether at least one payment has been recorded.
    pub fn has_payments(&self) -> (r: bool)
        ensures
            r == (self@.payments.len() > 0),
    {
        self.payments.len() > 0
    }

    /// Number of recorded payments.
    pub fn get_total_payments(&self) -> (r: u32)
        requires
            self.wf(),
        ensures
            r == self@.payments.len(),
    {
        self.payments.len() as u32
    }

    /// Current status. An account that was never initialized reports
    /// `Active`.
    pub fn get_status(&self) -> (r: AccountStatus)
        ensures
            r == self@.status,
    {
        self.status
    }

    /// Whether the account has passed its expiry height: initialized and
    /// at or beyond `expiry_ledger`.
    pub fn is_expired(&self, current_ledger: u32) -> (r: bool)
        ensures
            r == (self@.initialized && current_ledger >= self@.expiry_ledger),
    {
        self.initialized && current_ledger >= self.expiry_ledger
    }

    /// The base reserve computed at initialization; zero before.
    pub fn get_base_reserve(&self) -> (r: i128)
        ensures
            r == self@.base_reserve,
    {
        self.base_reserve
    }

    /// Whether the reserve has already been returned.
    pub fn is_reserve_reclaimed(&self) -> (r: bool)
        ensures
            r == self@.reserve_reclaimed,
    {
        self.reserve_reclaimed
    }

    /// The creator recorded at initialization.
    pub fn get_creator(&self) -> (r: Identity)
        ensures
            r == self@.creator,
    {
        self.creator
    }

    /// The ledger height at which the account becomes expirable.
    pub fn get_expiry_ledger(&self) -> (r: u32)
        ensures
            r == self@.expiry_ledger,
    {
        self.expiry_ledger
    }

    /// The recovery address for the expiry path.
    pub fn get_recovery_address(&self) -> (r: Identity)
        ensures
            r == self@.recovery_address,
    {
        self.recovery_address
    }

    /// Where the funds went, once a terminal transition has happened.
    pub fn get_swept_to(&self) -> (r: Option<Identity>)
        ensures
            r == self@.swept_to,
    {
        self.swept_to
    }

    /// The payment recorded under `asset`, if any.
    pub fn get_payment(&self, asset: AssetId) -> (r: Option<Payment>)
        ensures
            (r is Some) == has_asset(self@.payments, asset),
            (match r {
                Some(p) => exists|i: int|
                    0 <= i < self@.payments.len() && self@.payments[i] == p && p.asset == asset,
                None => true,
            }),
    {
        let n = self.payments.len();
        let mut i: usize = 0;
        while i < n
            invariant
                n == self.payments@.len(),
                0 <= i <= n,
                forall|k: int| 0 <= k < i ==> self.payments@[k].asset != asset,
            decreases n - i,
        {
            if self.payments[i].asset == asset {
                return Some(self.payments[i]);
            }
            i += 1;
        }
        None
    }

    /// Whether some payment is already recorded under `asset`.
    fn contains_asset(&self, asset: AssetId) -> (r: bool)
        ensures
            r == has_asset(self@.payments, asset),
    {
        let n = self.payments.len();
        let mut i: usize = 0;
        while i < n
            invariant
                n == self.payments@.len(),
                0 <= i <= n,
                forall|k: int| 0 <= k < i ==> self.payments@[k].asset != asset,
            decreases n - i,
        {
            if self.payments[i].asset == asset {
                return true;
            }
            i += 1;
        }
        false
    }

    /// Sum of all recorded amounts; stays within `i128` by the account
    /// invariant.
    fn total_amount(&self) -> (t: i128)
        requires
            self.wf(),
        ensures
            t == sum_amounts(self@.payments),
    {
        let n = self.payments.len();
        let mut t: i128 = 0;
        let mut i: usize = 0;
        while i < n
            invariant
                self.wf(),
                n == self.payments@.len(),
                0 <= i <= n,
                t == sum_amounts(self.payments@.take(i as int)),
            decreases n - i,
        {
            proof {
                lemma_sum_take_succ(self.payments@, i as int);
                lemma_sum_take_bounds(self.payments@, i as int);
                lemma_sum_take_bounds(self.payments@, i as int + 1);
            }
            t = t + self.payments[i].amount;
            i += 1;
        }
        proof {
            assert(self.payments@.take(n as int) =~= self.payments@);
        }
        t
    }

    /// The payments reduced to asset/amount pairs, in recording order.
    fn collect_assets(&self) -> (r: Vec<AssetAmount>)
        ensures
            r@ == assets_of(self@.payments),
    {
        let n = self.payments.len();
        let mut r: Vec<AssetAmount> = Vec::new();
        let mut i: usize = 0;
        while i < n
            invariant
                n == self.payments@.len(),
                0 <= i <= n,
                r@ == assets_of(self.payments@.take(i as int)),
            decreases n - i,
        {
            let p = self.payments[i];
            r.push(AssetAmount { asset: p.asset, amount: p.amount });
            proof {
                assert(assets_of(self.payments@.take(i as int + 1)) =~= assets_of(
                    self.payments@.take(i as int),
                ).push(AssetAmount { asset: p.asset, amount: p.amount }));
            }
            i += 1;
        }
        proof {
            assert(self.payments@.take(n as int) =~= self.payments@);
        }
        r
    }
}

/// Base reserve the host ledger demands of an account expecting
/// `num_trustlines` distinct assets: the account base plus one entry
/// reserve per trustline.
pub fn calculate_base_reserve(num_trustlines: u32) -> (r: i128)
    ensures
        r == ACCOUNT_BASE_RESERVE + BASE_RESERVE_PER_ENTRY * (num_trustlines as int),
{
    ACCOUNT_BASE_RESERVE + BASE_RESERVE_PER_ENTRY * (num_trustlines as i128)
}

} // verus!
