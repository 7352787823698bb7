//! The sweep controller: authorization, replay protection and sweep
//! orchestration.
//!
//! The controller owns the authorized signer key, a strictly increasing
//! nonce and an optional destination pin. It verifies an Ed25519
//! authorization over the canonical message for the current nonce, then
//! drives the account through its sweep transition and the reserve
//! reclamation, and reports every asset/amount pair for the host to
//! transfer. An operation that fails leaves both the controller and the
//! account exactly as they were; the host commits the effects of a
//! successful operation as one atomic unit.

use vstd::prelude::*;

use crate::account::{
    assets_of, reclaimable_reserve, AccountStatus, AccountView, EphemeralAccount,
    MIN_BALANCE_FOR_CLOSE,
};
use crate::authmsg::{sweep_auth_digest, sweep_message};
use crate::crypto;
use crate::crypto::{ed25519_valid, sha256_of};
use crate::types::{AssetAmount, Identity};

verus! {

/// Everything a controller operation can reject.
#[derive(Clone, Copy, PartialEq, Eq, Structural, Debug)]
pub enum Error {
    InvalidAccount,
    TransferFailed,
    AuthorizationFailed,
    InsufficientBalance,
    AccountNotReady,
    AccountExpired,
    AccountAlreadySwept,
    InvalidSignature,
    SignatureVerificationFailed,
    AuthorizedSignerNotSet,
    InvalidNonce,
    UnauthorizedDestination,
}

/// Record of a destination pinned at initialization.
#[derive(Clone, Copy, PartialEq, Eq, Structural, Debug)]
pub struct DestinationAuthorized {
    pub destination: Identity,
}

/// Record of a destination pin changed by the creator.
#[derive(Clone, Copy, PartialEq, Eq, Structural, Debug)]
pub struct DestinationUpdated {
    pub old_destination: Option<Identity>,
    pub new_destination: Identity,
}

/// Record of a completed sweep: the swept account, where everything
/// went, every asset with its amount, and the reserve reclaimed.
#[derive(Clone, Debug, PartialEq, Eq)]
pub struct SweepCompleted {
    pub ephemeral_account: Identity,
    pub destination: Identity,
    pub assets: Vec<AssetAmount>,
    pub reserve_reclaimed: i128,
}

/// Mathematical view of `SweepCompleted`.
#[verifier::ext_equal]
pub struct SweepCompletedView {
    pub ephemeral_account: Identity,
    pub destination: Identity,
    pub assets: Seq<AssetAmount>,
    pub reserve_reclaimed: i128,
}

impl View for SweepCompleted {
    type V = SweepCompletedView;

    open spec fn view(&self) -> SweepCompletedView {
        SweepCompletedView {
            ephemeral_account: self.ephemeral_account,
            destination: self.destination,
            assets: self.assets@,
            reserve_reclaimed: self.reserve_reclaimed,
        }
    }
}

/// Mathematical view of a controller, over which the transition
/// functions and the laws are stated.
#[verifier::ext_equal]
pub struct ControllerView {
    pub initialized: bool,
    pub identity: Identity,
    pub creator: Identity,
    pub authorized_signer: Seq<u8>,
    pub sweep_nonce: u64,
    pub authorized_destination: Option<Identity>,
}

impl ControllerView {
    /// The controller as deployed at address `identity`, before
    /// initialization.
    pub open spec fn initial(identity: Identity) -> ControllerView {
        ControllerView {
            initialized: false,
            identity,
            creator: Identity { id: 0 },
            authorized_signer: Seq::empty(),
            sweep_nonce: 0,
            authorized_destination: None,
        }
    }

    /// Well-formedness: what every reachable controller state satisfies.
    pub open spec fn inv(self) -> bool {
        &&& (self.initialized ==> self.authorized_signer.len() == 32)
        &&& (!self.initialized ==> self.sweep_nonce == 0 && self.authorized_destination is None
            && self.authorized_signer.len() == 0)
    }

    /// Transition of `initialize`.
    pub open spec fn spec_initialize(
        self,
        caller: Identity,
        authorized_signer: Seq<u8>,
        authorized_destination: Option<Identity>,
    ) -> (ControllerView, Result<(), Error>) {
        if self.initialized {
            (self, Err(Error::AuthorizationFailed))
        } else {
            (
                ControllerView {
                    initialized: true,
                    creator: caller,
                    authorized_signer,
                    sweep_nonce: 0,
                    authorized_destination,
                    ..self
                },
                Ok(()),
            )
        }
    }

    /// Transition of `update_authorized_destination`.
    pub open spec fn spec_update_authorized_destination(
        self,
        caller: Identity,
        new_destination: Identity,
    ) -> (ControllerView, Result<DestinationUpdated, Error>) {
        if !self.initialized || caller != self.creator {
            (self, Err(Error::AuthorizationFailed))
        } else if self.sweep_nonce > 0 {
            (self, Err(Error::AccountAlreadySwept))
        } else {
            (
                ControllerView { authorized_destination: Some(new_destination), ..self },
                Ok(
                    DestinationUpdated {
                        old_destination: self.authorized_destination,
                        new_destination,
                    },
                ),
            )
        }
    }

    /// Whether the supplied signature authorizes a sweep to
    /// `destination` at the controller's current nonce.
    pub open spec fn authorization_valid(self, destination: Identity, sig: Seq<u8>) -> bool {
        ed25519_valid(
            self.authorized_signer,
            sha256_of(sweep_message(destination, self.sweep_nonce, self.identity)),
            sig,
        )
    }

    /// Transition of `execute_sweep`, over the controller and the
    /// account together.
    pub open spec fn spec_execute_sweep(
        self,
        a: AccountView,
        ephemeral_account: Identity,
        destination: Identity,
        sig: Seq<u8>,
        current_ledger: u32,
    ) -> (ControllerView, AccountView, Result<SweepCompletedView, Error>) {
        if (match self.authorized_destination {
            Some(pinned) => pinned != destination,
            None => false,
        }) {
            (self, a, Err(Error::UnauthorizedDestination))
        } else if !self.initialized {
            (self, a, Err(Error::AuthorizedSignerNotSet))
        } else if !self.authorization_valid(destination, sig) {
            (self, a, Err(Error::SignatureVerificationFailed))
        } else if self.sweep_nonce == u64::MAX {
            (self, a, Err(Error::InvalidNonce))
        } else if a.spec_sweep(destination, current_ledger).1 is Err {
            (self, a, Err(Error::InvalidAccount))
        } else {
            (
                ControllerView { sweep_nonce: (self.sweep_nonce + 1) as u64, ..self },
                a.spec_sweep(destination, current_ledger).0.spec_reclaim_reserve().0,
                Ok(
                    SweepCompletedView {
                        ephemeral_account,
                        destination,
                        assets: assets_of(a.payments),
                        reserve_reclaimed: reclaimable_reserve(a.base_reserve),
                    },
                ),
            )
        }
    }
}

/// Whether `sweep` would succeed on the account at `current_ledger`:
/// a payment has been received, the status is still `PaymentReceived`,
/// and the account has not expired.
pub open spec fn spec_can_sweep(a: AccountView, current_ledger: u32) -> bool {
    &&& a.payments.len() > 0
    &&& a.status == AccountStatus::PaymentReceived
    &&& !(a.initialized && current_ledger >= a.expiry_ledger)
}

/// The sweep controller itself. One instance may govern many accounts.
pub struct SweepController {
    pub(crate) initialized: bool,
    pub(crate) identity: Identity,
    pub(crate) creator: Identity,
    pub(crate) authorized_signer: Vec<u8>,
    pub(crate) sweep_nonce: u64,
    pub(crate) authorized_destination: Option<Identity>,
}

impl View for SweepController {
    type V = ControllerView;

    closed spec fn view(&self) -> ControllerView {
        ControllerView {
            initialized: self.initialized,
            identity: self.identity,
            creator: self.creator,
            authorized_signer: self.authorized_signer@,
            sweep_nonce: self.sweep_nonce,
            authorized_destination: self.authorized_destination,
        }
    }
}

impl SweepController {
    /// Well-formedness of the in-memory controller.
    pub open spec fn wf(&self) -> bool {
        self@.inv()
    }

    /// A fresh, uninitialized controller deployed at address `identity`.
    pub fn new(identity: Identity) -> (r: SweepController)
        ensures
            r.wf(),
            r@ == ControllerView::initial(identity),
    {
        let r = SweepController {
            initialized: false,
            identity,
            creator: Identity { id: 0 },
            authorized_signer: Vec::new(),
            sweep_nonce: 0,
            authorized_destination: None,
        };
        proof {
            assert(r@ =~= ControllerView::initial(identity));
        }
        r
    }

    /// Store the authorized signer key, zero the nonce, optionally pin
    /// the destination, and record the initializing caller as creator.
    /// The host must have authenticated `caller` before calling.
    pub fn initialize(
        &mut self,
        caller: Identity,
        authorized_signer: Vec<u8>,
        authorized_destination: Option<Identity>,
    ) -> (r: Result<(), Error>)
        requires
            old(self).wf(),
            authorized_signer@.len() == 32,
        ensures
            final(self).wf(),
            final(self)@ == old(self)@.spec_initialize(
                caller,
                authorized_signer@,
                authorized_destination,
            ).0,
            r == old(self)@.spec_initialize(caller, authorized_signer@, authorized_destination).1,
    {
        if self.initialized {
            return Err(Error::AuthorizationFailed);
        }
        self.initialized = true;
        self.creator = caller;
        self.authorized_signer = authorized_signer;
        self.sweep_nonce = 0;
        self.authorized_destination = authorized_destination;
        proof {
            assert(self@ =~= old(self)@.spec_initialize(
                caller,
                authorized_signer@,
                authorized_destination,
            ).0);
        }
        Ok(())
    }

    /// Verify the authorization against the current nonce, advance the
    /// nonce, drive the account through its sweep transition and the
    /// reserve reclamation, and report every transfer the host must
    /// perform. A failure anywhere leaves the controller and the account
    /// unchanged, so nothing is partially committed.
    pub fn execute_sweep(
        &mut self,
        account: &mut EphemeralAccount,
        ephemeral_account: Identity,
        destination: Identity,
        auth_signature: &Vec<u8>,
        reclaim_reserve_to: Option<Identity>,
        current_ledger: u32,
    ) -> (r: Result<SweepCompleted, Error>)
        requires
            old(self).wf(),
            old(account).wf(),
        ensures
            final(self).wf(),
            final(account).wf(),
            final(self)@ == old(self)@.spec_execute_sweep(
                old(account)@,
                ephemeral_account,
                destination,
                auth_signature@,
                current_ledger,
            ).0,
            final(account)@ == old(self)@.spec_execute_sweep(
                old(account)@,
                ephemeral_account,
                destination,
                auth_signature@,
                current_ledger,
            ).1,
            (match r {
                Ok(ev) => old(self)@.spec_execute_sweep(
                    old(account)@,
                    ephemeral_account,
                    destination,
                    auth_signature@,
                    current_ledger,
                ).2 == Ok::<SweepCompletedView, Error>(ev@),
                Err(e) => old(self)@.spec_execute_sweep(
                    old(account)@,
                    ephemeral_account,
                    destination,
                    auth_signature@,
                    current_ledger,
                ).2 == Err::<SweepCompletedView, Error>(e),
            }),
    {
        match self.authorized_destination {
            Some(pinned) => {
                if pinned != destination {
                    return Err(Error::UnauthorizedDestination);
                }
            },
            None => {},
        }
        if !self.initialized {
            return Err(Error::AuthorizedSignerNotSet);
        }
        let digest = sweep_auth_digest(destination, self.sweep_nonce, self.identity);
        if !crypto::ed25519_verify(&self.authorized_signer, &digest, auth_signature) {
            return Err(Error::SignatureVerificationFailed);
        }
        if self.sweep_nonce == u64::MAX {
            return Err(Error::InvalidNonce);
        }
        // The account re-validates all of this inside `sweep`; checking it
        // here first keeps a failing sweep from consuming the nonce.
        let status = account.get_status();
        if !account.is_initialized() || status == AccountStatus::Swept || !account.has_payments()
            || status == AccountStatus::Expired || account.is_expired(current_ledger) {
            return Err(Error::InvalidAccount);
        }
        // Advance the nonce before the account transition: a repeated or
        // reentrant call with the same authorization now fails
        // verification against the advanced nonce.
        self.sweep_nonce = self.sweep_nonce + 1;
        let executed = match account.sweep(destination, auth_signature, current_ledger) {
            Ok(ev) => ev,
            Err(_) => {
                // The pre-check above establishes the sweep's success.
                proof {
                    assert(false);
                }
                return Err(Error::InvalidAccount);
            },
        };
        let reserve_recipient = match reclaim_reserve_to {
            Some(r) => r,
            None => destination,
        };
        let reserve_amount = match account.reclaim_reserve(reserve_recipient) {
            Ok(v) => v,
            Err(_) => {
                // A freshly swept account always has its reserve to give.
                proof {
                    assert(false);
                }
                return Err(Error::TransferFailed);
            },
        };
        proof {
            assert(self@ =~= old(self)@.spec_execute_sweep(
                old(account)@,
                ephemeral_account,
                destination,
                auth_signature@,
                current_ledger,
            ).0);
        }
        Ok(
            SweepCompleted {
                ephemeral_account,
                destination,
                assets: executed.assets,
                reserve_reclaimed: reserve_amount,
            },
        )
    }

    /// Whether the account is ready for a sweep: read-only, no side
    /// effects, for callers that want to pre-check before spending a
    /// transaction on a failing sweep.
    pub fn can_sweep(account: &EphemeralAccount, current_ledger: u32) -> (r: bool)
        ensures
            r == spec_can_sweep(account@, current_ledger),
    {
        let received = account.has_payments();
        let ready = account.get_status() == AccountStatus::PaymentReceived;
        let expired = account.is_expired(current_ledger);
        received && ready && !expired
    }

    /// Number of assets recorded on the account.
    pub fn get_asset_count(account: &EphemeralAccount) -> (r: u32)
        requires
            account.wf(),
        ensures
            r == account@.payments.len(),
    {
        account.get_total_payments()
    }

    /// The reserve the account could still return: zero before
    /// initialization and after reclamation.
    pub fn get_reclaimable_reserve(account: &EphemeralAccount) -> (r: i128)
        requires
            account.wf(),
        ensures
            r == (if !account@.initialized || account@.reserve_reclaimed {
                0i128
            } else {
                reclaimable_reserve(account@.base_reserve)
            }),
    {
        if !account.is_initialized() {
            0
        } else if account.is_reserve_reclaimed() {
            0
        } else {
            let base = account.get_base_reserve();
            if base > MIN_BALANCE_FOR_CLOSE {
                base - MIN_BALANCE_FOR_CLOSE
            } else {
                0
            }
        }
    }

    /// The current sweep nonce: the number of authorizations consumed.
    pub fn get_sweep_nonce(&self) -> (r: u64)
        ensures
            r == self@.sweep_nonce,
    {
        self.sweep_nonce
    }

    /// The creator recorded at initialization.
    pub fn get_creator(&self) -> (r: Identity)
        ensures
            r == self@.creator,
    {
        self.creator
    }

    /// The pinned destination, if the controller runs in locked mode.
    pub fn get_authorized_destination(&self) -> (r: Option<Identity>)
        ensures
            r == self@.authorized_destination,
    {
        self.authorized_destination
    }

    /// Whether a destination pin is set.
    pub fn has_authorized_destination(&self) -> (r: bool)
        ensures
            r == (self@.authorized_destination is Some),
    {
        match self.authorized_destination {
            Some(_) => true,
            None => false,
        }
    }

    /// Change the destination pin. Only the creator may call, and only
    /// while no sweep authorization has ever been consumed. The host
    /// must have authenticated `caller` before calling.
    pub fn update_authorized_destination(&mut self, caller: Identity, new_destination: Identity) -> (r:
        Result<DestinationUpdated, Error>)
        requires
            old(self).wf(),
        ensures
            final(self).wf(),
            final(self)@ == old(self)@.spec_update_authorized_destination(
                caller,
                new_destination,
            ).0,
            r == old(self)@.spec_update_authorized_destination(caller, new_destination).1,
    {
        if !self.initialized {
            return Err(Error::AuthorizationFailed);
        }
        if caller != self.creator {
            return Err(Error::AuthorizationFailed);
        }
        if self.sweep_nonce > 0 {
            return Err(Error::AccountAlreadySwept);
        }
        let old_destination = self.authorized_destination;
        self.authorized_destination = Some(new_destination);
        proof {
            assert(self@ =~= old(self)@.spec_update_authorized_destination(
                caller,
                new_destination,
            ).0);
        }
        Ok(DestinationUpdated { old_destination, new_destination })
    }
}

} // verus!
