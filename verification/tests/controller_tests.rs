//! Controller orchestration scenarios, with real Ed25519 authorizations.

use ed25519_dalek::{Signer, SigningKey};
use escrow_sweep::account::{AccountStatus, EphemeralAccount};
use escrow_sweep::authmsg::sweep_auth_digest;
use escrow_sweep::controller::{Error, SweepController};
use escrow_sweep::types::{AssetId, Identity};

const CONTROLLER_ID: u64 = 900;

fn signing_key() -> SigningKey {
    SigningKey::from_bytes(&[7u8; 32])
}

fn ready_controller(pinned: Option<Identity>) -> SweepController {
    let mut controller = SweepController::new(Identity::new(CONTROLLER_ID));
    let signer = signing_key().verifying_key().to_bytes().to_vec();
    controller.initialize(Identity::new(1), signer, pinned).unwrap();
    controller
}

fn authorize(destination: Identity, nonce: u64) -> Vec<u8> {
    let digest = sweep_auth_digest(destination, nonce, Identity::new(CONTROLLER_ID));
    signing_key().sign(&digest).to_bytes().to_vec()
}

fn account_with_payment(amount: i128, asset: AssetId) -> EphemeralAccount {
    let mut account = EphemeralAccount::new();
    account.initialize(Identity::new(1), 1000, Identity::new(2), 1, 0).unwrap();
    account.record_payment(amount, asset, 0).unwrap();
    account
}

#[test]
fn test_sweep_with_reserve_reclamation() {
    let destination = Identity::new(3);
    let mut account = account_with_payment(100, AssetId::new(4));
    let mut controller = ready_controller(None);

    // Check reclaimable reserve before sweep
    let reclaimable_before = SweepController::get_reclaimable_reserve(&account);
    assert_eq!(reclaimable_before, 14_000_000);

    // Execute sweep with reserve reclamation
    let auth_sig = authorize(destination, 0);
    controller
        .execute_sweep(&mut account, Identity::new(800), destination, &auth_sig, None, 0)
        .unwrap();

    // Verify reserve was reclaimed
    assert!(account.is_reserve_reclaimed());

    // Check reclaimable reserve after sweep
    let reclaimable_after = SweepController::get_reclaimable_reserve(&account);
    assert_eq!(reclaimable_after, 0);
}

#[test]
fn test_get_reclaimable_reserve() {
    let mut account = EphemeralAccount::new();

    // Before initialization
    assert_eq!(SweepController::get_reclaimable_reserve(&account), 0);

    // Initialize with 3 assets
    account.initialize(Identity::new(1), 1000, Identity::new(2), 3, 0).unwrap();

    // Should show reclaimable amount
    assert_eq!(SweepController::get_reclaimable_reserve(&account), 24_000_000);
}

#[test]
fn test_multi_asset_sweep_with_reserve() {
    let destination = Identity::new(3);
    let reserve_recipient = Identity::new(6);
    let mut account = EphemeralAccount::new();
    account.initialize(Identity::new(1), 1000, Identity::new(2), 2, 0).unwrap();
    account.record_payment(100, AssetId::new(11), 0).unwrap();
    account.record_payment(200, AssetId::new(12), 0).unwrap();
    let mut controller = ready_controller(None);

    // Execute sweep with separate reserve recipient
    let auth_sig = authorize(destination, 0);
    controller
        .execute_sweep(
            &mut account,
            Identity::new(800),
            destination,
            &auth_sig,
            Some(reserve_recipient),
            0,
        )
        .unwrap();

    // Verify reserve reclaimed
    assert!(account.is_reserve_reclaimed());
}

#[test]
fn test_execute_sweep() {
    let destination = Identity::new(3);
    let mut account = account_with_payment(100, AssetId::new(4));
    let mut controller = ready_controller(None);

    // Check can sweep
    assert!(SweepController::can_sweep(&account, 0));

    // Execute sweep
    let auth_sig = authorize(destination, 0);
    let completed = controller
        .execute_sweep(&mut account, Identity::new(800), destination, &auth_sig, None, 0)
        .unwrap();

    // Verify account status changed
    assert_eq!(account.get_status(), AccountStatus::Swept);
    assert_eq!(completed.destination, destination);
    assert_eq!(completed.ephemeral_account, Identity::new(800));
}

#[test]
#[should_panic]
fn test_sweep_without_payment() {
    let destination = Identity::new(3);
    let mut account = EphemeralAccount::new();
    // Initialize but don't record payment
    account.initialize(Identity::new(1), 1000, Identity::new(2), 1, 0).unwrap();
    let mut controller = ready_controller(None);

    // Should panic - no payment received
    let auth_sig = authorize(destination, 0);
    controller
        .execute_sweep(&mut account, Identity::new(800), destination, &auth_sig, None, 0)
        .unwrap();
}

#[test]
fn test_can_sweep() {
    let mut account = EphemeralAccount::new();

    // Should return false before initialization
    assert!(!SweepController::can_sweep(&account, 0));

    // Initialize
    account.initialize(Identity::new(1), 1000, Identity::new(2), 1, 0).unwrap();

    // Should return false without payment
    assert!(!SweepController::can_sweep(&account, 0));

    // Record payment
    account.record_payment(100, AssetId::new(4), 0).unwrap();

    // Should return true after payment
    assert!(SweepController::can_sweep(&account, 0));

    // And false again once the expiry height is reached
    assert!(!SweepController::can_sweep(&account, 1000));
}

#[test]
fn test_execute_sweep_after_sweep_fails() {
    let destination = Identity::new(3);
    let mut account = account_with_payment(100, AssetId::new(4));
    let mut controller = ready_controller(None);
    controller
        .execute_sweep(&mut account, Identity::new(800), destination, &authorize(destination, 0), None, 0)
        .unwrap();

    // The account is terminal: a fresh, otherwise valid authorization is
    // refused and no second transfer enumeration is produced.
    assert_eq!(
        controller.execute_sweep(
            &mut account,
            Identity::new(800),
            destination,
            &authorize(destination, 1),
            None,
            0
        ),
        Err(Error::InvalidAccount)
    );
    assert_eq!(controller.get_sweep_nonce(), 1);
}

#[test]
fn test_controller_initialize_once() {
    let mut controller = ready_controller(None);
    let signer = signing_key().verifying_key().to_bytes().to_vec();
    assert_eq!(
        controller.initialize(Identity::new(5), signer, None),
        Err(Error::AuthorizationFailed)
    );
}

#[test]
fn test_execute_sweep_requires_initialized_controller() {
    let destination = Identity::new(3);
    let mut account = account_with_payment(100, AssetId::new(4));
    let mut controller = SweepController::new(Identity::new(CONTROLLER_ID));
    let auth_sig = authorize(destination, 0);
    assert_eq!(
        controller.execute_sweep(
            &mut account,
            Identity::new(800),
            destination,
            &auth_sig,
            None,
            0
        ),
        Err(Error::AuthorizedSignerNotSet)
    );
    assert_eq!(account.get_status(), AccountStatus::PaymentReceived);
}

#[test]
fn test_get_asset_count() {
    let mut account = EphemeralAccount::new();
    assert_eq!(SweepController::get_asset_count(&account), 0);
    account.initialize(Identity::new(1), 1000, Identity::new(2), 2, 0).unwrap();
    account.record_payment(100, AssetId::new(11), 0).unwrap();
    account.record_payment(200, AssetId::new(12), 0).unwrap();
    assert_eq!(SweepController::get_asset_count(&account), 2);
}

#[test]
fn test_update_authorized_destination() {
    let mut controller = ready_controller(Some(Identity::new(3)));

    // Only the creator may change the pin
    assert_eq!(
        controller.update_authorized_destination(Identity::new(99), Identity::new(5)),
        Err(Error::AuthorizationFailed)
    );

    let updated = controller
        .update_authorized_destination(Identity::new(1), Identity::new(5))
        .unwrap();
    assert_eq!(updated.old_destination, Some(Identity::new(3)));
    assert_eq!(updated.new_destination, Identity::new(5));
    assert_eq!(controller.get_authorized_destination(), Some(Identity::new(5)));
}

#[test]
fn test_update_destination_locked_after_sweep() {
    let destination = Identity::new(3);
    let mut account = account_with_payment(100, AssetId::new(4));
    let mut controller = ready_controller(None);
    let auth_sig = authorize(destination, 0);
    controller
        .execute_sweep(&mut account, Identity::new(800), destination, &auth_sig, None, 0)
        .unwrap();

    // Once an authorization is consumed, the pin can never change again
    assert_eq!(
        controller.update_authorized_destination(Identity::new(1), Identity::new(5)),
        Err(Error::AccountAlreadySwept)
    );
}
