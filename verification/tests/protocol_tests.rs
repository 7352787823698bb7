//! Authorization protocol: the canonical message, replay protection, the
//! destination pin, and the records a sweep produces.

use ed25519_dalek::{Signer, SigningKey};
use escrow_sweep::account::{AccountStatus, EphemeralAccount};
use escrow_sweep::authmsg::{sweep_auth_digest, sweep_message_bytes, u64_to_be_bytes};
use escrow_sweep::controller::{Error, SweepController};
use escrow_sweep::types::{AssetAmount, AssetId, Identity};

const CONTROLLER_ID: u64 = 900;

fn signing_key() -> SigningKey {
    SigningKey::from_bytes(&[7u8; 32])
}

fn ready_controller(pinned: Option<Identity>) -> SweepController {
    let mut controller = SweepController::new(Identity::new(CONTROLLER_ID));
    let signer = signing_key().verifying_key().to_bytes().to_vec();
    controller.initialize(Identity::new(1), signer, pinned).unwrap();
    controller
}

fn authorize(destination: Identity, nonce: u64) -> Vec<u8> {
    let digest = sweep_auth_digest(destination, nonce, Identity::new(CONTROLLER_ID));
    signing_key().sign(&digest).to_bytes().to_vec()
}

fn account_with_payment(amount: i128, asset: AssetId) -> EphemeralAccount {
    let mut account = EphemeralAccount::new();
    account.initialize(Identity::new(1), 1000, Identity::new(2), 1, 0).unwrap();
    account.record_payment(amount, asset, 0).unwrap();
    account
}

#[test]
fn test_be_encoding_known_value() {
    assert_eq!(u64_to_be_bytes(0x0102030405060708), vec![1, 2, 3, 4, 5, 6, 7, 8]);
    assert_eq!(u64_to_be_bytes(0), vec![0; 8]);
    assert_eq!(u64_to_be_bytes(u64::MAX), vec![0xff; 8]);
}

#[test]
fn test_message_binds_all_three_components() {
    let base = sweep_message_bytes(Identity::new(3), 0, Identity::new(900));
    assert_eq!(base.len(), 24);
    assert_ne!(base, sweep_message_bytes(Identity::new(4), 0, Identity::new(900)));
    assert_ne!(base, sweep_message_bytes(Identity::new(3), 1, Identity::new(900)));
    assert_ne!(base, sweep_message_bytes(Identity::new(3), 0, Identity::new(901)));
}

#[test]
fn test_digest_matches_sha256_of_message() {
    let destination = Identity::new(3);
    let digest = sweep_auth_digest(destination, 5, Identity::new(900));
    let message = sweep_message_bytes(destination, 5, Identity::new(900));
    let expected: Vec<u8> =
        <sha2::Sha256 as sha2::Digest>::digest(message.as_slice()).to_vec();
    assert_eq!(digest, expected);
    assert_eq!(digest.len(), 32);
    assert_ne!(digest, message);
}

#[test]
fn test_nonce_increments_per_sweep() {
    let destination = Identity::new(3);
    let mut controller = ready_controller(None);
    assert_eq!(controller.get_sweep_nonce(), 0);

    let mut first = account_with_payment(100, AssetId::new(4));
    controller
        .execute_sweep(&mut first, Identity::new(800), destination, &authorize(destination, 0), None, 0)
        .unwrap();
    assert_eq!(controller.get_sweep_nonce(), 1);

    let mut second = account_with_payment(100, AssetId::new(4));
    controller
        .execute_sweep(&mut second, Identity::new(801), destination, &authorize(destination, 1), None, 0)
        .unwrap();
    assert_eq!(controller.get_sweep_nonce(), 2);
}

#[test]
fn test_replayed_authorization_rejected() {
    let destination = Identity::new(3);
    let mut controller = ready_controller(None);
    let auth_sig = authorize(destination, 0);

    let mut first = account_with_payment(100, AssetId::new(4));
    controller
        .execute_sweep(&mut first, Identity::new(800), destination, &auth_sig, None, 0)
        .unwrap();

    // The same signature verified fine a moment ago; against the advanced
    // nonce it no longer does, and the second account is left untouched.
    let mut second = account_with_payment(100, AssetId::new(4));
    assert_eq!(
        controller.execute_sweep(&mut second, Identity::new(801), destination, &auth_sig, None, 0),
        Err(Error::SignatureVerificationFailed)
    );
    assert_eq!(controller.get_sweep_nonce(), 1);
    assert_eq!(second.get_status(), AccountStatus::PaymentReceived);
}

#[test]
fn test_tampered_signature_rejected() {
    let destination = Identity::new(3);
    let mut account = account_with_payment(100, AssetId::new(4));
    let mut controller = ready_controller(None);
    let mut auth_sig = authorize(destination, 0);
    auth_sig[0] ^= 1;
    assert_eq!(
        controller.execute_sweep(&mut account, Identity::new(800), destination, &auth_sig, None, 0),
        Err(Error::SignatureVerificationFailed)
    );
    assert_eq!(controller.get_sweep_nonce(), 0);
    assert_eq!(account.get_status(), AccountStatus::PaymentReceived);
}

#[test]
fn test_signature_binds_destination() {
    let mut account = account_with_payment(100, AssetId::new(4));
    let mut controller = ready_controller(None);
    // An authorization for one destination does not open another
    let auth_sig = authorize(Identity::new(3), 0);
    assert_eq!(
        controller.execute_sweep(
            &mut account,
            Identity::new(800),
            Identity::new(5),
            &auth_sig,
            None,
            0
        ),
        Err(Error::SignatureVerificationFailed)
    );
}

#[test]
fn test_unauthorized_destination() {
    let pinned = Identity::new(3);
    let other = Identity::new(5);
    let mut account = account_with_payment(100, AssetId::new(4));
    let mut controller = ready_controller(Some(pinned));

    // Mismatched destination fails without touching the account
    let auth_sig = authorize(other, 0);
    assert_eq!(
        controller.execute_sweep(&mut account, Identity::new(800), other, &auth_sig, None, 0),
        Err(Error::UnauthorizedDestination)
    );
    assert_eq!(controller.get_sweep_nonce(), 0);
    assert_eq!(account.get_status(), AccountStatus::PaymentReceived);
    assert!(!account.is_reserve_reclaimed());

    // The pinned destination still works
    let auth_sig = authorize(pinned, 0);
    controller
        .execute_sweep(&mut account, Identity::new(800), pinned, &auth_sig, None, 0)
        .unwrap();
    assert_eq!(account.get_swept_to(), Some(pinned));
}

#[test]
fn test_sweep_record_lists_all_assets() {
    let destination = Identity::new(3);
    let mut account = EphemeralAccount::new();
    account.initialize(Identity::new(1), 1000, Identity::new(2), 3, 0).unwrap();
    account.record_payment(100, AssetId::new(11), 0).unwrap();
    account.record_payment(200, AssetId::new(12), 0).unwrap();
    account.record_payment(300, AssetId::new(13), 0).unwrap();

    let executed = account.sweep(destination, &vec![0u8; 64], 0).unwrap();
    assert_eq!(executed.destination, destination);
    assert_eq!(
        executed.assets,
        vec![
            AssetAmount { asset: AssetId::new(11), amount: 100 },
            AssetAmount { asset: AssetId::new(12), amount: 200 },
            AssetAmount { asset: AssetId::new(13), amount: 300 },
        ]
    );
    assert_eq!(executed.reserve_reclaimed, 25_000_000);

    // The reserve then comes back exactly once
    assert_eq!(account.reclaim_reserve(destination).unwrap(), 24_000_000);
    assert!(account.reclaim_reserve(destination).is_err());
}

#[test]
fn test_completed_record_lists_transfers_and_reserve() {
    let destination = Identity::new(3);
    let mut account = EphemeralAccount::new();
    account.initialize(Identity::new(1), 1000, Identity::new(2), 2, 0).unwrap();
    account.record_payment(100, AssetId::new(11), 0).unwrap();
    account.record_payment(200, AssetId::new(12), 0).unwrap();
    let mut controller = ready_controller(None);

    let completed = controller
        .execute_sweep(&mut account, Identity::new(800), destination, &authorize(destination, 0), None, 0)
        .unwrap();
    assert_eq!(completed.ephemeral_account, Identity::new(800));
    assert_eq!(completed.destination, destination);
    assert_eq!(
        completed.assets,
        vec![
            AssetAmount { asset: AssetId::new(11), amount: 100 },
            AssetAmount { asset: AssetId::new(12), amount: 200 },
        ]
    );
    assert_eq!(completed.reserve_reclaimed, 19_000_000);
}
