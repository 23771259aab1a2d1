//! The classic backend against the resource-accounting keychain double.

use secure_credentials::errors::StoreError;
use secure_credentials::native_keychain::{
    delete_password, get_password, has_password, store_password,
};
use secure_credentials::sim::SimKeychain;

const SVC: &str = "svc";
const VAULT: &str = "/vaults/a.kdbx";

#[test]
fn legacy_store_has_get_delete_scenario() {
    let mut kc = SimKeychain::new();
    assert!(store_password(&mut kc, SVC, VAULT, "hunter2").is_ok());
    assert!(has_password(&mut kc, SVC, VAULT));
    assert_eq!(get_password(&mut kc, SVC, VAULT).unwrap(), b"hunter2".to_vec());
    assert!(delete_password(&mut kc, SVC, VAULT).is_ok());
    assert!(!has_password(&mut kc, SVC, VAULT));
    assert_eq!(get_password(&mut kc, SVC, VAULT).unwrap_err(), StoreError::NotFound);
}

#[test]
fn legacy_upsert_overwrites() {
    let mut kc = SimKeychain::new();
    assert!(store_password(&mut kc, SVC, VAULT, "a").is_ok());
    assert!(store_password(&mut kc, SVC, VAULT, "b").is_ok());
    assert_eq!(get_password(&mut kc, SVC, VAULT).unwrap(), b"b".to_vec());
    assert_eq!(kc.item_count(), 1);
}

#[test]
fn legacy_delete_twice_both_succeed() {
    let mut kc = SimKeychain::new();
    assert!(store_password(&mut kc, SVC, VAULT, "secret").is_ok());
    assert!(delete_password(&mut kc, SVC, VAULT).is_ok());
    assert!(delete_password(&mut kc, SVC, VAULT).is_ok());
    assert!(!has_password(&mut kc, SVC, VAULT));
}

#[test]
fn legacy_delete_of_absent_key_succeeds() {
    let mut kc = SimKeychain::new();
    assert!(delete_password(&mut kc, SVC, "/vaults/never-stored.kdbx").is_ok());
}

#[test]
fn legacy_rejects_unrepresentable_inputs() {
    let mut kc = SimKeychain::new();
    assert_eq!(
        store_password(&mut kc, SVC, "bad\0account", "pw").unwrap_err(),
        StoreError::Encoding
    );
    assert_eq!(store_password(&mut kc, "", VAULT, "pw").unwrap_err(), StoreError::Encoding);
    assert_eq!(store_password(&mut kc, SVC, "", "pw").unwrap_err(), StoreError::Encoding);
    assert_eq!(
        store_password(&mut kc, SVC, VAULT, "pw\0tail").unwrap_err(),
        StoreError::Encoding
    );
    assert_eq!(get_password(&mut kc, SVC, "bad\0account").unwrap_err(), StoreError::Encoding);
    assert_eq!(delete_password(&mut kc, "", VAULT).unwrap_err(), StoreError::Encoding);
    assert!(!has_password(&mut kc, SVC, "bad\0account"));
}

#[test]
fn legacy_failed_add_releases_every_handle() {
    let mut kc = SimKeychain::new();
    assert!(store_password(&mut kc, SVC, VAULT, "first").is_ok());
    kc.inject_add_failure();
    let err = store_password(&mut kc, SVC, VAULT, "second").unwrap_err();
    assert_eq!(err.backend_code(), Some(-25299));
    assert_eq!(kc.live_handle_count(), 0);
}

#[test]
fn legacy_operations_never_challenge() {
    let mut kc = SimKeychain::new();
    assert!(store_password(&mut kc, SVC, VAULT, "pw").is_ok());
    assert!(has_password(&mut kc, SVC, VAULT));
    assert!(get_password(&mut kc, SVC, VAULT).is_ok());
    assert!(delete_password(&mut kc, SVC, VAULT).is_ok());
    assert_eq!(kc.challenge_count(), 0);
}
