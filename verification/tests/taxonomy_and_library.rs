//! Status-code classification, key validation, and the library-backed
//! store running against the credential crate's in-memory default store.

use secure_credentials::errors::StoreError;
use secure_credentials::key::CredentialKey;
use secure_credentials::secure_storage::{
    secure_delete_password, secure_get_password, secure_has_password, secure_store_password,
};
use secure_credentials::status::{add_failure, delete_failure, read_failure};

#[test]
fn read_statuses_map_to_the_taxonomy() {
    assert_eq!(read_failure(-25300), StoreError::NotFound);
    assert!(read_failure(-25300).is_not_found());
    assert!(matches!(read_failure(-25293), StoreError::AuthenticationDenied(_)));
    assert!(matches!(read_failure(-128), StoreError::AuthenticationDenied(_)));
    match read_failure(-25308) {
        StoreError::Backend(code, _) => assert_eq!(code, -25308),
        other => panic!("unexpected error: {:?}", other),
    }
    assert_eq!(read_failure(7).backend_code(), Some(7));
}

#[test]
fn add_and_delete_failures_keep_their_codes() {
    assert_eq!(add_failure(-25299).backend_code(), Some(-25299));
    assert_eq!(delete_failure(-61).backend_code(), Some(-61));
    assert_eq!(StoreError::NotFound.backend_code(), None);
}

#[test]
fn credential_keys_demand_representable_components() {
    assert!(CredentialKey::new("svc", "/vaults/a.kdbx").is_ok());
    assert_eq!(CredentialKey::new("", "/vaults/a.kdbx").unwrap_err(), StoreError::Encoding);
    assert_eq!(CredentialKey::new("svc", "").unwrap_err(), StoreError::Encoding);
    assert_eq!(CredentialKey::new("sv\0c", "a").unwrap_err(), StoreError::Encoding);
    assert_eq!(CredentialKey::new("svc", "a\0b").unwrap_err(), StoreError::Encoding);
    let key = CredentialKey::new("svc", "/vaults/a.kdbx").unwrap();
    assert_eq!(key.service, b"svc".to_vec());
    assert_eq!(key.account, b"/vaults/a.kdbx".to_vec());
}

#[test]
fn library_store_accepts_a_write() {
    assert!(secure_store_password("/vaults/lib.kdbx", "pw").is_ok());
}

#[test]
fn library_get_of_absent_vault_reports_not_found() {
    assert_eq!(
        secure_get_password("/vaults/never-stored.kdbx").unwrap_err(),
        StoreError::NotFound
    );
}

#[test]
fn library_delete_of_absent_vault_succeeds() {
    assert!(secure_delete_password("/vaults/never-stored.kdbx").is_ok());
}

#[test]
fn library_probe_of_absent_vault_is_false() {
    assert_eq!(secure_has_password("/vaults/never-stored.kdbx").unwrap(), false);
}
