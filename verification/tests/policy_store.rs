//! The policy-carrying backend against the resource-accounting double:
//! no-prompt writes and probes, challenged reads, and cleanup under
//! injected failures.

use secure_credentials::access::{
    access_control_flags, biometric_unlock_policy, AccessPolicy, Accessibility, BiometryClass,
};
use secure_credentials::errors::StoreError;
use secure_credentials::native_keychain_modern::{
    delete_password, get_password, has_password, store_password,
};
use secure_credentials::sim::SimKeychain;

const SVC: &str = "svc";
const VAULT: &str = "/vaults/a.kdbx";

#[test]
fn policy_store_has_get_delete_scenario() {
    let mut kc = SimKeychain::new();
    let policy = biometric_unlock_policy();
    assert!(store_password(&mut kc, SVC, VAULT, "hunter2", &policy).is_ok());
    assert!(has_password(&mut kc, SVC, VAULT));
    assert_eq!(kc.challenge_count(), 0);
    assert_eq!(get_password(&mut kc, SVC, VAULT).unwrap(), b"hunter2".to_vec());
    assert_eq!(kc.challenge_count(), 1);
    assert!(delete_password(&mut kc, SVC, VAULT).is_ok());
    assert!(!has_password(&mut kc, SVC, VAULT));
    assert_eq!(get_password(&mut kc, SVC, VAULT).unwrap_err(), StoreError::NotFound);
}

#[test]
fn policy_store_never_prompts_even_with_presence_policy() {
    let mut kc = SimKeychain::new();
    let policy = biometric_unlock_policy();
    assert!(policy.require_user_presence);
    assert!(store_password(&mut kc, SVC, VAULT, "pw", &policy).is_ok());
    assert!(store_password(&mut kc, SVC, VAULT, "pw2", &policy).is_ok());
    assert_eq!(kc.challenge_count(), 0);
}

#[test]
fn policy_probe_never_prompts_and_has_no_side_effect() {
    let mut kc = SimKeychain::new();
    assert!(!has_password(&mut kc, SVC, VAULT));
    let policy = biometric_unlock_policy();
    assert!(store_password(&mut kc, SVC, VAULT, "pw", &policy).is_ok());
    assert!(has_password(&mut kc, SVC, VAULT));
    assert!(has_password(&mut kc, SVC, VAULT));
    assert_eq!(kc.challenge_count(), 0);
    assert_eq!(kc.item_count(), 1);
    assert_eq!(kc.live_handle_count(), 0);
}

#[test]
fn policy_get_denied_when_user_declines() {
    let mut kc = SimKeychain::new();
    kc.set_grant_presence(false);
    let policy = biometric_unlock_policy();
    assert!(store_password(&mut kc, SVC, VAULT, "pw", &policy).is_ok());
    let err = get_password(&mut kc, SVC, VAULT).unwrap_err();
    assert!(matches!(err, StoreError::AuthenticationDenied(_)));
    assert_eq!(kc.challenge_count(), 1);
}

#[test]
fn policy_get_without_presence_policy_never_challenges() {
    let mut kc = SimKeychain::new();
    let policy = AccessPolicy {
        require_user_presence: false,
        biometry: BiometryClass::Any,
        accessible: Accessibility::DeviceUnlocked,
    };
    assert!(store_password(&mut kc, SVC, VAULT, "pw", &policy).is_ok());
    assert_eq!(get_password(&mut kc, SVC, VAULT).unwrap(), b"pw".to_vec());
    assert_eq!(kc.challenge_count(), 0);
}

#[test]
fn policy_upsert_overwrites() {
    let mut kc = SimKeychain::new();
    let policy = biometric_unlock_policy();
    assert!(store_password(&mut kc, SVC, VAULT, "a", &policy).is_ok());
    assert!(store_password(&mut kc, SVC, VAULT, "b", &policy).is_ok());
    kc.set_grant_presence(true);
    assert_eq!(get_password(&mut kc, SVC, VAULT).unwrap(), b"b".to_vec());
    assert_eq!(kc.item_count(), 1);
}

#[test]
fn policy_failed_add_releases_every_handle() {
    let mut kc = SimKeychain::new();
    let policy = biometric_unlock_policy();
    assert!(store_password(&mut kc, SVC, VAULT, "first", &policy).is_ok());
    kc.inject_add_failure();
    let err = store_password(&mut kc, SVC, VAULT, "second", &policy).unwrap_err();
    assert_eq!(err.backend_code(), Some(-25299));
    assert_eq!(kc.live_handle_count(), 0);
}

#[test]
fn policy_access_control_failure_surfaces_description() {
    let mut kc = SimKeychain::new();
    kc.inject_access_control_failure();
    let policy = biometric_unlock_policy();
    let err = store_password(&mut kc, SVC, VAULT, "pw", &policy).unwrap_err();
    match err {
        StoreError::Backend(code, message) => {
            assert_eq!(code, -50);
            assert_eq!(message, "the access control description was refused");
        },
        other => panic!("unexpected error: {:?}", other),
    }
    assert_eq!(kc.live_handle_count(), 0);
    assert_eq!(kc.item_count(), 0);
}

#[test]
fn policy_secret_may_hold_nul_bytes() {
    let mut kc = SimKeychain::new();
    let policy = biometric_unlock_policy();
    assert!(store_password(&mut kc, SVC, VAULT, "a\0b", &policy).is_ok());
    kc.set_grant_presence(true);
    assert_eq!(get_password(&mut kc, SVC, VAULT).unwrap(), b"a\0b".to_vec());
}

#[test]
fn policy_rejects_unrepresentable_keys() {
    let mut kc = SimKeychain::new();
    let policy = biometric_unlock_policy();
    assert_eq!(
        store_password(&mut kc, SVC, "bad\0account", "pw", &policy).unwrap_err(),
        StoreError::Encoding
    );
    assert_eq!(store_password(&mut kc, "", VAULT, "pw", &policy).unwrap_err(), StoreError::Encoding);
    assert_eq!(get_password(&mut kc, SVC, "").unwrap_err(), StoreError::Encoding);
    assert!(!has_password(&mut kc, "", VAULT));
}

#[test]
fn access_flag_words_are_exact() {
    assert_eq!(access_control_flags(&biometric_unlock_policy()), 3);
    let current_set = AccessPolicy {
        require_user_presence: true,
        biometry: BiometryClass::CurrentEnrollmentOnly,
        accessible: Accessibility::PasscodeSet,
    };
    assert_eq!(access_control_flags(&current_set), 9);
    let no_presence = AccessPolicy {
        require_user_presence: false,
        biometry: BiometryClass::Any,
        accessible: Accessibility::DeviceUnlocked,
    };
    assert_eq!(access_control_flags(&no_presence), 2);
}
