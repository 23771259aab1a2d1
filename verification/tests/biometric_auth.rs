//! The bounded biometric wait: grants, denials, and the timeout bound
//! against a challenge that never answers.

use std::sync::mpsc::channel;
use std::time::{Duration, Instant};

use secure_credentials::biometric::{
    authenticate_biometric, check_biometric_available, interpret_reply, CapabilityProbe,
    ChallengeReply, DEFAULT_AUTH_TIMEOUT_MS,
};
use secure_credentials::errors::StoreError;

#[test]
fn authenticate_times_out_within_a_small_margin() {
    let (_tx, rx) = channel::<ChallengeReply>();
    let started = Instant::now();
    let r = authenticate_biometric(&rx, 1000);
    let elapsed = started.elapsed();
    assert_eq!(r.unwrap_err(), StoreError::Timeout);
    assert!(elapsed >= Duration::from_millis(900), "returned early: {:?}", elapsed);
    assert!(elapsed < Duration::from_millis(5000), "took too long: {:?}", elapsed);
}

#[test]
fn authenticate_grants_when_the_callback_grants() {
    let (tx, rx) = channel::<ChallengeReply>();
    tx.send(ChallengeReply::Granted).unwrap();
    assert_eq!(authenticate_biometric(&rx, 1000).unwrap(), true);
}

#[test]
fn authenticate_surfaces_the_platform_denial_text() {
    let (tx, rx) = channel::<ChallengeReply>();
    tx.send(ChallengeReply::Denied(Some("biometry did not match".to_owned()))).unwrap();
    assert_eq!(
        authenticate_biometric(&rx, 1000).unwrap_err(),
        StoreError::AuthenticationDenied("biometry did not match".to_owned())
    );
}

#[test]
fn authenticate_falls_back_to_a_generic_denial_text() {
    let (tx, rx) = channel::<ChallengeReply>();
    tx.send(ChallengeReply::Denied(None)).unwrap();
    assert_eq!(
        authenticate_biometric(&rx, 1000).unwrap_err(),
        StoreError::AuthenticationDenied("authentication failed".to_owned())
    );
}

#[test]
fn authenticate_times_out_when_the_sender_is_gone() {
    let (tx, rx) = channel::<ChallengeReply>();
    drop(tx);
    assert_eq!(authenticate_biometric(&rx, 1000).unwrap_err(), StoreError::Timeout);
}

#[test]
fn interpret_reply_is_exact() {
    assert_eq!(interpret_reply(None).unwrap_err(), StoreError::Timeout);
    assert_eq!(interpret_reply(Some(ChallengeReply::Granted)).unwrap(), true);
    assert_eq!(
        interpret_reply(Some(ChallengeReply::Denied(Some("declined".to_owned())))).unwrap_err(),
        StoreError::AuthenticationDenied("declined".to_owned())
    );
}

#[test]
fn capability_requires_every_probe_stage() {
    let all = CapabilityProbe { api_present: true, context_created: true, can_evaluate: true };
    assert!(check_biometric_available(&all));
    let no_api = CapabilityProbe { api_present: false, context_created: true, can_evaluate: true };
    assert!(!check_biometric_available(&no_api));
    let no_context = CapabilityProbe {
        api_present: true,
        context_created: false,
        can_evaluate: true,
    };
    assert!(!check_biometric_available(&no_context));
    let cannot_evaluate = CapabilityProbe {
        api_present: true,
        context_created: true,
        can_evaluate: false,
    };
    assert!(!check_biometric_available(&cannot_evaluate));
}

#[test]
fn the_reference_wait_bound_is_sixty_seconds() {
    assert_eq!(DEFAULT_AUTH_TIMEOUT_MS, 60000);
}
