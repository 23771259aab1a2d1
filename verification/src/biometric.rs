//! The biometric authenticator: capability probing and the bounded wait
//! that turns the facility's asynchronous verdict into a synchronous,
//! timeout-bounded result.
//!
//! The platform delivers its verdict through a completion callback on its
//! own execution context.  That callback is re-expressed as a single-use
//! handoff channel: whoever issues the challenge sends exactly one
//! [`ChallengeReply`] into the channel, and the caller waits on the other
//! end with an explicit bound.  When the bound elapses first, the wait is
//! abandoned — the in-flight challenge is not cancelled — and the caller
//! sees a timeout rather than hanging.

use vstd::prelude::*;
use crate::errors::StoreError;

verus! {

/// The wait bound of the reference policy: sixty seconds.
pub const DEFAULT_AUTH_TIMEOUT_MS: u64 = 60000;

/// The verdict an interactive challenge delivers, exactly once, through
/// the handoff channel.
pub enum ChallengeReply {
    /// The user satisfied the challenge.
    Granted,
    /// The challenge was declined or failed, with the platform's
    /// human-readable description when one could be extracted.
    Denied(Option<String>),
}

/// What a capability probe of the platform reported: whether the
/// authentication interface exists at all, whether an evaluation context
/// could be created, and whether the platform says the biometric policy
/// can be evaluated.
pub struct CapabilityProbe {
    pub api_present: bool,
    pub context_created: bool,
    pub can_evaluate: bool,
}

/// Whether biometric authentication is available: every stage of the
/// probe must have succeeded.  An absent interface is an unavailable one,
/// never an error.
pub fn check_biometric_available(probe: &CapabilityProbe) -> (r: bool)
    ensures
        r == (probe.api_present && probe.context_created && probe.can_evaluate),
{
    probe.api_present && probe.context_created && probe.can_evaluate
}

#[verifier::external_type_specification]
#[verifier::external_body]
#[verifier::reject_recursive_types(T)]
pub struct ExReceiver<T>(std::sync::mpsc::Receiver<T>);

/// Relies on std::time::Duration::from_millis: builds the wait bound.
#[verifier::external_body]
fn wait_bound(timeout_ms: u64) -> std::time::Duration {
    std::time::Duration::from_millis(timeout_ms)
}

/// Relies on std::sync::mpsc::Receiver::recv_timeout: yields a value sent
/// on the channel, or nothing when the bound elapses or the sending side
/// is gone before anything arrives.
#[verifier::external_body]
fn wait_for_reply(rx: &std::sync::mpsc::Receiver<ChallengeReply>, bound: std::time::Duration) -> (r:
    Option<ChallengeReply>) {
    match rx.recv_timeout(bound) {
        Ok(v) => Some(v),
        Err(_) => None,
    }
}

/// Resolve what the wait produced: a grant, a denial carrying the
/// platform's description or a fixed one when none could be extracted,
/// or — when nothing arrived — a timeout.
pub fn interpret_reply(reply: Option<ChallengeReply>) -> (r: Result<bool, StoreError>)
    ensures
        reply is None ==> (r matches Err(e) && e is Timeout),
        reply matches Some(rep) ==> match rep {
            ChallengeReply::Granted => r matches Ok(granted) && granted,
            ChallengeReply::Denied(m) => r matches Err(e) && (e matches
                StoreError::AuthenticationDenied(text) && (match m {
                Option::Some(given) => text == given,
                Option::None => text@ == "authentication failed"@,
            })),
        },
{
    match reply {
        Option::None => Err(StoreError::Timeout),
        Option::Some(ChallengeReply::Granted) => Ok(true),
        Option::Some(ChallengeReply::Denied(Option::Some(text))) => Err(
            StoreError::AuthenticationDenied(text),
        ),
        Option::Some(ChallengeReply::Denied(Option::None)) => Err(
            StoreError::AuthenticationDenied("authentication failed".to_owned()),
        ),
    }
}

/// Await the verdict of an already-issued interactive challenge with an
/// explicit bound.  Succeeds only with a grant; a denial carries its
/// description, and an expired bound is a timeout, never a hang.  The
/// challenge itself is issued by the platform-facing layer, which sends
/// its callback's verdict into the channel.
pub fn authenticate_biometric(
    rx: &std::sync::mpsc::Receiver<ChallengeReply>,
    timeout_ms: u64,
) -> (r: Result<bool, StoreError>)
    ensures
        r matches Ok(granted) ==> granted,
        r matches Err(e) ==> ((e matches StoreError::AuthenticationDenied(_)) || e is Timeout),
{
    let bound = wait_bound(timeout_ms);
    let reply = wait_for_reply(rx, bound);
    interpret_reply(reply)
}

} // verus!
