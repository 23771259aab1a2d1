//! The library-backed store: thin delegation to the cross-platform
//! OS-credential-vault crate, addressed by service and account.
//!
//! This backend offers no access-policy control — retrieval behaves however
//! the platform defaults — and its state lives outside the process, so
//! nothing can be promised about what a call finds there.  What is verified
//! is the boundary: every outcome of the library is mapped into the
//! crate's error taxonomy exactly, and a missing item during deletion is
//! recovered as success.

use vstd::prelude::*;
use crate::errors::StoreError;
use crate::SERVICE_NAME;

verus! {

/// The status carried by a backend failure that reports no native code.
pub const LIBRARY_FAILURE_STATUS: i32 = -1;

/// What one call into the credential-vault library reported.
pub enum CallFailure {
    /// No credential exists for the entry.
    Missing,
    /// The inputs cannot be represented by the platform store.
    Unrepresentable,
    /// Anything else, with the library's diagnostic text.
    Failed(String),
}

/// How a library failure surfaces in the taxonomy.
pub open spec fn library_error_model(f: CallFailure) -> StoreError {
    match f {
        CallFailure::Missing => StoreError::NotFound,
        CallFailure::Unrepresentable => StoreError::Encoding,
        CallFailure::Failed(m) => StoreError::Backend(LIBRARY_FAILURE_STATUS, m),
    }
}

#[verifier::external_type_specification]
#[verifier::external_body]
pub struct ExEntry(keyring::Entry);

/// Relies on keyring::Entry::new: builds the entry addressed by service
/// and user in the platform's default store; attributes the store cannot
/// carry are refused.
#[verifier::external_body]
fn entry_new(service: &str, account: &str) -> (r: Result<keyring::Entry, CallFailure>) {
    match keyring::Entry::new(service, account) {
        Ok(e) => Ok(e),
        Err(keyring::Error::NoEntry) => Err(CallFailure::Missing),
        Err(keyring::Error::BadEncoding(_)) => Err(CallFailure::Unrepresentable),
        Err(keyring::Error::TooLong(_, _)) => Err(CallFailure::Unrepresentable),
        Err(keyring::Error::Invalid(_, _)) => Err(CallFailure::Unrepresentable),
        Err(e) => Err(CallFailure::Failed(e.to_string())),
    }
}

/// Relies on keyring::Entry::set_password: writes or overwrites the
/// entry's secret in the platform store.
#[verifier::external_body]
fn entry_set_password(entry: &keyring::Entry, password: &str) -> (r: Option<CallFailure>) {
    match entry.set_password(password) {
        Ok(()) => None,
        Err(keyring::Error::NoEntry) => Some(CallFailure::Missing),
        Err(keyring::Error::BadEncoding(_)) => Some(CallFailure::Unrepresentable),
        Err(keyring::Error::TooLong(_, _)) => Some(CallFailure::Unrepresentable),
        Err(keyring::Error::Invalid(_, _)) => Some(CallFailure::Unrepresentable),
        Err(e) => Some(CallFailure::Failed(e.to_string())),
    }
}

/// Relies on keyring::Entry::get_password: reads the entry's secret, or
/// reports that none exists.
#[verifier::external_body]
fn entry_get_password(entry: &keyring::Entry) -> (r: Result<String, CallFailure>) {
    match entry.get_password() {
        Ok(s) => Ok(s),
        Err(keyring::Error::NoEntry) => Err(CallFailure::Missing),
        Err(keyring::Error::BadEncoding(_)) => Err(CallFailure::Unrepresentable),
        Err(keyring::Error::TooLong(_, _)) => Err(CallFailure::Unrepresentable),
        Err(keyring::Error::Invalid(_, _)) => Err(CallFailure::Unrepresentable),
        Err(e) => Err(CallFailure::Failed(e.to_string())),
    }
}

/// Relies on keyring::Entry::delete_credential: removes the entry's
/// credential, or reports that none exists.
#[verifier::external_body]
fn entry_delete_credential(entry: &keyring::Entry) -> (r: Option<CallFailure>) {
    match entry.delete_credential() {
        Ok(()) => None,
        Err(keyring::Error::NoEntry) => Some(CallFailure::Missing),
        Err(keyring::Error::BadEncoding(_)) => Some(CallFailure::Unrepresentable),
        Err(keyring::Error::TooLong(_, _)) => Some(CallFailure::Unrepresentable),
        Err(keyring::Error::Invalid(_, _)) => Some(CallFailure::Unrepresentable),
        Err(e) => Some(CallFailure::Failed(e.to_string())),
    }
}

/// Map a write outcome into the taxonomy: exactly the library's verdict.
pub fn interpret_write_outcome(outcome: Option<CallFailure>) -> (r: Result<(), StoreError>)
    ensures
        outcome is None ==> r is Ok,
        outcome matches Some(f) ==> (r matches Err(e) && e == library_error_model(f)),
{
    match outcome {
        Option::None => Ok(()),
        Option::Some(CallFailure::Missing) => Err(StoreError::NotFound),
        Option::Some(CallFailure::Unrepresentable) => Err(StoreError::Encoding),
        Option::Some(CallFailure::Failed(m)) => Err(
            StoreError::Backend(LIBRARY_FAILURE_STATUS, m),
        ),
    }
}

/// Map a read outcome into the taxonomy: the secret, or exactly the
/// library's verdict.
pub fn interpret_read_outcome(outcome: Result<String, CallFailure>) -> (r: Result<
    String,
    StoreError,
>)
    ensures
        outcome matches Ok(s) ==> (r matches Ok(out) && out == s),
        outcome matches Err(f) ==> (r matches Err(e) && e == library_error_model(f)),
{
    match outcome {
        Ok(s) => Ok(s),
        Err(CallFailure::Missing) => Err(StoreError::NotFound),
        Err(CallFailure::Unrepresentable) => Err(StoreError::Encoding),
        Err(CallFailure::Failed(m)) => Err(StoreError::Backend(LIBRARY_FAILURE_STATUS, m)),
    }
}

/// Map a deletion outcome into the taxonomy.  A missing credential counts
/// as success: deletion always leaves the key absent.
pub fn interpret_delete_outcome(outcome: Option<CallFailure>) -> (r: Result<(), StoreError>)
    ensures
        outcome is None ==> r is Ok,
        outcome matches Some(f) ==> (f is Missing ==> r is Ok),
        outcome matches Some(f) ==> (!(f is Missing) ==> (r matches Err(e) && e
            == library_error_model(f))),
{
    match outcome {
        Option::None => Ok(()),
        Option::Some(CallFailure::Missing) => Ok(()),
        Option::Some(CallFailure::Unrepresentable) => Err(StoreError::Encoding),
        Option::Some(CallFailure::Failed(m)) => Err(
            StoreError::Backend(LIBRARY_FAILURE_STATUS, m),
        ),
    }
}

/// Whether a read outcome shows that the entry exists.
pub fn interpret_probe_outcome(outcome: &Result<String, CallFailure>) -> (r: bool)
    ensures
        r == (outcome is Ok),
{
    match outcome {
        Ok(_) => true,
        Err(_) => false,
    }
}

/// Store the vault's unlock secret under the process-wide service
/// identifier, keyed by the vault's path.  Every failure is a value of
/// the taxonomy; this backend cannot time out or challenge.
pub fn secure_store_password(vault_path: &str, password: &str) -> (r: Result<(), StoreError>)
    ensures
        r matches Err(e) ==> (e == StoreError::NotFound || e == StoreError::Encoding || (
        e matches StoreError::Backend(code, _) && code == LIBRARY_FAILURE_STATUS)),
{
    let entry = match entry_new(SERVICE_NAME, vault_path) {
        Ok(e) => e,
        Err(f) => {
            return interpret_write_outcome(Some(f));
        },
    };
    interpret_write_outcome(entry_set_password(&entry, password))
}

/// Read the vault's unlock secret back.
pub fn secure_get_password(vault_path: &str) -> (r: Result<String, StoreError>)
    ensures
        r matches Err(e) ==> (e == StoreError::NotFound || e == StoreError::Encoding || (
        e matches StoreError::Backend(code, _) && code == LIBRARY_FAILURE_STATUS)),
{
    let entry = match entry_new(SERVICE_NAME, vault_path) {
        Ok(e) => e,
        Err(f) => {
            return interpret_read_outcome(Err(f));
        },
    };
    interpret_read_outcome(entry_get_password(&entry))
}

/// Remove the vault's stored secret; an absent credential counts as
/// success.
pub fn secure_delete_password(vault_path: &str) -> (r: Result<(), StoreError>)
    ensures
        r matches Err(e) ==> (e == StoreError::Encoding || (e matches StoreError::Backend(
            code,
            _,
        ) && code == LIBRARY_FAILURE_STATUS)),
{
    let entry = match entry_new(SERVICE_NAME, vault_path) {
        Ok(e) => e,
        Err(f) => {
            return interpret_delete_outcome(Some(f));
        },
    };
    interpret_delete_outcome(entry_delete_credential(&entry))
}

/// Whether a secret is stored for the vault.  This backend exposes no
/// challenge-suppressing probe, so existence is read through the library's
/// retrieval call, as the platform defaults allow.
pub fn secure_has_password(vault_path: &str) -> (r: Result<bool, StoreError>)
    ensures
        r matches Err(e) ==> (e == StoreError::NotFound || e == StoreError::Encoding || (
        e matches StoreError::Backend(code, _) && code == LIBRARY_FAILURE_STATUS)),
{
    let entry = match entry_new(SERVICE_NAME, vault_path) {
        Ok(e) => e,
        Err(f) => {
            return match interpret_read_outcome(Err(f)) {
                Ok(_) => Ok(true),
                Err(e) => Err(e),
            };
        },
    };
    let outcome = entry_get_password(&entry);
    Ok(interpret_probe_outcome(&outcome))
}

} // verus!
