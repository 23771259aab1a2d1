//! The error taxonomy shared by every backend.
//!
//! Each backend maps the statuses of its underlying facility into these
//! variants at its own boundary; callers above the subsystem never see a raw
//! native code.  Nothing here aborts: every failure is a typed value.

use vstd::prelude::*;

verus! {

/// Why a credential-store or authentication operation failed.
#[derive(Debug, PartialEq, Eq)]
pub enum StoreError {
    /// An input cannot be represented in the platform's native string or
    /// byte form: an empty key component, or an embedded NUL byte.
    Encoding,
    /// No item exists for the requested key.
    NotFound,
    /// The interactive proof-of-presence challenge was declined or failed;
    /// carries the best-effort diagnostic text.
    AuthenticationDenied(String),
    /// The challenge did not resolve within the caller's wait bound.
    Timeout,
    /// Any other non-zero native status, with diagnostic text.
    Backend(i32, String),
    /// The requested facility does not exist on the running platform.
    Unsupported,
}

impl StoreError {
    /// True for the variant that reports a missing item.
    pub fn is_not_found(&self) -> (r: bool)
        ensures
            r == (*self is NotFound),
    {
        match self {
            StoreError::NotFound => true,
            _ => false,
        }
    }

    /// The native status code carried by a backend failure, if any.
    pub fn backend_code(&self) -> (r: Option<i32>)
        ensures
            match *self {
                StoreError::Backend(code, _) => r == Some(code),
                _ => r is None,
            },
    {
        match self {
            StoreError::Backend(code, _) => Some(*code),
            _ => None,
        }
    }
}

} // verus!
