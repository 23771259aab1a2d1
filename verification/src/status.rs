//! Native status codes and their mapping into the error taxonomy.
//!
//! The keychain facility reports every outcome as a signed 32-bit status.
//! Each backend translates statuses at its boundary with the functions
//! here, so a caller above the subsystem never sees a raw code.

use vstd::prelude::*;
use crate::errors::StoreError;

verus! {

/// The call succeeded.
pub const ERR_SEC_SUCCESS: i32 = 0;

/// No item matched the query.
pub const ERR_SEC_ITEM_NOT_FOUND: i32 = -25300;

/// An item with the same key already exists, reported by the add primitive.
pub const ERR_SEC_DUPLICATE_ITEM: i32 = -25299;

/// The interactive challenge failed.
pub const ERR_SEC_AUTH_FAILED: i32 = -25293;

/// The user declined the interactive challenge.
pub const ERR_SEC_USER_CANCELED: i32 = -128;

/// The call needed an interactive challenge but was told to skip it.
pub const ERR_SEC_INTERACTION_NOT_ALLOWED: i32 = -25308;

/// A parameter, such as an access-control description, was unusable.
pub const ERR_SEC_PARAM: i32 = -50;

/// True when a status from the best-effort removal that precedes an add may
/// be recovered locally: success, or nothing there to remove.
pub open spec fn pre_delete_recoverable(st: i32) -> bool {
    st == ERR_SEC_SUCCESS || st == ERR_SEC_ITEM_NOT_FOUND
}

/// True when a status reports that the interactive challenge was declined
/// or failed.
pub open spec fn denial_status(st: i32) -> bool {
    st == ERR_SEC_AUTH_FAILED || st == ERR_SEC_USER_CANCELED
}

/// Map a failed read status to the taxonomy: a missing item, a declined
/// challenge, or any other backend failure with its code.
pub fn read_failure(st: i32) -> (e: StoreError)
    requires
        st != ERR_SEC_SUCCESS,
    ensures
        st == ERR_SEC_ITEM_NOT_FOUND ==> e == StoreError::NotFound,
        denial_status(st) ==> (e matches StoreError::AuthenticationDenied(m)
            && m@ == "the interactive challenge was declined"@),
        st != ERR_SEC_ITEM_NOT_FOUND && !denial_status(st)
            ==> (e matches StoreError::Backend(code, m)
                && code == st
                && m@ == "native keychain failure"@),
{
    if st == ERR_SEC_ITEM_NOT_FOUND {
        StoreError::NotFound
    } else if st == ERR_SEC_AUTH_FAILED || st == ERR_SEC_USER_CANCELED {
        StoreError::AuthenticationDenied("the interactive challenge was declined".to_owned())
    } else {
        StoreError::Backend(st, "native keychain failure".to_owned())
    }
}

/// Map a failed add status to the taxonomy.  The add primitive never
/// reports a missing item, so everything is a backend failure.
pub fn add_failure(st: i32) -> (e: StoreError)
    requires
        st != ERR_SEC_SUCCESS,
    ensures
        e matches StoreError::Backend(code, m)
            && code == st
            && m@ == "the add step was refused"@,
{
    StoreError::Backend(st, "the add step was refused".to_owned())
}

/// Map a failed removal status to the taxonomy.  "Nothing to remove" is not
/// a failure and never reaches this function.
pub fn delete_failure(st: i32) -> (e: StoreError)
    requires
        st != ERR_SEC_SUCCESS,
        st != ERR_SEC_ITEM_NOT_FOUND,
    ensures
        e matches StoreError::Backend(code, m)
            && code == st
            && m@ == "the removal step was refused"@,
{
    StoreError::Backend(st, "the removal step was refused".to_owned())
}

} // verus!
