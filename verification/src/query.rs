//! Queries and write requests for the policy-carrying backend, as data.
//!
//! Each operation of that backend is characterized by the attribute set it
//! hands the native item facility.  Building the sets as plain data makes
//! the operation's security posture checkable: the write and the probe
//! carry the skip-challenge directive, the read deliberately does not.

use vstd::prelude::*;
use vstd::slice::slice_to_vec;
use crate::access::{spec_access_flags, access_control_flags, AccessPolicy, Accessibility};
use crate::key::CredentialKey;

verus! {

/// A lookup or deletion query: the key, whether item data should be
/// returned, whether at most one item may match, and whether the
/// interactive challenge must be skipped.
pub struct ItemQuery {
    pub service: Vec<u8>,
    pub account: Vec<u8>,
    pub return_data: bool,
    pub match_limit_one: bool,
    pub skip_ui: bool,
}

/// The attribute set of an add: the key, the secret bytes, the encoded
/// access-control flags, the decoded presence demand, the accessibility
/// constraint, and the skip-challenge directive that keeps a save from
/// prompting.
pub struct WriteRequest {
    pub service: Vec<u8>,
    pub account: Vec<u8>,
    pub secret: Vec<u8>,
    pub access_flags: u64,
    pub require_presence: bool,
    pub accessible: Accessibility,
    pub skip_ui: bool,
}

/// The read query: return the data, match exactly one item, and allow the
/// facility to challenge the user.
pub fn build_read_query(key: &CredentialKey) -> (q: ItemQuery)
    ensures
        q.service@ == key.service@,
        q.account@ == key.account@,
        q.return_data,
        q.match_limit_one,
        !q.skip_ui,
{
    ItemQuery {
        service: slice_to_vec(key.service.as_slice()),
        account: slice_to_vec(key.account.as_slice()),
        return_data: true,
        match_limit_one: true,
        skip_ui: false,
    }
}

/// The existence probe: ask for no data and forbid the challenge, so that
/// checking for an item can never interrupt the user.
pub fn build_probe_query(key: &CredentialKey) -> (q: ItemQuery)
    ensures
        q.service@ == key.service@,
        q.account@ == key.account@,
        !q.return_data,
        q.match_limit_one,
        q.skip_ui,
{
    ItemQuery {
        service: slice_to_vec(key.service.as_slice()),
        account: slice_to_vec(key.account.as_slice()),
        return_data: false,
        match_limit_one: true,
        skip_ui: true,
    }
}

/// The deletion query: only the key; nothing is returned and no challenge
/// is involved in removal.
pub fn build_delete_query(key: &CredentialKey) -> (q: ItemQuery)
    ensures
        q.service@ == key.service@,
        q.account@ == key.account@,
        !q.return_data,
        !q.match_limit_one,
        !q.skip_ui,
    {
    ItemQuery {
        service: slice_to_vec(key.service.as_slice()),
        account: slice_to_vec(key.account.as_slice()),
        return_data: false,
        match_limit_one: false,
        skip_ui: false,
    }
}

/// The write request for an upsert.  It always carries the skip-challenge
/// directive: saving must never prompt, even when the attached policy will
/// demand presence on every later read.
pub fn build_write_request(key: &CredentialKey, secret: &[u8], policy: &AccessPolicy) -> (r:
    WriteRequest)
    ensures
        r.service@ == key.service@,
        r.account@ == key.account@,
        r.secret@ == secret@,
        r.access_flags == spec_access_flags(*policy),
        r.require_presence == policy.require_user_presence,
        r.accessible == policy.accessible,
        r.skip_ui,
{
    WriteRequest {
        service: slice_to_vec(key.service.as_slice()),
        account: slice_to_vec(key.account.as_slice()),
        secret: slice_to_vec(secret),
        access_flags: access_control_flags(policy),
        require_presence: policy.require_user_presence,
        accessible: policy.accessible,
        skip_ui: true,
    }
}

} // verus!
