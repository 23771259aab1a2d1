//! The policy-carrying keychain backend, built on the modern item
//! primitives: add, copy-matching and delete driven by attribute sets.
//!
//! A save attaches an access-control description built from the caller's
//! policy and always carries the skip-challenge directive, so writing never
//! prompts even when the policy demands presence on every read.  A read
//! deliberately omits that directive, letting the facility challenge the
//! user; the probe carries it and asks for no data, so checking existence
//! never interrupts anyone.  Every native object an operation builds —
//! strings, buffers, dictionaries, the access-control description, the
//! returned data — is owned by one arena and released on every exit path.

use vstd::prelude::*;
use vstd::string::StringSliceAdditionalSpecFns;
use crate::access::AccessPolicy;
use crate::access::access_control_flags;
use crate::arena::NativeHandleArena;
use crate::encoding::valid_component;
use crate::errors::StoreError;
use crate::key::CredentialKey;
use crate::model::{
    first_match, lemma_count_after_remove, lemma_first_none_iff_count_zero, lemma_wf_count,
    remove_first_match, upsert, ItemModel,
};
use crate::query::{build_delete_query, build_probe_query, build_read_query, build_write_request};
use crate::sim::SimKeychain;
use crate::status::{
    add_failure, delete_failure, read_failure, ERR_SEC_ITEM_NOT_FOUND, ERR_SEC_PARAM,
    ERR_SEC_SUCCESS,
};

verus! {

/// Write or overwrite the secret for `(service, account)` under `policy`.
/// The best-effort delete that precedes the add recovers a missing item
/// locally; the write request always skips the challenge, so no save ever
/// prompts; and every native object acquired along the way is released on
/// every exit path, the failed ones included.
pub fn store_password(
    kc: &mut SimKeychain,
    service: &str,
    account: &str,
    password: &str,
    policy: &AccessPolicy,
) -> (r: Result<(), StoreError>)
    requires
        old(kc).inv(),
        old(kc).live@.len() == 0,
    ensures
        final(kc).inv(),
        final(kc).live@.len() == 0,
        final(kc).challenges == old(kc).challenges,
        final(kc).grant_presence == old(kc).grant_presence,
        (r matches Err(StoreError::Encoding)) <==> !(valid_component(service.spec_bytes())
            && valid_component(account.spec_bytes())),
        r matches Err(StoreError::Encoding) ==> final(kc).items == old(kc).items && final(kc).same_config(*old(kc)),
        !(r matches Err(StoreError::Encoding)) ==> !final(kc).fail_next_access_control,
        !(r matches Err(StoreError::Encoding)) && old(kc).fail_next_access_control ==> (r
            matches Err(StoreError::Backend(code, m)) && code == ERR_SEC_PARAM && m@
            == "the access control description was refused"@) && final(kc).items == old(kc).items
            && final(kc).fail_next_add == old(kc).fail_next_add,
        !(r matches Err(StoreError::Encoding)) && !old(kc).fail_next_access_control ==> !final(kc).fail_next_add,
        !(r matches Err(StoreError::Encoding)) && !old(kc).fail_next_access_control && !old(kc).fail_next_add ==> r is Ok,
        r is Ok ==> final(kc).contents() =~= upsert(
            old(kc).contents(),
            ItemModel {
                service: service.spec_bytes(),
                account: account.spec_bytes(),
                secret: password.spec_bytes(),
                require_presence: policy.require_user_presence,
            },
        ),
        !(r matches Err(StoreError::Encoding)) && !old(kc).fail_next_access_control && old(kc).fail_next_add ==> (r matches Err(StoreError::Backend(code, _)) && code
            == crate::status::ERR_SEC_DUPLICATE_ITEM) && final(kc).contents()
            =~= remove_first_match(
            old(kc).contents(),
            service.spec_bytes(),
            account.spec_bytes(),
        ),
    {
    let key = match CredentialKey::new(service, account) {
        Ok(k) => k,
        Err(e) => {
            return Err(e);
        },
    };
    let password_bytes = password.as_bytes();
    let mut arena = NativeHandleArena::new();

    // Step one: the access-control description; its failure surfaces the
    // native description and nothing has been acquired yet.
    let flags = access_control_flags(policy);
    let access_control = match kc.create_access_control(flags) {
        Ok(h) => h,
        Err((code, message)) => {
            return Err(StoreError::Backend(code, message));
        },
    };
    arena.adopt(access_control);

    // Step two: the native strings, the secret buffer and the two
    // dictionaries backing the write and the pre-delete.
    let service_ref = kc.create_marker();
    arena.adopt(service_ref);
    let account_ref = kc.create_marker();
    arena.adopt(account_ref);
    let secret_ref = kc.create_marker();
    arena.adopt(secret_ref);
    let write_ref = kc.create_marker();
    arena.adopt(write_ref);
    let delete_ref = kc.create_marker();
    arena.adopt(delete_ref);

    // Step three: best-effort delete of any existing item, recovering a
    // miss and surfacing anything else.
    let delete_query = build_delete_query(&key);
    let del_st = kc.delete_matching(&delete_query);
    if del_st != ERR_SEC_SUCCESS && del_st != ERR_SEC_ITEM_NOT_FOUND {
        proof {
            assert(arena.handles@ =~= kc.live_ids());
        }
        arena.release_all(kc);
        return Err(delete_failure(del_st));
    }
    proof {
        lemma_wf_count(old(kc).contents(), key.service@, key.account@);
        lemma_count_after_remove(old(kc).contents(), key.service@, key.account@);
        lemma_first_none_iff_count_zero(kc.contents(), key.service@, key.account@);
    }

    // Step four: the add, then release everything whatever it said.
    let request = build_write_request(&key, password_bytes, policy);
    let add_st = kc.add_item(&request);
    proof {
        assert(arena.handles@ =~= kc.live_ids());
    }
    arena.release_all(kc);
    if add_st == ERR_SEC_SUCCESS {
        Ok(())
    } else {
        Err(add_failure(add_st))
    }
}

/// Read the secret for `(service, account)`.  The query asks for the data
/// and omits the skip-challenge directive, so the facility may challenge
/// the user; the returned buffer is copied out and released on every path.
pub fn get_password(kc: &mut SimKeychain, service: &str, account: &str) -> (r: Result<
    Vec<u8>,
    StoreError,
>)
    requires
        old(kc).inv(),
        old(kc).live@.len() == 0,
        old(kc).challenges < u64::MAX,
    ensures
        final(kc).inv(),
        final(kc).live@.len() == 0,
        final(kc).items == old(kc).items,
        final(kc).same_config(*old(kc)),
        (r matches Err(StoreError::Encoding)) <==> !(valid_component(service.spec_bytes())
            && valid_component(account.spec_bytes())),
        r matches Err(StoreError::Encoding) ==> final(kc).challenges == old(kc).challenges,
        ({
            let found = first_match(
                old(kc).contents(),
                service.spec_bytes(),
                account.spec_bytes(),
            );
            !(r matches Err(StoreError::Encoding)) ==> {
                &&& (found is None ==> (r matches Err(StoreError::NotFound)) && final(kc).challenges == old(kc).challenges)
                &&& (found matches Some(it) ==> {
                    &&& (!it.require_presence ==> (r matches Ok(secret) && secret@ == it.secret)
                        && final(kc).challenges == old(kc).challenges)
                    &&& (it.require_presence && old(kc).grant_presence ==> (r matches Ok(secret)
                        && secret@ == it.secret) && final(kc).challenges == old(kc).challenges
                        + 1)
                    &&& (it.require_presence && !old(kc).grant_presence ==> (r matches Err(
                        StoreError::AuthenticationDenied(_),
                    )) && final(kc).challenges == old(kc).challenges + 1)
                })
            }
        }),
    {
    let key = match CredentialKey::new(service, account) {
        Ok(k) => k,
        Err(e) => {
            return Err(e);
        },
    };
    let mut arena = NativeHandleArena::new();
    let service_ref = kc.create_marker();
    arena.adopt(service_ref);
    let account_ref = kc.create_marker();
    arena.adopt(account_ref);
    let query_ref = kc.create_marker();
    arena.adopt(query_ref);

    let query = build_read_query(&key);
    let (st, data) = kc.copy_matching(&query);
    match data {
        Option::Some(h) => arena.adopt(h),
        Option::None => (),
    }
    if st == ERR_SEC_SUCCESS {
        let data_h = match data {
            Option::Some(h) => h,
            Option::None => vstd::pervasive::unreached(),
        };
        let secret = kc.read_blob(data_h);
        proof {
            assert(arena.handles@ =~= kc.live_ids());
        }
        arena.release_all(kc);
        Ok(secret)
    } else {
        proof {
            assert(arena.handles@ =~= kc.live_ids());
        }
        arena.release_all(kc);
        Err(read_failure(st))
    }
}

/// Remove the item for `(service, account)`.  A missing item counts as
/// success; removal never challenges and releases its query objects on
/// every path.
pub fn delete_password(kc: &mut SimKeychain, service: &str, account: &str) -> (r: Result<
    (),
    StoreError,
>)
    requires
        old(kc).inv(),
        old(kc).live@.len() == 0,
    ensures
        final(kc).inv(),
        final(kc).live@.len() == 0,
        final(kc).challenges == old(kc).challenges,
        final(kc).same_config(*old(kc)),
        (r matches Err(StoreError::Encoding)) <==> !(valid_component(service.spec_bytes())
            && valid_component(account.spec_bytes())),
        r matches Err(StoreError::Encoding) ==> final(kc).items == old(kc).items,
        !(r matches Err(StoreError::Encoding)) ==> r is Ok && final(kc).contents()
            =~= remove_first_match(
            old(kc).contents(),
            service.spec_bytes(),
            account.spec_bytes(),
        ),
    {
    let key = match CredentialKey::new(service, account) {
        Ok(k) => k,
        Err(e) => {
            return Err(e);
        },
    };
    let mut arena = NativeHandleArena::new();
    let service_ref = kc.create_marker();
    arena.adopt(service_ref);
    let account_ref = kc.create_marker();
    arena.adopt(account_ref);
    let query_ref = kc.create_marker();
    arena.adopt(query_ref);

    let query = build_delete_query(&key);
    let st = kc.delete_matching(&query);
    proof {
        assert(arena.handles@ =~= kc.live_ids());
    }
    arena.release_all(kc);
    if st == ERR_SEC_SUCCESS || st == ERR_SEC_ITEM_NOT_FOUND {
        Ok(())
    } else {
        Err(delete_failure(st))
    }
}

/// Probe for the item's existence.  The query mirrors a read but carries
/// the skip-challenge directive and asks for no data, so it can never
/// trigger a challenge; only the status is inspected.  An unrepresentable
/// key simply reports absence.
pub fn has_password(kc: &mut SimKeychain, service: &str, account: &str) -> (r: bool)
    requires
        old(kc).inv(),
        old(kc).live@.len() == 0,
    ensures
        final(kc).inv(),
        final(kc).live@.len() == 0,
        final(kc).items == old(kc).items,
        final(kc).challenges == old(kc).challenges,
        final(kc).same_config(*old(kc)),
        r == (valid_component(service.spec_bytes()) && valid_component(account.spec_bytes())
            && first_match(old(kc).contents(), service.spec_bytes(), account.spec_bytes())
            is Some),
    {
    let key = match CredentialKey::new(service, account) {
        Ok(k) => k,
        Err(_) => {
            return false;
        },
    };
    let mut arena = NativeHandleArena::new();
    let service_ref = kc.create_marker();
    arena.adopt(service_ref);
    let account_ref = kc.create_marker();
    arena.adopt(account_ref);
    let query_ref = kc.create_marker();
    arena.adopt(query_ref);

    let query = build_probe_query(&key);
    let (st, data) = kc.copy_matching(&query);
    match data {
        Option::Some(h) => arena.adopt(h),
        Option::None => (),
    }
    proof {
        assert(arena.handles@ =~= kc.live_ids());
    }
    arena.release_all(kc);
    st == ERR_SEC_SUCCESS
}

} // verus!
