//! The classic keychain backend: two-phase upsert over the find, delete,
//! add and free-content primitives.
//!
//! Every string crosses the native bridge as a pointer-and-length pair, so
//! each component is checked for representability before any native call.
//! The add primitive refuses duplicates, which forces the find-then-delete
//! step before every add; a missing item during that step is recovered
//! locally and never surfaces.  Search-result and content handles are owned
//! by an arena and released on every exit path, and a save or a probe never
//! issues an interactive challenge.

use vstd::prelude::*;
use vstd::string::StringSliceAdditionalSpecFns;
use crate::arena::NativeHandleArena;
use crate::encoding::{has_nul, is_nul_free, valid_component};
use crate::errors::StoreError;
use crate::key::CredentialKey;
use crate::model::{
    first_match, lemma_count_after_remove, lemma_first_none_iff_count_zero, lemma_no_match,
    lemma_wf_count, remove_first_match, upsert, ItemModel,
};
use crate::sim::SimKeychain;
use crate::status::{add_failure, delete_failure, read_failure, ERR_SEC_ITEM_NOT_FOUND,
    ERR_SEC_SUCCESS};

verus! {

/// After a removal in a well-formed namespace nothing is filed under the
/// key, so the add that follows cannot hit a duplicate.
proof fn lemma_cleared_key(items: Seq<ItemModel>, service: Seq<u8>, account: Seq<u8>)
    requires
        crate::model::items_wf(items),
    ensures
        first_match(remove_first_match(items, service, account), service, account) is None,
{
    lemma_wf_count(items, service, account);
    lemma_count_after_remove(items, service, account);
    lemma_first_none_iff_count_zero(remove_first_match(items, service, account), service, account);
}

/// Write or overwrite the secret for `(service, account)`.  The find and
/// delete that precede the add self-heal an earlier partial failure; a
/// save never issues an interactive challenge and never leaks a handle,
/// whichever path it takes.
pub fn store_password(kc: &mut SimKeychain, service: &str, account: &str, password: &str) -> (r:
    Result<(), StoreError>)
    requires
        old(kc).inv(),
        old(kc).live@.len() == 0,
    ensures
        final(kc).inv(),
        final(kc).live@.len() == 0,
        final(kc).challenges == old(kc).challenges,
        final(kc).grant_presence == old(kc).grant_presence,
        final(kc).fail_next_access_control == old(kc).fail_next_access_control,
        (r matches Err(StoreError::Encoding)) <==> !(valid_component(service.spec_bytes())
            && valid_component(account.spec_bytes()) && !has_nul(password.spec_bytes())),
        r matches Err(StoreError::Encoding) ==> final(kc).items == old(kc).items && final(kc).fail_next_add == old(kc).fail_next_add,
        !(r matches Err(StoreError::Encoding)) ==> !final(kc).fail_next_add,
        !(r matches Err(StoreError::Encoding)) && !old(kc).fail_next_add ==> r is Ok,
        r is Ok ==> final(kc).contents() =~= upsert(
            old(kc).contents(),
            ItemModel {
                service: service.spec_bytes(),
                account: account.spec_bytes(),
                secret: password.spec_bytes(),
                require_presence: false,
            },
        ),
        !(r matches Err(StoreError::Encoding)) && old(kc).fail_next_add ==> (r matches Err(
            StoreError::Backend(code, _),
        ) && code == crate::status::ERR_SEC_DUPLICATE_ITEM) && final(kc).contents()
            =~= remove_first_match(
            old(kc).contents(),
            service.spec_bytes(),
            account.spec_bytes(),
        ),
    {
    let key = match CredentialKey::new(service, account) {
        Ok(k) => k,
        Err(e) => {
            return Err(e);
        },
    };
    if !is_nul_free(password.as_bytes()) {
        return Err(StoreError::Encoding);
    }
    let password_bytes = password.as_bytes();
    let mut arena = NativeHandleArena::new();

    // Phase one: find any existing item and delete it, recovering a miss.
    let (find_st, _, item_ref) = kc.find_generic(
        key.service.as_slice(),
        key.account.as_slice(),
        false,
    );
    if find_st == ERR_SEC_SUCCESS {
        let h = match item_ref {
            Option::Some(h) => h,
            Option::None => vstd::pervasive::unreached(),
        };
        arena.adopt(h);
        let del_st = kc.item_delete(h);
        if del_st != ERR_SEC_SUCCESS && del_st != ERR_SEC_ITEM_NOT_FOUND {
            arena.release_all(kc);
            return Err(delete_failure(del_st));
        }
    } else if find_st != ERR_SEC_ITEM_NOT_FOUND {
        proof {
            assert(arena.handles@ =~= kc.live_ids());
        }
        arena.release_all(kc);
        return Err(read_failure(find_st));
    }
    proof {
        lemma_cleared_key(old(kc).contents(), key.service@, key.account@);
        if first_match(old(kc).contents(), key.service@, key.account@) is None {
            lemma_first_none_iff_count_zero(old(kc).contents(), key.service@, key.account@);
            lemma_no_match(old(kc).contents(), key.service@, key.account@);
        }
        assert(kc.contents() =~= remove_first_match(
            old(kc).contents(),
            key.service@,
            key.account@,
        ));
    }

    // Phase two: add the new item, then release everything acquired.
    let add_st = kc.add_generic(
        key.service.as_slice(),
        key.account.as_slice(),
        password_bytes,
    );
    proof {
        assert(arena.handles@ =~= kc.live_ids());
    }
    arena.release_all(kc);
    if add_st == ERR_SEC_SUCCESS {
        Ok(())
    } else {
        Err(add_failure(add_st))
    }
}

/// Read the secret for `(service, account)`.  Retrieving the data of a
/// presence-protected item lets the facility challenge the user; the
/// returned content buffer is copied out and released on every path.
pub fn get_password(kc: &mut SimKeychain, service: &str, account: &str) -> (r: Result<
    Vec<u8>,
    StoreError,
>)
    requires
        old(kc).inv(),
        old(kc).live@.len() == 0,
        old(kc).challenges < u64::MAX,
    ensures
        final(kc).inv(),
        final(kc).live@.len() == 0,
        final(kc).items == old(kc).items,
        final(kc).same_config(*old(kc)),
        (r matches Err(StoreError::Encoding)) <==> !(valid_component(service.spec_bytes())
            && valid_component(account.spec_bytes())),
        r matches Err(StoreError::Encoding) ==> final(kc).challenges == old(kc).challenges,
        ({
            let found = first_match(
                old(kc).contents(),
                service.spec_bytes(),
                account.spec_bytes(),
            );
            !(r matches Err(StoreError::Encoding)) ==> {
                &&& (found is None ==> (r matches Err(StoreError::NotFound)) && final(kc).challenges == old(kc).challenges)
                &&& (found matches Some(it) ==> {
                    &&& (!it.require_presence ==> (r matches Ok(secret) && secret@ == it.secret)
                        && final(kc).challenges == old(kc).challenges)
                    &&& (it.require_presence && old(kc).grant_presence ==> (r matches Ok(secret)
                        && secret@ == it.secret) && final(kc).challenges == old(kc).challenges
                        + 1)
                    &&& (it.require_presence && !old(kc).grant_presence ==> (r matches Err(
                        StoreError::AuthenticationDenied(_),
                    )) && final(kc).challenges == old(kc).challenges + 1)
                })
            }
        }),
    {
    let key = match CredentialKey::new(service, account) {
        Ok(k) => k,
        Err(e) => {
            return Err(e);
        },
    };
    let mut arena = NativeHandleArena::new();
    let (st, data, item_ref) = kc.find_generic(
        key.service.as_slice(),
        key.account.as_slice(),
        true,
    );
    match item_ref {
        Option::Some(h) => arena.adopt(h),
        Option::None => (),
    }
    match data {
        Option::Some(h) => arena.adopt(h),
        Option::None => (),
    }
    if st == ERR_SEC_SUCCESS {
        let data_h = match data {
            Option::Some(h) => h,
            Option::None => vstd::pervasive::unreached(),
        };
        let secret = kc.read_blob(data_h);
        proof {
            assert(arena.handles@ =~= kc.live_ids());
        }
        arena.release_all(kc);
        Ok(secret)
    } else {
        proof {
            assert(arena.handles@ =~= kc.live_ids());
        }
        arena.release_all(kc);
        Err(read_failure(st))
    }
}

/// Remove the item for `(service, account)`.  A missing item counts as
/// success: deletion always leaves the key absent.  Never challenges,
/// never leaks the search handle.
pub fn delete_password(kc: &mut SimKeychain, service: &str, account: &str) -> (r: Result<
    (),
    StoreError,
>)
    requires
        old(kc).inv(),
        old(kc).live@.len() == 0,
    ensures
        final(kc).inv(),
        final(kc).live@.len() == 0,
        final(kc).challenges == old(kc).challenges,
        final(kc).same_config(*old(kc)),
        (r matches Err(StoreError::Encoding)) <==> !(valid_component(service.spec_bytes())
            && valid_component(account.spec_bytes())),
        r matches Err(StoreError::Encoding) ==> final(kc).items == old(kc).items,
        !(r matches Err(StoreError::Encoding)) ==> r is Ok && final(kc).contents()
            =~= remove_first_match(
            old(kc).contents(),
            service.spec_bytes(),
            account.spec_bytes(),
        ),
    {
    let key = match CredentialKey::new(service, account) {
        Ok(k) => k,
        Err(e) => {
            return Err(e);
        },
    };
    let mut arena = NativeHandleArena::new();
    let (find_st, _, item_ref) = kc.find_generic(
        key.service.as_slice(),
        key.account.as_slice(),
        false,
    );
    if find_st == ERR_SEC_SUCCESS {
        let h = match item_ref {
            Option::Some(h) => h,
            Option::None => vstd::pervasive::unreached(),
        };
        arena.adopt(h);
        let del_st = kc.item_delete(h);
        proof {
            assert(arena.handles@ =~= kc.live_ids());
        }
        arena.release_all(kc);
        if del_st == ERR_SEC_SUCCESS || del_st == ERR_SEC_ITEM_NOT_FOUND {
            Ok(())
        } else {
            Err(delete_failure(del_st))
        }
    } else if find_st == ERR_SEC_ITEM_NOT_FOUND {
        proof {
            lemma_first_none_iff_count_zero(old(kc).contents(), key.service@, key.account@);
            lemma_no_match(old(kc).contents(), key.service@, key.account@);
            assert(arena.handles@ =~= kc.live_ids());
        }
        arena.release_all(kc);
        Ok(())
    } else {
        proof {
            assert(arena.handles@ =~= kc.live_ids());
        }
        arena.release_all(kc);
        Err(read_failure(find_st))
    }
}

/// Probe for the item's existence with a plain search that asks for no
/// data, so no interactive challenge can fire; an unrepresentable key
/// simply reports absence.
pub fn has_password(kc: &mut SimKeychain, service: &str, account: &str) -> (r: bool)
    requires
        old(kc).inv(),
        old(kc).live@.len() == 0,
    ensures
        final(kc).inv(),
        final(kc).live@.len() == 0,
        final(kc).items == old(kc).items,
        final(kc).challenges == old(kc).challenges,
        final(kc).same_config(*old(kc)),
        r == (valid_component(service.spec_bytes()) && valid_component(account.spec_bytes())
            && first_match(old(kc).contents(), service.spec_bytes(), account.spec_bytes())
            is Some),
    {
    let key = match CredentialKey::new(service, account) {
        Ok(k) => k,
        Err(_) => {
            return false;
        },
    };
    let mut arena = NativeHandleArena::new();
    let (find_st, _, item_ref) = kc.find_generic(
        key.service.as_slice(),
        key.account.as_slice(),
        false,
    );
    match item_ref {
        Option::Some(h) => arena.adopt(h),
        Option::None => (),
    }
    proof {
        assert(arena.handles@ =~= kc.live_ids());
    }
    arena.release_all(kc);
    find_st == ERR_SEC_SUCCESS
}

} // verus!
