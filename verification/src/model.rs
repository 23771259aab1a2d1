//! The mathematical model of the keychain's contents.
//!
//! The facility holds a sequence of items, each keyed by a service and an
//! account.  Reads resolve to the first item whose key matches, and the
//! removal that precedes every add takes out the first match as well, so
//! that a namespace polluted by an earlier partial failure self-heals
//! instead of erroring.  A well-formed namespace holds at most one item per
//! key, and every transition here preserves that.

use vstd::prelude::*;

verus! {

/// One stored item: its key, its secret, and whether reading it back
/// demands an interactive proof of presence.
pub struct ItemModel {
    pub service: Seq<u8>,
    pub account: Seq<u8>,
    pub secret: Seq<u8>,
    pub require_presence: bool,
}

/// True when `it` is filed under the key `(service, account)`.
pub open spec fn key_matches(it: ItemModel, service: Seq<u8>, account: Seq<u8>) -> bool {
    it.service == service && it.account == account
}

/// The first item filed under the key, if any: the one every read and the
/// pre-add removal prefer.
pub open spec fn first_match(items: Seq<ItemModel>, service: Seq<u8>, account: Seq<u8>) -> Option<
    ItemModel,
>
    decreases items.len(),
{
    if items.len() == 0 {
        None
    } else if key_matches(items[0], service, account) {
        Some(items[0])
    } else {
        first_match(items.drop_first(), service, account)
    }
}

/// How many items are filed under the key.
pub open spec fn match_count(items: Seq<ItemModel>, service: Seq<u8>, account: Seq<u8>) -> nat
    decreases items.len(),
{
    if items.len() == 0 {
        0
    } else {
        (if key_matches(items[0], service, account) {
            1nat
        } else {
            0nat
        }) + match_count(items.drop_first(), service, account)
    }
}

/// The contents after removing the first item filed under the key;
/// unchanged when none is.
pub open spec fn remove_first_match(
    items: Seq<ItemModel>,
    service: Seq<u8>,
    account: Seq<u8>,
) -> Seq<ItemModel>
    decreases items.len(),
{
    if items.len() == 0 {
        Seq::empty()
    } else if key_matches(items[0], service, account) {
        items.drop_first()
    } else {
        seq![items[0]] + remove_first_match(items.drop_first(), service, account)
    }
}

/// The contents after an upsert: any previous item under the same key goes,
/// then the new item is appended.  The add primitive refuses duplicates, so
/// the removal is strictly ordered before it.
pub open spec fn upsert(items: Seq<ItemModel>, it: ItemModel) -> Seq<ItemModel> {
    remove_first_match(items, it.service, it.account).push(it)
}

/// A well-formed namespace: no two items share a key.
pub open spec fn items_wf(items: Seq<ItemModel>) -> bool
    decreases items.len(),
{
    items.len() == 0 || (match_count(items.drop_first(), items[0].service, items[0].account) == 0
        && items_wf(items.drop_first()))
}

/// Where no position matches a key, nothing is filed under it.
pub proof fn lemma_matchless_count_zero(items: Seq<ItemModel>, service: Seq<u8>, account: Seq<u8>)
    requires
        forall|i: int| 0 <= i < items.len() ==> !key_matches(items[i], service, account),
    ensures
        match_count(items, service, account) == 0,
    decreases items.len(),
{
    if items.len() > 0 {
        assert forall|i: int|
            0 <= i < items.drop_first().len() implies !key_matches(
            items.drop_first()[i],
            service,
            account,
        ) by {
            assert(items.drop_first()[i] == items[i + 1]);
        }
        lemma_matchless_count_zero(items.drop_first(), service, account);
    }
}

/// Appending one item raises the key's count by one when the item matches
/// the key, and leaves it alone otherwise.
pub proof fn lemma_count_push(
    items: Seq<ItemModel>,
    it: ItemModel,
    service: Seq<u8>,
    account: Seq<u8>,
)
    ensures
        match_count(items.push(it), service, account) == match_count(items, service, account) + (
        if key_matches(it, service, account) {
            1nat
        } else {
            0nat
        }),
    decreases items.len(),
{
    let p = items.push(it);
    if items.len() == 0 {
        assert(p.len() == 1);
        assert(p[0] == it);
        assert(p.drop_first() =~= Seq::<ItemModel>::empty());
        assert(match_count(p.drop_first(), service, account) == 0);
    } else {
        assert(p[0] == items[0]);
        assert(p.drop_first() =~= items.drop_first().push(it));
        lemma_count_push(items.drop_first(), it, service, account);
        assert(match_count(p.drop_first(), service, account) == match_count(
            items.drop_first(),
            service,
            account,
        ) + (if key_matches(it, service, account) {
            1nat
        } else {
            0nat
        }));
    }
}

/// A read resolves to nothing exactly when nothing is filed under the key.
pub proof fn lemma_first_none_iff_count_zero(
    items: Seq<ItemModel>,
    service: Seq<u8>,
    account: Seq<u8>,
)
    ensures
        (first_match(items, service, account) is None) <==> (match_count(items, service, account)
            == 0),
    decreases items.len(),
{
    if items.len() > 0 {
        lemma_first_none_iff_count_zero(items.drop_first(), service, account);
    }
}

/// Removing a key leaves the namespace as it was when nothing was filed
/// under it, and then no read under the key resolves.
pub proof fn lemma_no_match(items: Seq<ItemModel>, service: Seq<u8>, account: Seq<u8>)
    requires
        match_count(items, service, account) == 0,
    ensures
        remove_first_match(items, service, account) == items,
        first_match(items, service, account) is None,
    decreases items.len(),
{
    if items.len() > 0 {
        lemma_no_match(items.drop_first(), service, account);
        assert(seq![items[0]] + items.drop_first() =~= items);
    }
}

/// The removal takes out exactly one match when any exists.
pub proof fn lemma_count_after_remove(items: Seq<ItemModel>, service: Seq<u8>, account: Seq<u8>)
    ensures
        match_count(remove_first_match(items, service, account), service, account) == (
        if match_count(items, service, account) == 0 {
            0nat
        } else {
            (match_count(items, service, account) - 1) as nat
        }),
    decreases items.len(),
{
    if items.len() == 0 {
    } else if key_matches(items[0], service, account) {
    } else {
        lemma_count_after_remove(items.drop_first(), service, account);
        let rest = remove_first_match(items.drop_first(), service, account);
        assert((seq![items[0]] + rest)[0] == items[0]);
        assert((seq![items[0]] + rest).drop_first() =~= rest);
    }
}

/// Removing one key never raises another key's count.
pub proof fn lemma_count_remove_monotonic(
    items: Seq<ItemModel>,
    service: Seq<u8>,
    account: Seq<u8>,
    other_service: Seq<u8>,
    other_account: Seq<u8>,
)
    ensures
        match_count(remove_first_match(items, service, account), other_service, other_account)
            <= match_count(items, other_service, other_account),
    decreases items.len(),
{
    if items.len() == 0 {
    } else if key_matches(items[0], service, account) {
        lemma_count_drop_first_le(items, other_service, other_account);
    } else {
        lemma_count_remove_monotonic(
            items.drop_first(),
            service,
            account,
            other_service,
            other_account,
        );
        let rest = remove_first_match(items.drop_first(), service, account);
        assert((seq![items[0]] + rest)[0] == items[0]);
        assert((seq![items[0]] + rest).drop_first() =~= rest);
    }
}

/// Dropping the head never raises a count.
pub proof fn lemma_count_drop_first_le(items: Seq<ItemModel>, service: Seq<u8>, account: Seq<u8>)
    requires
        items.len() > 0,
    ensures
        match_count(items.drop_first(), service, account) <= match_count(items, service, account),
{
}

/// In a well-formed namespace at most one item is filed under any key.
pub proof fn lemma_wf_count(items: Seq<ItemModel>, service: Seq<u8>, account: Seq<u8>)
    requires
        items_wf(items),
    ensures
        match_count(items, service, account) <= 1,
    decreases items.len(),
{
    if items.len() > 0 {
        lemma_wf_count(items.drop_first(), service, account);
    }
}

/// After a fresh append under a vacant key, the first read under that key
/// resolves to the appended item.
pub proof fn lemma_first_match_push(
    items: Seq<ItemModel>,
    it: ItemModel,
    service: Seq<u8>,
    account: Seq<u8>,
)
    requires
        match_count(items, service, account) == 0,
        key_matches(it, service, account),
    ensures
        first_match(items.push(it), service, account) == Some(it),
    decreases items.len(),
{
    if items.len() == 0 {
        assert(items.push(it)[0] == it);
    } else {
        assert(items.push(it).drop_first() =~= items.drop_first().push(it));
        lemma_first_match_push(items.drop_first(), it, service, account);
    }
}

/// Removing a key preserves well-formedness.
pub proof fn lemma_wf_remove(items: Seq<ItemModel>, service: Seq<u8>, account: Seq<u8>)
    requires
        items_wf(items),
    ensures
        items_wf(remove_first_match(items, service, account)),
    decreases items.len(),
{
    if items.len() == 0 {
    } else if key_matches(items[0], service, account) {
    } else {
        lemma_wf_remove(items.drop_first(), service, account);
        lemma_count_remove_monotonic(
            items.drop_first(),
            service,
            account,
            items[0].service,
            items[0].account,
        );
        let rest = remove_first_match(items.drop_first(), service, account);
        assert((seq![items[0]] + rest)[0] == items[0]);
        assert((seq![items[0]] + rest).drop_first() =~= rest);
    }
}

/// Appending under a vacant key preserves well-formedness.
pub proof fn lemma_wf_push(items: Seq<ItemModel>, it: ItemModel)
    requires
        items_wf(items),
        match_count(items, it.service, it.account) == 0,
    ensures
        items_wf(items.push(it)),
    decreases items.len(),
{
    let p = items.push(it);
    if items.len() == 0 {
        assert(p.len() == 1);
        assert(p[0] == it);
        assert(p.drop_first() =~= Seq::<ItemModel>::empty());
        assert(match_count(p.drop_first(), it.service, it.account) == 0);
        assert(items_wf(p.drop_first()));
    } else {
        assert(p[0] == items[0]);
        assert(p.drop_first() =~= items.drop_first().push(it));
        lemma_count_push(items.drop_first(), it, items[0].service, items[0].account);
        if key_matches(it, items[0].service, items[0].account) {
            assert(key_matches(items[0], it.service, it.account));
            assert(match_count(items, it.service, it.account) >= 1);
        }
        assert(match_count(p.drop_first(), items[0].service, items[0].account) == 0);
        lemma_wf_push(items.drop_first(), it);
        assert(items_wf(p.drop_first()));
    }
}

/// When the first match sits at position `i`, a read resolves there and the
/// removal takes out exactly that position.
pub proof fn lemma_first_match_at(
    items: Seq<ItemModel>,
    service: Seq<u8>,
    account: Seq<u8>,
    i: int,
)
    requires
        0 <= i < items.len(),
        key_matches(items[i], service, account),
        forall|j: int| 0 <= j < i ==> !key_matches(items[j], service, account),
    ensures
        first_match(items, service, account) == Some(items[i]),
        remove_first_match(items, service, account) == items.remove(i),
        match_count(items, service, account) >= 1,
    decreases items.len(),
{
    if i == 0 {
        assert(items.drop_first() =~= items.remove(0));
    } else {
        assert forall|j: int|
            0 <= j < i - 1 implies !key_matches(items.drop_first()[j], service, account) by {
            assert(items.drop_first()[j] == items[j + 1]);
        }
        lemma_first_match_at(items.drop_first(), service, account, i - 1);
        assert(seq![items[0]] + items.drop_first().remove(i - 1) =~= items.remove(i));
    }
}

/// LAW (round trip): in a well-formed namespace, an upsert files the item
/// so that the next read under its key yields exactly the stored item, the
/// key holds exactly one item, and the namespace stays well-formed.
pub proof fn lemma_store_then_get(items: Seq<ItemModel>, it: ItemModel)
    requires
        items_wf(items),
    ensures
        first_match(upsert(items, it), it.service, it.account) == Some(it),
        match_count(upsert(items, it), it.service, it.account) == 1,
        items_wf(upsert(items, it)),
{
    lemma_wf_count(items, it.service, it.account);
    lemma_count_after_remove(items, it.service, it.account);
    let cleared = remove_first_match(items, it.service, it.account);
    lemma_first_match_push(cleared, it, it.service, it.account);
    lemma_count_push(cleared, it, it.service, it.account);
    lemma_wf_remove(items, it.service, it.account);
    lemma_wf_push(cleared, it);
}

/// LAW (upsert overwrites): storing twice under one key leaves exactly the
/// second item there — the first is gone, and the two never coexist.
pub proof fn lemma_upsert_overwrites(items: Seq<ItemModel>, first: ItemModel, second: ItemModel)
    requires
        items_wf(items),
        first.service == second.service,
        first.account == second.account,
    ensures
        first_match(upsert(upsert(items, first), second), second.service, second.account) == Some(
            second,
        ),
        match_count(upsert(upsert(items, first), second), second.service, second.account) == 1,
        items_wf(upsert(upsert(items, first), second)),
{
    lemma_store_then_get(items, first);
    lemma_store_then_get(upsert(items, first), second);
}

/// LAW (idempotent delete): in a well-formed namespace, removing a key a
/// second time changes nothing, and after either removal nothing is filed
/// under the key.
pub proof fn lemma_delete_idempotent(items: Seq<ItemModel>, service: Seq<u8>, account: Seq<u8>)
    requires
        items_wf(items),
    ensures
        remove_first_match(remove_first_match(items, service, account), service, account)
            == remove_first_match(items, service, account),
        first_match(remove_first_match(items, service, account), service, account) is None,
{
    lemma_wf_count(items, service, account);
    lemma_count_after_remove(items, service, account);
    lemma_no_match(remove_first_match(items, service, account), service, account);
}

} // verus!
