//! An in-process, resource-accounting double of the OS keychain.
//!
//! The real facility lives in the operating system and is beyond the
//! verifier's reach, so the backends in this crate run against this double,
//! whose transitions carry exact contracts: what each native-style call
//! does to the stored items, which calls issue an interactive challenge,
//! and how native handles are acquired and released.  The double also
//! injects the failures the backends must survive — a refused add, a
//! refused access-control description, a declined challenge — and counts
//! outstanding handles and issued challenges, so that leak-freedom and
//! no-prompt guarantees are both provable and observable.
//!
//! Handles are acquired with strictly increasing identifiers and released
//! newest-first, the reverse-acquisition order a scope guard produces; the
//! double enforces that discipline in its contracts.

use vstd::prelude::*;
use vstd::slice::slice_to_vec;
use crate::model::{
    first_match, items_wf, key_matches, lemma_first_match_at, lemma_matchless_count_zero,
    lemma_no_match, lemma_wf_push, lemma_wf_remove, remove_first_match, ItemModel,
};
use crate::query::{ItemQuery, WriteRequest};
use crate::status::{
    ERR_SEC_AUTH_FAILED, ERR_SEC_DUPLICATE_ITEM, ERR_SEC_INTERACTION_NOT_ALLOWED,
    ERR_SEC_ITEM_NOT_FOUND, ERR_SEC_PARAM, ERR_SEC_SUCCESS,
};
use crate::encoding::bytes_equal;

verus! {

/// One item as the double stores it.
pub struct SimItem {
    pub service: Vec<u8>,
    pub account: Vec<u8>,
    pub secret: Vec<u8>,
    pub require_presence: bool,
}

impl View for SimItem {
    type V = ItemModel;

    open spec fn view(&self) -> ItemModel {
        ItemModel {
            service: self.service@,
            account: self.account@,
            secret: self.secret@,
            require_presence: self.require_presence,
        }
    }
}

/// What an outstanding native handle refers to.
pub enum HandlePayload {
    /// An owned byte buffer: a secret's data handed out by a find.
    Blob(Vec<u8>),
    /// A search result referring to the first item under a key.
    ItemRef(Vec<u8>, Vec<u8>),
    /// An opaque object with no readable content: a native string, a
    /// query dictionary, or an access-control description.
    Marker,
}

/// An outstanding native handle.
pub struct LiveHandle {
    pub id: u64,
    pub payload: HandlePayload,
}

/// The items of a stored sequence, as models.
pub open spec fn item_views(s: Seq<SimItem>) -> Seq<ItemModel> {
    s.map_values(|it: SimItem| it@)
}

/// The identifiers of a handle sequence.
pub open spec fn ids_of(s: Seq<LiveHandle>) -> Seq<u64> {
    s.map_values(|h: LiveHandle| h.id)
}

/// The item an add request files.
pub open spec fn write_model(req: WriteRequest) -> ItemModel {
    ItemModel {
        service: req.service@,
        account: req.account@,
        secret: req.secret@,
        require_presence: req.require_presence,
    }
}

proof fn lemma_item_views_push(s: Seq<SimItem>, x: SimItem)
    ensures
        item_views(s.push(x)) =~= item_views(s).push(x@),
{
    assert forall|i: int| 0 <= i < s.len() + 1 implies item_views(s.push(x))[i] == item_views(
        s,
    ).push(x@)[i] by {
        if i < s.len() {
            assert(s.push(x)[i] == s[i]);
        } else {
            assert(s.push(x)[i] == x);
        }
    }
}

proof fn lemma_item_views_remove(s: Seq<SimItem>, i: int)
    requires
        0 <= i < s.len(),
    ensures
        item_views(s.remove(i)) =~= item_views(s).remove(i),
{
    assert forall|j: int| 0 <= j < s.len() - 1 implies item_views(s.remove(i))[j] == item_views(
        s,
    ).remove(i)[j] by {
        if j < i {
            assert(s.remove(i)[j] == s[j]);
        } else {
            assert(s.remove(i)[j] == s[j + 1]);
        }
    }
}

proof fn lemma_ids_push(s: Seq<LiveHandle>, x: LiveHandle)
    ensures
        ids_of(s.push(x)) =~= ids_of(s).push(x.id),
{
    assert forall|i: int| 0 <= i < s.len() + 1 implies ids_of(s.push(x))[i] == ids_of(s).push(
        x.id,
    )[i] by {
        if i < s.len() {
            assert(s.push(x)[i] == s[i]);
        } else {
            assert(s.push(x)[i] == x);
        }
    }
}

proof fn lemma_ids_drop_last(s: Seq<LiveHandle>)
    requires
        s.len() > 0,
    ensures
        ids_of(s.drop_last()) =~= ids_of(s).drop_last(),
{
    assert forall|i: int| 0 <= i < s.len() - 1 implies ids_of(s.drop_last())[i] == ids_of(
        s,
    ).drop_last()[i] by {
        assert(s.drop_last()[i] == s[i]);
    }
}

/// The double of the OS credential facility.
pub struct SimKeychain {
    pub items: Vec<SimItem>,
    pub live: Vec<LiveHandle>,
    pub next_handle: u64,
    /// Whether the (simulated) user grants an interactive challenge.
    pub grant_presence: bool,
    /// Refuse the next add, as a duplicate-item race would.
    pub fail_next_add: bool,
    /// Refuse the next access-control description.
    pub fail_next_access_control: bool,
    /// How many interactive challenges have been issued.
    pub challenges: u64,
}

impl SimKeychain {
    /// The stored items, as models.
    pub open spec fn contents(self) -> Seq<ItemModel> {
        item_views(self.items@)
    }

    /// The identifiers of all outstanding handles, oldest first.
    pub open spec fn live_ids(self) -> Seq<u64> {
        ids_of(self.live@)
    }

    /// The double's invariant: the namespace is well-formed, handle
    /// identifiers rise strictly with acquisition order and stay below
    /// the next fresh one, and the identifier counter rests at zero
    /// whenever no handle is outstanding.
    pub open spec fn inv(self) -> bool {
        &&& items_wf(self.contents())
        &&& (forall|i: int, j: int|
            0 <= i < j < self.live@.len() ==> self.live@[i].id < self.live@[j].id)
        &&& (forall|i: int| 0 <= i < self.live@.len() ==> self.live@[i].id < self.next_handle)
        &&& (self.live@.len() == 0 ==> self.next_handle == 0)
    }

    /// The configuration switches, which ordinary operations never touch.
    pub open spec fn same_config(self, other: SimKeychain) -> bool {
        &&& self.grant_presence == other.grant_presence
        &&& self.fail_next_add == other.fail_next_add
        &&& self.fail_next_access_control == other.fail_next_access_control
    }

    /// An empty facility: nothing stored, nothing outstanding, presence
    /// granted, no injected failures.
    pub fn new() -> (kc: SimKeychain)
        ensures
            kc.inv(),
            kc.contents() =~= Seq::<ItemModel>::empty(),
            kc.live@.len() == 0,
            kc.next_handle == 0,
            kc.challenges == 0,
            kc.grant_presence,
            !kc.fail_next_add,
            !kc.fail_next_access_control,
    {
        SimKeychain {
            items: Vec::new(),
            live: Vec::new(),
            next_handle: 0,
            grant_presence: true,
            fail_next_add: false,
            fail_next_access_control: false,
            challenges: 0,
        }
    }

    /// Choose whether the simulated user grants interactive challenges.
    pub fn set_grant_presence(&mut self, grant: bool)
        requires
            old(self).inv(),
        ensures
            final(self).inv(),
            final(self).grant_presence == grant,
            final(self).items == old(self).items,
            final(self).live == old(self).live,
            final(self).next_handle == old(self).next_handle,
            final(self).challenges == old(self).challenges,
            final(self).fail_next_add == old(self).fail_next_add,
            final(self).fail_next_access_control == old(self).fail_next_access_control,
    {
        self.grant_presence = grant;
    }

    /// Make the next add fail, as a duplicate-item race would.
    pub fn inject_add_failure(&mut self)
        requires
            old(self).inv(),
        ensures
            final(self).inv(),
            final(self).fail_next_add,
            final(self).items == old(self).items,
            final(self).live == old(self).live,
            final(self).next_handle == old(self).next_handle,
            final(self).challenges == old(self).challenges,
            final(self).grant_presence == old(self).grant_presence,
            final(self).fail_next_access_control == old(self).fail_next_access_control,
    {
        self.fail_next_add = true;
    }

    /// Make the next access-control construction fail.
    pub fn inject_access_control_failure(&mut self)
        requires
            old(self).inv(),
        ensures
            final(self).inv(),
            final(self).fail_next_access_control,
            final(self).items == old(self).items,
            final(self).live == old(self).live,
            final(self).next_handle == old(self).next_handle,
            final(self).challenges == old(self).challenges,
            final(self).grant_presence == old(self).grant_presence,
            final(self).fail_next_add == old(self).fail_next_add,
    {
        self.fail_next_access_control = true;
    }

    /// Acquire a fresh handle holding `payload`.
    fn acquire(&mut self, payload: HandlePayload) -> (h: u64)
        requires
            old(self).inv(),
            old(self).next_handle < u64::MAX,
        ensures
            final(self).inv(),
            h == old(self).next_handle,
            final(self).live@ =~= old(self).live@.push(LiveHandle { id: h, payload: payload }),
            final(self).live_ids() =~= old(self).live_ids().push(h),
            final(self).next_handle == old(self).next_handle + 1,
            final(self).items == old(self).items,
            final(self).challenges == old(self).challenges,
            final(self).same_config(*old(self)),
    {
        let h = self.next_handle;
        self.live.push(LiveHandle { id: h, payload });
        self.next_handle = self.next_handle + 1;
        proof {
            let x = self.live@.last();
            assert(self.live@ == old(self).live@.push(x));
            lemma_ids_push(old(self).live@, x);
            assert forall|i: int, j: int|
                0 <= i < j < self.live@.len() implies self.live@[i].id < self.live@[j].id by {
                assert(self.live@[i] == old(self).live@[i]);
                if j < self.live@.len() - 1 {
                    assert(self.live@[j] == old(self).live@[j]);
                } else {
                    assert(self.live@[j] == x);
                }
            }
        }
        h
    }

    /// Acquire a handle for an owned native object with no readable
    /// content: a native string, a query dictionary.
    pub fn create_marker(&mut self) -> (h: u64)
        requires
            old(self).inv(),
            old(self).next_handle < u64::MAX,
        ensures
            final(self).inv(),
            h == old(self).next_handle,
            final(self).live_ids() =~= old(self).live_ids().push(h),
            final(self).live@.len() == old(self).live@.len() + 1,
            final(self).next_handle == old(self).next_handle + 1,
            final(self).items == old(self).items,
            final(self).challenges == old(self).challenges,
            final(self).same_config(*old(self)),
    {
        self.acquire(HandlePayload::Marker)
    }

    /// Build an access-control description from the policy flag word,
    /// yielding a handle; refused with a native error and its description
    /// when failure was injected.
    pub fn create_access_control(&mut self, flags: u64) -> (r: Result<u64, (i32, String)>)
        requires
            old(self).inv(),
            old(self).next_handle < u64::MAX,
        ensures
            final(self).inv(),
            final(self).items == old(self).items,
            final(self).challenges == old(self).challenges,
            final(self).grant_presence == old(self).grant_presence,
            final(self).fail_next_add == old(self).fail_next_add,
            !final(self).fail_next_access_control,
            old(self).fail_next_access_control ==> {
                &&& r matches Err((code, m)) && code == ERR_SEC_PARAM && m@
                    == "the access control description was refused"@
                &&& final(self).live == old(self).live
                &&& final(self).next_handle == old(self).next_handle
            },
            !old(self).fail_next_access_control ==> {
                &&& r matches Ok(h) && h == old(self).next_handle
                &&& final(self).live_ids() =~= old(self).live_ids().push(old(self).next_handle)
                &&& final(self).live@.len() == old(self).live@.len() + 1
                &&& final(self).next_handle == old(self).next_handle + 1
            },
    {
        if self.fail_next_access_control {
            self.fail_next_access_control = false;
            Err((ERR_SEC_PARAM, "the access control description was refused".to_owned()))
        } else {
            Ok(self.acquire(HandlePayload::Marker))
        }
    }

    /// Release the newest outstanding handle, which must be `h`: handles
    /// go back newest-first, as a scope guard releases them.  When the
    /// last one goes, the identifier counter rests.
    pub fn release(&mut self, h: u64)
        requires
            old(self).inv(),
            old(self).live@.len() > 0,
            old(self).live@.last().id == h,
        ensures
            final(self).inv(),
            final(self).live@ =~= old(self).live@.drop_last(),
            final(self).live_ids() =~= old(self).live_ids().drop_last(),
            final(self).items == old(self).items,
            final(self).challenges == old(self).challenges,
            final(self).same_config(*old(self)),
    {
        self.live.pop();
        if self.live.len() == 0 {
            self.next_handle = 0;
        }
        proof {
            lemma_ids_drop_last(old(self).live@);
        }
    }

    /// Read the byte contents behind the newest handle, a buffer handed
    /// out by a find; the caller still owes its release.
    pub fn read_blob(&self, h: u64) -> (data: Vec<u8>)
        requires
            self.inv(),
            self.live@.len() > 0,
            self.live@.last().id == h,
            self.live@.last().payload is Blob,
        ensures
            self.live@.last().payload matches HandlePayload::Blob(b) && data@ == b@,
    {
        let idx = self.live.len() - 1;
        match &self.live[idx].payload {
            HandlePayload::Blob(b) => slice_to_vec(b.as_slice()),
            _ => vstd::pervasive::unreached(),
        }
    }

    /// The index of the first stored item under the key, if any.
    fn find_index(&self, service: &[u8], account: &[u8]) -> (r: Option<usize>)
        ensures
            match r {
                Option::Some(i) => {
                    &&& i < self.items@.len()
                    &&& key_matches(self.contents()[i as int], service@, account@)
                    &&& forall|j: int|
                        0 <= j < i ==> !key_matches(self.contents()[j], service@, account@)
                },
                Option::None => forall|j: int|
                    0 <= j < self.items@.len() ==> !key_matches(
                        self.contents()[j],
                        service@,
                        account@,
                    ),
            },
    {
        let mut i: usize = 0;
        while i < self.items.len()
            invariant
                0 <= i <= self.items@.len(),
                forall|j: int| 0 <= j < i ==> !key_matches(self.contents()[j], service@, account@),
            decreases self.items@.len() - i,
        {
            let it = &self.items[i];
            if bytes_equal(it.service.as_slice(), service) && bytes_equal(
                it.account.as_slice(),
                account,
            ) {
                return Some(i);
            }
            i = i + 1;
        }
        None
    }

    /// The classic find primitive: resolve the key to its first item,
    /// handing back a search-result handle and, when asked, a buffer
    /// holding the secret.  Reading the data of a presence-protected item
    /// issues an interactive challenge; a mere search never does.
    pub fn find_generic(&mut self, service: &[u8], account: &[u8], want_data: bool) -> (r: (
        i32,
        Option<u64>,
        Option<u64>,
    ))
        requires
            old(self).inv(),
            old(self).next_handle < u64::MAX - 1,
            want_data ==> old(self).challenges < u64::MAX,
        ensures
            final(self).inv(),
            final(self).items == old(self).items,
            final(self).same_config(*old(self)),
            first_match(old(self).contents(), service@, account@) is None ==> {
                &&& r == (ERR_SEC_ITEM_NOT_FOUND, Option::<u64>::None, Option::<u64>::None)
                &&& final(self).live == old(self).live
                &&& final(self).next_handle == old(self).next_handle
                &&& final(self).challenges == old(self).challenges
            },
            ({
                let found = first_match(old(self).contents(), service@, account@);
                found matches Some(it) ==> {
                    &&& (!want_data ==> {
                        &&& r.0 == ERR_SEC_SUCCESS
                        &&& r.1 is None
                        &&& r.2 == Some(old(self).next_handle)
                        &&& final(self).live@.len() == old(self).live@.len() + 1
                        &&& (forall|k: int|
                            0 <= k < old(self).live@.len() ==> final(self).live@[k] == old(self).live@[k])
                        &&& final(self).live@.last().id == old(self).next_handle
                        &&& (final(self).live@.last().payload matches HandlePayload::ItemRef(s, a)
                            && s@ == service@ && a@ == account@)
                        &&& final(self).live_ids() =~= old(self).live_ids().push(
                            old(self).next_handle,
                        )
                        &&& final(self).next_handle == old(self).next_handle + 1
                        &&& final(self).challenges == old(self).challenges
                    })
                    &&& (want_data && it.require_presence && !old(self).grant_presence ==> {
                        &&& r == (ERR_SEC_AUTH_FAILED, Option::<u64>::None, Option::<u64>::None)
                        &&& final(self).live == old(self).live
                        &&& final(self).next_handle == old(self).next_handle
                        &&& final(self).challenges == old(self).challenges + 1
                    })
                    &&& (want_data && (!it.require_presence || old(self).grant_presence) ==> {
                        &&& r.0 == ERR_SEC_SUCCESS
                        &&& r.2 == Some(old(self).next_handle)
                        &&& r.1 == Some((old(self).next_handle + 1) as u64)
                        &&& final(self).live@.len() == old(self).live@.len() + 2
                        &&& (forall|k: int|
                            0 <= k < old(self).live@.len() ==> final(self).live@[k] == old(self).live@[k])
                        &&& (final(self).live@[final(self).live@.len() - 2].payload matches
                            HandlePayload::ItemRef(s, a) && s@ == service@ && a@ == account@)
                        &&& final(self).live@.last().id == old(self).next_handle + 1
                        &&& (final(self).live@.last().payload matches HandlePayload::Blob(b) && b@
                            == it.secret)
                        &&& final(self).live_ids() =~= old(self).live_ids().push(
                            old(self).next_handle,
                        ).push((old(self).next_handle + 1) as u64)
                        &&& final(self).next_handle == old(self).next_handle + 2
                        &&& final(self).challenges == old(self).challenges + (
                        if it.require_presence {
                            1int
                        } else {
                            0int
                        })
                    })
                }
            }),
    {
        let found = self.find_index(service, account);
        match found {
            Option::None => {
                proof {
                    lemma_matchless_count_zero(self.contents(), service@, account@);
                    lemma_no_match(self.contents(), service@, account@);
                }
                (ERR_SEC_ITEM_NOT_FOUND, None, None)
            },
            Option::Some(i) => {
                proof {
                    lemma_first_match_at(self.contents(), service@, account@, i as int);
                }
                if !want_data {
                    let item_ref = self.acquire(
                        HandlePayload::ItemRef(slice_to_vec(service), slice_to_vec(account)),
                    );
                    (ERR_SEC_SUCCESS, None, Some(item_ref))
                } else {
                    let require_presence = self.items[i].require_presence;
                    if require_presence {
                        self.challenges = self.challenges + 1;
                        if !self.grant_presence {
                            return (ERR_SEC_AUTH_FAILED, None, None);
                        }
                    }
                    let item_ref = self.acquire(
                        HandlePayload::ItemRef(slice_to_vec(service), slice_to_vec(account)),
                    );
                    let secret_copy = slice_to_vec(self.items[i].secret.as_slice());
                    let data = self.acquire(HandlePayload::Blob(secret_copy));
                    (ERR_SEC_SUCCESS, Some(data), Some(item_ref))
                }
            },
        }
    }

    /// The classic delete primitive: remove the item a search-result
    /// handle refers to.  The handle itself stays outstanding until
    /// released.
    pub fn item_delete(&mut self, item_ref: u64) -> (st: i32)
        requires
            old(self).inv(),
            old(self).live@.len() > 0,
            old(self).live@.last().id == item_ref,
            old(self).live@.last().payload is ItemRef,
        ensures
            final(self).inv(),
            final(self).live == old(self).live,
            final(self).next_handle == old(self).next_handle,
            final(self).challenges == old(self).challenges,
            final(self).same_config(*old(self)),
            ({
                let payload = old(self).live@.last().payload;
                payload matches HandlePayload::ItemRef(s, a) ==> {
                    &&& final(self).contents() =~= remove_first_match(old(self).contents(), s@, a@)
                    &&& st == (if first_match(old(self).contents(), s@, a@) is Some {
                        ERR_SEC_SUCCESS
                    } else {
                        ERR_SEC_ITEM_NOT_FOUND
                    })
                }
            }),
    {
        let idx = self.live.len() - 1;
        let (service, account): (Vec<u8>, Vec<u8>) = match &self.live[idx].payload {
            HandlePayload::ItemRef(s, a) => (slice_to_vec(s.as_slice()), slice_to_vec(a.as_slice())),
            _ => vstd::pervasive::unreached(),
        };
        let found = self.find_index(service.as_slice(), account.as_slice());
        match found {
            Option::Some(i) => {
                proof {
                    lemma_first_match_at(self.contents(), service@, account@, i as int);
                    lemma_wf_remove(self.contents(), service@, account@);
                    lemma_item_views_remove(self.items@, i as int);
                }
                self.items.remove(i);
                ERR_SEC_SUCCESS
            },
            Option::None => {
                proof {
                    lemma_matchless_count_zero(self.contents(), service@, account@);
                    lemma_no_match(self.contents(), service@, account@);
                }
                ERR_SEC_ITEM_NOT_FOUND
            },
        }
    }

    /// The classic add primitive: file a new item with no attached
    /// policy.  Refuses a duplicate, or the next add after an injected
    /// failure, with the duplicate-item status; never challenges.
    pub fn add_generic(&mut self, service: &[u8], account: &[u8], secret: &[u8]) -> (st: i32)
        requires
            old(self).inv(),
        ensures
            final(self).inv(),
            final(self).live == old(self).live,
            final(self).next_handle == old(self).next_handle,
            final(self).challenges == old(self).challenges,
            final(self).grant_presence == old(self).grant_presence,
            final(self).fail_next_access_control == old(self).fail_next_access_control,
            !final(self).fail_next_add,
            old(self).fail_next_add ==> {
                &&& st == ERR_SEC_DUPLICATE_ITEM
                &&& final(self).items == old(self).items
            },
            !old(self).fail_next_add && first_match(old(self).contents(), service@, account@)
                is Some ==> {
                &&& st == ERR_SEC_DUPLICATE_ITEM
                &&& final(self).items == old(self).items
            },
            !old(self).fail_next_add && first_match(old(self).contents(), service@, account@)
                is None ==> {
                &&& st == ERR_SEC_SUCCESS
                &&& final(self).contents() =~= old(self).contents().push(
                    ItemModel {
                        service: service@,
                        account: account@,
                        secret: secret@,
                        require_presence: false,
                    },
                )
            },
    {
        if self.fail_next_add {
            self.fail_next_add = false;
            return ERR_SEC_DUPLICATE_ITEM;
        }
        let found = self.find_index(service, account);
        match found {
            Option::Some(i) => {
                proof {
                    lemma_first_match_at(self.contents(), service@, account@, i as int);
                }
                ERR_SEC_DUPLICATE_ITEM
            },
            Option::None => {
                proof {
                    lemma_matchless_count_zero(self.contents(), service@, account@);
                    lemma_no_match(self.contents(), service@, account@);
                    lemma_wf_push(
                        self.contents(),
                        ItemModel {
                            service: service@,
                            account: account@,
                            secret: secret@,
                            require_presence: false,
                        },
                    );
                }
                let it = SimItem {
                    service: slice_to_vec(service),
                    account: slice_to_vec(account),
                    secret: slice_to_vec(secret),
                    require_presence: false,
                };
                self.items.push(it);
                proof {
                    lemma_item_views_push(old(self).items@, self.items@.last());
                    assert(self.items@ == old(self).items@.push(self.items@.last()));
                }
                ERR_SEC_SUCCESS
            },
        }
    }

    /// The modern copy-matching primitive: resolve a query to its first
    /// item.  Data is returned only when the query asks for it; reading a
    /// presence-protected item challenges the user unless the query
    /// forbids the challenge, in which case the call is refused without
    /// one.
    pub fn copy_matching(&mut self, q: &ItemQuery) -> (r: (i32, Option<u64>))
        requires
            old(self).inv(),
            old(self).next_handle < u64::MAX,
            q.return_data ==> old(self).challenges < u64::MAX,
        ensures
            final(self).inv(),
            final(self).items == old(self).items,
            final(self).same_config(*old(self)),
            first_match(old(self).contents(), q.service@, q.account@) is None ==> {
                &&& r == (ERR_SEC_ITEM_NOT_FOUND, Option::<u64>::None)
                &&& final(self).live == old(self).live
                &&& final(self).next_handle == old(self).next_handle
                &&& final(self).challenges == old(self).challenges
            },
            ({
                let found = first_match(old(self).contents(), q.service@, q.account@);
                found matches Some(it) ==> {
                    &&& (!q.return_data ==> {
                        &&& r == (ERR_SEC_SUCCESS, Option::<u64>::None)
                        &&& final(self).live == old(self).live
                        &&& final(self).next_handle == old(self).next_handle
                        &&& final(self).challenges == old(self).challenges
                    })
                    &&& (q.return_data && it.require_presence && q.skip_ui ==> {
                        &&& r == (ERR_SEC_INTERACTION_NOT_ALLOWED, Option::<u64>::None)
                        &&& final(self).live == old(self).live
                        &&& final(self).next_handle == old(self).next_handle
                        &&& final(self).challenges == old(self).challenges
                    })
                    &&& (q.return_data && it.require_presence && !q.skip_ui && !old(self).grant_presence ==> {
                        &&& r == (ERR_SEC_AUTH_FAILED, Option::<u64>::None)
                        &&& final(self).live == old(self).live
                        &&& final(self).next_handle == old(self).next_handle
                        &&& final(self).challenges == old(self).challenges + 1
                    })
                    &&& (q.return_data && (!it.require_presence || (!q.skip_ui && old(self).grant_presence)) ==> {
                        &&& r.0 == ERR_SEC_SUCCESS
                        &&& r.1 == Some(old(self).next_handle)
                        &&& final(self).live@.len() == old(self).live@.len() + 1
                        &&& (forall|k: int|
                            0 <= k < old(self).live@.len() ==> final(self).live@[k] == old(self).live@[k])
                        &&& final(self).live@.last().id == old(self).next_handle
                        &&& (final(self).live@.last().payload matches HandlePayload::Blob(b) && b@
                            == it.secret)
                        &&& final(self).live_ids() =~= old(self).live_ids().push(
                            old(self).next_handle,
                        )
                        &&& final(self).next_handle == old(self).next_handle + 1
                        &&& final(self).challenges == old(self).challenges + (
                        if it.require_presence {
                            1int
                        } else {
                            0int
                        })
                    })
                }
            }),
    {
        let found = self.find_index(q.service.as_slice(), q.account.as_slice());
        match found {
            Option::None => {
                proof {
                    lemma_matchless_count_zero(self.contents(), q.service@, q.account@);
                    lemma_no_match(self.contents(), q.service@, q.account@);
                }
                (ERR_SEC_ITEM_NOT_FOUND, None)
            },
            Option::Some(i) => {
                proof {
                    lemma_first_match_at(self.contents(), q.service@, q.account@, i as int);
                }
                if !q.return_data {
                    (ERR_SEC_SUCCESS, None)
                } else {
                    let require_presence = self.items[i].require_presence;
                    if require_presence && q.skip_ui {
                        return (ERR_SEC_INTERACTION_NOT_ALLOWED, None);
                    }
                    if require_presence {
                        self.challenges = self.challenges + 1;
                        if !self.grant_presence {
                            return (ERR_SEC_AUTH_FAILED, None);
                        }
                    }
                    let secret_copy = slice_to_vec(self.items[i].secret.as_slice());
                    let data = self.acquire(HandlePayload::Blob(secret_copy));
                    (ERR_SEC_SUCCESS, Some(data))
                }
            },
        }
    }

    /// The modern delete primitive: remove the first item a query's key
    /// resolves to.  Never challenges; reports whether anything was
    /// there.
    pub fn delete_matching(&mut self, q: &ItemQuery) -> (st: i32)
        requires
            old(self).inv(),
        ensures
            final(self).inv(),
            final(self).live == old(self).live,
            final(self).next_handle == old(self).next_handle,
            final(self).challenges == old(self).challenges,
            final(self).same_config(*old(self)),
            final(self).contents() =~= remove_first_match(old(self).contents(), q.service@, q.account@),
            st == (if first_match(old(self).contents(), q.service@, q.account@) is Some {
                ERR_SEC_SUCCESS
            } else {
                ERR_SEC_ITEM_NOT_FOUND
            }),
    {
        let found = self.find_index(q.service.as_slice(), q.account.as_slice());
        match found {
            Option::Some(i) => {
                proof {
                    lemma_first_match_at(self.contents(), q.service@, q.account@, i as int);
                    lemma_wf_remove(self.contents(), q.service@, q.account@);
                    lemma_item_views_remove(self.items@, i as int);
                }
                self.items.remove(i);
                ERR_SEC_SUCCESS
            },
            Option::None => {
                proof {
                    lemma_matchless_count_zero(self.contents(), q.service@, q.account@);
                    lemma_no_match(self.contents(), q.service@, q.account@);
                }
                ERR_SEC_ITEM_NOT_FOUND
            },
        }
    }

    /// The modern add primitive: file the item a write request describes,
    /// with its policy.  Refuses a duplicate or an injected failure with
    /// the duplicate-item status.  A request that demands presence and
    /// does not forbid the challenge would challenge the user on write;
    /// the backends never send one.
    pub fn add_item(&mut self, req: &WriteRequest) -> (st: i32)
        requires
            old(self).inv(),
            !req.skip_ui && req.require_presence ==> old(self).challenges < u64::MAX,
        ensures
            final(self).inv(),
            final(self).live == old(self).live,
            final(self).next_handle == old(self).next_handle,
            final(self).grant_presence == old(self).grant_presence,
            final(self).fail_next_access_control == old(self).fail_next_access_control,
            !final(self).fail_next_add,
            req.skip_ui ==> final(self).challenges == old(self).challenges,
            old(self).fail_next_add ==> {
                &&& st == ERR_SEC_DUPLICATE_ITEM
                &&& final(self).items == old(self).items
                &&& final(self).challenges == old(self).challenges
            },
            !old(self).fail_next_add && first_match(old(self).contents(), req.service@,
                req.account@) is Some ==> {
                &&& st == ERR_SEC_DUPLICATE_ITEM
                &&& final(self).items == old(self).items
                &&& final(self).challenges == old(self).challenges
            },
            !old(self).fail_next_add && first_match(old(self).contents(), req.service@,
                req.account@) is None ==> {
                &&& (req.skip_ui || !req.require_presence || old(self).grant_presence) ==> {
                    &&& st == ERR_SEC_SUCCESS
                    &&& final(self).contents() =~= old(self).contents().push(write_model(*req))
                }
                &&& (!req.skip_ui && req.require_presence && !old(self).grant_presence) ==> {
                    &&& st == ERR_SEC_AUTH_FAILED
                    &&& final(self).items == old(self).items
                }
                &&& final(self).challenges == old(self).challenges + (
                if !req.skip_ui && req.require_presence {
                    1int
                } else {
                    0int
                })
            },
    {
        if self.fail_next_add {
            self.fail_next_add = false;
            return ERR_SEC_DUPLICATE_ITEM;
        }
        let found = self.find_index(req.service.as_slice(), req.account.as_slice());
        match found {
            Option::Some(i) => {
                proof {
                    lemma_first_match_at(self.contents(), req.service@, req.account@, i as int);
                }
                ERR_SEC_DUPLICATE_ITEM
            },
            Option::None => {
                proof {
                    lemma_matchless_count_zero(self.contents(), req.service@, req.account@);
                    lemma_no_match(self.contents(), req.service@, req.account@);
                }
                if !req.skip_ui && req.require_presence {
                    self.challenges = self.challenges + 1;
                    if !self.grant_presence {
                        return ERR_SEC_AUTH_FAILED;
                    }
                }
                proof {
                    lemma_wf_push(self.contents(), write_model(*req));
                }
                let it = SimItem {
                    service: slice_to_vec(req.service.as_slice()),
                    account: slice_to_vec(req.account.as_slice()),
                    secret: slice_to_vec(req.secret.as_slice()),
                    require_presence: req.require_presence,
                };
                self.items.push(it);
                proof {
                    lemma_item_views_push(old(self).items@, self.items@.last());
                    assert(self.items@ == old(self).items@.push(self.items@.last()));
                }
                ERR_SEC_SUCCESS
            },
        }
    }

    /// How many native handles are outstanding: the leak checker's view.
    pub fn live_handle_count(&self) -> (n: usize)
        ensures
            n == self.live@.len(),
    {
        self.live.len()
    }

    /// How many interactive challenges have been issued so far.
    pub fn challenge_count(&self) -> (n: u64)
        ensures
            n == self.challenges,
    {
        self.challenges
    }

    /// How many items are stored.
    pub fn item_count(&self) -> (n: usize)
        ensures
            n == self.contents().len(),
    {
        self.items.len()
    }
}

} // verus!
