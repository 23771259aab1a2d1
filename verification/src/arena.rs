//! The arena that owns every native handle an operation acquires.
//!
//! Each store operation builds a small graph of native objects — strings,
//! buffers, query dictionaries, access-control descriptions, search
//! results — and every one of them must be released exactly once on every
//! exit path, success or failure.  Instead of letting each call site track
//! its own release obligations, an operation adopts each handle into one
//! arena as it is acquired and drains the arena once at the end, releasing
//! newest-first as a scope guard would.

use vstd::prelude::*;
use crate::sim::SimKeychain;

verus! {

/// Owns the handles one operation has acquired, oldest first.
pub struct NativeHandleArena {
    pub handles: Vec<u64>,
}

impl NativeHandleArena {
    /// An arena owning nothing.
    pub fn new() -> (a: NativeHandleArena)
        ensures
            a.handles@ =~= Seq::<u64>::empty(),
    {
        NativeHandleArena { handles: Vec::new() }
    }

    /// Take ownership of a freshly acquired handle.
    pub fn adopt(&mut self, h: u64)
        ensures
            final(self).handles@ =~= old(self).handles@.push(h),
    {
        self.handles.push(h);
    }

    /// Release every owned handle, newest first.  The arena must own
    /// exactly the outstanding handles of the facility — the case for an
    /// operation that adopted each handle it acquired — and afterwards
    /// nothing is outstanding: the items, the challenge count and the
    /// configuration are untouched, and no handle leaks.
    pub fn release_all(&mut self, kc: &mut SimKeychain)
        requires
            old(kc).inv(),
            old(self).handles@ == old(kc).live_ids(),
        ensures
            final(kc).inv(),
            final(self).handles@.len() == 0,
            final(kc).live@.len() == 0,
            final(kc).next_handle == 0,
            final(kc).items == old(kc).items,
            final(kc).challenges == old(kc).challenges,
            final(kc).same_config(*old(kc)),
    {
        while self.handles.len() > 0
            invariant
                kc.inv(),
                self.handles@ == kc.live_ids(),
                kc.items == old(kc).items,
                kc.challenges == old(kc).challenges,
                kc.same_config(*old(kc)),
            decreases self.handles@.len(),
        {
            let h_opt = self.handles.pop();
            let h = match h_opt {
                Option::Some(h) => h,
                Option::None => vstd::pervasive::unreached(),
            };
            proof {
                assert(kc.live@.len() == kc.live_ids().len());
                assert(kc.live_ids().last() == kc.live@.last().id);
            }
            kc.release(h);
        }
        proof {
            assert(kc.live_ids().len() == 0);
            assert(kc.live@.len() == 0);
        }
    }
}

} // verus!
