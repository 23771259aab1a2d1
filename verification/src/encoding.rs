//! Native representability of key components and secrets.
//!
//! Every string handed to the native keychain crosses a C-string bridge, so
//! a component with an embedded NUL byte cannot be represented and must be
//! rejected cleanly, never trusted to the bridge.  Key components must also
//! be non-empty to identify an item.

use vstd::prelude::*;

verus! {

/// True when some byte of `s` is NUL, which no native C string can carry.
pub open spec fn has_nul(s: Seq<u8>) -> bool {
    exists|i: int| 0 <= i < s.len() && s[i] == 0u8
}

/// A key component is usable when it is non-empty and NUL-free.
pub open spec fn valid_component(s: Seq<u8>) -> bool {
    s.len() > 0 && !has_nul(s)
}

/// Scan for an embedded NUL byte: the check behind every conversion into
/// the platform's native string form.
pub fn is_nul_free(v: &[u8]) -> (r: bool)
    ensures
        r == !has_nul(v@),
{
    let mut i: usize = 0;
    while i < v.len()
        invariant
            0 <= i <= v@.len(),
            forall|j: int| 0 <= j < i ==> v@[j] != 0u8,
        decreases v@.len() - i,
    {
        if v[i] == 0u8 {
            return false;
        }
        i = i + 1;
    }
    true
}

/// Decide whether `v` can serve as a key component: non-empty and NUL-free.
pub fn is_valid_component(v: &[u8]) -> (r: bool)
    ensures
        r == valid_component(v@),
{
    v.len() > 0 && is_nul_free(v)
}

/// Byte-wise equality of two slices, the comparison the keychain double
/// uses to match service and account attributes.
pub fn bytes_equal(a: &[u8], b: &[u8]) -> (r: bool)
    ensures
        r == (a@ == b@),
{
    if a.len() != b.len() {
        return false;
    }
    let mut i: usize = 0;
    while i < a.len()
        invariant
            a@.len() == b@.len(),
            0 <= i <= a@.len(),
            forall|j: int| 0 <= j < i ==> a@[j] == b@[j],
        decreases a@.len() - i,
    {
        if a[i] != b[i] {
            return false;
        }
        i = i + 1;
    }
    proof {
        assert(a@ =~= b@);
    }
    true
}

} // verus!
