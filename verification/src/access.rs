//! The access policy attached to a stored secret, encoded as data.
//!
//! The policy-carrying backend hands the native facility an access-control
//! object built from these flags at write time; the policy is immutable
//! once the item exists, so changing it means delete and re-add.

use vstd::prelude::*;

verus! {

/// Which enrolled biometrics may satisfy the challenge.
#[derive(Debug, Clone, Copy, PartialEq, Eq, Structural)]
pub enum BiometryClass {
    /// Any enrolled biometric, surviving re-enrollment.
    Any,
    /// Only the set enrolled when the item was stored.
    CurrentEnrollmentOnly,
}

/// When the stored item is accessible at all.
#[derive(Debug, Clone, Copy, PartialEq, Eq, Structural)]
pub enum Accessibility {
    /// Only while the device is unlocked, on this device only.
    DeviceUnlocked,
    /// Only while a passcode is set, on this device only.
    PasscodeSet,
}

/// How a stored secret may later be read.
#[derive(Debug, Clone, Copy, PartialEq, Eq, Structural)]
pub struct AccessPolicy {
    /// Reading back demands an interactive proof of presence.
    pub require_user_presence: bool,
    pub biometry: BiometryClass,
    pub accessible: Accessibility,
}

/// Bit 0 of the native access-control flags: demand user presence.
pub const FLAG_USER_PRESENCE: u64 = 1;

/// Bit 1: any enrolled biometric satisfies the challenge.
pub const FLAG_BIOMETRY_ANY: u64 = 2;

/// Bit 3: only the currently enrolled biometric set satisfies it.
pub const FLAG_BIOMETRY_CURRENT_SET: u64 = 8;

/// The native flag word a policy encodes to.  The presence bit and the two
/// biometry bits are disjoint, so the word is their sum.
pub open spec fn spec_access_flags(p: AccessPolicy) -> u64 {
    ((match p.biometry {
        BiometryClass::Any => FLAG_BIOMETRY_ANY,
        BiometryClass::CurrentEnrollmentOnly => FLAG_BIOMETRY_CURRENT_SET,
    }) + (if p.require_user_presence {
        FLAG_USER_PRESENCE
    } else {
        0
    })) as u64
}

/// Encode a policy into the native access-control flag word.
pub fn access_control_flags(p: &AccessPolicy) -> (f: u64)
    ensures
        f == spec_access_flags(*p),
{
    let biometry_bits: u64 = match p.biometry {
        BiometryClass::Any => FLAG_BIOMETRY_ANY,
        BiometryClass::CurrentEnrollmentOnly => FLAG_BIOMETRY_CURRENT_SET,
    };
    if p.require_user_presence {
        biometry_bits + FLAG_USER_PRESENCE
    } else {
        biometry_bits
    }
}

/// The policy this application attaches to a vault secret: presence
/// required, any enrolled biometric accepted, readable only while the
/// device is unlocked.
pub fn biometric_unlock_policy() -> (p: AccessPolicy)
    ensures
        p.require_user_presence,
        p.biometry == BiometryClass::Any,
        p.accessible == Accessibility::DeviceUnlocked,
{
    AccessPolicy {
        require_user_presence: true,
        biometry: BiometryClass::Any,
        accessible: Accessibility::DeviceUnlocked,
    }
}

} // verus!
