//! The key under which one secret is filed.

use vstd::prelude::*;
use vstd::slice::slice_to_vec;
use vstd::string::StringSliceAdditionalSpecFns;
use crate::encoding::{is_valid_component, valid_component};
use crate::errors::StoreError;

verus! {

/// Identifies one stored secret: the process-wide service identifier and
/// the caller-supplied account, here a vault's filesystem path.  Both
/// components are held in their native byte form; a key only exists when
/// both are non-empty and representable, so every consumer may rely on
/// that.
#[derive(Debug)]
pub struct CredentialKey {
    pub service: Vec<u8>,
    pub account: Vec<u8>,
}

impl CredentialKey {
    /// Both components are non-empty and NUL-free, so the native bridge
    /// can carry them losslessly.
    pub open spec fn wf(self) -> bool {
        valid_component(self.service@) && valid_component(self.account@)
    }

    /// Build a key from its two components, refusing any pair the native
    /// string form cannot represent.
    pub fn new(service: &str, account: &str) -> (r: Result<CredentialKey, StoreError>)
        ensures
            (r is Ok) <==> (valid_component(service.spec_bytes()) && valid_component(
                account.spec_bytes(),
            )),
            r matches Ok(k) ==> k.wf() && k.service@ == service.spec_bytes() && k.account@
                == account.spec_bytes(),
            r matches Err(e) ==> e == StoreError::Encoding,
    {
        let service_bytes = service.as_bytes();
        let account_bytes = account.as_bytes();
        if is_valid_component(service_bytes) && is_valid_component(account_bytes) {
            Ok(
                CredentialKey {
                    service: slice_to_vec(service_bytes),
                    account: slice_to_vec(account_bytes),
                },
            )
        } else {
            Err(StoreError::Encoding)
        }
    }
}

} // verus!
