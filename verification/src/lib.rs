//! Verified core of a desktop vault's secure credential subsystem.
//!
//! A vault's unlock secret is persisted outside the application, in the
//! operating system's credential facility, keyed by a process-wide service
//! identifier and the vault's file path.  This crate verifies the logic of
//! that subsystem: the uniform store/get/delete/probe contract, the two
//! native keychain strategies (classic two-phase and policy-carrying), the
//! handle arena that releases every acquired native resource exactly once on
//! every exit path, the status-code taxonomy, and the bounded wait that
//! bridges the asynchronous biometric challenge into a synchronous result.
//!
//! The operating system's keychain itself is out of the verifier's reach, so
//! the backends here run against an in-process, resource-accounting double
//! of it whose transitions are themselves verified; the thin layer that
//! performs the real native calls lives outside this library and feeds the
//! same decision logic.

pub mod access;
pub mod arena;
pub mod biometric;
pub mod encoding;
pub mod errors;
pub mod key;
pub mod model;
pub mod native_keychain;
pub mod native_keychain_modern;
pub mod query;
pub mod secure_storage;
pub mod sim;
pub mod status;

use vstd::prelude::*;

verus! {

/// Process-wide service identifier under which every stored secret is filed.
pub const SERVICE_NAME: &'static str = "keedavault-biometric";

} // verus!
