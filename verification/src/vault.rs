//! The adapter to the credential vault: the namespace secrets are stored
//! under, and the failure signal for each way the vault can fail.
//!
//! The vault itself is reached by the caller, who reports what it
//! answered.

use vstd::prelude::*;
use crate::error::{ErrorKind, SyncError, SyncErrorView};

verus! {

/// What the vault reported when a request failed.
#[derive(Clone, Copy, Debug, PartialEq, Eq, Structural)]
pub enum VaultFault {
    /// The platform's storage failed at run time.
    PlatformFailure,
    /// The storage could not be accessed, for instance because it is
    /// locked.
    NoStorageAccess,
    /// Nothing is stored under the identity.
    NoEntry,
    /// What is stored is not valid text.
    BadEncoding,
    /// What is stored is not in the form the store expects.
    BadDataFormat,
    /// The store itself is not in the expected form.
    BadStoreFormat,
    /// An attribute of the entry is longer than the platform allows.
    TooLong,
    /// An attribute of the entry is not acceptable.
    Invalid,
    /// More than one stored credential matches the identity.
    Ambiguous,
    /// No store has been set up to hold entries.
    NoDefaultStore,
    /// The store does not support the request.
    NotSupportedByStore,
    /// A fault this library does not know.
    Unknown,
}

/// The request to the vault that failed.
#[derive(Clone, Copy, Debug, PartialEq, Eq, Structural)]
pub enum VaultStep {
    /// Opening the entry for an identity.
    Open,
    /// Writing the secret of an entry.
    Write,
    /// Reading the secret of an entry.
    Read,
}

/// A failed request to the vault: which request, what the vault
/// reported, and the vault's own description of it.
#[derive(Clone, Debug, PartialEq, Eq)]
pub struct VaultFailure {
    pub step: VaultStep,
    pub fault: VaultFault,
    pub cause: String,
}

/// The mathematical content of a [`VaultFailure`].
pub struct VaultFailureView {
    pub step: VaultStep,
    pub fault: VaultFault,
    pub cause: Seq<char>,
}

impl View for VaultFailure {
    type V = VaultFailureView;

    open spec fn view(&self) -> VaultFailureView {
        VaultFailureView { step: self.step, fault: self.fault, cause: self.cause@ }
    }
}

/// The namespace under which this application keeps its secrets.
pub open spec fn service() -> Seq<char> {
    "Branchie"@
}

/// Whether the fault means that the vault could not be reached at all.
pub open spec fn is_unreachable(fault: VaultFault) -> bool {
    fault == VaultFault::NoStorageAccess || fault == VaultFault::NoDefaultStore
}

/// The signal for a failure to save a secret: `StoreWriteFailed` where
/// the vault was reached and the write itself failed, `StoreUnavailable`
/// otherwise.
pub open spec fn save_signal(step: VaultStep, fault: VaultFault) -> ErrorKind {
    if step == VaultStep::Write && !is_unreachable(fault) {
        ErrorKind::StoreWriteFailed
    } else {
        ErrorKind::StoreUnavailable
    }
}

/// The signal for a failure to load a secret: `NotFound` where the vault
/// answered that nothing is stored, `StoreUnavailable` otherwise.
pub open spec fn load_signal(step: VaultStep, fault: VaultFault) -> ErrorKind {
    if step == VaultStep::Read && fault == VaultFault::NoEntry {
        ErrorKind::NotFound
    } else {
        ErrorKind::StoreUnavailable
    }
}

/// The namespace under which this application keeps its secrets.
pub fn service_name() -> (s: &'static str)
    ensures
        s@ == service(),
{
    "Branchie"
}

/// Turns what the vault answered to a save into the result of saving.
///
/// Succeeds exactly when the vault did; a failure carries the signal
/// given by [`save_signal`] and the vault's description as its cause.
pub fn save_credentials(answer: Result<(), VaultFailure>) -> (r: Result<(), SyncError>)
    ensures
        match r {
            Ok(_) => answer is Ok,
            Err(e) => answer matches Err(f) && e@ == (SyncErrorView {
                kind: save_signal(f.step, f.fault),
                detail: f.cause@,
            }),
        },
{
    match answer {
        Ok(_) => Ok(()),
        Err(f) => {
            let unreachable = match f.fault {
                VaultFault::NoStorageAccess | VaultFault::NoDefaultStore => true,
                _ => false,
            };
            let kind = match f.step {
                VaultStep::Write => if unreachable {
                    ErrorKind::StoreUnavailable
                } else {
                    ErrorKind::StoreWriteFailed
                },
                _ => ErrorKind::StoreUnavailable,
            };
            Err(SyncError::new(kind, f.cause))
        },
    }
}

/// Turns what the vault answered to a load into the result of loading.
///
/// Hands the secret on unchanged where the vault returned one; a failure
/// carries the signal given by [`load_signal`] and the vault's
/// description as its cause.
pub fn get_credentials(answer: Result<String, VaultFailure>) -> (r: Result<String, SyncError>)
    ensures
        match r {
            Ok(secret) => answer matches Ok(stored) && secret@ == stored@,
            Err(e) => answer matches Err(f) && e@ == (SyncErrorView {
                kind: load_signal(f.step, f.fault),
                detail: f.cause@,
            }),
        },
{
    match answer {
        Ok(stored) => Ok(stored),
        Err(f) => {
            let kind = match (f.step, f.fault) {
                (VaultStep::Read, VaultFault::NoEntry) => ErrorKind::NotFound,
                _ => ErrorKind::StoreUnavailable,
            };
            Err(SyncError::new(kind, f.cause))
        },
    }
}

} // verus!
