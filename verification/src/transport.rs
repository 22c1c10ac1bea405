//! What a transfer can end in, and how the faults that the transport
//! reports become outcomes.
//!
//! The transfer itself, a clone or a fetch, is made by the caller, who
//! reports how it ended.

use vstd::prelude::*;
use vstd::string::StringExecFns;
use crate::error::{message_of, ErrorKind, SyncError, SyncErrorView};
use crate::text::{debug_text, quoted};

verus! {

/// What the transport says about why a request failed, as far as the
/// rules here read it.
#[derive(Clone, Copy, Debug, PartialEq, Eq, Structural)]
pub enum FaultCode {
    /// The remote refused the credential.
    Auth,
    /// What was asked for does not exist.
    NotFound,
    /// Any other code.
    Other,
}

/// The part of the system a fault arose in, as far as the rules here
/// read it.
#[derive(Clone, Copy, Debug, PartialEq, Eq, Structural)]
pub enum FaultClass {
    /// The operating system.
    Os,
    /// The local filesystem.
    Filesystem,
    /// Any other part: the network, the protocol, the repository.
    Other,
}

/// A fault reported by the transport, with its own description.
#[derive(Clone, Debug, PartialEq, Eq)]
pub struct TransportFault {
    pub code: FaultCode,
    pub class: FaultClass,
    pub message: String,
}

/// The mathematical content of a [`TransportFault`].
pub struct TransportFaultView {
    pub code: FaultCode,
    pub class: FaultClass,
    pub message: Seq<char>,
}

impl View for TransportFault {
    type V = TransportFaultView;

    open spec fn view(&self) -> TransportFaultView {
        TransportFaultView { code: self.code, class: self.class, message: self.message@ }
    }
}

/// The part of an update that failed.
#[derive(Clone, Copy, Debug, PartialEq, Eq, Structural)]
pub enum FetchStage {
    /// Opening the working copy.
    Open,
    /// Looking up the remote.
    FindRemote,
    /// Fetching from the remote.
    Fetch,
}

/// A failed update: the part that failed and the fault reported for it.
#[derive(Clone, Debug, PartialEq, Eq)]
pub struct FetchFailure {
    pub stage: FetchStage,
    pub fault: TransportFault,
}

/// The mathematical content of a [`FetchFailure`].
pub struct FetchFailureView {
    pub stage: FetchStage,
    pub fault: TransportFaultView,
}

impl View for FetchFailure {
    type V = FetchFailureView;

    open spec fn view(&self) -> FetchFailureView {
        FetchFailureView { stage: self.stage, fault: self.fault@ }
    }
}

/// How a synchronisation ended once a transfer was attempted.
#[derive(Clone, Debug, PartialEq, Eq)]
pub enum SyncOutcome {
    /// A new working copy was cloned to the path.
    ClonedNew(String),
    /// The working copy at the path was updated from its remote.
    UpdatedExisting(String),
    /// The transfer failed.
    Failed(SyncError),
}

/// The mathematical content of a [`SyncOutcome`].
pub enum SyncOutcomeView {
    ClonedNew(Seq<char>),
    UpdatedExisting(Seq<char>),
    Failed(SyncErrorView),
}

impl View for SyncOutcome {
    type V = SyncOutcomeView;

    open spec fn view(&self) -> SyncOutcomeView {
        match self {
            SyncOutcome::ClonedNew(path) => SyncOutcomeView::ClonedNew(path@),
            SyncOutcome::UpdatedExisting(path) => SyncOutcomeView::UpdatedExisting(path@),
            SyncOutcome::Failed(e) => SyncOutcomeView::Failed(e@),
        }
    }
}

/// Whether a fault arose on this machine rather than in the transfer.
pub open spec fn is_local(class: FaultClass) -> bool {
    class == FaultClass::Os || class == FaultClass::Filesystem
}

/// The signal for a failed clone. A refused credential is a clone error
/// marked as rejected, whatever part it arose in; any other fault of this
/// machine is an I/O failure; the rest are clone errors.
pub open spec fn clone_signal(code: FaultCode, class: FaultClass) -> ErrorKind {
    if code == FaultCode::Auth {
        ErrorKind::CloneError { rejected: true }
    } else if is_local(class) {
        ErrorKind::IOFailure
    } else {
        ErrorKind::CloneError { rejected: false }
    }
}

/// The signal for a failed update. A working copy that cannot be opened
/// is an I/O failure; a remote that does not exist is a missing origin;
/// every other fault is a fetch error, marked as rejected where the
/// remote refused the credential.
pub open spec fn fetch_signal(stage: FetchStage, code: FaultCode) -> ErrorKind {
    if stage == FetchStage::Open {
        ErrorKind::IOFailure
    } else if stage == FetchStage::FindRemote && code == FaultCode::NotFound {
        ErrorKind::NoOriginRemote
    } else {
        ErrorKind::FetchError { rejected: code == FaultCode::Auth }
    }
}

/// The outcome of a clone into `target` that ended in `result`.
pub open spec fn clone_outcome(
    target: Seq<char>,
    result: Result<(), TransportFaultView>,
) -> SyncOutcomeView {
    match result {
        Ok(_) => SyncOutcomeView::ClonedNew(target),
        Err(fault) => SyncOutcomeView::Failed(
            SyncErrorView { kind: clone_signal(fault.code, fault.class), detail: fault.message },
        ),
    }
}

/// The outcome of an update of the working copy at `target` that ended
/// in `result`.
pub open spec fn fetch_outcome(
    target: Seq<char>,
    result: Result<(), FetchFailureView>,
) -> SyncOutcomeView {
    match result {
        Ok(_) => SyncOutcomeView::UpdatedExisting(target),
        Err(failure) => SyncOutcomeView::Failed(
            SyncErrorView {
                kind: fetch_signal(failure.stage, failure.fault.code),
                detail: failure.fault.message,
            },
        ),
    }
}

/// The views of the two forms a clone result takes.
pub open spec fn clone_result_view(result: Result<(), TransportFault>) -> Result<
    (),
    TransportFaultView,
> {
    match result {
        Ok(_) => Ok(()),
        Err(fault) => Err(fault@),
    }
}

/// The views of the two forms a fetch result takes.
pub open spec fn fetch_result_view(result: Result<(), FetchFailure>) -> Result<
    (),
    FetchFailureView,
> {
    match result {
        Ok(_) => Ok(()),
        Err(failure) => Err(failure@),
    }
}

/// The path that an outcome speaks of; empty for a failure.
pub open spec fn path_of(outcome: SyncOutcomeView) -> Seq<char> {
    match outcome {
        SyncOutcomeView::ClonedNew(path) => path,
        SyncOutcomeView::UpdatedExisting(path) => path,
        SyncOutcomeView::Failed(_) => Seq::<char>::empty(),
    }
}

/// The description of an outcome, given its path as it is to be shown:
/// what was done and where, or the message of the failure.
pub open spec fn description_with(outcome: SyncOutcomeView, shown_path: Seq<char>) -> Seq<char> {
    match outcome {
        SyncOutcomeView::ClonedNew(_) => "Cloned new repo at "@ + shown_path,
        SyncOutcomeView::UpdatedExisting(_) => "Pulled existing repo at "@ + shown_path,
        SyncOutcomeView::Failed(e) => message_of(e.kind, e.detail),
    }
}

/// The description of an outcome: its path is shown between double
/// quotes with what needs it escaped, as [`debug_text`] writes it.
pub open spec fn description_of(outcome: SyncOutcomeView) -> Seq<char> {
    description_with(outcome, debug_text(path_of(outcome)))
}

/// Turns how a clone into `target` ended into the outcome of the
/// synchronisation.
pub fn conclude_clone(target: String, result: Result<(), TransportFault>) -> (outcome:
    SyncOutcome)
    ensures
        outcome@ == clone_outcome(target@, clone_result_view(result)),
{
    match result {
        Ok(_) => SyncOutcome::ClonedNew(target),
        Err(fault) => {
            let kind = match fault.code {
                FaultCode::Auth => ErrorKind::CloneError { rejected: true },
                _ => match fault.class {
                    FaultClass::Os | FaultClass::Filesystem => ErrorKind::IOFailure,
                    FaultClass::Other => ErrorKind::CloneError { rejected: false },
                },
            };
            SyncOutcome::Failed(SyncError::new(kind, fault.message))
        },
    }
}

/// Turns how an update of the working copy at `target` ended into the
/// outcome of the synchronisation.
pub fn conclude_fetch(target: String, result: Result<(), FetchFailure>) -> (outcome:
    SyncOutcome)
    ensures
        outcome@ == fetch_outcome(target@, fetch_result_view(result)),
{
    match result {
        Ok(_) => SyncOutcome::UpdatedExisting(target),
        Err(failure) => {
            let rejected = match failure.fault.code {
                FaultCode::Auth => true,
                _ => false,
            };
            let kind = match failure.stage {
                FetchStage::Open => ErrorKind::IOFailure,
                FetchStage::FindRemote => match failure.fault.code {
                    FaultCode::NotFound => ErrorKind::NoOriginRemote,
                    _ => ErrorKind::FetchError { rejected },
                },
                FetchStage::Fetch => ErrorKind::FetchError { rejected },
            };
            SyncOutcome::Failed(SyncError::new(kind, failure.fault.message))
        },
    }
}

impl SyncOutcome {
    /// An independent copy with the same content.
    pub fn duplicate(&self) -> (copy: SyncOutcome)
        ensures
            copy@ == self@,
    {
        match self {
            SyncOutcome::ClonedNew(path) => SyncOutcome::ClonedNew(path.clone()),
            SyncOutcome::UpdatedExisting(path) => SyncOutcome::UpdatedExisting(path.clone()),
            SyncOutcome::Failed(e) => SyncOutcome::Failed(e.duplicate()),
        }
    }

    /// The path that this outcome speaks of; empty for a failure.
    pub fn path(&self) -> (path: &str)
        ensures
            path@ == path_of(self@),
    {
        match self {
            SyncOutcome::ClonedNew(path) => path.as_str(),
            SyncOutcome::UpdatedExisting(path) => path.as_str(),
            SyncOutcome::Failed(_) => {
                proof {
                    reveal_strlit("");
                }
                ""
            },
        }
    }

    /// The description of this outcome, with `shown_path` standing for
    /// its path.
    pub fn describe_with(&self, shown_path: &str) -> (text: String)
        ensures
            text@ == description_with(self@, shown_path@),
    {
        match self {
            SyncOutcome::ClonedNew(_) => {
                let mut text = String::from_str("Cloned new repo at ");
                text.append(shown_path);
                text
            },
            SyncOutcome::UpdatedExisting(_) => {
                let mut text = String::from_str("Pulled existing repo at ");
                text.append(shown_path);
                text
            },
            SyncOutcome::Failed(e) => e.message(),
        }
    }

    /// The description of this outcome for a user.
    pub fn describe(&self) -> (text: String)
        ensures
            text@ == description_of(self@),
    {
        let shown = quoted(self.path());
        self.describe_with(shown.as_str())
    }
}

} // verus!
