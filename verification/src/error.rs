//! Failure signals, the categories they fall into, and the error value that
//! carries a signal together with the text of its underlying cause.

use vstd::prelude::*;
use vstd::string::StringExecFns;

verus! {

/// The failure signals an operation can report.
#[derive(Clone, Copy, Debug, PartialEq, Eq, Structural)]
pub enum ErrorKind {
    /// The credential vault could not be opened or reached.
    StoreUnavailable,
    /// The vault was reached but refused or failed to write the secret.
    StoreWriteFailed,
    /// No secret is stored under the identity.
    NotFound,
    /// The per-user data directory could not be determined.
    DirectoryUnavailable,
    /// A filesystem operation failed.
    IOFailure,
    /// No directory name can be derived from the repository URL.
    InvalidUrl,
    /// The secret needed for the transfer could not be resolved.
    AuthResolutionFailed,
    /// Cloning failed; `rejected` tells whether the remote refused the
    /// credential.
    CloneError { rejected: bool },
    /// Fetching failed; `rejected` tells whether the remote refused the
    /// credential.
    FetchError { rejected: bool },
    /// The working copy has no remote of the expected name.
    NoOriginRemote,
}

/// The broad classes of failure a caller reacts to.
#[derive(Clone, Copy, Debug, PartialEq, Eq, Structural)]
pub enum ErrorCategory {
    /// The input was malformed; nothing was attempted.
    InputError,
    /// A resource the operation depends on could not be reached.
    ResourceUnavailable,
    /// The filesystem reported a failure.
    IOFailure,
    /// A credential is missing or was refused: the caller should ask for
    /// it again.
    AuthFailure,
    /// The transfer failed for a reason other than the credential.
    TransportFailure,
}

/// The category each failure signal belongs to.
pub open spec fn category_of(kind: ErrorKind) -> ErrorCategory {
    match kind {
        ErrorKind::InvalidUrl => ErrorCategory::InputError,
        ErrorKind::StoreUnavailable => ErrorCategory::ResourceUnavailable,
        ErrorKind::StoreWriteFailed => ErrorCategory::ResourceUnavailable,
        ErrorKind::DirectoryUnavailable => ErrorCategory::ResourceUnavailable,
        ErrorKind::IOFailure => ErrorCategory::IOFailure,
        ErrorKind::NotFound => ErrorCategory::AuthFailure,
        ErrorKind::AuthResolutionFailed => ErrorCategory::AuthFailure,
        ErrorKind::CloneError { rejected } => if rejected {
            ErrorCategory::AuthFailure
        } else {
            ErrorCategory::TransportFailure
        },
        ErrorKind::FetchError { rejected } => if rejected {
            ErrorCategory::AuthFailure
        } else {
            ErrorCategory::TransportFailure
        },
        ErrorKind::NoOriginRemote => ErrorCategory::TransportFailure,
    }
}

/// The fixed words that name a failure signal in a rendered message.
pub open spec fn label_of(kind: ErrorKind) -> Seq<char> {
    match kind {
        ErrorKind::StoreUnavailable => "credential store unavailable"@,
        ErrorKind::StoreWriteFailed => "credential could not be stored"@,
        ErrorKind::NotFound => "no credential stored for this user"@,
        ErrorKind::DirectoryUnavailable => "data directory could not be determined"@,
        ErrorKind::IOFailure => "filesystem operation failed"@,
        ErrorKind::InvalidUrl => "repository URL is invalid"@,
        ErrorKind::AuthResolutionFailed => "credential could not be resolved"@,
        ErrorKind::CloneError { rejected } => if rejected {
            "clone rejected by remote"@
        } else {
            "clone failed"@
        },
        ErrorKind::FetchError { rejected } => if rejected {
            "fetch rejected by remote"@
        } else {
            "fetch failed"@
        },
        ErrorKind::NoOriginRemote => "remote 'origin' not found"@,
    }
}

/// What separates the label from the cause in a rendered message.
pub open spec fn cause_separator() -> Seq<char> {
    ": "@
}

/// The rendered message: the label alone when there is no cause text,
/// otherwise the label, a separator and the cause.
pub open spec fn message_of(kind: ErrorKind, detail: Seq<char>) -> Seq<char> {
    if detail.len() == 0 {
        label_of(kind)
    } else {
        label_of(kind) + cause_separator() + detail
    }
}

impl ErrorKind {
    /// The category this signal belongs to.
    pub fn category(self) -> (c: ErrorCategory)
        ensures
            c == category_of(self),
    {
        match self {
            ErrorKind::InvalidUrl => ErrorCategory::InputError,
            ErrorKind::StoreUnavailable
            | ErrorKind::StoreWriteFailed
            | ErrorKind::DirectoryUnavailable => ErrorCategory::ResourceUnavailable,
            ErrorKind::IOFailure => ErrorCategory::IOFailure,
            ErrorKind::NotFound | ErrorKind::AuthResolutionFailed => ErrorCategory::AuthFailure,
            ErrorKind::CloneError { rejected } | ErrorKind::FetchError { rejected } => {
                if rejected {
                    ErrorCategory::AuthFailure
                } else {
                    ErrorCategory::TransportFailure
                }
            },
            ErrorKind::NoOriginRemote => ErrorCategory::TransportFailure,
        }
    }

    /// The fixed words that name this signal.
    pub fn label(self) -> (s: &'static str)
        ensures
            s@ == label_of(self),
    {
        match self {
            ErrorKind::StoreUnavailable => "credential store unavailable",
            ErrorKind::StoreWriteFailed => "credential could not be stored",
            ErrorKind::NotFound => "no credential stored for this user",
            ErrorKind::DirectoryUnavailable => "data directory could not be determined",
            ErrorKind::IOFailure => "filesystem operation failed",
            ErrorKind::InvalidUrl => "repository URL is invalid",
            ErrorKind::AuthResolutionFailed => "credential could not be resolved",
            ErrorKind::CloneError { rejected } => if rejected {
                "clone rejected by remote"
            } else {
                "clone failed"
            },
            ErrorKind::FetchError { rejected } => if rejected {
                "fetch rejected by remote"
            } else {
                "fetch failed"
            },
            ErrorKind::NoOriginRemote => "remote 'origin' not found",
        }
    }
}

/// A failure: its signal and the text of the underlying cause, which is
/// empty where there is none.
#[derive(Clone, Debug, PartialEq, Eq)]
pub struct SyncError {
    pub kind: ErrorKind,
    pub detail: String,
}

/// The mathematical content of a [`SyncError`].
pub struct SyncErrorView {
    pub kind: ErrorKind,
    pub detail: Seq<char>,
}

impl View for SyncError {
    type V = SyncErrorView;

    open spec fn view(&self) -> SyncErrorView {
        SyncErrorView { kind: self.kind, detail: self.detail@ }
    }
}

impl SyncError {
    /// A failure of the given kind caused by `detail`.
    pub fn new(kind: ErrorKind, detail: String) -> (e: SyncError)
        ensures
            e@ == (SyncErrorView { kind, detail: detail@ }),
    {
        SyncError { kind, detail }
    }

    /// A failure of the given kind with no underlying cause.
    pub fn bare(kind: ErrorKind) -> (e: SyncError)
        ensures
            e@ == (SyncErrorView { kind, detail: Seq::<char>::empty() }),
    {
        SyncError { kind, detail: String::new() }
    }

    /// The category of this failure.
    pub fn category(&self) -> (c: ErrorCategory)
        ensures
            c == category_of(self@.kind),
    {
        self.kind.category()
    }

    /// An independent copy with the same content.
    pub fn duplicate(&self) -> (e: SyncError)
        ensures
            e@ == self@,
    {
        SyncError { kind: self.kind, detail: self.detail.clone() }
    }

    /// The message shown to a user.
    pub fn message(&self) -> (m: String)
        ensures
            m@ == message_of(self@.kind, self@.detail),
    {
        let mut m = String::from_str(self.kind.label());
        if self.detail.as_str().unicode_len() > 0 {
            m.append(": ");
            m.append(self.detail.as_str());
        }
        m
    }
}

} // verus!
