//! What passes between the synchronisation engine and its caller: the
//! actions the engine asks for and the events the caller reports back.

use vstd::prelude::*;
use crate::error::{SyncError, SyncErrorView};
use crate::path::EntryKind;
use crate::text::cause_view;
use crate::transport::{
    clone_result_view, fetch_result_view, FetchFailure, FetchFailureView, SyncOutcome,
    SyncOutcomeView, TransportFault, TransportFaultView,
};
use crate::vault::{VaultFailure, VaultFailureView};

verus! {

/// A user name and the secret that goes with it, for one transfer.
#[derive(Clone, Debug, PartialEq, Eq)]
pub struct Credential {
    pub username: String,
    pub secret: String,
}

/// The mathematical content of a [`Credential`].
pub struct CredentialView {
    pub username: Seq<char>,
    pub secret: Seq<char>,
}

impl View for Credential {
    type V = CredentialView;

    open spec fn view(&self) -> CredentialView {
        CredentialView { username: self.username@, secret: self.secret@ }
    }
}

/// What the caller reports back to the engine.
#[derive(Debug, PartialEq, Eq)]
pub enum SyncEvent {
    /// The vault was asked for the secret.
    SecretResolved(Result<String, VaultFailure>),
    /// The directory was asked to exist: it does now, or the text says
    /// why it could not be made.
    DirectoryEnsured(Result<(), String>),
    /// The metadata path was looked at.
    RepositoryProbed(Result<EntryKind, String>),
    /// The clone ended.
    CloneFinished(Result<(), TransportFault>),
    /// The update ended.
    FetchFinished(Result<(), FetchFailure>),
}

/// The mathematical content of a [`SyncEvent`].
pub enum SyncEventView {
    SecretResolved(Result<Seq<char>, VaultFailureView>),
    DirectoryEnsured(Result<(), Seq<char>>),
    RepositoryProbed(Result<EntryKind, Seq<char>>),
    CloneFinished(Result<(), TransportFaultView>),
    FetchFinished(Result<(), FetchFailureView>),
}

impl View for SyncEvent {
    type V = SyncEventView;

    open spec fn view(&self) -> SyncEventView {
        match self {
            SyncEvent::SecretResolved(Ok(secret)) => SyncEventView::SecretResolved(Ok(secret@)),
            SyncEvent::SecretResolved(Err(f)) => SyncEventView::SecretResolved(Err(f@)),
            SyncEvent::DirectoryEnsured(ended) => SyncEventView::DirectoryEnsured(
                cause_view(*ended),
            ),
            SyncEvent::RepositoryProbed(found) => SyncEventView::RepositoryProbed(
                cause_view(*found),
            ),
            SyncEvent::CloneFinished(result) => SyncEventView::CloneFinished(
                clone_result_view(*result),
            ),
            SyncEvent::FetchFinished(result) => SyncEventView::FetchFinished(
                fetch_result_view(*result),
            ),
        }
    }
}

/// What the engine asks the caller to do next.
#[derive(Debug, PartialEq, Eq)]
pub enum SyncAction {
    /// Ask the vault for the secret stored for `username` under
    /// `service`.
    LoadSecret { service: String, username: String },
    /// Make sure that the directory exists, creating it and its parents
    /// where they are missing.
    EnsureDirectory { path: String },
    /// Look at what is at the metadata path.
    ProbeRepository { metadata_path: String },
    /// Clone `url` into `target`, answering the remote with `credential`.
    Clone { url: String, target: String, credential: Credential },
    /// Open the working copy at `target` and fetch `branch` from its
    /// remote `remote`, answering the remote with `credential`. Nothing
    /// is merged into the working tree.
    Fetch { target: String, remote: String, branch: String, credential: Credential },
    /// Nothing is left to do: this is the result.
    Finish(Result<SyncOutcome, SyncError>),
}

/// The mathematical content of a [`SyncAction`].
pub enum SyncActionView {
    LoadSecret { service: Seq<char>, username: Seq<char> },
    EnsureDirectory { path: Seq<char> },
    ProbeRepository { metadata_path: Seq<char> },
    Clone { url: Seq<char>, target: Seq<char>, credential: CredentialView },
    Fetch { target: Seq<char>, remote: Seq<char>, branch: Seq<char>, credential: CredentialView },
    Finish(Result<SyncOutcomeView, SyncErrorView>),
}

/// The views of the two forms a result of a synchronisation takes.
pub open spec fn result_view(result: Result<SyncOutcome, SyncError>) -> Result<
    SyncOutcomeView,
    SyncErrorView,
> {
    match result {
        Ok(outcome) => Ok(outcome@),
        Err(e) => Err(e@),
    }
}

impl View for SyncAction {
    type V = SyncActionView;

    open spec fn view(&self) -> SyncActionView {
        match self {
            SyncAction::LoadSecret { service, username } => SyncActionView::LoadSecret {
                service: service@,
                username: username@,
            },
            SyncAction::EnsureDirectory { path } => SyncActionView::EnsureDirectory {
                path: path@,
            },
            SyncAction::ProbeRepository { metadata_path } => SyncActionView::ProbeRepository {
                metadata_path: metadata_path@,
            },
            SyncAction::Clone { url, target, credential } => SyncActionView::Clone {
                url: url@,
                target: target@,
                credential: credential@,
            },
            SyncAction::Fetch { target, remote, branch, credential } => SyncActionView::Fetch {
                target: target@,
                remote: remote@,
                branch: branch@,
                credential: credential@,
            },
            SyncAction::Finish(result) => SyncActionView::Finish(result_view(*result)),
        }
    }
}

} // verus!
