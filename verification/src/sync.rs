//! The synchronisation engine: given a repository URL, a base path and a
//! user, it decides, one step at a time, what has to be done to bring the
//! local clone in step with its remote.
//!
//! The engine does no work of its own. It names the next action; the
//! caller performs it and reports what happened as an event; the engine
//! then names the next action, until the action is to finish. An event
//! that does not answer the pending action changes nothing.
//!
//! Two synchronisations of one target path must not run at the same time:
//! the engine decides between clone and fetch from one look at the
//! target, and it is for the caller to keep that look valid.

use vstd::prelude::*;
use vstd::string::StringExecFns;
use crate::error::{message_of, ErrorKind, SyncError, SyncErrorView};
use crate::path::{join, joined, EntryKind};
use crate::protocol::{
    result_view, Credential, CredentialView, SyncAction, SyncActionView, SyncEvent,
    SyncEventView,
};
use crate::repository::{is_repository, metadata_location, metadata_path};
use crate::transport::{
    clone_outcome, conclude_clone, conclude_fetch, description_of, fetch_outcome, SyncOutcome,
    SyncOutcomeView,
};
use crate::url::{derive_repo_name, repo_name};
use crate::vault::{get_credentials, load_signal, service, service_name, VaultFailureView};

verus! {

/// How far a synchronisation has come.
#[derive(Debug, PartialEq, Eq)]
pub enum Phase {
    /// The secret has been asked for.
    AwaitingSecret,
    /// The base directory has been asked to exist.
    AwaitingDirectory,
    /// The target is being looked at.
    AwaitingProbe,
    /// The clone is under way.
    Cloning,
    /// The update is under way.
    Fetching,
    /// The synchronisation has ended in this result.
    Finished(Result<SyncOutcome, SyncError>),
}

/// The mathematical content of a [`Phase`].
pub enum PhaseView {
    AwaitingSecret,
    AwaitingDirectory,
    AwaitingProbe,
    Cloning,
    Fetching,
    Finished(Result<SyncOutcomeView, SyncErrorView>),
}

impl View for Phase {
    type V = PhaseView;

    open spec fn view(&self) -> PhaseView {
        match self {
            Phase::AwaitingSecret => PhaseView::AwaitingSecret,
            Phase::AwaitingDirectory => PhaseView::AwaitingDirectory,
            Phase::AwaitingProbe => PhaseView::AwaitingProbe,
            Phase::Cloning => PhaseView::Cloning,
            Phase::Fetching => PhaseView::Fetching,
            Phase::Finished(result) => PhaseView::Finished(result_view(*result)),
        }
    }
}

/// One synchronisation in progress.
#[derive(Debug)]
pub struct SyncEngine {
    url: String,
    base: String,
    target: String,
    username: String,
    branch: String,
    secret: String,
    phase: Phase,
}

/// The mathematical content of a [`SyncEngine`].
pub struct SyncEngineView {
    /// The URL of the remote repository.
    pub url: Seq<char>,
    /// The directory under which the clone lies.
    pub base: Seq<char>,
    /// The directory of the clone.
    pub target: Seq<char>,
    /// The user the secret is stored for.
    pub username: Seq<char>,
    /// The one branch that updates are fetched for.
    pub branch: Seq<char>,
    /// The secret, while a transfer may still need it; empty otherwise.
    pub secret: Seq<char>,
    /// How far the synchronisation has come.
    pub phase: PhaseView,
}

impl View for SyncEngine {
    type V = SyncEngineView;

    closed spec fn view(&self) -> SyncEngineView {
        SyncEngineView {
            url: self.url@,
            base: self.base@,
            target: self.target@,
            username: self.username@,
            branch: self.branch@,
            secret: self.secret@,
            phase: self.phase@,
        }
    }
}

/// The name of the remote that updates are fetched from.
pub open spec fn tracked_remote() -> Seq<char> {
    "origin"@
}

/// The name of the branch that updates are fetched for unless the
/// caller names another.
pub open spec fn tracked_branch() -> Seq<char> {
    "master"@
}

/// What holds of every state that a synchronisation passes through: the
/// target is the directory named after the repository under the base, and
/// the secret is held only between its arrival and the end.
pub open spec fn well_formed(s: SyncEngineView) -> bool {
    &&& repo_name(s.url) is Some
    &&& s.target == joined(s.base, repo_name(s.url)->0)
    &&& (s.phase is AwaitingSecret || s.phase is Finished) ==> s.secret.len() == 0
}

/// The state a synchronisation starts in.
pub open spec fn initial(
    url: Seq<char>,
    base: Seq<char>,
    username: Seq<char>,
    branch: Seq<char>,
) -> SyncEngineView
    recommends
        repo_name(url) is Some,
{
    SyncEngineView {
        url,
        base,
        target: joined(base, repo_name(url)->0),
        username,
        branch,
        secret: Seq::<char>::empty(),
        phase: PhaseView::AwaitingSecret,
    }
}

/// The state `s` with the synchronisation ended in `result` and the
/// secret dropped.
pub open spec fn finished(
    s: SyncEngineView,
    result: Result<SyncOutcomeView, SyncErrorView>,
) -> SyncEngineView {
    SyncEngineView { secret: Seq::<char>::empty(), phase: PhaseView::Finished(result), ..s }
}

/// The failure that ends a synchronisation whose secret cannot be
/// resolved: its cause is the message of the vault's own failure.
pub open spec fn unresolved(failure: VaultFailureView) -> SyncErrorView {
    SyncErrorView {
        kind: ErrorKind::AuthResolutionFailed,
        detail: message_of(load_signal(failure.step, failure.fault), failure.cause),
    }
}

/// The state that follows `s` when `event` is reported.
pub open spec fn next(s: SyncEngineView, event: SyncEventView) -> SyncEngineView {
    match (s.phase, event) {
        (PhaseView::AwaitingSecret, SyncEventView::SecretResolved(Ok(secret))) => SyncEngineView {
            secret,
            phase: PhaseView::AwaitingDirectory,
            ..s
        },
        (PhaseView::AwaitingSecret, SyncEventView::SecretResolved(Err(failure))) => finished(
            s,
            Err(unresolved(failure)),
        ),
        (PhaseView::AwaitingDirectory, SyncEventView::DirectoryEnsured(Err(cause))) => finished(
            s,
            Err(SyncErrorView { kind: ErrorKind::IOFailure, detail: cause }),
        ),
        (PhaseView::AwaitingDirectory, SyncEventView::DirectoryEnsured(Ok(_))) => SyncEngineView {
            phase: PhaseView::AwaitingProbe,
            ..s
        },
        (PhaseView::AwaitingProbe, SyncEventView::RepositoryProbed(Ok(kind))) => SyncEngineView {
            phase: if is_repository(kind) {
                PhaseView::Fetching
            } else {
                PhaseView::Cloning
            },
            ..s
        },
        (PhaseView::AwaitingProbe, SyncEventView::RepositoryProbed(Err(cause))) => finished(
            s,
            Err(SyncErrorView { kind: ErrorKind::IOFailure, detail: cause }),
        ),
        (PhaseView::Cloning, SyncEventView::CloneFinished(result)) => finished(
            s,
            Ok(clone_outcome(s.target, result)),
        ),
        (PhaseView::Fetching, SyncEventView::FetchFinished(result)) => finished(
            s,
            Ok(fetch_outcome(s.target, result)),
        ),
        _ => s,
    }
}

/// The action that is pending in state `s`.
pub open spec fn pending(s: SyncEngineView) -> SyncActionView {
    match s.phase {
        PhaseView::AwaitingSecret => SyncActionView::LoadSecret {
            service: service(),
            username: s.username,
        },
        PhaseView::AwaitingDirectory => SyncActionView::EnsureDirectory { path: s.base },
        PhaseView::AwaitingProbe => SyncActionView::ProbeRepository {
            metadata_path: metadata_path(s.target),
        },
        PhaseView::Cloning => SyncActionView::Clone {
            url: s.url,
            target: s.target,
            credential: CredentialView { username: s.username, secret: s.secret },
        },
        PhaseView::Fetching => SyncActionView::Fetch {
            target: s.target,
            remote: tracked_remote(),
            branch: s.branch,
            credential: CredentialView { username: s.username, secret: s.secret },
        },
        PhaseView::Finished(result) => SyncActionView::Finish(result),
    }
}

/// What the host is told at the end: the description of what was done, or
/// the message of the failure. A transfer that failed is a failure to the
/// host like any other.
pub open spec fn report_of(result: Result<SyncOutcomeView, SyncErrorView>) -> Result<
    Seq<char>,
    Seq<char>,
> {
    match result {
        Ok(SyncOutcomeView::Failed(e)) => Err(message_of(e.kind, e.detail)),
        Ok(outcome) => Ok(description_of(outcome)),
        Err(e) => Err(message_of(e.kind, e.detail)),
    }
}

/// Puts the result of a synchronisation into words for the host.
pub fn report(result: Result<SyncOutcome, SyncError>) -> (r: Result<String, String>)
    ensures
        match r {
            Ok(text) => report_of(result_view(result)) == Ok::<Seq<char>, Seq<char>>(text@),
            Err(text) => report_of(result_view(result)) == Err::<Seq<char>, Seq<char>>(text@),
        },
{
    match result {
        Ok(SyncOutcome::Failed(e)) => Err(e.message()),
        Ok(outcome) => Ok(outcome.describe()),
        Err(e) => Err(e.message()),
    }
}

/// The name of the remote that updates are fetched from.
pub fn tracked_remote_name() -> (name: &'static str)
    ensures
        name@ == tracked_remote(),
{
    "origin"
}

/// The name of the branch that updates are fetched for unless the
/// caller names another.
pub fn tracked_branch_name() -> (name: &'static str)
    ensures
        name@ == tracked_branch(),
{
    "master"
}

impl SyncEngine {
    /// Begins the synchronisation of the repository at `url` into a
    /// directory under `base`, for the user `username`, tracking the
    /// branch that [`tracked_branch`] names.
    ///
    /// The directory is named after the repository. Fails with
    /// `InvalidUrl`, before anything is asked of the caller, exactly when
    /// the URL yields no name.
    pub fn start(url: &str, base: &str, username: &str) -> (r: Result<SyncEngine, SyncError>)
        ensures
            match r {
                Ok(engine) => repo_name(url@) is Some && engine@ == initial(
                    url@,
                    base@,
                    username@,
                    tracked_branch(),
                ) && well_formed(engine@),
                Err(e) => repo_name(url@) is None && e@ == (SyncErrorView {
                    kind: ErrorKind::InvalidUrl,
                    detail: Seq::<char>::empty(),
                }),
            },
    {
        SyncEngine::start_tracking(url, base, username, tracked_branch_name())
    }

    /// Begins a synchronisation as [`SyncEngine::start`] does, tracking
    /// `branch` in place of the usual one. The name is handed to the
    /// transport as it is.
    pub fn start_tracking(url: &str, base: &str, username: &str, branch: &str) -> (r: Result<
        SyncEngine,
        SyncError,
    >)
        ensures
            match r {
                Ok(engine) => repo_name(url@) is Some && engine@ == initial(
                    url@,
                    base@,
                    username@,
                    branch@,
                ) && well_formed(engine@),
                Err(e) => repo_name(url@) is None && e@ == (SyncErrorView {
                    kind: ErrorKind::InvalidUrl,
                    detail: Seq::<char>::empty(),
                }),
            },
    {
        match derive_repo_name(url) {
            Err(e) => Err(e),
            Ok(name) => Ok(
                SyncEngine {
                    url: String::from_str(url),
                    base: String::from_str(base),
                    target: join(base, name.as_str()),
                    username: String::from_str(username),
                    branch: String::from_str(branch),
                    secret: String::new(),
                    phase: Phase::AwaitingSecret,
                },
            ),
        }
    }

    /// The directory that the repository is synchronised into.
    pub fn target(&self) -> (path: &str)
        ensures
            path@ == self@.target,
    {
        self.target.as_str()
    }

    /// Whether the synchronisation has ended.
    pub fn is_finished(&self) -> (done: bool)
        ensures
            done == (self@.phase is Finished),
    {
        match &self.phase {
            Phase::Finished(_) => true,
            _ => false,
        }
    }

    /// The credential for a transfer.
    fn credential(&self) -> (c: Credential)
        ensures
            c@ == (CredentialView { username: self@.username, secret: self@.secret }),
    {
        Credential { username: self.username.clone(), secret: self.secret.clone() }
    }

    /// The action that the engine is waiting for the caller to perform.
    pub fn pending(&self) -> (action: SyncAction)
        ensures
            action@ == pending(self@),
    {
        match &self.phase {
            Phase::AwaitingSecret => SyncAction::LoadSecret {
                service: String::from_str(service_name()),
                username: self.username.clone(),
            },
            Phase::AwaitingDirectory => SyncAction::EnsureDirectory { path: self.base.clone() },
            Phase::AwaitingProbe => SyncAction::ProbeRepository {
                metadata_path: metadata_location(self.target.as_str()),
            },
            Phase::Cloning => SyncAction::Clone {
                url: self.url.clone(),
                target: self.target.clone(),
                credential: self.credential(),
            },
            Phase::Fetching => SyncAction::Fetch {
                target: self.target.clone(),
                remote: String::from_str(tracked_remote_name()),
                branch: self.branch.clone(),
                credential: self.credential(),
            },
            Phase::Finished(Ok(outcome)) => SyncAction::Finish(Ok(outcome.duplicate())),
            Phase::Finished(Err(e)) => SyncAction::Finish(Err(e.duplicate())),
        }
    }

    /// Takes in what the caller reports and moves on.
    ///
    /// Returns the engine in the state that follows, and the action that
    /// is pending in it. An event that does not answer the action that
    /// was pending leaves the state as it was, so the same action is
    /// asked for again.
    pub fn step(self, event: SyncEvent) -> (r: (SyncEngine, SyncAction))
        ensures
            r.0@ == next(self@, event@),
            r.1@ == pending(r.0@),
            well_formed(self@) ==> well_formed(r.0@),
    {
        let SyncEngine { url, base, target, username, branch, secret, phase } = self;
        let engine = match (phase, event) {
            (Phase::AwaitingSecret, SyncEvent::SecretResolved(answer)) => {
                match get_credentials(answer) {
                    Ok(loaded) => SyncEngine {
                        url,
                        base,
                        target,
                        username,
                        branch,
                        secret: loaded,
                        phase: Phase::AwaitingDirectory,
                    },
                    Err(e) => SyncEngine {
                        url,
                        base,
                        target,
                        username,
                        branch,
                        secret: String::new(),
                        phase: Phase::Finished(
                            Err(SyncError::new(ErrorKind::AuthResolutionFailed, e.message())),
                        ),
                    },
                }
            },
            (Phase::AwaitingDirectory, SyncEvent::DirectoryEnsured(ended)) => {
                match ended {
                    Err(cause) => SyncEngine {
                        url,
                        base,
                        target,
                        username,
                        branch,
                        secret: String::new(),
                        phase: Phase::Finished(Err(SyncError::new(ErrorKind::IOFailure, cause))),
                    },
                    Ok(_) => SyncEngine {
                        url,
                        base,
                        target,
                        username,
                        branch,
                        secret,
                        phase: Phase::AwaitingProbe,
                    },
                }
            },
            (Phase::AwaitingProbe, SyncEvent::RepositoryProbed(probe)) => {
                match probe {
                    Ok(kind) => {
                        let phase = match kind {
                            EntryKind::Directory => Phase::Fetching,
                            _ => Phase::Cloning,
                        };
                        SyncEngine { url, base, target, username, branch, secret, phase }
                    },
                    Err(cause) => SyncEngine {
                        url,
                        base,
                        target,
                        username,
                        branch,
                        secret: String::new(),
                        phase: Phase::Finished(Err(SyncError::new(ErrorKind::IOFailure, cause))),
                    },
                }
            },
            (Phase::Cloning, SyncEvent::CloneFinished(result)) => {
                let outcome = conclude_clone(target.clone(), result);
                SyncEngine {
                    url,
                    base,
                    target,
                    username,
                    branch,
                    secret: String::new(),
                    phase: Phase::Finished(Ok(outcome)),
                }
            },
            (Phase::Fetching, SyncEvent::FetchFinished(result)) => {
                let outcome = conclude_fetch(target.clone(), result);
                SyncEngine {
                    url,
                    base,
                    target,
                    username,
                    branch,
                    secret: String::new(),
                    phase: Phase::Finished(Ok(outcome)),
                }
            },
            (phase, _) => SyncEngine { url, base, target, username, branch, secret, phase },
        };
        let action = engine.pending();
        (engine, action)
    }
}

} // verus!
