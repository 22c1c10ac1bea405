//! What holds of every run of the synchronisation engine, whatever the
//! caller reports.

use vstd::prelude::*;
use crate::error::{category_of, ErrorCategory, ErrorKind, SyncErrorView};
use crate::path::{joined, EntryKind};
use crate::protocol::{CredentialView, SyncActionView, SyncEventView};
use crate::repository::is_repository;
use crate::sync::{
    initial, next, pending, tracked_remote, well_formed, PhaseView, SyncEngineView,
};
use crate::transport::{
    FaultCode, FetchFailureView, FetchStage, SyncOutcomeView, TransportFaultView,
};
use crate::url::{
    is_plain, last_segment, last_slash, lemma_last_slash_skips_plain_text,
    lemma_repo_name_is_clean, repo_name,
};

verus! {

/// The state reached from `s` when the events are reported in order.
pub open spec fn run(s: SyncEngineView, events: Seq<SyncEventView>) -> SyncEngineView
    decreases events.len(),
{
    if events.len() == 0 {
        s
    } else {
        next(run(s, events.drop_last()), events.last())
    }
}

/// Whether `event` reports on the action that is pending in `phase`.
pub open spec fn answers(phase: PhaseView, event: SyncEventView) -> bool {
    match (phase, event) {
        (PhaseView::AwaitingSecret, SyncEventView::SecretResolved(_)) => true,
        (PhaseView::AwaitingDirectory, SyncEventView::DirectoryEnsured(_)) => true,
        (PhaseView::AwaitingProbe, SyncEventView::RepositoryProbed(_)) => true,
        (PhaseView::Cloning, SyncEventView::CloneFinished(_)) => true,
        (PhaseView::Fetching, SyncEventView::FetchFinished(_)) => true,
        _ => false,
    }
}

/// The most actions that can still be asked for in `phase`.
pub open spec fn steps_left(phase: PhaseView) -> nat {
    match phase {
        PhaseView::AwaitingSecret => 4,
        PhaseView::AwaitingDirectory => 3,
        PhaseView::AwaitingProbe => 2,
        PhaseView::Cloning => 1,
        PhaseView::Fetching => 1,
        PhaseView::Finished(_) => 0,
    }
}

/// Whether a synchronisation in `phase` has chosen to update, or has
/// ended without having cloned.
pub open spec fn past_cloning(phase: PhaseView) -> bool {
    match phase {
        PhaseView::Fetching => true,
        PhaseView::Finished(Ok(SyncOutcomeView::ClonedNew(_))) => false,
        PhaseView::Finished(_) => true,
        _ => false,
    }
}

/// An event that answers the pending action moves the synchronisation
/// strictly closer to its end; any other event changes nothing. Nothing
/// answers a synchronisation that has ended.
pub proof fn lemma_every_answer_advances(s: SyncEngineView, event: SyncEventView)
    ensures
        answers(s.phase, event) ==> steps_left(next(s, event).phase) < steps_left(s.phase),
        !answers(s.phase, event) ==> next(s, event) == s,
        s.phase is Finished ==> !answers(s.phase, event),
{
}

/// No event changes what is being synchronised: the URL, the base, the
/// target, the user and the branch stay as they were at the start.
pub proof fn lemma_request_is_fixed(s: SyncEngineView, events: Seq<SyncEventView>)
    ensures
        run(s, events).url == s.url,
        run(s, events).base == s.base,
        run(s, events).target == s.target,
        run(s, events).username == s.username,
        run(s, events).branch == s.branch,
    decreases events.len(),
{
    if events.len() > 0 {
        lemma_request_is_fixed(s, events.drop_last());
    }
}

/// Every state of a synchronisation is well formed: the start is, and
/// every event keeps it so.
pub proof fn lemma_runs_stay_well_formed(
    url: Seq<char>,
    base: Seq<char>,
    username: Seq<char>,
    branch: Seq<char>,
    events: Seq<SyncEventView>,
)
    requires
        repo_name(url) is Some,
    ensures
        well_formed(run(initial(url, base, username, branch), events)),
    decreases events.len(),
{
    if events.len() > 0 {
        lemma_runs_stay_well_formed(url, base, username, branch, events.drop_last());
        lemma_request_is_fixed(initial(url, base, username, branch), events.drop_last());
    }
}

/// How many of the events, reported in order from state `s`, answered
/// the action that was pending when they came.
pub open spec fn answered(s: SyncEngineView, events: Seq<SyncEventView>) -> nat
    decreases events.len(),
{
    if events.len() == 0 {
        0
    } else if answers(run(s, events.drop_last()).phase, events.last()) {
        answered(s, events.drop_last()) + 1
    } else {
        answered(s, events.drop_last())
    }
}

/// A synchronisation ends after at most four answers: however many
/// events are reported, those that answered and the actions still to come
/// never add up to more than the actions that were to come at the start,
/// and those are four at most.
pub proof fn lemma_runs_are_bounded(s: SyncEngineView, events: Seq<SyncEventView>)
    ensures
        answered(s, events) + steps_left(run(s, events).phase) <= steps_left(s.phase),
        steps_left(s.phase) <= 4,
    decreases events.len(),
{
    if events.len() > 0 {
        lemma_runs_are_bounded(s, events.drop_last());
        lemma_every_answer_advances(run(s, events.drop_last()), events.last());
    }
}

/// The look at the target decides the transfer: where no working copy is
/// found the engine asks for a clone of the URL into the target, and
/// where one is found it asks for a fetch of its branch from the tracked
/// remote. Both carry the user and the secret that the vault
/// returned.
pub proof fn lemma_probe_decides_transfer(s: SyncEngineView, kind: EntryKind)
    requires
        s.phase is AwaitingProbe,
    ensures
        !is_repository(kind) ==> pending(next(s, SyncEventView::RepositoryProbed(Ok(kind))))
            == (SyncActionView::Clone {
            url: s.url,
            target: s.target,
            credential: CredentialView { username: s.username, secret: s.secret },
        }),
        is_repository(kind) ==> pending(next(s, SyncEventView::RepositoryProbed(Ok(kind))))
            == (SyncActionView::Fetch {
            target: s.target,
            remote: tracked_remote(),
            branch: s.branch,
            credential: CredentialView { username: s.username, secret: s.secret },
        }),
{
}

/// Once the engine has chosen to update, it never clones: no event leads
/// from there to a clone, and no result reports one.
pub proof fn lemma_update_never_clones(s: SyncEngineView, events: Seq<SyncEventView>)
    requires
        past_cloning(s.phase),
    ensures
        past_cloning(run(s, events).phase),
        !(pending(run(s, events)) is Clone),
    decreases events.len(),
{
    if events.len() > 0 {
        lemma_update_never_clones(s, events.drop_last());
    }
}

/// What is reported in a synchronisation that goes well and clones: the
/// secret, a directory that is there, a target without a working copy,
/// and a clone that succeeded.
pub open spec fn cloning_reports(secret: Seq<char>, found: EntryKind) -> Seq<SyncEventView> {
    seq![
        SyncEventView::SecretResolved(Ok(secret)),
        SyncEventView::DirectoryEnsured(Ok(())),
        SyncEventView::RepositoryProbed(Ok(found)),
        SyncEventView::CloneFinished(Ok(())),
    ]
}

/// What is reported in a synchronisation that goes well and updates: the
/// secret, a directory that is there, a target with a working copy, and a
/// fetch that succeeded.
pub open spec fn updating_reports(secret: Seq<char>) -> Seq<SyncEventView> {
    seq![
        SyncEventView::SecretResolved(Ok(secret)),
        SyncEventView::DirectoryEnsured(Ok(())),
        SyncEventView::RepositoryProbed(Ok(EntryKind::Directory)),
        SyncEventView::FetchFinished(Ok(())),
    ]
}

/// A first synchronisation, which finds no working copy at the target and
/// whose clone succeeds, reports a new clone at the target.
pub proof fn lemma_first_sync_clones(
    url: Seq<char>,
    base: Seq<char>,
    username: Seq<char>,
    branch: Seq<char>,
    secret: Seq<char>,
    found: EntryKind,
)
    requires
        repo_name(url) is Some,
        !is_repository(found),
    ensures
        run(initial(url, base, username, branch), cloning_reports(secret, found)).phase
            == PhaseView::Finished(
            Ok(SyncOutcomeView::ClonedNew(joined(base, repo_name(url)->0))),
        ),
{
    lemma_run_of_four(initial(url, base, username, branch), cloning_reports(secret, found));
}

/// A later synchronisation, which finds the working copy at the target
/// and whose fetch succeeds, reports an update of that same target, and
/// at no point asks for a clone.
pub proof fn lemma_second_sync_fetches(
    url: Seq<char>,
    base: Seq<char>,
    username: Seq<char>,
    branch: Seq<char>,
    secret: Seq<char>,
)
    requires
        repo_name(url) is Some,
    ensures
        run(initial(url, base, username, branch), updating_reports(secret)).phase
            == PhaseView::Finished(
            Ok(SyncOutcomeView::UpdatedExisting(joined(base, repo_name(url)->0))),
        ),
        forall|n: int|
            0 <= n <= 4 ==> !(pending(
                run(
                    initial(url, base, username, branch),
                    #[trigger] updating_reports(secret).take(n),
                ),
            ) is Clone),
{
    let start = initial(url, base, username, branch);
    let events = updating_reports(secret);
    lemma_run_of_four(start, events);
    assert forall|n: int| 0 <= n <= 4 implies !(pending(
        run(start, #[trigger] events.take(n)),
    ) is Clone) by {
        assert(n == 0 || n == 1 || n == 2 || n == 3 || n == 4);
    }
}

/// A run over four events, written out one state after the other.
proof fn lemma_run_of_four(s: SyncEngineView, events: Seq<SyncEventView>)
    requires
        events.len() == 4,
    ensures
        run(s, events.take(0)) == s,
        run(s, events.take(1)) == next(s, events[0]),
        run(s, events.take(2)) == next(next(s, events[0]), events[1]),
        run(s, events.take(3)) == next(next(next(s, events[0]), events[1]), events[2]),
        run(s, events.take(4)) == next(
            next(next(next(s, events[0]), events[1]), events[2]),
            events[3],
        ),
        run(s, events) == run(s, events.take(4)),
{
    assert(events.take(1).drop_last() =~= events.take(0));
    assert(events.take(2).drop_last() =~= events.take(1));
    assert(events.take(3).drop_last() =~= events.take(2));
    assert(events.take(4).drop_last() =~= events.take(3));
    assert(events.take(4) =~= events);
    assert(events.take(1).last() == events[0]);
    assert(events.take(2).last() == events[1]);
    assert(events.take(3).last() == events[2]);
    assert(events.take(4).last() == events[3]);
}

/// A transfer that the remote refuses ends the synchronisation with a
/// failed outcome whose category is an authentication failure, so that
/// the caller can ask for the credential again. It is an outcome like any
/// other: the engine has a next state for every fault.
pub proof fn lemma_refused_credential_is_reported(
    s: SyncEngineView,
    fault: TransportFaultView,
    failure: FetchFailureView,
)
    requires
        fault.code == FaultCode::Auth,
        failure.fault.code == FaultCode::Auth,
        failure.stage != FetchStage::Open,
    ensures
        s.phase is Cloning ==> next(s, SyncEventView::CloneFinished(Err(fault))).phase
            == PhaseView::Finished(
            Ok(
                SyncOutcomeView::Failed(
                    SyncErrorView {
                        kind: ErrorKind::CloneError { rejected: true },
                        detail: fault.message,
                    },
                ),
            ),
        ),
        s.phase is Fetching ==> next(s, SyncEventView::FetchFinished(Err(failure))).phase
            == PhaseView::Finished(
            Ok(
                SyncOutcomeView::Failed(
                    SyncErrorView {
                        kind: ErrorKind::FetchError { rejected: true },
                        detail: failure.fault.message,
                    },
                ),
            ),
        ),
        category_of(ErrorKind::CloneError { rejected: true }) == ErrorCategory::AuthFailure,
        category_of(ErrorKind::FetchError { rejected: true }) == ErrorCategory::AuthFailure,
{
}

/// A name without a slash, placed under a base, is the last segment of
/// the path that results.
pub proof fn lemma_join_ends_in_name(base: Seq<char>, name: Seq<char>)
    requires
        is_plain(name),
    ensures
        last_segment(joined(base, name)) == name,
{
    let front = if base.len() == 0 {
        base
    } else if base.last() == '/' {
        base
    } else {
        base + seq!['/']
    };
    assert(joined(base, name) =~= front + name);
    lemma_last_slash_skips_plain_text(front, name);
    assert(last_slash(front) == front.len() - 1);
    assert(last_segment(front + name) =~= name);
}

/// The target of a synchronisation is named after the repository: the
/// last segment of its path is the name derived from the URL.
pub proof fn lemma_target_is_named_after_repository(
    url: Seq<char>,
    base: Seq<char>,
    username: Seq<char>,
    branch: Seq<char>,
    events: Seq<SyncEventView>,
)
    requires
        repo_name(url) is Some,
    ensures
        last_segment(run(initial(url, base, username, branch), events).target) == repo_name(
            url,
        )->0,
{
    lemma_request_is_fixed(initial(url, base, username, branch), events);
    lemma_repo_name_is_clean(url);
    lemma_join_ends_in_name(base, repo_name(url)->0);
}

} // verus!
