use branchie::error::{ErrorCategory, ErrorKind, SyncError};
use branchie::path::EntryKind;
use branchie::protocol::{Credential, SyncAction, SyncEvent};
use branchie::sync::{report, tracked_branch_name, tracked_remote_name, SyncEngine};
use branchie::transport::{
    FaultClass, FaultCode, FetchFailure, FetchStage, SyncOutcome, TransportFault,
};
use branchie::vault::{VaultFailure, VaultFault, VaultStep};

const URL: &str = "https://example.com/org/repo.git";
const BASE: &str = "/home/u/repos";
const TARGET: &str = "/home/u/repos/repo";

fn started() -> SyncEngine {
    SyncEngine::start(URL, BASE, "alice").expect("a valid URL")
}

fn credential() -> Credential {
    Credential { username: String::from("alice"), secret: String::from("s3cr3t") }
}

fn secret() -> SyncEvent {
    SyncEvent::SecretResolved(Ok(String::from("s3cr3t")))
}

fn probed(kind: EntryKind) -> SyncEvent {
    SyncEvent::RepositoryProbed(Ok(kind))
}

fn fault(code: FaultCode, class: FaultClass) -> TransportFault {
    TransportFault { code, class, message: String::from("it broke") }
}

/// Runs the engine through the events and returns it with the last action.
fn after(events: Vec<SyncEvent>) -> (SyncEngine, SyncAction) {
    let mut engine = started();
    let mut action = engine.pending();
    for event in events {
        let (next, asked) = engine.step(event);
        engine = next;
        action = asked;
    }
    (engine, action)
}

#[test]
fn start_rejects_a_url_without_a_name() {
    let e = SyncEngine::start("https://example.com", BASE, "alice").unwrap_err();
    assert_eq!(e, SyncError::bare(ErrorKind::InvalidUrl));
    assert_eq!(e.category(), ErrorCategory::InputError);
    assert!(SyncEngine::start("", BASE, "alice").is_err());
}

#[test]
fn target_is_the_base_joined_with_the_name() {
    assert_eq!(started().target(), TARGET);
    let engine = SyncEngine::start("https://example.com/org/repo", "/srv/", "bob").unwrap();
    assert_eq!(engine.target(), "/srv/repo");
}

#[test]
fn first_action_asks_the_vault() {
    let engine = started();
    assert!(!engine.is_finished());
    assert_eq!(
        engine.pending(),
        SyncAction::LoadSecret {
            service: String::from("Branchie"),
            username: String::from("alice"),
        }
    );
}

#[test]
fn secret_is_followed_by_the_directory() {
    let (_, action) = after(vec![secret()]);
    assert_eq!(action, SyncAction::EnsureDirectory { path: String::from(BASE) });
}

#[test]
fn directory_is_followed_by_the_probe() {
    let (_, action) = after(vec![secret(), SyncEvent::DirectoryEnsured(Ok(()))]);
    assert_eq!(
        action,
        SyncAction::ProbeRepository { metadata_path: String::from("/home/u/repos/repo/.git") }
    );
}

#[test]
fn sync_without_metadata_directory_clones() {
    for kind in [EntryKind::Missing, EntryKind::File] {
        let (engine, action) = after(vec![
            secret(),
            SyncEvent::DirectoryEnsured(Ok(())),
            probed(kind),
        ]);
        assert!(!engine.is_finished());
        assert_eq!(
            action,
            SyncAction::Clone {
                url: String::from(URL),
                target: String::from(TARGET),
                credential: credential(),
            }
        );
        let (engine, action) = engine.step(SyncEvent::CloneFinished(Ok(())));
        assert!(engine.is_finished());
        assert_eq!(
            action,
            SyncAction::Finish(Ok(SyncOutcome::ClonedNew(String::from(TARGET))))
        );
    }
}

#[test]
fn second_sync_fetches_and_never_clones() {
    let mut engine = started();
    let events = vec![
        secret(),
        SyncEvent::DirectoryEnsured(Ok(())),
        probed(EntryKind::Directory),
    ];
    for event in events {
        let (next, action) = engine.step(event);
        assert!(!matches!(action, SyncAction::Clone { .. }));
        engine = next;
    }
    assert_eq!(
        engine.pending(),
        SyncAction::Fetch {
            target: String::from(TARGET),
            remote: String::from("origin"),
            branch: String::from("master"),
            credential: credential(),
        }
    );
    let (engine, action) = engine.step(SyncEvent::FetchFinished(Ok(())));
    assert!(engine.is_finished());
    assert_eq!(
        action,
        SyncAction::Finish(Ok(SyncOutcome::UpdatedExisting(String::from(TARGET))))
    );
}

#[test]
fn tracked_remote_and_branch_are_fixed() {
    assert_eq!(tracked_remote_name(), "origin");
    assert_eq!(tracked_branch_name(), "master");
}

#[test]
fn missing_secret_is_an_auth_resolution_failure() {
    let (engine, action) = after(vec![SyncEvent::SecretResolved(Err(VaultFailure {
        step: VaultStep::Read,
        fault: VaultFault::NoEntry,
        cause: String::from("No matching credential found"),
    }))]);
    assert!(engine.is_finished());
    let expected = SyncError::new(
        ErrorKind::AuthResolutionFailed,
        String::from("no credential stored for this user: No matching credential found"),
    );
    assert_eq!(expected.category(), ErrorCategory::AuthFailure);
    assert_eq!(action, SyncAction::Finish(Err(expected)));
}

#[test]
fn unavailable_vault_is_an_auth_resolution_failure() {
    let (_, action) = after(vec![SyncEvent::SecretResolved(Err(VaultFailure {
        step: VaultStep::Open,
        fault: VaultFault::NoDefaultStore,
        cause: String::new(),
    }))]);
    assert_eq!(
        action,
        SyncAction::Finish(Err(SyncError::new(
            ErrorKind::AuthResolutionFailed,
            String::from("credential store unavailable"),
        )))
    );
}

#[test]
fn directory_that_cannot_be_made_is_an_io_failure() {
    let (engine, action) = after(vec![
        secret(),
        SyncEvent::DirectoryEnsured(Err(String::from("read-only"))),
    ]);
    assert!(engine.is_finished());
    assert_eq!(
        action,
        SyncAction::Finish(Err(SyncError::new(ErrorKind::IOFailure, String::from("read-only"))))
    );
}

#[test]
fn probe_that_cannot_be_made_is_an_io_failure() {
    let (_, action) = after(vec![
        secret(),
        SyncEvent::DirectoryEnsured(Ok(())),
        SyncEvent::RepositoryProbed(Err(String::from("stale handle"))),
    ]);
    assert_eq!(
        action,
        SyncAction::Finish(Err(SyncError::new(
            ErrorKind::IOFailure,
            String::from("stale handle"),
        )))
    );
}

#[test]
fn wrong_secret_on_clone_surfaces_as_auth_failure() {
    let (engine, action) = after(vec![
        secret(),
        SyncEvent::DirectoryEnsured(Ok(())),
        probed(EntryKind::Missing),
        SyncEvent::CloneFinished(Err(fault(FaultCode::Auth, FaultClass::Other))),
    ]);
    assert!(engine.is_finished());
    match action {
        SyncAction::Finish(Ok(SyncOutcome::Failed(e))) => {
            assert_eq!(e.kind, ErrorKind::CloneError { rejected: true });
            assert_eq!(e.category(), ErrorCategory::AuthFailure);
            assert_eq!(e.detail, "it broke");
        }
        other => panic!("unexpected action {:?}", other),
    }
}

#[test]
fn wrong_secret_on_fetch_surfaces_as_auth_failure() {
    let (_, action) = after(vec![
        secret(),
        SyncEvent::DirectoryEnsured(Ok(())),
        probed(EntryKind::Directory),
        SyncEvent::FetchFinished(Err(FetchFailure {
            stage: FetchStage::Fetch,
            fault: fault(FaultCode::Auth, FaultClass::Other),
        })),
    ]);
    match action {
        SyncAction::Finish(Ok(SyncOutcome::Failed(e))) => {
            assert_eq!(e.kind, ErrorKind::FetchError { rejected: true });
            assert_eq!(e.category(), ErrorCategory::AuthFailure);
        }
        other => panic!("unexpected action {:?}", other),
    }
}

#[test]
fn working_copy_without_origin_is_reported() {
    let (_, action) = after(vec![
        secret(),
        SyncEvent::DirectoryEnsured(Ok(())),
        probed(EntryKind::Directory),
        SyncEvent::FetchFinished(Err(FetchFailure {
            stage: FetchStage::FindRemote,
            fault: fault(FaultCode::NotFound, FaultClass::Other),
        })),
    ]);
    assert_eq!(
        action,
        SyncAction::Finish(Ok(SyncOutcome::Failed(SyncError::new(
            ErrorKind::NoOriginRemote,
            String::from("it broke"),
        ))))
    );
}

#[test]
fn local_fault_while_cloning_is_an_io_failure() {
    let (_, action) = after(vec![
        secret(),
        SyncEvent::DirectoryEnsured(Ok(())),
        probed(EntryKind::Missing),
        SyncEvent::CloneFinished(Err(fault(FaultCode::Other, FaultClass::Filesystem))),
    ]);
    assert_eq!(
        action,
        SyncAction::Finish(Ok(SyncOutcome::Failed(SyncError::new(
            ErrorKind::IOFailure,
            String::from("it broke"),
        ))))
    );
}

#[test]
fn event_that_answers_nothing_is_ignored() {
    let engine = started();
    let (engine, action) = engine.step(SyncEvent::CloneFinished(Ok(())));
    assert!(!engine.is_finished());
    assert_eq!(
        action,
        SyncAction::LoadSecret {
            service: String::from("Branchie"),
            username: String::from("alice"),
        }
    );
    let (engine, action) = engine.step(probed(EntryKind::Directory));
    assert!(!engine.is_finished());
    assert!(matches!(action, SyncAction::LoadSecret { .. }));
    let (engine, _) = engine.step(secret());
    let (_, action) = engine.step(secret());
    assert_eq!(action, SyncAction::EnsureDirectory { path: String::from(BASE) });
}

#[test]
fn clone_report_while_fetching_is_ignored() {
    let (engine, _) = after(vec![
        secret(),
        SyncEvent::DirectoryEnsured(Ok(())),
        probed(EntryKind::Directory),
    ]);
    let (engine, action) = engine.step(SyncEvent::CloneFinished(Ok(())));
    assert!(!engine.is_finished());
    assert!(matches!(action, SyncAction::Fetch { .. }));
}

#[test]
fn finished_engine_keeps_its_result() {
    let (engine, first) = after(vec![
        secret(),
        SyncEvent::DirectoryEnsured(Ok(())),
        probed(EntryKind::Missing),
        SyncEvent::CloneFinished(Ok(())),
    ]);
    let (engine, again) = engine.step(secret());
    assert_eq!(first, again);
    let (engine, again) = engine.step(SyncEvent::FetchFinished(Ok(())));
    assert_eq!(first, again);
    assert_eq!(engine.pending(), first);
    assert!(engine.is_finished());
}

#[test]
fn every_sync_ends_within_four_answers() {
    let (engine, _) = after(vec![
        secret(),
        SyncEvent::DirectoryEnsured(Ok(())),
        probed(EntryKind::Missing),
    ]);
    assert!(!engine.is_finished());
    let (engine, _) = engine.step(SyncEvent::CloneFinished(Ok(())));
    assert!(engine.is_finished());
}

#[test]
fn empty_secret_is_passed_on_as_it_is() {
    let (_, action) = after(vec![
        SyncEvent::SecretResolved(Ok(String::new())),
        SyncEvent::DirectoryEnsured(Ok(())),
        probed(EntryKind::Missing),
    ]);
    assert_eq!(
        action,
        SyncAction::Clone {
            url: String::from(URL),
            target: String::from(TARGET),
            credential: Credential { username: String::from("alice"), secret: String::new() },
        }
    );
}

#[test]
fn report_of_a_new_clone_is_its_description() {
    assert_eq!(
        report(Ok(SyncOutcome::ClonedNew(String::from(TARGET)))),
        Ok(String::from("Cloned new repo at \"/home/u/repos/repo\""))
    );
}

#[test]
fn report_of_an_update_is_its_description() {
    assert_eq!(
        report(Ok(SyncOutcome::UpdatedExisting(String::from(TARGET)))),
        Ok(String::from("Pulled existing repo at \"/home/u/repos/repo\""))
    );
}

#[test]
fn report_of_a_failed_transfer_is_a_failure() {
    let failed = SyncOutcome::Failed(SyncError::new(
        ErrorKind::FetchError { rejected: false },
        String::from("timed out"),
    ));
    assert_eq!(report(Ok(failed)), Err(String::from("fetch failed: timed out")));
}

#[test]
fn report_of_an_early_failure_is_its_message() {
    assert_eq!(
        report(Err(SyncError::bare(ErrorKind::InvalidUrl))),
        Err(String::from("repository URL is invalid"))
    );
}

#[test]
fn another_branch_is_tracked_where_the_caller_names_it() {
    let mut engine =
        SyncEngine::start_tracking(URL, BASE, "alice", "main").expect("a valid URL");
    for event in [secret(), SyncEvent::DirectoryEnsured(Ok(())), probed(EntryKind::Directory)] {
        engine = engine.step(event).0;
    }
    assert_eq!(
        engine.pending(),
        SyncAction::Fetch {
            target: String::from(TARGET),
            remote: String::from("origin"),
            branch: String::from("main"),
            credential: credential(),
        }
    );
}

#[test]
fn naming_a_branch_changes_nothing_else() {
    assert!(SyncEngine::start_tracking("https://example.com", BASE, "alice", "main").is_err());
    let engine = SyncEngine::start_tracking(URL, BASE, "alice", "main").unwrap();
    assert_eq!(engine.target(), TARGET);
    assert_eq!(engine.pending(), started().pending());
    let (engine, _) = after(vec![secret(), SyncEvent::DirectoryEnsured(Ok(()))]);
    let named = SyncEngine::start_tracking(URL, BASE, "alice", "main").unwrap();
    let (named, _) = named.step(secret());
    let (named, _) = named.step(SyncEvent::DirectoryEnsured(Ok(())));
    let (_, cloned) = engine.step(probed(EntryKind::Missing));
    let (_, cloned_named) = named.step(probed(EntryKind::Missing));
    assert_eq!(cloned, cloned_named);
}
