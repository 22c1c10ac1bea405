use branchie::error::ErrorKind;
use branchie::path::{
    confirm_directory, default_repository_root, get_default_repository_path, join,
    judge_query, needs_creation, validate_repository_path, EntryKind, QueryFailure, QueryFault,
};
use branchie::repository::{check_repository_exists, metadata_location};

#[test]
fn join_puts_one_slash_between() {
    assert_eq!(join("/home/u", "repo"), "/home/u/repo");
}

#[test]
fn join_keeps_a_trailing_slash_single() {
    assert_eq!(join("/home/u/", "repo"), "/home/u/repo");
    assert_eq!(join("/", "repo"), "/repo");
}

#[test]
fn join_under_an_empty_base_is_the_name() {
    assert_eq!(join("", "repo"), "repo");
}

#[test]
fn join_with_characters_beyond_ascii() {
    assert_eq!(join("/home/ユーザー", "リポジトリ"), "/home/ユーザー/リポジトリ");
}

#[test]
fn default_path_lies_under_the_data_directory() {
    assert_eq!(
        get_default_repository_path(Some("/home/u/.local/share")).unwrap(),
        "/home/u/.local/share/Branchie/repository"
    );
    assert_eq!(
        get_default_repository_path(Some("/data/")).unwrap(),
        "/data/Branchie/repository"
    );
}

#[test]
fn default_path_needs_a_data_directory() {
    let e = get_default_repository_path(None).unwrap_err();
    assert_eq!(e.kind, ErrorKind::DirectoryUnavailable);
    assert_eq!(e.detail, "");
}

#[test]
fn default_path_is_the_same_on_every_call() {
    let first = get_default_repository_path(Some("/home/u/.local/share")).unwrap();
    let second = get_default_repository_path(Some("/home/u/.local/share")).unwrap();
    assert_eq!(first, second);
    let made = confirm_directory(first.clone(), Ok(EntryKind::Missing), Some(Ok(()))).unwrap();
    let found = confirm_directory(second.clone(), Ok(EntryKind::Directory), None).unwrap();
    assert_eq!(made, found);
    assert_eq!(made, first);
}

#[test]
fn directory_is_created_unless_one_is_there() {
    assert!(needs_creation(&Ok(EntryKind::Missing)));
    assert!(!needs_creation(&Ok(EntryKind::Directory)));
    assert!(needs_creation(&Ok(EntryKind::File)));
}

#[test]
fn creation_is_tried_where_the_query_failed() {
    assert!(needs_creation(&Err(String::from("permission denied"))));
}

#[test]
fn creation_and_validation_agree() {
    for kind in [EntryKind::Missing, EntryKind::File, EntryKind::Directory] {
        let usable = validate_repository_path(Ok(kind)).unwrap();
        assert_eq!(needs_creation(&Ok(kind)), !usable);
    }
}

#[test]
fn file_at_the_path_is_not_taken_for_the_directory() {
    let e = confirm_directory(String::from("/data/x"), Ok(EntryKind::File), None).unwrap_err();
    assert_eq!(e.kind, ErrorKind::IOFailure);
    assert_eq!(e.detail, "no directory was found and none was created");
    let e = confirm_directory(
        String::from("/data/x"),
        Ok(EntryKind::File),
        Some(Err(String::from("File exists (os error 17)"))),
    )
    .unwrap_err();
    assert_eq!(e.kind, ErrorKind::IOFailure);
    assert_eq!(e.detail, "File exists (os error 17)");
}

#[test]
fn nothing_found_and_nothing_made_is_a_failure() {
    let e = confirm_directory(String::from("/data/x"), Ok(EntryKind::Missing), None).unwrap_err();
    assert_eq!(e.kind, ErrorKind::IOFailure);
    assert_eq!(e.detail, "no directory was found and none was created");
    let e = confirm_directory(String::from("/data/x"), Err(String::from("stale handle")), None)
        .unwrap_err();
    assert_eq!(e.kind, ErrorKind::IOFailure);
    assert_eq!(e.detail, "stale handle");
}

#[test]
fn successful_creation_resolves_the_path() {
    for found in [
        Ok(EntryKind::Missing),
        Ok(EntryKind::Directory),
        Err(String::from("permission denied")),
    ] {
        assert_eq!(
            confirm_directory(String::from("/data/x"), found, Some(Ok(()))),
            Ok(String::from("/data/x"))
        );
    }
}

#[test]
fn failed_creation_is_an_io_failure() {
    let e = confirm_directory(
        String::from("/root/x"),
        Ok(EntryKind::Missing),
        Some(Err(String::from("permission denied"))),
    )
    .unwrap_err();
    assert_eq!(e.kind, ErrorKind::IOFailure);
    assert_eq!(e.detail, "permission denied");
}

#[test]
fn validate_rejects_missing_path_and_file_accepts_directory() {
    assert_eq!(validate_repository_path(Ok(EntryKind::Missing)), Ok(false));
    assert_eq!(validate_repository_path(Ok(EntryKind::File)), Ok(false));
    assert_eq!(validate_repository_path(Ok(EntryKind::Directory)), Ok(true));
}

#[test]
fn validate_reports_a_failed_query() {
    let e = validate_repository_path(Err(String::from("input/output error"))).unwrap_err();
    assert_eq!(e.kind, ErrorKind::IOFailure);
    assert_eq!(e.detail, "input/output error");
}

#[test]
fn metadata_directory_lies_directly_under_the_path() {
    assert_eq!(metadata_location("/home/u/repo"), "/home/u/repo/.git");
    assert_eq!(metadata_location("/home/u/repo/"), "/home/u/repo/.git");
}

#[test]
fn repository_exists_only_with_a_metadata_directory() {
    assert_eq!(check_repository_exists(Ok(EntryKind::Missing)), Ok(false));
    assert_eq!(check_repository_exists(Ok(EntryKind::Directory)), Ok(true));
}

#[test]
fn metadata_file_is_no_repository() {
    assert_eq!(check_repository_exists(Ok(EntryKind::File)), Ok(false));
}

#[test]
fn repository_check_reports_a_failed_query() {
    let e = check_repository_exists(Err(String::from("stale handle"))).unwrap_err();
    assert_eq!(e.kind, ErrorKind::IOFailure);
    assert_eq!(e.detail, "stale handle");
}

#[test]
fn default_root_on_this_machine_lies_under_a_data_directory() {
    match default_repository_root() {
        Ok(path) => assert!(path.ends_with("Branchie/repository")),
        Err(e) => {
            assert_eq!(e.kind, ErrorKind::DirectoryUnavailable);
            assert_eq!(e.detail, "");
        }
    }
}

fn failed_query(fault: QueryFault) -> Result<bool, QueryFailure> {
    Err(QueryFailure { fault, cause: String::from("the system said no") })
}

#[test]
fn query_that_found_something_tells_what_it_is() {
    assert_eq!(judge_query(Ok(true)), Ok(EntryKind::Directory));
    assert_eq!(judge_query(Ok(false)), Ok(EntryKind::File));
}

#[test]
fn name_that_does_not_exist_is_missing() {
    assert_eq!(judge_query(failed_query(QueryFault::NotFound)), Ok(EntryKind::Missing));
}

#[test]
fn path_below_a_regular_file_is_missing() {
    assert_eq!(judge_query(failed_query(QueryFault::NotADirectory)), Ok(EntryKind::Missing));
    let found = judge_query(failed_query(QueryFault::NotADirectory));
    assert_eq!(validate_repository_path(found), Ok(false));
}

#[test]
fn query_that_could_not_be_made_is_a_failure() {
    assert_eq!(
        judge_query(failed_query(QueryFault::Other)),
        Err(String::from("the system said no"))
    );
    let e = validate_repository_path(judge_query(failed_query(QueryFault::Other))).unwrap_err();
    assert_eq!(e.kind, ErrorKind::IOFailure);
    assert_eq!(e.detail, "the system said no");
}
