//! Composing paths, resolving the default place for clones, and judging
//! what a filesystem query found.
//!
//! Paths are text with `/` between their components. Nothing here touches
//! the filesystem: the caller looks, creates, and reports what happened.
//! The one thing asked of the platform is where the user's data directory
//! lies.

use vstd::prelude::*;
use vstd::string::StringExecFns;
use crate::error::{ErrorKind, SyncError, SyncErrorView};
use crate::text::cause_view;

verus! {

/// What a filesystem query found at a path.
#[derive(Clone, Copy, Debug, PartialEq, Eq, Structural)]
pub enum EntryKind {
    /// Nothing exists at the path.
    Missing,
    /// Something that is not a directory: a regular file, or a link that
    /// does not resolve to a directory.
    File,
    /// A directory, or a link that resolves to one.
    Directory,
}

/// Why a query of the filesystem failed, as far as the rules here read
/// it.
#[derive(Clone, Copy, Debug, PartialEq, Eq, Structural)]
pub enum QueryFault {
    /// Nothing has the name that was asked for.
    NotFound,
    /// The path leads through something that is no directory.
    NotADirectory,
    /// Any other reason: the query itself could not be made.
    Other,
}

/// A failed query of the filesystem: why it failed, and the system's own
/// description of it.
#[derive(Clone, Debug, PartialEq, Eq)]
pub struct QueryFailure {
    pub fault: QueryFault,
    pub cause: String,
}

/// The mathematical content of a [`QueryFailure`].
pub struct QueryFailureView {
    pub fault: QueryFault,
    pub cause: Seq<char>,
}

impl View for QueryFailure {
    type V = QueryFailureView;

    open spec fn view(&self) -> QueryFailureView {
        QueryFailureView { fault: self.fault, cause: self.cause@ }
    }
}

/// The directory under the per-user data directory that belongs to this
/// application.
pub open spec fn app_dir() -> Seq<char> {
    "Branchie"@
}

/// The directory under [`app_dir`] that holds the clones.
pub open spec fn repository_leaf() -> Seq<char> {
    "repository"@
}

/// `name` placed under `base`: one `/` stands between them unless `base`
/// is empty or already ends in one.
pub open spec fn joined(base: Seq<char>, name: Seq<char>) -> Seq<char> {
    if base.len() == 0 {
        name
    } else if base.last() == '/' {
        base + name
    } else {
        base + seq!['/'] + name
    }
}

/// The default place for clones under the data directory `data_dir`.
pub open spec fn default_root(data_dir: Seq<char>) -> Seq<char> {
    joined(joined(data_dir, app_dir()), repository_leaf())
}

/// Whether an entry of this kind can hold clones: it has to exist and be
/// a directory.
pub open spec fn is_usable_directory(kind: EntryKind) -> bool {
    kind == EntryKind::Directory
}

/// Whether the fault says that nothing is at the path: no such name, or a
/// path that leads through something that is no directory.
pub open spec fn is_absence(fault: QueryFault) -> bool {
    fault == QueryFault::NotFound || fault == QueryFault::NotADirectory
}

/// What is at a path, given what a query of it answered: whether it is a
/// directory, or why the query failed. A fault that says nothing is there
/// is an answer; any other fault is a failure, with the system's
/// description as its cause.
pub open spec fn found_entry(answer: Result<bool, QueryFailureView>) -> Result<
    EntryKind,
    Seq<char>,
> {
    match answer {
        Ok(is_directory) => Ok(
            if is_directory {
                EntryKind::Directory
            } else {
                EntryKind::File
            },
        ),
        Err(failure) => if is_absence(failure.fault) {
            Ok(EntryKind::Missing)
        } else {
            Err(failure.cause)
        },
    }
}

/// The views of the two forms an answer to a query takes.
pub open spec fn answer_view(answer: Result<bool, QueryFailure>) -> Result<
    bool,
    QueryFailureView,
> {
    match answer {
        Ok(is_directory) => Ok(is_directory),
        Err(failure) => Err(failure@),
    }
}

/// Whether a directory has to be created at a path, given what a query
/// found there: always, unless a directory was found. Something else of
/// that name, or a query that could not be made, still calls for the
/// attempt, whose failure then says what stands in the way.
pub open spec fn creation_needed(probe: Result<EntryKind, String>) -> bool {
    match probe {
        Ok(kind) => !is_usable_directory(kind),
        Err(_) => true,
    }
}

/// The cause given where no directory was found and none was made.
pub open spec fn nothing_attempted() -> Seq<char> {
    "no directory was found and none was created"@
}

/// What an attempt to create a directory is, to the contracts: nothing,
/// or how it ended, with the text of its failure taken as characters.
pub open spec fn attempt_view(attempt: Option<Result<(), String>>) -> Option<
    Result<(), Seq<char>>,
> {
    match attempt {
        Some(ended) => Some(cause_view(ended)),
        None => None,
    }
}

/// The result of resolving the directory at `path`, given what a query
/// found there and how the attempt to create it ended, if one was made.
///
/// It is the path itself exactly where a directory is known to be there:
/// the attempt succeeded, or none was made and the query had found a
/// directory. Everything else is an `IOFailure`: with the cause of the
/// attempt where it failed, and otherwise with the cause of the query or,
/// where the query found no directory, with [`nothing_attempted`].
pub open spec fn confirmed(
    path: Seq<char>,
    found: Result<EntryKind, Seq<char>>,
    attempt: Option<Result<(), Seq<char>>>,
) -> Result<Seq<char>, SyncErrorView> {
    match attempt {
        Some(Ok(_)) => Ok(path),
        Some(Err(cause)) => Err(SyncErrorView { kind: ErrorKind::IOFailure, detail: cause }),
        None => match found {
            Ok(kind) => if is_usable_directory(kind) {
                Ok(path)
            } else {
                Err(SyncErrorView { kind: ErrorKind::IOFailure, detail: nothing_attempted() })
            },
            Err(cause) => Err(SyncErrorView { kind: ErrorKind::IOFailure, detail: cause }),
        },
    }
}

/// Places `name` under `base`.
pub fn join(base: &str, name: &str) -> (p: String)
    ensures
        p@ == joined(base@, name@),
{
    let n = base.unicode_len();
    let mut p = String::from_str(base);
    if n > 0 && base.get_char(n - 1) != '/' {
        proof {
            reveal_strlit("/");
            assert("/"@ =~= seq!['/']);
        }
        p.append("/");
    }
    p.append(name);
    proof {
        if n == 0 {
            assert(base@ + name@ =~= name@);
        }
    }
    p
}

/// The default place for clones, given the per-user data directory if the
/// platform has one.
///
/// Fails with `DirectoryUnavailable` exactly when there is no data
/// directory.
pub fn get_default_repository_path(data_dir: Option<&str>) -> (r: Result<String, SyncError>)
    ensures
        match r {
            Ok(p) => data_dir matches Some(d) && p@ == default_root(d@),
            Err(e) => data_dir is None && e@ == (SyncErrorView {
                kind: ErrorKind::DirectoryUnavailable,
                detail: Seq::<char>::empty(),
            }),
        },
{
    match data_dir {
        None => Err(SyncError::bare(ErrorKind::DirectoryUnavailable)),
        Some(d) => {
            let app = join(d, "Branchie");
            Ok(join(app.as_str(), "repository"))
        },
    }
}

/// The per-user data directory as `dirs::data_dir` reports it, as text;
/// none where the platform has none or where its path is not text.
///
/// Nothing is claimed of the result: it depends on the platform and on
/// the environment of the process.
#[verifier::external_body]
fn platform_data_dir() -> (dir: Option<String>) {
    match dirs::data_dir() {
        Some(path) => path.into_os_string().into_string().ok(),
        None => None,
    }
}

/// The default place for clones on this machine, for this user.
///
/// Whatever the platform reports, the result is the default place under
/// some data directory, or `DirectoryUnavailable` with no cause text.
/// Which data directory it is depends on the environment, so two calls
/// need not agree; [`get_default_repository_path`] says what the place is
/// for a given one.
pub fn default_repository_root() -> (r: Result<String, SyncError>)
    ensures
        match r {
            Ok(p) => exists|d: Seq<char>| p@ == #[trigger] default_root(d),
            Err(e) => e@ == (SyncErrorView {
                kind: ErrorKind::DirectoryUnavailable,
                detail: Seq::<char>::empty(),
            }),
        },
{
    match platform_data_dir() {
        Some(dir) => get_default_repository_path(Some(dir.as_str())),
        None => get_default_repository_path(None),
    }
}

/// Judges what is at a path from what a query of it answered, as
/// [`found_entry`] says.
pub fn judge_query(answer: Result<bool, QueryFailure>) -> (found: Result<EntryKind, String>)
    ensures
        cause_view(found) == found_entry(answer_view(answer)),
{
    match answer {
        Ok(true) => Ok(EntryKind::Directory),
        Ok(false) => Ok(EntryKind::File),
        Err(failure) => match failure.fault {
            QueryFault::NotFound | QueryFault::NotADirectory => Ok(EntryKind::Missing),
            QueryFault::Other => Err(failure.cause),
        },
    }
}

/// Decides whether a directory has to be created at a path from what a
/// query found there.
pub fn needs_creation(probe: &Result<EntryKind, String>) -> (needed: bool)
    ensures
        needed == creation_needed(*probe),
{
    match probe {
        Ok(EntryKind::Directory) => false,
        _ => true,
    }
}

/// Resolves the directory at `path` from what a query found there and
/// how the attempt to create it ended, if one was made, as [`confirmed`]
/// says.
pub fn confirm_directory(
    path: String,
    found: Result<EntryKind, String>,
    attempt: Option<Result<(), String>>,
) -> (r: Result<String, SyncError>)
    ensures
        match r {
            Ok(p) => confirmed(path@, cause_view(found), attempt_view(attempt)) == Ok::<
                Seq<char>,
                SyncErrorView,
            >(p@),
            Err(e) => confirmed(path@, cause_view(found), attempt_view(attempt)) == Err::<
                Seq<char>,
                SyncErrorView,
            >(e@),
        },
{
    match attempt {
        Some(Ok(_)) => Ok(path),
        Some(Err(cause)) => Err(SyncError::new(ErrorKind::IOFailure, cause)),
        None => match found {
            Ok(EntryKind::Directory) => Ok(path),
            Ok(_) => Err(
                SyncError::new(
                    ErrorKind::IOFailure,
                    String::from_str("no directory was found and none was created"),
                ),
            ),
            Err(cause) => Err(SyncError::new(ErrorKind::IOFailure, cause)),
        },
    }
}

/// Judges whether a path can hold clones from what a query found there.
///
/// A path with nothing at it, or with something that is not a directory,
/// is not usable; that is an answer, not a failure. The only failure is a
/// query that could not be made, reported as `IOFailure` with its cause.
pub fn validate_repository_path(probe: Result<EntryKind, String>) -> (r: Result<bool, SyncError>)
    ensures
        match r {
            Ok(usable) => probe matches Ok(kind) && usable == is_usable_directory(kind),
            Err(e) => probe matches Err(cause) && e@ == (SyncErrorView {
                kind: ErrorKind::IOFailure,
                detail: cause@,
            }),
        },
{
    match probe {
        Ok(kind) => Ok(
            match kind {
                EntryKind::Directory => true,
                _ => false,
            },
        ),
        Err(cause) => Err(SyncError::new(ErrorKind::IOFailure, cause)),
    }
}

/// A directory is made exactly where the path is not yet usable: the
/// decision to create and the judgement of the path never disagree.
pub proof fn lemma_creation_is_needed_unless_usable(probe: Result<EntryKind, String>)
    ensures
        creation_needed(probe) <==> !(probe is Ok && is_usable_directory(probe->Ok_0)),
{
}

/// A path is resolved only where a directory is known to be there: the
/// attempt to create it succeeded, or none was made and a directory had
/// been found, which is then a usable one. A file of that name is never
/// taken for the directory.
pub proof fn lemma_resolved_means_directory(
    path: Seq<char>,
    found: Result<EntryKind, Seq<char>>,
    attempt: Option<Result<(), Seq<char>>>,
)
    requires
        confirmed(path, found, attempt) is Ok,
    ensures
        confirmed(path, found, attempt) == Ok::<Seq<char>, SyncErrorView>(path),
        attempt is Some ==> attempt->Some_0 is Ok,
        attempt is None ==> found is Ok && is_usable_directory(found->Ok_0),
{
}

/// Resolving the default place gives the same path on every call: the
/// call that has to make the directory and the call that finds it there
/// agree.
pub proof fn lemma_default_root_is_stable(path: Seq<char>, found: Result<EntryKind, Seq<char>>)
    ensures
        confirmed(path, found, Some(Ok(()))) == confirmed(
            path,
            Ok(EntryKind::Directory),
            None,
        ),
        confirmed(path, found, Some(Ok(()))) == Ok::<Seq<char>, SyncErrorView>(path),
{
}

} // verus!
