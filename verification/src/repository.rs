//! Deciding whether a path already holds a working copy.
//!
//! A path is a repository exactly when the metadata directory exists
//! directly under it and is itself a directory.

use vstd::prelude::*;
use crate::error::{ErrorKind, SyncError, SyncErrorView};
use crate::path::{join, joined, EntryKind};

verus! {

/// The name of the directory that marks a working copy.
pub open spec fn metadata_dir() -> Seq<char> {
    ".git"@
}

/// Where the metadata directory of a working copy at `path` lies.
pub open spec fn metadata_path(path: Seq<char>) -> Seq<char> {
    joined(path, metadata_dir())
}

/// Whether finding an entry of this kind at the metadata path means that
/// a working copy is there: a file of that name does not count.
pub open spec fn is_repository(kind: EntryKind) -> bool {
    kind == EntryKind::Directory
}

/// The path to query in order to learn whether `path` holds a working
/// copy.
pub fn metadata_location(path: &str) -> (p: String)
    ensures
        p@ == metadata_path(path@),
{
    join(path, ".git")
}

/// Judges whether a path holds a working copy from what a query found at
/// its metadata path.
///
/// The only failure is a query that could not be made, reported as
/// `IOFailure` with its cause.
pub fn check_repository_exists(probe: Result<EntryKind, String>) -> (r: Result<bool, SyncError>)
    ensures
        match r {
            Ok(present) => probe matches Ok(kind) && present == is_repository(kind),
            Err(e) => probe matches Err(cause) && e@ == (SyncErrorView {
                kind: ErrorKind::IOFailure,
                detail: cause@,
            }),
        },
{
    match probe {
        Ok(kind) => Ok(
            match kind {
                EntryKind::Directory => true,
                _ => false,
            },
        ),
        Err(cause) => Err(SyncError::new(ErrorKind::IOFailure, cause)),
    }
}

} // verus!
