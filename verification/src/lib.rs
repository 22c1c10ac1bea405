//! Keeping a local clone of a remote repository in step with its remote,
//! with the credential for the remote held in the platform's vault.
//!
//! This library holds the decisions and none of the effects. It derives
//! the directory of the clone from the URL, composes paths, chooses
//! between a fresh clone and an update, and turns what the vault, the
//! filesystem and the transport report into results. The caller reaches
//! the vault, the filesystem and the remote, and reports back:
//!
//! - [`url`] derives the directory name from a repository URL;
//! - [`path`] composes paths and resolves the default place for clones;
//! - [`repository`] decides whether a path holds a working copy;
//! - [`vault`] names the failures of the credential vault;
//! - [`transport`] names the outcomes of a clone or a fetch;
//! - [`protocol`] and [`sync`] are the engine that runs a synchronisation
//!   step by step;
//! - [`guarantees`] states what holds of every run of the engine;
//! - [`error`] is the failure value that all of them share;
//! - [`text`] holds small helpers for text.

pub mod error;
pub mod guarantees;
pub mod path;
pub mod protocol;
pub mod repository;
pub mod sync;
pub mod text;
pub mod transport;
pub mod url;
pub mod vault;
