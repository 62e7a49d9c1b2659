//! A small git client core: a repository cache that keeps cheap, whole-snapshot
//! projections of the working-tree status and of recent history, next to the
//! verbs that stage, unstage, commit and diff.
mod git;

pub mod error;
pub mod status;
pub mod history;
pub mod patch;
pub mod projection;
pub mod verbs;
pub mod cache;

pub use cache::RepoCache;
pub use error::{ErrorKind, RepoError};
pub use history::{LogItem, MAX_LOG};
pub use status::{FileStatus, StatusFlags};
