use vstd::prelude::*;
use vstd::string::*;

verus! {

/// The kinds of failure that the repository verbs report.
#[derive(Clone, Copy, Debug, PartialEq, Eq, Structural)]
pub enum ErrorKind {
    NotARepo,
    Io,
    PathInvalid,
    MissingIdentity,
    UnbornHead,
    /// HEAD does not lead to a commit that a history walk can start from.
    DetachedHead,
    Internal,
}

/// libgit2's code for a missing object, reference or configuration key.
pub const CODE_NOT_FOUND: i32 = -3;

/// libgit2's code for a HEAD that points at a branch with no commits yet.
pub const CODE_UNBORN_BRANCH: i32 = -9;

/// libgit2's code for an object that cannot be peeled to the kind asked for.
pub const CODE_PEEL: i32 = -19;

/// libgit2's code for a path or spec that cannot be used.
pub const CODE_INVALID_SPEC: i32 = -12;

/// The step of a verb at which the adapter failed; it decides what a libgit2 code means.
#[derive(Clone, Copy, Debug, PartialEq, Eq, Structural)]
pub enum Step {
    /// Opening the repository.
    Open,
    /// Adding a path to, or removing it from, the index.
    IndexPath,
    /// Reading the author identity from the configuration.
    Identity,
    /// Resolving HEAD to a commit.
    Head,
    /// Resolving HEAD to the commit that a history walk starts from.
    Walk,
    /// Any other adapter call.
    Other,
}

/// The kind of failure that a libgit2 code stands for at a step.
pub open spec fn kind_for(step: Step, code: i32) -> ErrorKind {
    match step {
        Step::Open => if code == CODE_NOT_FOUND { ErrorKind::NotARepo } else { ErrorKind::Io },
        Step::IndexPath => if code == CODE_NOT_FOUND || code == CODE_INVALID_SPEC {
            ErrorKind::PathInvalid
        } else {
            ErrorKind::Io
        },
        Step::Identity => if code == CODE_NOT_FOUND { ErrorKind::MissingIdentity } else { ErrorKind::Io },
        Step::Head => if code == CODE_UNBORN_BRANCH || code == CODE_NOT_FOUND {
            ErrorKind::UnbornHead
        } else {
            ErrorKind::Io
        },
        Step::Walk => if code == CODE_UNBORN_BRANCH || code == CODE_NOT_FOUND {
            ErrorKind::UnbornHead
        } else if code == CODE_INVALID_SPEC || code == CODE_PEEL {
            ErrorKind::DetachedHead
        } else {
            ErrorKind::Io
        },
        Step::Other => ErrorKind::Io,
    }
}

pub fn classify(step: Step, code: i32) -> (r: ErrorKind)
    ensures
        r == kind_for(step, code),
{
    match step {
        Step::Open => if code == CODE_NOT_FOUND { ErrorKind::NotARepo } else { ErrorKind::Io },
        Step::IndexPath => if code == CODE_NOT_FOUND || code == CODE_INVALID_SPEC {
            ErrorKind::PathInvalid
        } else {
            ErrorKind::Io
        },
        Step::Identity => if code == CODE_NOT_FOUND { ErrorKind::MissingIdentity } else { ErrorKind::Io },
        Step::Head => if code == CODE_UNBORN_BRANCH || code == CODE_NOT_FOUND {
            ErrorKind::UnbornHead
        } else {
            ErrorKind::Io
        },
        Step::Walk => if code == CODE_UNBORN_BRANCH || code == CODE_NOT_FOUND {
            ErrorKind::UnbornHead
        } else if code == CODE_INVALID_SPEC || code == CODE_PEEL {
            ErrorKind::DetachedHead
        } else {
            ErrorKind::Io
        },
        Step::Other => ErrorKind::Io,
    }
}

/// A failed verb: what kind of failure, and the adapter's own words.
#[derive(Clone, Debug)]
pub struct RepoError {
    pub kind: ErrorKind,
    pub code: i32,
    pub message: String,
}

impl RepoError {
    /// An error of the library's own, with no adapter code behind it.
    pub fn internal(message: &str) -> (r: RepoError)
        ensures
            r.kind == ErrorKind::Internal,
            r.message@ == message@,
    {
        RepoError { kind: ErrorKind::Internal, code: 0, message: String::from_str(message) }
    }

    /// The error for a path that cannot be handed to the adapter.
    pub fn invalid_path(message: &str) -> (r: RepoError)
        ensures
            r.kind == ErrorKind::PathInvalid,
            r.code == 0,
            r.message@ == message@,
    {
        RepoError { kind: ErrorKind::PathInvalid, code: 0, message: String::from_str(message) }
    }

    /// The error for an adapter failure with `code` and `message` at `step`.
    pub fn from_code(step: Step, code: i32, message: String) -> (r: RepoError)
        ensures
            r.kind == kind_for(step, code),
            r.code == code,
            r.message == message,
    {
        RepoError { kind: classify(step, code), code, message }
    }
}

} // verus!
