//! The repository verbs on a bare repository handle. Each holds the handle only for
//! its own call; the cache composes them with its projections.
use vstd::prelude::*;
use vstd::string::*;

use crate::error::{kind_for, ErrorKind, RepoError, Step};
use crate::git;
use crate::history::{is_object_id, log_from_commits, log_view, LogItem, RawCommit};
use crate::patch::{patch_text, render_patch, PatchLine};
use crate::projection::log_items_view;
use crate::status::{snapshot_from_entries, snapshot_of, statuses_view, FileStatus};

verus! {

/// The reference that a new commit moves.
pub const COMMIT_REF: &'static str = "HEAD";

/// Status refreshes list untracked files.
pub const INCLUDE_UNTRACKED: bool = true;

/// Status refreshes list the files inside untracked directories one by one.
pub const RECURSE_UNTRACKED_DIRS: bool = true;

/// Diffs are computed with the minimal-diff heuristic.
pub const MINIMAL_DIFF: bool = true;

/// What the log projection holds of each of the commits, in order.
pub open spec fn logs_of(cs: Seq<RawCommit>) -> Seq<crate::projection::LogView> {
    cs.map_values(|c: RawCommit| log_view(c))
}

/// The library's error for an adapter failure at `step`.
fn fail(step: Step, e: git2::Error) -> (r: RepoError)
    ensures
        r.kind == kind_for(step, r.code),
{
    let code = git::error_code(&e);
    let message = git::error_message(&e);
    RepoError::from_code(step, code, message)
}

/// Text that can become a C string: it holds no NUL byte.
pub open spec fn nul_free(b: Seq<u8>) -> bool {
    forall|i: int| 0 <= i < b.len() ==> b[i] != 0u8
}

/// A path that names a file of the working tree: not empty, not absolute, not led by
/// `./` or `../`, and free of NUL.
pub open spec fn index_path_ok(b: Seq<u8>) -> bool {
    &&& b.len() > 0
    &&& b[0] != 47u8
    &&& !(b.len() >= 2 && b[0] == 46u8 && b[1] == 47u8)
    &&& !(b.len() >= 3 && b[0] == 46u8 && b[1] == 46u8 && b[2] == 47u8)
    &&& nul_free(b)
}

pub fn is_nul_free(path: &str) -> (r: bool)
    ensures
        r == nul_free(path.spec_bytes()),
{
    let bytes = path.as_bytes();
    let mut i: usize = 0;
    while i < bytes.len()
        invariant
            i <= bytes@.len(),
            bytes@ == path.spec_bytes(),
            forall|k: int| 0 <= k < i ==> bytes@[k] != 0u8,
        decreases bytes@.len() - i,
    {
        if bytes[i] == 0u8 {
            return false;
        }
        i += 1;
    }
    true
}

pub fn is_index_path(path: &str) -> (r: bool)
    ensures
        r == index_path_ok(path.spec_bytes()),
{
    let bytes = path.as_bytes();
    if bytes.len() == 0 || bytes[0] == 47u8 {
        return false;
    }
    if bytes.len() >= 2 && bytes[0] == 46u8 && bytes[1] == 47u8 {
        return false;
    }
    if bytes.len() >= 3 && bytes[0] == 46u8 && bytes[1] == 46u8 && bytes[2] == 47u8 {
        return false;
    }
    is_nul_free(path)
}

/// Whether a history read failed because HEAD leads to no commit: it has none yet, or
/// it does not point at one.
pub open spec fn headless(read: Result<Vec<LogItem>, RepoError>) -> bool {
    read matches Err(e) && (e.kind == ErrorKind::UnbornHead || e.kind == ErrorKind::DetachedHead)
}

/// The log window that a refresh publishes for a history read: a HEAD that leads to no
/// commit gives an empty log; any other outcome is passed on.
pub fn log_or_empty(read: Result<Vec<LogItem>, RepoError>) -> (r: Result<Vec<LogItem>, RepoError>)
    ensures
        headless(read) ==> (r matches Ok(v) && v@.len() == 0),
        !headless(read) ==> r == read,
{
    match read {
        Err(e) => if e.kind == ErrorKind::UnbornHead || e.kind == ErrorKind::DetachedHead {
            Ok(Vec::new())
        } else {
            Err(e)
        },
        Ok(v) => Ok(v),
    }
}

/// The repository's common directory, where its objects and references live.
pub(crate) fn root_dir(repo: &git2::Repository) -> (r: String)
    ensures
        r@.len() > 0,
{
    git::common_dir(repo)
}

/// Lists the status of every changed, staged or untracked path.
pub fn read_statuses(repo: &git2::Repository) -> (r: Result<Vec<FileStatus>, RepoError>)
    ensures
        r matches Ok(v) ==> exists|entries: Seq<(Option<String>, u32)>|
            statuses_view(v@) == snapshot_of(entries),
        r matches Ok(v) ==> forall|i: int| 0 <= i < v@.len() ==> (#[trigger] v@[i]).status.any_predicate(),
        r matches Err(e) ==> e.kind == ErrorKind::Io,
{
    match git::status_entries(repo, INCLUDE_UNTRACKED, RECURSE_UNTRACKED_DIRS) {
        Ok(entries) => Ok(snapshot_from_entries(&entries)),
        Err(e) => Err(fail(Step::Other, e)),
    }
}

/// One step of taking the history window: `next` is what the walk gave next, with
/// its commit read. The walk's end stops the window; a commit is appended, and taking
/// goes on while the window is short of `max`; a failure ends it with that failure.
pub fn take_commit(commits: &mut Vec<RawCommit>, max: usize, next: Option<Result<RawCommit, RepoError>>) -> (r: Result<bool, RepoError>)
    requires
        old(commits)@.len() < max,
    ensures
        next is None ==> (r matches Ok(more) && !more) && final(commits)@ == old(commits)@,
        next matches Some(Ok(c)) ==> final(commits)@ == old(commits)@.push(c)
            && (r matches Ok(more) && more == (final(commits)@.len() < max)),
        next matches Some(Err(e)) ==> r == Err::<bool, RepoError>(e) && final(commits)@ == old(commits)@,
{
    match next {
        None => Ok(false),
        Some(Ok(c)) => {
            commits.push(c);
            Ok(commits.len() < max)
        },
        Some(Err(e)) => Err(e),
    }
}

/// Summarises at most `max_commits` commits, walking back from HEAD in the walk's
/// order, until the walk ends or the window is full.
pub fn read_log(repo: &git2::Repository, max_commits: usize) -> (r: Result<Vec<LogItem>, RepoError>)
    ensures
        max_commits == 0 ==> (r matches Ok(v) && v@.len() == 0),
        r matches Ok(v) ==> v@.len() <= max_commits,
        r matches Ok(v) ==> exists|cs: Seq<RawCommit>|
            cs.len() == v@.len() && log_items_view(v@) == #[trigger] logs_of(cs),
        r matches Ok(v) ==> forall|i: int| 0 <= i < v@.len() ==> is_object_id((#[trigger] v@[i]).commit@),
        r matches Err(e) ==> e.kind == ErrorKind::Io || e.kind == ErrorKind::UnbornHead
            || e.kind == ErrorKind::DetachedHead,
{
    let mut commits: Vec<RawCommit> = Vec::new();
    if max_commits == 0 {
        let empty: Vec<LogItem> = Vec::new();
        assert(log_items_view(empty@) =~= logs_of(commits@));
        return Ok(empty);
    }
    if let Err(e) = git::head_commit(repo) {
        return Err(fail(Step::Walk, e));
    }
    let mut walk = match git::walk_from_head(repo) {
        Ok(w) => w,
        Err(e) => return Err(fail(Step::Other, e)),
    };
    loop
        invariant_except_break
            commits@.len() < max_commits,
        invariant
            commits@.len() <= max_commits,
            forall|k: int| 0 <= k < commits@.len() ==> is_object_id((#[trigger] commits@[k]).id@),
        decreases max_commits - commits@.len(),
    {
        let next = match git::walk_next(&mut walk) {
            None => None,
            Some(Err(e)) => Some(Err(fail(Step::Other, e))),
            Some(Ok(id)) => match git::read_commit(repo, id) {
                Ok(c) => Some(Ok(c)),
                Err(e) => Some(Err(fail(Step::Other, e))),
            },
        };
        match take_commit(&mut commits, max_commits, next) {
            Ok(more) => if !more {
                break;
            },
            Err(e) => return Err(e),
        }
    }
    let log = log_from_commits(&commits, max_commits);
    assert(log_items_view(log@) =~= logs_of(commits@));
    Ok(log)
}

/// Adds the working-tree file at `path` to the index and writes the index.
pub fn stage_path(repo: &git2::Repository, path: &str) -> (r: Result<(), RepoError>)
    ensures
        r matches Err(e) ==> e.kind == ErrorKind::Io || e.kind == ErrorKind::PathInvalid,
        !index_path_ok(path.spec_bytes()) ==> (r matches Err(e) && e.kind == ErrorKind::PathInvalid && e.code == 0),
        (r matches Err(e) && e.kind == ErrorKind::PathInvalid && e.code == 0) ==> !index_path_ok(path.spec_bytes()),
{
    if !is_index_path(path) {
        return Err(RepoError::invalid_path("the path is empty, absolute, leaves the working tree or holds a NUL byte"));
    }
    let mut index = match git::open_index(repo) {
        Ok(i) => i,
        Err(e) => return Err(fail(Step::Other, e)),
    };
    if let Err(e) = git::index_add_path(&mut index, path) {
        return Err(fail(Step::IndexPath, e));
    }
    match git::index_write(&mut index) {
        Ok(()) => Ok(()),
        Err(e) => Err(fail(Step::Other, e)),
    }
}

/// Removes `path` from the index and writes the index.
pub fn unstage_path(repo: &git2::Repository, path: &str) -> (r: Result<(), RepoError>)
    ensures
        r matches Err(e) ==> e.kind == ErrorKind::Io || e.kind == ErrorKind::PathInvalid,
        !index_path_ok(path.spec_bytes()) ==> (r matches Err(e) && e.kind == ErrorKind::PathInvalid && e.code == 0),
        (r matches Err(e) && e.kind == ErrorKind::PathInvalid && e.code == 0) ==> !index_path_ok(path.spec_bytes()),
{
    if !is_index_path(path) {
        return Err(RepoError::invalid_path("the path is empty, absolute, leaves the working tree or holds a NUL byte"));
    }
    let mut index = match git::open_index(repo) {
        Ok(i) => i,
        Err(e) => return Err(fail(Step::Other, e)),
    };
    if let Err(e) = git::index_remove_path(&mut index, path) {
        return Err(fail(Step::IndexPath, e));
    }
    match git::index_write(&mut index) {
        Ok(()) => Ok(()),
        Err(e) => Err(fail(Step::Other, e)),
    }
}

/// Records the index as a new commit on HEAD, whose parent is HEAD's commit, with
/// `message`, authored and committed by the configured `user.name` and `user.email`.
pub fn commit_index(repo: &git2::Repository, message: &str) -> (r: Result<(), RepoError>)
    ensures
        r matches Err(e) ==> e.kind == ErrorKind::Io || e.kind == ErrorKind::MissingIdentity
            || e.kind == ErrorKind::UnbornHead,
{
    let config = match git::open_config(repo) {
        Ok(c) => c,
        Err(e) => return Err(fail(Step::Other, e)),
    };
    let name = match git::config_string(&config, "user.name") {
        Ok(n) => n,
        Err(e) => return Err(fail(Step::Identity, e)),
    };
    let email = match git::config_string(&config, "user.email") {
        Ok(m) => m,
        Err(e) => return Err(fail(Step::Identity, e)),
    };
    let parent = match git::head_commit(repo) {
        Ok(c) => c,
        Err(e) => return Err(fail(Step::Head, e)),
    };
    let mut index = match git::open_index(repo) {
        Ok(i) => i,
        Err(e) => return Err(fail(Step::Other, e)),
    };
    let tree_id = match git::index_write_tree(&mut index) {
        Ok(t) => t,
        Err(e) => return Err(fail(Step::Other, e)),
    };
    let tree = match git::find_tree(repo, tree_id) {
        Ok(t) => t,
        Err(e) => return Err(fail(Step::Other, e)),
    };
    let sig = match git::signature_now(name.as_str(), email.as_str()) {
        Ok(s) => s,
        Err(e) => return Err(fail(Step::Other, e)),
    };
    match git::create_commit(repo, COMMIT_REF, &sig, message, &tree, &parent) {
        Ok(_) => Ok(()),
        Err(e) => Err(fail(Step::Other, e)),
    }
}

/// The patch from HEAD's tree to the working tree for `path`, rendered line by line.
pub fn diff_path(repo: &git2::Repository, path: &str) -> (r: Result<String, RepoError>)
    ensures
        r matches Ok(s) ==> exists|lines: Seq<PatchLine>| s@ == patch_text(lines),
        r matches Err(e) ==> e.kind == ErrorKind::Io || e.kind == ErrorKind::UnbornHead
            || e.kind == ErrorKind::PathInvalid,
        !nul_free(path.spec_bytes()) <==> (r matches Err(e) && e.kind == ErrorKind::PathInvalid),
{
    if !is_nul_free(path) {
        return Err(RepoError::invalid_path("the path holds a NUL byte"));
    }
    let head = match git::head_commit(repo) {
        Ok(c) => c,
        Err(e) => return Err(fail(Step::Head, e)),
    };
    let tree = match git::commit_tree(&head) {
        Ok(t) => t,
        Err(e) => return Err(fail(Step::Other, e)),
    };
    match git::patch_lines(repo, &tree, path, MINIMAL_DIFF) {
        Ok(lines) => Ok(render_patch(&lines)),
        Err(e) => Err(fail(Step::Other, e)),
    }
}

} // verus!
