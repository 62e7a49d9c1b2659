//! The adapter: the calls into git2 that the library relies on, each behind a small
//! trusted item. No state is kept here and no thread is started.
use vstd::prelude::*;
use vstd::string::*;

use crate::history::{is_object_id, RawCommit};
use crate::patch::{record_line, PatchLine};
use crate::verbs::nul_free;

verus! {

/// git2's repository handle, carried opaque.
#[verifier::external_type_specification]
#[verifier::external_body]
pub struct ExRepository(git2::Repository);

/// git2's error, read only through `error_code` and `error_message`.
#[verifier::external_type_specification]
#[verifier::external_body]
pub struct ExError(git2::Error);

/// git2's object id, carried opaque from the walk to the commit lookup.
#[verifier::external_type_specification]
#[verifier::external_body]
pub struct ExOid(git2::Oid);

/// git2's in-memory index, carried opaque.
#[verifier::external_type_specification]
#[verifier::external_body]
pub struct ExIndex(git2::Index);

/// git2's layered configuration, carried opaque.
#[verifier::external_type_specification]
#[verifier::external_body]
pub struct ExConfig(git2::Config);

/// git2's revision walk, carried opaque.
#[verifier::external_type_specification]
#[verifier::external_body]
pub struct ExRevwalk<'a>(git2::Revwalk<'a>);

/// git2's commit object, carried opaque.
#[verifier::external_type_specification]
#[verifier::external_body]
pub struct ExCommit<'a>(git2::Commit<'a>);

/// git2's tree object, carried opaque.
#[verifier::external_type_specification]
#[verifier::external_body]
pub struct ExTree<'a>(git2::Tree<'a>);

/// git2's author signature, carried opaque.
#[verifier::external_type_specification]
#[verifier::external_body]
pub struct ExSignature<'a>(git2::Signature<'a>);

/// Relies on git2::Repository::open: opens the repository found at `path`.
#[verifier::external_body]
pub(crate) fn open_repository(path: &str) -> (r: Result<git2::Repository, git2::Error>) {
    git2::Repository::open(path)
}

/// Relies on git2::Repository::commondir: the repository's common directory, as text.
/// libgit2 sets it for every repository opened from a path, always with a trailing
/// slash; only `RepoCache`, whose handle comes from `open_repository`, reaches this call.
#[verifier::external_body]
pub(crate) fn common_dir(repo: &git2::Repository) -> (r: String)
    ensures
        r@.len() > 0,
{
    repo.commondir().to_string_lossy().into_owned()
}

/// Relies on git2::Error::raw_code: libgit2's numeric code of the failure.
#[verifier::external_body]
pub(crate) fn error_code(e: &git2::Error) -> (r: i32) {
    e.raw_code() as i32
}

/// Relies on git2::Error::message: libgit2's description of the failure.
#[verifier::external_body]
pub(crate) fn error_message(e: &git2::Error) -> (r: String) {
    e.message().to_string()
}

/// Relies on git2::Repository::index: the repository's index.
#[verifier::external_body]
pub(crate) fn open_index(repo: &git2::Repository) -> (r: Result<git2::Index, git2::Error>) {
    repo.index()
}

/// Relies on git2::Index::add_path: stages the working-tree file at `path`.
#[verifier::external_body]
pub(crate) fn index_add_path(index: &mut git2::Index, path: &str) -> (r: Result<(), git2::Error>) {
    index.add_path(std::path::Path::new(path))
}

/// Relies on git2::Index::remove_path: drops the entry for `path` from the index.
#[verifier::external_body]
pub(crate) fn index_remove_path(index: &mut git2::Index, path: &str) -> (r: Result<(), git2::Error>) {
    index.remove_path(std::path::Path::new(path))
}

/// Relies on git2::Index::write: writes the index back to disk.
#[verifier::external_body]
pub(crate) fn index_write(index: &mut git2::Index) -> (r: Result<(), git2::Error>) {
    index.write()
}

/// Relies on git2::Index::write_tree: writes the index as a tree object and gives its id.
#[verifier::external_body]
pub(crate) fn index_write_tree(index: &mut git2::Index) -> (r: Result<git2::Oid, git2::Error>) {
    index.write_tree()
}

/// Relies on git2::Repository::config: the repository's configuration.
#[verifier::external_body]
pub(crate) fn open_config(repo: &git2::Repository) -> (r: Result<git2::Config, git2::Error>) {
    repo.config()
}

/// Relies on git2::Config::get_string: the value of `key`; a missing key fails with
/// libgit2's not-found code.
#[verifier::external_body]
pub(crate) fn config_string(config: &git2::Config, key: &str) -> (r: Result<String, git2::Error>) {
    config.get_string(key)
}

/// Relies on git2::Repository::head and Reference::peel_to_commit: the commit that HEAD
/// resolves to.
#[verifier::external_body]
pub(crate) fn head_commit<'a>(repo: &'a git2::Repository) -> (r: Result<git2::Commit<'a>, git2::Error>) {
    repo.head()?.peel_to_commit()
}

/// Relies on git2::Commit::tree: the tree of a commit.
#[verifier::external_body]
pub(crate) fn commit_tree<'a>(commit: &git2::Commit<'a>) -> (r: Result<git2::Tree<'a>, git2::Error>) {
    commit.tree()
}

/// Relies on git2::Repository::find_tree: the tree object with id `id`.
#[verifier::external_body]
pub(crate) fn find_tree<'a>(repo: &'a git2::Repository, id: git2::Oid) -> (r: Result<git2::Tree<'a>, git2::Error>) {
    repo.find_tree(id)
}

/// Relies on git2::Signature::now: a signature for `name` and `email` at the current time.
#[verifier::external_body]
pub(crate) fn signature_now(name: &str, email: &str) -> (r: Result<git2::Signature<'static>, git2::Error>) {
    git2::Signature::now(name, email)
}

/// Relies on git2::Repository::commit: records a commit of `tree` with the one parent
/// `parent`, signed by `sig` as author and committer, and moves `update_ref` to it.
#[verifier::external_body]
pub(crate) fn create_commit(
    repo: &git2::Repository,
    update_ref: &str,
    sig: &git2::Signature<'_>,
    message: &str,
    tree: &git2::Tree<'_>,
    parent: &git2::Commit<'_>,
) -> (r: Result<git2::Oid, git2::Error>) {
    repo.commit(Some(update_ref), sig, sig, message, tree, &[parent])
}

/// Relies on git2::Repository::diff_tree_to_workdir and Diff::print in patch format:
/// the lines of the patch from `tree` to the working tree, restricted to `path`, in the
/// order emitted, each with its origin marker and its bytes. `DiffOptions::pathspec`
/// unwraps the path's conversion to a C string, so the path holds no NUL byte.
#[verifier::external_body]
pub(crate) fn patch_lines(
    repo: &git2::Repository,
    tree: &git2::Tree<'_>,
    path: &str,
    minimal: bool,
) -> (r: Result<Vec<PatchLine>, git2::Error>)
    requires
        nul_free(path.spec_bytes()),
{
    let mut opts = git2::DiffOptions::new();
    opts.minimal(minimal);
    opts.pathspec(path);
    let diff = repo.diff_tree_to_workdir(Some(tree), Some(&mut opts))?;
    let mut lines = Vec::new();
    diff.print(git2::DiffFormat::Patch, |_delta, _hunk, line| {
        record_line(&mut lines, line.origin().to_string(), line.content().to_vec())
    })?;
    Ok(lines)
}

/// Relies on git2::Repository::statuses: one `(path, status bits)` pair per entry, in
/// libgit2's order; a path that is not UTF-8 comes back as `None`.
#[verifier::external_body]
pub(crate) fn status_entries(
    repo: &git2::Repository,
    include_untracked: bool,
    recurse_untracked_dirs: bool,
) -> (r: Result<Vec<(Option<String>, u32)>, git2::Error>) {
    let mut opts = git2::StatusOptions::new();
    opts.include_untracked(include_untracked).recurse_untracked_dirs(recurse_untracked_dirs);
    let statuses = repo.statuses(Some(&mut opts))?;
    Ok(statuses.iter().map(|e| (e.path().ok().map(|p| p.to_string()), e.status().bits())).collect())
}

/// Relies on git2::Repository::revwalk and Revwalk::push_head: a walk that starts at HEAD.
#[verifier::external_body]
pub(crate) fn walk_from_head<'a>(repo: &'a git2::Repository) -> (r: Result<git2::Revwalk<'a>, git2::Error>) {
    let mut walk = repo.revwalk()?;
    walk.push_head()?;
    Ok(walk)
}

/// Relies on Revwalk's `Iterator::next`: the next commit of the walk, if any.
#[verifier::external_body]
pub(crate) fn walk_next(walk: &mut git2::Revwalk<'_>) -> (r: Option<Result<git2::Oid, git2::Error>>) {
    walk.next()
}

/// Relies on git2::Repository::find_commit and the commit's accessors: its id as text
/// (Oid's `Display`, libgit2's lowercase hex), author name and email, commit time in
/// seconds and message; a name, email or message that is not UTF-8 comes back as `None`.
#[verifier::external_body]
pub(crate) fn read_commit(repo: &git2::Repository, id: git2::Oid) -> (r: Result<RawCommit, git2::Error>)
    ensures
        r matches Ok(c) ==> is_object_id(c.id@),
{
    let commit = repo.find_commit(id)?;
    let author = commit.author();
    Ok(RawCommit {
        id: commit.id().to_string(),
        name: author.name().ok().map(|s| s.to_string()),
        email: author.email().ok().map(|s| s.to_string()),
        seconds: commit.time().seconds(),
        message: commit.message().ok().map(|s| s.to_string()),
    })
}

/// Relies on std's SystemTime::now: the wall clock.
#[verifier::external_body]
pub(crate) fn wall_clock() -> (r: std::time::SystemTime) {
    std::time::SystemTime::now()
}

} // verus!
