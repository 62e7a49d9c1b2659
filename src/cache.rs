//! The repository cache: the repository handle together with the projections that
//! readers copy.
use vstd::prelude::*;
use vstd::string::*;

use crate::error::{ErrorKind, RepoError};
use crate::git;
use crate::history::{is_object_id, LogItem, RawCommit, MAX_LOG};
use crate::projection::{log_items_view, ProjectionState, Projections};
use crate::status::{snapshot_of, statuses_view, FileStatus};
use crate::verbs;
use crate::verbs::{index_path_ok, logs_of, nul_free};

verus! {

/// What one refresh does to the projections: it takes the next ticket; the status
/// snapshot either stays, or is replaced by this refresh's own with the refresh time
/// set; the log changes only where the log was read.
pub open spec fn refreshed(a: ProjectionState, b: ProjectionState, log_read: bool) -> bool {
    &&& b.wf()
    &&& b.issued == a.issued + 1
    &&& b.remote_refresh == a.remote_refresh
    &&& ((b.statuses == a.statuses && b.local_refresh == a.local_refresh && b.published == a.published)
        || (b.published == b.issued && b.local_refresh.is_some()
            && exists|entries: Seq<(Option<String>, u32)>| #[trigger] snapshot_of(entries) == b.statuses))
    &&& log_read ==> exists|cs: Seq<RawCommit>| #[trigger] logs_of(cs) == b.log
    &&& !log_read ==> b.log == a.log
}

/// What a verb that schedules a refresh leaves behind: nothing changes once tickets
/// are exhausted; otherwise one refresh ran, whether or not it read the log.
pub open spec fn after_scheduled_refresh(a: ProjectionState, b: ProjectionState) -> bool {
    ||| (a.issued == u64::MAX && b == a)
    ||| refreshed(a, b, true)
    ||| refreshed(a, b, false)
}

/// The cache over one open repository.
pub struct RepoCache {
    repo: git2::Repository,
    view: Projections,
}

impl View for RepoCache {
    type V = ProjectionState;

    closed spec fn view(&self) -> ProjectionState {
        self.view@
    }
}

impl RepoCache {
    pub open spec fn wf(&self) -> bool {
        self@.wf()
    }

    /// Opens the repository at `path`, with empty projections and no refresh yet.
    pub fn open(path: &str) -> (r: Result<RepoCache, RepoError>)
        ensures
            r matches Ok(c) ==> {
                &&& c.wf()
                &&& c@.statuses.len() == 0
                &&& c@.log.len() == 0
                &&& c@.local_refresh.is_none()
                &&& c@.remote_refresh.is_none()
                &&& c@.issued == 0
                &&& c@.published == 0
            },
            r matches Err(e) ==> e.kind == ErrorKind::NotARepo || e.kind == ErrorKind::Io,
    {
        match git::open_repository(path) {
            Ok(repo) => Ok(RepoCache { repo, view: Projections::new() }),
            Err(e) => {
                let code = git::error_code(&e);
                let message = git::error_message(&e);
                Err(RepoError::from_code(crate::error::Step::Open, code, message))
            },
        }
    }

    /// Takes the cache apart into the repository handle and the projections, so that
    /// each can be guarded on its own.
    pub fn into_parts(self) -> (r: (git2::Repository, Projections))
        ensures
            r.1@ == self@,
    {
        (self.repo, self.view)
    }

    pub fn get_local_refresh(&self) -> (r: Option<std::time::SystemTime>)
        ensures
            r == self@.local_refresh,
    {
        self.view.get_local_refresh()
    }

    pub fn get_remote_refresh(&self) -> (r: Option<std::time::SystemTime>)
        ensures
            r == self@.remote_refresh,
    {
        self.view.get_remote_refresh()
    }

    pub fn is_local_refreshed(&self) -> (r: bool)
        ensures
            r == self@.local_refresh.is_some(),
    {
        self.view.is_local_refreshed()
    }

    /// A copy of the status snapshot.
    pub fn get_statuses(&self) -> (r: Vec<FileStatus>)
        requires
            self.wf(),
        ensures
            statuses_view(r@) == self@.statuses,
            forall|i: int| 0 <= i < r@.len() ==> (#[trigger] r@[i]).status.any_predicate(),
    {
        self.view.get_statuses()
    }

    /// A copy of the log window, newest first.
    pub fn get_log(&self) -> (r: Vec<LogItem>)
        requires
            self.wf(),
        ensures
            log_items_view(r@) == self@.log,
            r@.len() <= MAX_LOG,
            forall|i: int| 0 <= i < r@.len() ==> is_object_id((#[trigger] r@[i]).commit@),
    {
        self.view.get_log()
    }

    /// The repository's common directory.
    pub fn get_root(&self) -> (r: String)
        ensures
            r@.len() > 0,
    {
        verbs::root_dir(&self.repo)
    }

    /// Summarises at most `max_commits` commits, walking back from HEAD in the walk's
    /// order until it ends or the window is full; a HEAD that has no commit yet, or does
    /// not point at one, gives an empty log.
    pub fn refresh_log(&self, max_commits: usize) -> (r: Result<Vec<LogItem>, RepoError>)
        ensures
            max_commits == 0 ==> (r matches Ok(v) && v@.len() == 0),
            r matches Ok(v) ==> v@.len() <= max_commits,
            r matches Ok(v) ==> exists|cs: Seq<RawCommit>|
                cs.len() == v@.len() && log_items_view(v@) == #[trigger] logs_of(cs),
            r matches Ok(v) ==> forall|i: int| 0 <= i < v@.len() ==> is_object_id((#[trigger] v@[i]).commit@),
            r matches Err(e) ==> e.kind == ErrorKind::Io,
    {
        let r = verbs::log_or_empty(verbs::read_log(&self.repo, max_commits));
        if let Ok(v) = &r {
            if v.len() == 0 {
                assert(log_items_view(v@) =~= logs_of(Seq::<RawCommit>::empty()));
            }
        }
        r
    }

    /// Recomputes the projections, running one refresh cycle to its end on the calling
    /// thread. The status snapshot read under a fresh ticket is published, with the time
    /// of publication; a failed read leaves the previous one. The log is read and
    /// published before returning, and its failure is the result. A host that refreshes
    /// statuses in the background takes the cache apart with `into_parts` and runs the
    /// same steps from its workers.
    pub fn refresh(&mut self) -> (r: Result<(), RepoError>)
        requires
            old(self).wf(),
        ensures
            final(self).wf(),
            (r matches Err(e) && e.kind == ErrorKind::Internal) <==> old(self)@.issued == u64::MAX,
            old(self)@.issued == u64::MAX ==> final(self)@ == old(self)@,
            old(self)@.issued < u64::MAX ==> refreshed(old(self)@, final(self)@, r is Ok),
            r matches Err(e) ==> e.kind == ErrorKind::Internal || e.kind == ErrorKind::Io,
    {
        let ticket = match self.view.begin_refresh() {
            Some(t) => t,
            None => return Err(RepoError::internal("refresh tickets are exhausted")),
        };
        let read = verbs::read_statuses(&self.repo);
        let now = git::wall_clock();
        self.view.apply_status_read(ticket, read, now);
        let log = self.refresh_log(MAX_LOG)?;
        self.view.publish_log(log);
        Ok(())
    }

    /// Stages `path`, then schedules a refresh whose own failure is not this verb's.
    /// A failure to stage leaves the cache as it was.
    pub fn stage(&mut self, path: &str) -> (r: Result<(), RepoError>)
        requires
            old(self).wf(),
        ensures
            final(self).wf(),
            r matches Err(e) ==> e.kind == ErrorKind::Io || e.kind == ErrorKind::PathInvalid,
            !index_path_ok(path.spec_bytes()) ==> (r matches Err(e) && e.kind == ErrorKind::PathInvalid && e.code == 0),
            (r matches Err(e) && e.kind == ErrorKind::PathInvalid && e.code == 0) ==> !index_path_ok(path.spec_bytes()),
            r is Err ==> final(self)@ == old(self)@,
            r is Ok ==> after_scheduled_refresh(old(self)@, final(self)@),
    {
        verbs::stage_path(&self.repo, path)?;
        let ghost before = self@;
        let refreshed_now = self.refresh();
        proof {
            if before.issued < u64::MAX {
                if refreshed_now is Ok {
                    assert(refreshed(before, self@, true));
                } else {
                    assert(refreshed(before, self@, false));
                }
            }
        }
        Ok(())
    }

    /// Unstages `path`, then schedules a refresh whose own failure is not this verb's.
    /// A failure to unstage leaves the cache as it was.
    pub fn unstage(&mut self, path: &str) -> (r: Result<(), RepoError>)
        requires
            old(self).wf(),
        ensures
            final(self).wf(),
            r matches Err(e) ==> e.kind == ErrorKind::Io || e.kind == ErrorKind::PathInvalid,
            !index_path_ok(path.spec_bytes()) ==> (r matches Err(e) && e.kind == ErrorKind::PathInvalid && e.code == 0),
            (r matches Err(e) && e.kind == ErrorKind::PathInvalid && e.code == 0) ==> !index_path_ok(path.spec_bytes()),
            r is Err ==> final(self)@ == old(self)@,
            r is Ok ==> after_scheduled_refresh(old(self)@, final(self)@),
    {
        verbs::unstage_path(&self.repo, path)?;
        let ghost before = self@;
        let refreshed_now = self.refresh();
        proof {
            if before.issued < u64::MAX {
                if refreshed_now is Ok {
                    assert(refreshed(before, self@, true));
                } else {
                    assert(refreshed(before, self@, false));
                }
            }
        }
        Ok(())
    }

    /// Commits the index with `message`, then refreshes; the refresh's own failure is
    /// not the commit's. A failed commit leaves the cache as it was.
    pub fn commit(&mut self, message: &str) -> (r: Result<(), RepoError>)
        requires
            old(self).wf(),
        ensures
            final(self).wf(),
            r is Err ==> final(self)@ == old(self)@,
            r matches Err(e) ==> e.kind == ErrorKind::Io || e.kind == ErrorKind::MissingIdentity
                || e.kind == ErrorKind::UnbornHead,
            r is Ok ==> after_scheduled_refresh(old(self)@, final(self)@),
    {
        verbs::commit_index(&self.repo, message)?;
        let ghost before = self@;
        let refreshed_now = self.refresh();
        proof {
            if before.issued < u64::MAX {
                if refreshed_now is Ok {
                    assert(refreshed(before, self@, true));
                } else {
                    assert(refreshed(before, self@, false));
                }
            }
        }
        Ok(())
    }

    /// The patch from HEAD to the working tree for `path`.
    pub fn diff(&self, path: &str) -> (r: Result<String, RepoError>)
        ensures
            r matches Ok(s) ==> exists|lines: Seq<crate::patch::PatchLine>| s@ == crate::patch::patch_text(lines),
            r matches Err(e) ==> e.kind == ErrorKind::Io || e.kind == ErrorKind::UnbornHead
                || e.kind == ErrorKind::PathInvalid,
            !nul_free(path.spec_bytes()) <==> (r matches Err(e) && e.kind == ErrorKind::PathInvalid),
    {
        verbs::diff_path(&self.repo, path)
    }
}

} // verus!
