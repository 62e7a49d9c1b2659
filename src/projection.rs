use vstd::prelude::*;

use crate::history::{is_object_id, item_view, LogItem, MAX_LOG};
use crate::error::RepoError;
use crate::status::{status_view, statuses_view, FileStatus, StatusFlags};

verus! {

/// std's wall-clock instant, carried opaque as the time of a refresh.
#[verifier::external_type_specification]
#[verifier::external_body]
pub struct ExSystemTime(std::time::SystemTime);

/// What the log projection holds of one commit.
pub type LogView = (Seq<char>, Seq<char>, Seq<char>, i64, Seq<char>);

pub open spec fn log_items_view(v: Seq<LogItem>) -> Seq<LogView> {
    v.map_values(|l: LogItem| item_view(l))
}

/// The abstract state of the projections.
///
/// Every refresh takes a ticket when it starts; tickets grow in the order in which
/// refreshes start. `published` is the ticket of the refresh whose status snapshot is
/// shown, 0 while none has completed.
pub struct ProjectionState {
    pub statuses: Seq<(Seq<char>, u32)>,
    pub log: Seq<LogView>,
    pub local_refresh: Option<std::time::SystemTime>,
    pub remote_refresh: Option<std::time::SystemTime>,
    pub issued: nat,
    pub published: nat,
}

impl ProjectionState {
    pub open spec fn wf(self) -> bool {
        &&& self.published <= self.issued
        &&& self.issued <= u64::MAX
        &&& self.local_refresh.is_some() <==> self.published > 0
        &&& self.log.len() <= MAX_LOG
        &&& forall|i: int| 0 <= i < self.log.len() ==> is_object_id((#[trigger] self.log[i]).0)
        &&& forall|i: int|
            0 <= i < self.statuses.len() ==> (StatusFlags { bits: (#[trigger] self.statuses[i]).1 }).any_predicate()
    }

    /// The state after the refresh holding `ticket` offers its status snapshot: it is
    /// shown, with the time of publication, unless a refresh that started later has
    /// already been shown.
    pub open spec fn after_publish(self, ticket: nat, snapshot: Seq<(Seq<char>, u32)>, now: std::time::SystemTime) -> ProjectionState {
        if ticket > self.published {
            ProjectionState {
                statuses: snapshot,
                local_refresh: Some(now),
                published: ticket,
                ..self
            }
        } else {
            self
        }
    }
}

/// A status publication offered by a refresh: its ticket, snapshot and finishing time.
pub type Publication = (nat, Seq<(Seq<char>, u32)>, std::time::SystemTime);

/// The state after the publications are offered one after the other, in the order given.
pub open spec fn publish_all(v: ProjectionState, pubs: Seq<Publication>) -> ProjectionState
    decreases pubs.len(),
{
    if pubs.len() == 0 {
        v
    } else {
        let p = pubs.last();
        publish_all(v, pubs.drop_last()).after_publish(p.0, p.1, p.2)
    }
}

/// Between two observations the status snapshot is either unchanged, or it was
/// replaced by the snapshot of a refresh that started after the one shown before.
pub proof fn lemma_snapshot_replaced_only_by_later_refresh(
    v: ProjectionState,
    ticket: nat,
    snapshot: Seq<(Seq<char>, u32)>,
    now: std::time::SystemTime,
)
    ensures
        ({
            let w = v.after_publish(ticket, snapshot, now);
            &&& w.published >= v.published
            &&& w == v || (w.published == ticket && ticket > v.published && w.statuses == snapshot)
        }),
{
}

/// However many refreshes offer their snapshots between two observations, the snapshot
/// shown at the second is the one shown at the first, or the snapshot of one of those
/// refreshes, which started after the refresh shown at the first.
pub proof fn lemma_shown_snapshot_history(v: ProjectionState, pubs: Seq<Publication>)
    ensures
        publish_all(v, pubs).published >= v.published,
        ({
            let w = publish_all(v, pubs);
            ||| (w.statuses == v.statuses && w.published == v.published && w.local_refresh == v.local_refresh)
            ||| exists|j: int|
                0 <= j < pubs.len() && w.published == (#[trigger] pubs[j]).0 && pubs[j].0 > v.published
                    && w.statuses == pubs[j].1
        }),
    decreases pubs.len(),
{
    if pubs.len() > 0 {
        let prefix = pubs.drop_last();
        lemma_shown_snapshot_history(v, prefix);
        let before = publish_all(v, prefix);
        let j_last = pubs.len() - 1;
        assert(pubs.last() == pubs[j_last]);
        if pubs[j_last].0 <= before.published {
            if !(before.statuses == v.statuses && before.published == v.published
                && before.local_refresh == v.local_refresh) {
                let j = choose|j: int|
                    0 <= j < prefix.len() && before.published == (#[trigger] prefix[j]).0
                        && prefix[j].0 > v.published && before.statuses == prefix[j].1;
                assert(prefix[j] == pubs[j]);
            }
        }
    }
}

/// The published ticket never exceeds a bound that holds of the start state and of
/// every ticket offered.
pub proof fn lemma_published_bounded(v: ProjectionState, pubs: Seq<Publication>, bound: nat)
    requires
        v.published <= bound,
        forall|k: int| 0 <= k < pubs.len() ==> (#[trigger] pubs[k]).0 <= bound,
    ensures
        publish_all(v, pubs).published <= bound,
    decreases pubs.len(),
{
    if pubs.len() > 0 {
        lemma_published_bounded(v, pubs.drop_last(), bound);
    }
}

/// However many refreshes run and in whatever order they finish, once the refresh that
/// started last has offered its snapshot, that snapshot is the one shown.
pub proof fn lemma_last_started_refresh_wins(v: ProjectionState, pubs: Seq<Publication>, j: int)
    requires
        0 <= j < pubs.len(),
        pubs[j].0 > v.published,
        forall|k: int| 0 <= k < pubs.len() && k != j ==> (#[trigger] pubs[k]).0 < pubs[j].0,
    ensures
        publish_all(v, pubs).published == pubs[j].0,
        publish_all(v, pubs).statuses == pubs[j].1,
        publish_all(v, pubs).local_refresh.is_some(),
    decreases pubs.len(),
{
    let prefix = pubs.drop_last();
    if j == pubs.len() - 1 {
        assert forall|k: int| 0 <= k < prefix.len() implies (#[trigger] prefix[k]).0 <= (pubs[j].0 - 1) as nat by {
            assert(prefix[k] == pubs[k]);
        }
        lemma_published_bounded(v, prefix, (pubs[j].0 - 1) as nat);
    } else {
        assert forall|k: int| 0 <= k < prefix.len() && k != j implies (#[trigger] prefix[k]).0 < prefix[j].0 by {
            assert(prefix[k] == pubs[k]);
        }
        lemma_last_started_refresh_wins(v, prefix, j);
        assert(pubs.last() == pubs[pubs.len() - 1]);
    }
}

/// Two refreshes that find the same snapshot leave the projection as the first left it.
pub proof fn lemma_repeated_refresh_is_stable(
    v: ProjectionState,
    t1: nat,
    t2: nat,
    snapshot: Seq<(Seq<char>, u32)>,
    n1: std::time::SystemTime,
    n2: std::time::SystemTime,
)
    requires
        v.published < t1 < t2,
    ensures
        v.after_publish(t1, snapshot, n1).after_publish(t2, snapshot, n2).statuses
            == v.after_publish(t1, snapshot, n1).statuses,
        v.after_publish(t1, snapshot, n1).after_publish(t2, snapshot, n2).log == v.log,
{
}

/// The status and log projections with their refresh clock. Readers get copies; a
/// snapshot is only ever replaced whole.
pub struct Projections {
    statuses: Vec<FileStatus>,
    log: Vec<LogItem>,
    local_refresh: Option<std::time::SystemTime>,
    remote_refresh: Option<std::time::SystemTime>,
    issued: u64,
    published: u64,
}

impl View for Projections {
    type V = ProjectionState;

    closed spec fn view(&self) -> ProjectionState {
        ProjectionState {
            statuses: statuses_view(self.statuses@),
            log: log_items_view(self.log@),
            local_refresh: self.local_refresh,
            remote_refresh: self.remote_refresh,
            issued: self.issued as nat,
            published: self.published as nat,
        }
    }
}

/// A deep copy of a status snapshot.
pub fn copy_statuses(v: &Vec<FileStatus>) -> (r: Vec<FileStatus>)
    ensures
        statuses_view(r@) == statuses_view(v@),
{
    let mut out: Vec<FileStatus> = Vec::new();
    let mut i: usize = 0;
    while i < v.len()
        invariant
            i <= v@.len(),
            out@.len() == i,
            forall|k: int| 0 <= k < i ==> status_view(#[trigger] out@[k]) == status_view(v@[k]),
        decreases v@.len() - i,
    {
        out.push(FileStatus { path: v[i].path.clone(), status: v[i].status });
        i += 1;
    }
    assert(statuses_view(out@) =~= statuses_view(v@));
    out
}

/// A deep copy of a log window.
pub fn copy_log(v: &Vec<LogItem>) -> (r: Vec<LogItem>)
    ensures
        log_items_view(r@) == log_items_view(v@),
{
    let mut out: Vec<LogItem> = Vec::new();
    let mut i: usize = 0;
    while i < v.len()
        invariant
            i <= v@.len(),
            out@.len() == i,
            forall|k: int| 0 <= k < i ==> item_view(#[trigger] out@[k]) == item_view(v@[k]),
        decreases v@.len() - i,
    {
        let item = LogItem {
            name: v[i].name.clone(),
            email: v[i].email.clone(),
            commit: v[i].commit.clone(),
            timestamp: v[i].timestamp,
            message: v[i].message.clone(),
        };
        out.push(item);
        i += 1;
    }
    assert(log_items_view(out@) =~= log_items_view(v@));
    out
}

impl Projections {
    pub open spec fn wf(&self) -> bool {
        self@.wf()
    }

    /// Empty projections: no statuses, no log, no refresh yet.
    pub fn new() -> (r: Projections)
        ensures
            r.wf(),
            r@.statuses.len() == 0,
            r@.log.len() == 0,
            r@.local_refresh.is_none(),
            r@.remote_refresh.is_none(),
            r@.issued == 0,
            r@.published == 0,
    {
        let r = Projections {
            statuses: Vec::new(),
            log: Vec::new(),
            local_refresh: None,
            remote_refresh: None,
            issued: 0,
            published: 0,
        };
        assert(r@.statuses =~= Seq::empty());
        assert(r@.log =~= Seq::empty());
        r
    }

    /// Starts a refresh: hands out the next ticket, or `None` once tickets run out.
    pub fn begin_refresh(&mut self) -> (r: Option<u64>)
        requires
            old(self).wf(),
        ensures
            final(self).wf(),
            r is None <==> old(self)@.issued == u64::MAX,
            r is None ==> final(self)@ == old(self)@,
            r matches Some(t) ==> t as nat == old(self)@.issued + 1
                && final(self)@ == (ProjectionState { issued: t as nat, ..old(self)@ }),
    {
        if self.issued == u64::MAX {
            return None;
        }
        self.issued = self.issued + 1;
        Some(self.issued)
    }

    /// Offers the status snapshot computed by the refresh holding `ticket`. It is
    /// published, and the local refresh time set to `now`, exactly when no refresh
    /// that started later has been published; the result says whether it was.
    pub fn publish_statuses(&mut self, ticket: u64, snapshot: Vec<FileStatus>, now: std::time::SystemTime) -> (r: bool)
        requires
            old(self).wf(),
            1 <= ticket <= old(self)@.issued,
            forall|i: int| 0 <= i < snapshot@.len() ==> (#[trigger] snapshot@[i]).status.any_predicate(),
        ensures
            final(self).wf(),
            r == (ticket as nat > old(self)@.published),
            final(self)@ == old(self)@.after_publish(ticket as nat, statuses_view(snapshot@), now),
    {
        if ticket > self.published {
            self.statuses = snapshot;
            self.local_refresh = Some(now);
            self.published = ticket;
            true
        } else {
            false
        }
    }

    /// Takes the outcome of the status read made by the refresh holding `ticket`: a
    /// snapshot read is offered as `publish_statuses` does; a failed read leaves the
    /// projections as they were.
    pub fn apply_status_read(&mut self, ticket: u64, read: Result<Vec<FileStatus>, RepoError>, now: std::time::SystemTime)
        requires
            old(self).wf(),
            1 <= ticket <= old(self)@.issued,
            read matches Ok(s) ==> forall|i: int| 0 <= i < s@.len() ==> (#[trigger] s@[i]).status.any_predicate(),
        ensures
            final(self).wf(),
            read matches Ok(s) ==> final(self)@ == old(self)@.after_publish(ticket as nat, statuses_view(s@), now),
            read is Err ==> final(self)@ == old(self)@,
    {
        if let Ok(snapshot) = read {
            self.publish_statuses(ticket, snapshot, now);
        }
    }

    /// Replaces the log projection with a new window.
    pub fn publish_log(&mut self, log: Vec<LogItem>)
        requires
            old(self).wf(),
            log@.len() <= MAX_LOG,
            forall|i: int| 0 <= i < log@.len() ==> is_object_id((#[trigger] log@[i]).commit@),
        ensures
            final(self).wf(),
            final(self)@ == (ProjectionState { log: log_items_view(log@), ..old(self)@ }),
    {
        self.log = log;
    }

    /// A copy of the status snapshot.
    pub fn get_statuses(&self) -> (r: Vec<FileStatus>)
        requires
            self.wf(),
        ensures
            statuses_view(r@) == self@.statuses,
            forall|i: int| 0 <= i < r@.len() ==> (#[trigger] r@[i]).status.any_predicate(),
    {
        let r = copy_statuses(&self.statuses);
        assert forall|i: int| 0 <= i < r@.len() implies (#[trigger] r@[i]).status.any_predicate() by {
            assert(statuses_view(r@)[i] == self@.statuses[i]);
        }
        r
    }

    /// A copy of the log window.
    pub fn get_log(&self) -> (r: Vec<LogItem>)
        requires
            self.wf(),
        ensures
            log_items_view(r@) == self@.log,
            r@.len() <= MAX_LOG,
            forall|i: int| 0 <= i < r@.len() ==> is_object_id((#[trigger] r@[i]).commit@),
    {
        let r = copy_log(&self.log);
        assert forall|i: int| 0 <= i < r@.len() implies is_object_id((#[trigger] r@[i]).commit@) by {
            assert(log_items_view(r@)[i] == self@.log[i]);
        }
        r
    }

    pub fn get_local_refresh(&self) -> (r: Option<std::time::SystemTime>)
        ensures
            r == self@.local_refresh,
    {
        self.local_refresh
    }

    pub fn get_remote_refresh(&self) -> (r: Option<std::time::SystemTime>)
        ensures
            r == self@.remote_refresh,
    {
        self.remote_refresh
    }

    /// Whether a status refresh has completed since the projections were made.
    pub fn is_local_refreshed(&self) -> (r: bool)
        ensures
            r == self@.local_refresh.is_some(),
    {
        self.local_refresh.is_some()
    }
}

} // verus!
