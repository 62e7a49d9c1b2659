use vstd::prelude::*;
use vstd::string::*;

verus! {

/// Bit of a path that is new in the index.
pub const INDEX_NEW: u32 = 1;
/// Bit of a path whose content changed in the index.
pub const INDEX_MODIFIED: u32 = 2;
/// Bit of a path removed from the index.
pub const INDEX_DELETED: u32 = 4;
/// Bit of a path renamed in the index.
pub const INDEX_RENAMED: u32 = 8;
/// Bit of a path whose type changed in the index.
pub const INDEX_TYPECHANGE: u32 = 16;
/// Bit of an untracked path of the working tree.
pub const WT_NEW: u32 = 128;
/// Bit of a path modified in the working tree.
pub const WT_MODIFIED: u32 = 256;
/// Bit of a path deleted from the working tree.
pub const WT_DELETED: u32 = 512;
/// Bit of a path whose type changed in the working tree.
pub const WT_TYPECHANGE: u32 = 1024;
/// Bit of a path with merge conflicts.
pub const CONFLICTED: u32 = 32768;

/// The status bits of one path, laid out as libgit2 lays out `git_status_t`.
#[derive(Clone, Copy, Debug, PartialEq, Eq, Structural)]
pub struct StatusFlags {
    pub bits: u32,
}

impl StatusFlags {
    pub open spec fn has(self, mask: u32) -> bool {
        self.bits & mask != 0
    }

    /// Whether at least one of the predicates that the client shows holds.
    pub open spec fn any_predicate(self) -> bool {
        ||| self.has(CONFLICTED)
        ||| self.has(INDEX_NEW)
        ||| self.has(INDEX_MODIFIED)
        ||| self.has(INDEX_DELETED)
        ||| self.has(INDEX_RENAMED)
        ||| self.has(INDEX_TYPECHANGE)
        ||| self.has(WT_NEW)
        ||| self.has(WT_MODIFIED)
        ||| self.has(WT_DELETED)
        ||| self.has(WT_TYPECHANGE)
    }

    /// Whether the change is staged: the path is new, modified, deleted or renamed in the index.
    pub open spec fn staged(self) -> bool {
        ||| self.has(INDEX_NEW)
        ||| self.has(INDEX_MODIFIED)
        ||| self.has(INDEX_DELETED)
        ||| self.has(INDEX_RENAMED)
    }

    pub fn from_bits(bits: u32) -> (r: StatusFlags)
        ensures
            r.bits == bits,
    {
        StatusFlags { bits }
    }

    pub fn is_conflicted(&self) -> (r: bool)
        ensures
            r == self.has(CONFLICTED),
    {
        self.bits & CONFLICTED != 0
    }

    pub fn is_index_new(&self) -> (r: bool)
        ensures
            r == self.has(INDEX_NEW),
    {
        self.bits & INDEX_NEW != 0
    }

    pub fn is_index_modified(&self) -> (r: bool)
        ensures
            r == self.has(INDEX_MODIFIED),
    {
        self.bits & INDEX_MODIFIED != 0
    }

    pub fn is_index_deleted(&self) -> (r: bool)
        ensures
            r == self.has(INDEX_DELETED),
    {
        self.bits & INDEX_DELETED != 0
    }

    pub fn is_index_renamed(&self) -> (r: bool)
        ensures
            r == self.has(INDEX_RENAMED),
    {
        self.bits & INDEX_RENAMED != 0
    }

    pub fn is_index_typechange(&self) -> (r: bool)
        ensures
            r == self.has(INDEX_TYPECHANGE),
    {
        self.bits & INDEX_TYPECHANGE != 0
    }

    pub fn is_wt_new(&self) -> (r: bool)
        ensures
            r == self.has(WT_NEW),
    {
        self.bits & WT_NEW != 0
    }

    pub fn is_wt_modified(&self) -> (r: bool)
        ensures
            r == self.has(WT_MODIFIED),
    {
        self.bits & WT_MODIFIED != 0
    }

    pub fn is_wt_deleted(&self) -> (r: bool)
        ensures
            r == self.has(WT_DELETED),
    {
        self.bits & WT_DELETED != 0
    }

    pub fn is_wt_typechange(&self) -> (r: bool)
        ensures
            r == self.has(WT_TYPECHANGE),
    {
        self.bits & WT_TYPECHANGE != 0
    }

    pub fn has_any(&self) -> (r: bool)
        ensures
            r == self.any_predicate(),
    {
        self.is_conflicted() || self.is_index_new() || self.is_index_modified()
            || self.is_index_deleted() || self.is_index_renamed() || self.is_index_typechange()
            || self.is_wt_new() || self.is_wt_modified() || self.is_wt_deleted()
            || self.is_wt_typechange()
    }

    pub fn is_staged(&self) -> (r: bool)
        ensures
            r == self.staged(),
    {
        self.is_index_new() || self.is_index_modified() || self.is_index_deleted()
            || self.is_index_renamed()
    }
}

/// The one-letter label shown beside a path: the first of conflicted, modified, new,
/// deleted and type-changed that holds, in the index or in the working tree.
pub open spec fn status_label(s: StatusFlags) -> Seq<char> {
    if s.has(CONFLICTED) {
        "!"@
    } else if s.has(INDEX_MODIFIED) || s.has(WT_MODIFIED) {
        "M"@
    } else if s.has(INDEX_NEW) || s.has(WT_NEW) {
        "U"@
    } else if s.has(INDEX_DELETED) || s.has(WT_DELETED) {
        "D"@
    } else if s.has(INDEX_TYPECHANGE) || s.has(WT_TYPECHANGE) {
        "A"@
    } else {
        "?"@
    }
}

pub fn status_text(status: StatusFlags) -> (r: &'static str)
    ensures
        r@ == status_label(status),
{
    if status.is_conflicted() {
        return "!";
    }
    if status.is_index_modified() || status.is_wt_modified() {
        return "M";
    }
    if status.is_index_new() || status.is_wt_new() {
        return "U";
    }
    if status.is_index_deleted() || status.is_wt_deleted() {
        return "D";
    }
    if status.is_index_typechange() || status.is_wt_typechange() {
        return "A";
    }
    "?"
}

/// Whether the client offers to commit: the message is not empty and some change is staged.
pub fn commit_allowed(message: &str, statuses: &Vec<FileStatus>) -> (r: bool)
    ensures
        r == (message@.len() > 0 && exists|i: int| 0 <= i < statuses@.len() && (#[trigger] statuses@[i]).status.staged()),
{
    if message.is_empty() {
        return false;
    }
    let mut i: usize = 0;
    while i < statuses.len()
        invariant
            i <= statuses@.len(),
            message@.len() > 0,
            forall|k: int| 0 <= k < i ==> !(#[trigger] statuses@[k]).status.staged(),
        decreases statuses@.len() - i,
    {
        if statuses[i].status.is_staged() {
            assert(statuses@[i as int].status.staged());
            return true;
        }
        i += 1;
    }
    false
}

/// One entry of the status projection.
#[derive(Clone, Debug)]
pub struct FileStatus {
    pub path: String,
    pub status: StatusFlags,
}

/// What the status projection holds of an entry: its path and its bits.
pub open spec fn status_view(f: FileStatus) -> (Seq<char>, u32) {
    (f.path@, f.status.bits)
}

pub open spec fn statuses_view(v: Seq<FileStatus>) -> Seq<(Seq<char>, u32)> {
    v.map_values(|f: FileStatus| status_view(f))
}

/// The path recorded for an entry whose path the adapter could not give as text.
pub open spec fn entry_path(p: Option<String>) -> Seq<char> {
    match p {
        Some(s) => s@,
        None => "<none>"@,
    }
}

/// The snapshot built from the adapter's entries, in their order: each entry on which
/// some predicate holds, with its path.
pub open spec fn snapshot_of(entries: Seq<(Option<String>, u32)>) -> Seq<(Seq<char>, u32)>
    decreases entries.len(),
{
    if entries.len() == 0 {
        Seq::empty()
    } else {
        let rest = snapshot_of(entries.drop_last());
        let e = entries.last();
        if (StatusFlags { bits: e.1 }).any_predicate() {
            rest.push((entry_path(e.0), e.1))
        } else {
            rest
        }
    }
}

/// Builds the status projection from the adapter's `(path, bits)` entries.
pub fn snapshot_from_entries(entries: &Vec<(Option<String>, u32)>) -> (r: Vec<FileStatus>)
    ensures
        statuses_view(r@) == snapshot_of(entries@),
        forall|i: int| 0 <= i < r@.len() ==> (#[trigger] r@[i]).status.any_predicate(),
{
    let mut out: Vec<FileStatus> = Vec::new();
    let mut i: usize = 0;
    while i < entries.len()
        invariant
            i <= entries@.len(),
            statuses_view(out@) == snapshot_of(entries@.take(i as int)),
            forall|k: int| 0 <= k < out@.len() ==> (#[trigger] out@[k]).status.any_predicate(),
        decreases entries@.len() - i,
    {
        assert(entries@.take(i as int + 1).drop_last() =~= entries@.take(i as int));
        let flags = StatusFlags::from_bits(entries[i].1);
        if flags.has_any() {
            let path = match &entries[i].0 {
                Some(p) => p.clone(),
                None => String::from_str("<none>"),
            };
            let ghost before = out@;
            out.push(FileStatus { path, status: flags });
            assert(statuses_view(out@) =~= statuses_view(before).push(status_view(out@.last())));
        }
        i += 1;
    }
    assert(entries@.take(entries@.len() as int) =~= entries@);
    out
}

} // verus!
