use vstd::prelude::*;
use vstd::string::*;

verus! {

/// Default number of commits that the log projection holds.
pub const MAX_LOG: usize = 10;

/// One commit summary of the log projection.
#[derive(Clone, Debug)]
pub struct LogItem {
    pub name: String,
    pub email: String,
    pub commit: String,
    pub timestamp: i64,
    pub message: String,
}

/// What the adapter reads of one commit, before the fallbacks are applied.
#[derive(Clone, Debug)]
pub struct RawCommit {
    pub id: String,
    pub name: Option<String>,
    pub email: Option<String>,
    pub seconds: i64,
    pub message: Option<String>,
}

pub open spec fn is_lower_hex(c: char) -> bool {
    ('0' <= c && c <= '9') || ('a' <= c && c <= 'f')
}

/// A printable object id: non-empty lowercase hexadecimal.
pub open spec fn is_object_id(s: Seq<char>) -> bool {
    &&& s.len() > 0
    &&& forall|i: int| 0 <= i < s.len() ==> is_lower_hex(#[trigger] s[i])
}

pub open spec fn text_or(t: Option<String>, fallback: Seq<char>) -> Seq<char> {
    match t {
        Some(s) => s@,
        None => fallback,
    }
}

/// What the log projection holds of a commit: id, author name, author email, commit
/// time and message, with the fallbacks for an absent name, email or message.
pub open spec fn log_view(c: RawCommit) -> (Seq<char>, Seq<char>, Seq<char>, i64, Seq<char>) {
    (
        c.id@,
        text_or(c.name, "Unknown"@),
        text_or(c.email, "unknown@example.com"@),
        c.seconds,
        text_or(c.message, "<no commit message>"@),
    )
}

pub open spec fn item_view(l: LogItem) -> (Seq<char>, Seq<char>, Seq<char>, i64, Seq<char>) {
    (l.commit@, l.name@, l.email@, l.timestamp, l.message@)
}

pub open spec fn min_nat(a: nat, b: nat) -> nat {
    if a < b {
        a
    } else {
        b
    }
}

fn text_or_default(t: &Option<String>, fallback: &str) -> (r: String)
    ensures
        r@ == text_or(*t, fallback@),
{
    match t {
        Some(s) => s.clone(),
        None => String::from_str(fallback),
    }
}

/// The summary of one commit.
pub fn log_item_of(c: &RawCommit) -> (r: LogItem)
    ensures
        item_view(r) == log_view(*c),
{
    LogItem {
        name: text_or_default(&c.name, "Unknown"),
        email: text_or_default(&c.email, "unknown@example.com"),
        commit: c.id.clone(),
        timestamp: c.seconds,
        message: text_or_default(&c.message, "<no commit message>"),
    }
}

/// The log window: the summaries of the first `max` commits, in the order given.
pub fn log_from_commits(commits: &Vec<RawCommit>, max: usize) -> (r: Vec<LogItem>)
    ensures
        r@.len() == min_nat(commits@.len(), max as nat),
        forall|i: int| 0 <= i < r@.len() ==> item_view(#[trigger] r@[i]) == log_view(commits@[i]),
{
    let mut out: Vec<LogItem> = Vec::new();
    let mut i: usize = 0;
    while i < commits.len() && i < max
        invariant
            i <= commits@.len(),
            i <= max,
            out@.len() == i,
            forall|k: int| 0 <= k < i ==> item_view(#[trigger] out@[k]) == log_view(commits@[k]),
        decreases commits@.len() - i,
    {
        out.push(log_item_of(&commits[i]));
        i += 1;
    }
    out
}

} // verus!
