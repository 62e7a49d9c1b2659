use nanogit::verbs::{is_index_path, is_nul_free, log_or_empty, take_commit};
use nanogit::error::{classify, ErrorKind, RepoError, Step};
use nanogit::history::{log_from_commits, log_item_of, RawCommit};
use nanogit::patch::{format_patch_line, render_patch, PatchLine};
use nanogit::projection::Projections;
use nanogit::status::{
    commit_allowed, snapshot_from_entries, status_text, FileStatus, StatusFlags, INDEX_MODIFIED,
    INDEX_NEW, WT_MODIFIED, WT_NEW,
};

fn raw(id: &str, name: Option<&str>, email: Option<&str>, seconds: i64, message: Option<&str>) -> RawCommit {
    RawCommit {
        id: id.to_string(),
        name: name.map(|s| s.to_string()),
        email: email.map(|s| s.to_string()),
        seconds,
        message: message.map(|s| s.to_string()),
    }
}

fn entry(path: &str, bits: u32) -> FileStatus {
    FileStatus { path: path.to_string(), status: StatusFlags::from_bits(bits) }
}

#[test]
fn flags_read_libgit2_bits() {
    let s = StatusFlags::from_bits(INDEX_MODIFIED | WT_MODIFIED);
    assert!(s.is_index_modified());
    assert!(s.is_wt_modified());
    assert!(!s.is_index_new());
    assert!(!s.is_conflicted());
    assert!(StatusFlags::from_bits(1 << 15).is_conflicted());
    assert!(StatusFlags::from_bits(1 << 9).is_wt_deleted());
    assert!(StatusFlags::from_bits(1 << 10).is_wt_typechange());
    assert!(StatusFlags::from_bits(1 << 4).is_index_typechange());
    assert!(StatusFlags::from_bits(1 << 3).is_index_renamed());
    assert!(StatusFlags::from_bits(1 << 2).is_index_deleted());
    assert!(!StatusFlags::from_bits(1 << 14).has_any());
    assert!(!StatusFlags::from_bits(0).has_any());
}

#[test]
fn status_text_labels() {
    assert_eq!(status_text(StatusFlags::from_bits((1 << 15) | WT_MODIFIED)), "!");
    assert_eq!(status_text(StatusFlags::from_bits(WT_MODIFIED | WT_NEW)), "M");
    assert_eq!(status_text(StatusFlags::from_bits(INDEX_NEW)), "U");
    assert_eq!(status_text(StatusFlags::from_bits(WT_NEW)), "U");
    assert_eq!(status_text(StatusFlags::from_bits(1 << 2)), "D");
    assert_eq!(status_text(StatusFlags::from_bits(1 << 10)), "A");
    assert_eq!(status_text(StatusFlags::from_bits(1 << 3)), "?");
    assert_eq!(status_text(StatusFlags::from_bits(0)), "?");
}

#[test]
fn snapshot_keeps_order_and_drops_entries_without_a_predicate() {
    let entries = vec![
        (Some("b.txt".to_string()), WT_NEW),
        (Some("ignored.log".to_string()), 1 << 14),
        (None, INDEX_NEW),
        (Some("a.txt".to_string()), WT_MODIFIED),
    ];
    let snap = snapshot_from_entries(&entries);
    assert_eq!(snap.len(), 3);
    assert_eq!(snap[0].path, "b.txt");
    assert_eq!(snap[1].path, "<none>");
    assert_eq!(snap[1].status.bits, INDEX_NEW);
    assert_eq!(snap[2].path, "a.txt");
    assert!(snap.iter().all(|f| f.status.has_any()));
    assert!(snapshot_from_entries(&vec![]).is_empty());
}

#[test]
fn commit_is_offered_only_with_a_message_and_a_staged_change() {
    let staged = vec![entry("a", WT_NEW), entry("b", INDEX_MODIFIED)];
    let unstaged = vec![entry("a", WT_NEW | WT_MODIFIED)];
    assert!(commit_allowed("msg", &staged));
    assert!(!commit_allowed("", &staged));
    assert!(!commit_allowed("msg", &unstaged));
    assert!(!commit_allowed("msg", &vec![]));
}

#[test]
fn log_items_fall_back_on_absent_fields() {
    let item = log_item_of(&raw("ab12", None, None, -5, None));
    assert_eq!(item.commit, "ab12");
    assert_eq!(item.name, "Unknown");
    assert_eq!(item.email, "unknown@example.com");
    assert_eq!(item.message, "<no commit message>");
    assert_eq!(item.timestamp, -5);
    let item = log_item_of(&raw("ff", Some("Ada"), Some("ada@x"), 7, Some("first")));
    assert_eq!(item.name, "Ada");
    assert_eq!(item.email, "ada@x");
    assert_eq!(item.message, "first");
}

#[test]
fn log_window_takes_the_first_commits() {
    let commits: Vec<RawCommit> =
        (0..12).map(|i| raw(&format!("{:x}", i), Some("n"), Some("e"), i, Some("m"))).collect();
    let log = log_from_commits(&commits, 10);
    assert_eq!(log.len(), 10);
    assert_eq!(log[0].commit, "0");
    assert_eq!(log[9].timestamp, 9);
    let short = log_from_commits(&commits[..4].to_vec(), 10);
    assert_eq!(short.len(), 4);
    assert_eq!(short[3].commit, "3");
    assert!(log_from_commits(&commits, 0).is_empty());
}

#[test]
fn patch_lines_render_with_origin_and_space() {
    assert_eq!(format_patch_line("+", "x\n"), "+ x\n");
    let lines = vec![
        PatchLine { origin: "-".to_string(), content: b"2\n".to_vec() },
        PatchLine { origin: "+".to_string(), content: b"2x\n".to_vec() },
        PatchLine { origin: " ".to_string(), content: vec![0xff, b'\n'] },
    ];
    assert_eq!(render_patch(&lines), "- 2\n+ 2x\n  \u{fffd}\n");
    assert_eq!(render_patch(&vec![]), "");
}

#[test]
fn error_codes_are_classified_by_step() {
    assert_eq!(classify(Step::Open, -3), ErrorKind::NotARepo);
    assert_eq!(classify(Step::Open, -1), ErrorKind::Io);
    assert_eq!(classify(Step::IndexPath, -3), ErrorKind::PathInvalid);
    assert_eq!(classify(Step::IndexPath, -12), ErrorKind::PathInvalid);
    assert_eq!(classify(Step::IndexPath, -1), ErrorKind::Io);
    assert_eq!(classify(Step::Identity, -3), ErrorKind::MissingIdentity);
    assert_eq!(classify(Step::Identity, -1), ErrorKind::Io);
    assert_eq!(classify(Step::Head, -9), ErrorKind::UnbornHead);
    assert_eq!(classify(Step::Head, -3), ErrorKind::UnbornHead);
    assert_eq!(classify(Step::Head, -1), ErrorKind::Io);
    assert_eq!(classify(Step::Other, -3), ErrorKind::Io);
    let e = RepoError::from_code(Step::Identity, -3, "no email".to_string());
    assert_eq!(e.kind, ErrorKind::MissingIdentity);
    assert_eq!(e.code, -3);
    assert_eq!(RepoError::internal("x").kind, ErrorKind::Internal);
}

#[test]
fn stale_refresh_does_not_replace_a_newer_snapshot() {
    let mut p = Projections::new();
    let first = p.begin_refresh().unwrap();
    let second = p.begin_refresh().unwrap();
    assert_eq!((first, second), (1, 2));
    let now = std::time::SystemTime::now();
    assert!(p.publish_statuses(second, vec![entry("new.txt", WT_NEW)], now));
    assert!(!p.publish_statuses(first, vec![entry("old.txt", WT_NEW)], now));
    let statuses = p.get_statuses();
    assert_eq!(statuses.len(), 1);
    assert_eq!(statuses[0].path, "new.txt");
    assert_eq!(p.get_local_refresh(), Some(now));
}

#[test]
fn last_started_refresh_wins_in_either_order() {
    let now = std::time::SystemTime::now();
    let mut p = Projections::new();
    assert!(!p.is_local_refreshed());
    let tickets: Vec<u64> = (0..4).map(|_| p.begin_refresh().unwrap()).collect();
    assert!(p.publish_statuses(tickets[1], vec![entry("one", WT_NEW)], now));
    assert!(p.publish_statuses(tickets[3], vec![entry("three", WT_NEW)], now));
    assert!(!p.publish_statuses(tickets[0], vec![], now));
    assert!(!p.publish_statuses(tickets[2], vec![entry("two", WT_NEW)], now));
    assert!(p.is_local_refreshed());
    assert_eq!(p.get_statuses()[0].path, "three");
}

#[test]
fn publishing_the_log_replaces_it_whole() {
    let mut p = Projections::new();
    p.publish_log(vec![log_item_of(&raw("aa", None, None, 1, None))]);
    p.publish_log(vec![
        log_item_of(&raw("bb", None, None, 2, None)),
        log_item_of(&raw("cc", None, None, 3, None)),
    ]);
    let log = p.get_log();
    assert_eq!(log.len(), 2);
    assert_eq!(log[0].commit, "bb");
    assert!(p.get_remote_refresh().is_none());
}

#[test]
fn a_head_without_commits_reads_as_an_empty_log() {
    let unborn = RepoError::from_code(Step::Walk, -9, "unborn".to_string());
    assert_eq!(unborn.kind, ErrorKind::UnbornHead);
    assert!(log_or_empty(Err(unborn)).unwrap().is_empty());
    let detached = RepoError::from_code(Step::Walk, -19, "not a commit".to_string());
    assert_eq!(detached.kind, ErrorKind::DetachedHead);
    assert!(log_or_empty(Err(detached)).unwrap().is_empty());
    let io = RepoError::from_code(Step::Walk, -1, "broken".to_string());
    assert_eq!(log_or_empty(Err(io)).err().unwrap().kind, ErrorKind::Io);
    let one = vec![log_item_of(&raw("ab", None, None, 1, None))];
    assert_eq!(log_or_empty(Ok(one)).unwrap()[0].commit, "ab");
    assert_eq!(classify(Step::Walk, -3), ErrorKind::UnbornHead);
    assert_eq!(classify(Step::Walk, -12), ErrorKind::DetachedHead);
}

#[test]
fn index_paths_must_be_relative_non_empty_and_nul_free() {
    assert!(is_index_path("a.txt"));
    assert!(is_index_path("dir/a.txt"));
    assert!(!is_index_path(""));
    assert!(!is_index_path("/etc/passwd"));
    assert!(!is_index_path("a\0b"));
    assert!(!is_index_path("./a"));
    assert!(!is_index_path("../a"));
    assert!(is_index_path(".hidden"));
    assert!(is_index_path("..b"));
    assert!(is_nul_free(""));
    assert!(is_nul_free("b.txt"));
    assert!(!is_nul_free("b\0.txt"));
}

#[test]
fn a_failed_status_read_keeps_the_shown_snapshot() {
    let now = std::time::SystemTime::now();
    let mut p = Projections::new();
    let first = p.begin_refresh().unwrap();
    p.apply_status_read(first, Ok(vec![entry("kept.txt", WT_NEW)]), now);
    let second = p.begin_refresh().unwrap();
    let later = now + std::time::Duration::from_secs(5);
    p.apply_status_read(second, Err(RepoError::internal("read failed")), later);
    let statuses = p.get_statuses();
    assert_eq!(statuses.len(), 1);
    assert_eq!(statuses[0].path, "kept.txt");
    assert_eq!(p.get_local_refresh(), Some(now));
}

#[test]
fn taking_commits_stops_at_the_walk_end_the_cap_or_a_failure() {
    let mut commits = Vec::new();
    assert!(take_commit(&mut commits, 2, Some(Ok(raw("aa", None, None, 1, None)))).unwrap());
    assert_eq!(commits.len(), 1);
    assert!(!take_commit(&mut commits, 2, Some(Ok(raw("bb", None, None, 2, None)))).unwrap());
    assert_eq!(commits.len(), 2);
    assert_eq!(commits[1].id, "bb");
    let mut short = vec![raw("cc", None, None, 3, None)];
    assert!(!take_commit(&mut short, 5, None).unwrap());
    assert_eq!(short.len(), 1);
    let failed = take_commit(&mut short, 5, Some(Err(RepoError::internal("walk broke"))));
    assert_eq!(failed.err().unwrap().kind, ErrorKind::Internal);
    assert_eq!(short.len(), 1);
}
