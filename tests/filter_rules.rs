use git_stats::history::{collect_contributors, diff_base, select_kept};
use git_stats::contributors::insert_contributor;
use git_stats::filter::{commit_matches, matches_folded};
use git_stats::record::{
    author_or_unknown, render_time, text_or_empty, CommitInfo, MAX_DISPLAY_SECS, MIN_DISPLAY_SECS,
};

#[test]
fn author_match_ignores_case() {
    assert!(commit_matches("Alice Smith", 10, "smith", 0, 20));
    assert!(commit_matches("Alice Smith", 10, "ALICE", 0, 20));
    assert!(commit_matches("Alice Smith", 10, "e sm", 0, 20));
    assert!(!commit_matches("Alice Smith", 10, "bob", 0, 20));
    assert!(!commit_matches("Alice Smith", 10, "smithy", 0, 20));
}

#[test]
fn empty_filter_admits_any_author() {
    assert!(commit_matches("", 5, "", 5, 5));
    assert!(commit_matches("Zoë", 5, "", 0, 9));
}

#[test]
fn time_bounds_are_inclusive() {
    assert!(commit_matches("Bob", 100, "", 100, 200));
    assert!(commit_matches("Bob", 200, "", 100, 200));
    assert!(!commit_matches("Bob", 99, "", 100, 200));
    assert!(!commit_matches("Bob", 201, "", 100, 200));
    assert!(!commit_matches("Bob", 150, "", 200, 100));
}

#[test]
fn author_and_time_must_both_hold() {
    assert!(!commit_matches("Bob", 50, "bob", 100, 200));
    assert!(!commit_matches("Alice", 150, "bob", 100, 200));
    assert!(commit_matches("Bob", 150, "bob", 100, 200));
}

#[test]
fn folded_match_uses_given_folds() {
    assert!(matches_folded("alice smith", "SMITH", "smith", 1, 0, 2));
    assert!(!matches_folded("alice smith", "SMITH", "SMITH", 1, 0, 2));
    assert!(matches_folded("anything", "", "", 1, 1, 1));
    assert!(!matches_folded("anything", "", "", 3, 1, 2));
}

#[test]
fn contributors_are_distinct_and_ordered() {
    let mut list: Vec<String> = Vec::new();
    for name in ["bob", "Bob", "Alice", "Bob", "Émile", "Alice", "Al"] {
        insert_contributor(&mut list, name.to_string());
    }
    assert_eq!(list, vec!["Al", "Alice", "Bob", "bob", "Émile"]);
}

#[test]
fn contributor_insert_into_empty() {
    let mut list: Vec<String> = Vec::new();
    insert_contributor(&mut list, String::new());
    insert_contributor(&mut list, String::new());
    assert_eq!(list, vec![String::new()]);
}

#[test]
fn missing_author_becomes_unknown() {
    assert_eq!(author_or_unknown(None), "Unknown");
    assert_eq!(author_or_unknown(Some("Carol".to_string())), "Carol");
    assert_eq!(text_or_empty(None), "");
    assert_eq!(text_or_empty(Some("x".to_string())), "x");
}

#[test]
fn record_defaults_fill_missing_parts() {
    let r = CommitInfo::assemble(
        "abc".to_string(),
        None,
        "Dan".to_string(),
        None,
        42,
        "1970-01-01 00:00:42".to_string(),
        None,
    );
    assert_eq!(r.id, "abc");
    assert_eq!(r.message, "");
    assert_eq!(r.author, "Dan");
    assert_eq!(r.email, "");
    assert_eq!(r.time, 42);
    assert_eq!(r.formatted_time, "1970-01-01 00:00:42");
    assert_eq!((r.lines_added, r.lines_deleted), (0, 0));
    let s = CommitInfo::assemble(
        "def".to_string(),
        Some("msg".to_string()),
        "Eve".to_string(),
        Some("e@x".to_string()),
        7,
        "t".to_string(),
        Some((3, 4)),
    );
    assert_eq!(s.message, "msg");
    assert_eq!(s.email, "e@x");
    assert_eq!((s.lines_added, s.lines_deleted), (3, 4));
}

#[test]
fn render_time_formats_utc() {
    assert_eq!(render_time(0).unwrap(), "1970-01-01 00:00:00");
    assert_eq!(render_time(2000).unwrap(), "1970-01-01 00:33:20");
    assert_eq!(render_time(1_700_000_000).unwrap(), "2023-11-14 22:13:20");
    assert_eq!(render_time(-1).unwrap(), "1969-12-31 23:59:59");
}

#[test]
fn render_time_range_edges() {
    assert!(render_time(MAX_DISPLAY_SECS).is_some());
    assert!(render_time(MAX_DISPLAY_SECS + 1).is_none());
    assert!(render_time(MIN_DISPLAY_SECS).is_some());
    assert!(render_time(MIN_DISPLAY_SECS - 1).is_none());
    assert!(render_time(i64::MAX).is_none());
    assert!(render_time(i64::MIN).is_none());
}

fn headers(items: &[(&str, i64)]) -> Vec<(String, i64)> {
    items.iter().map(|(a, t)| (a.to_string(), *t)).collect()
}

#[test]
fn select_kept_with_empty_filter_keeps_window() {
    let h = headers(&[("Alice", 3000), ("Bob", 2000), ("Alice", 1000), ("Carol", 5000)]);
    assert_eq!(select_kept(&h, "", 0, i64::MAX), vec![0, 1, 2, 3]);
    assert_eq!(select_kept(&h, "", 1000, 3000), vec![0, 1, 2]);
    assert_eq!(select_kept(&h, "", 1001, 2999), vec![1]);
    assert!(select_kept(&h, "", 6000, 7000).is_empty());
}

#[test]
fn select_kept_by_author() {
    let h = headers(&[("Alice Smith", 30), ("Bob", 20), ("alice", 10), ("Unknown", 15)]);
    assert_eq!(select_kept(&h, "bob", 0, 100), vec![1]);
    assert_eq!(select_kept(&h, "smith", 0, 100), vec![0]);
    assert_eq!(select_kept(&h, "ALICE", 0, 100), vec![0, 2]);
    assert_eq!(select_kept(&h, "ALICE", 11, 100), vec![0]);
    assert_eq!(select_kept(&h, "unk", 0, 100), vec![3]);
}

#[test]
fn select_kept_drops_unrenderable_times() {
    let h = headers(&[
        ("A", MAX_DISPLAY_SECS + 1),
        ("A", MAX_DISPLAY_SECS),
        ("A", MIN_DISPLAY_SECS),
        ("A", MIN_DISPLAY_SECS - 1),
    ]);
    assert_eq!(select_kept(&h, "", i64::MIN, i64::MAX), vec![1, 2]);
    assert!(select_kept(&Vec::new(), "", i64::MIN, i64::MAX).is_empty());
}

#[test]
fn collect_contributors_skips_missing_names() {
    let names = vec![
        Some("Bob".to_string()),
        None,
        Some("Alice".to_string()),
        Some("bob".to_string()),
        Some("Alice".to_string()),
        None,
    ];
    assert_eq!(collect_contributors(&names), vec!["Alice", "Bob", "bob"]);
    assert!(collect_contributors(&vec![None, None]).is_empty());
    assert!(collect_contributors(&Vec::new()).is_empty());
}

#[test]
fn diff_base_is_first_parent_or_empty_tree() {
    assert_eq!(diff_base(0), None);
    assert_eq!(diff_base(1), Some(0));
    assert_eq!(diff_base(2), Some(0));
    assert_eq!(diff_base(usize::MAX), Some(0));
}
