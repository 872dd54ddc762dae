use subtitle_sync::diff::{diff, Difference};
use subtitle_sync::entry::{clone_entries, same_slot, Entry};

fn entry(start: i64, end: i64, text: &str) -> Entry {
    Entry::new(start, end, text.to_string())
}

#[test]
fn diff_reports_an_appended_entry() {
    let old = vec![entry(0, 1000, "hi")];
    let new = vec![entry(0, 1000, "hi"), entry(1000, 2000, "there")];
    let changes = diff(&old, &new);
    assert_eq!(
        changes,
        vec![Difference { index: 1, old: None, new: Some(entry(1000, 2000, "there")) }]
    );
}

#[test]
fn diff_of_a_version_with_itself_is_empty() {
    let a = vec![entry(0, 1000, "a"), entry(1000, 2500, "b"), entry(2500, 2600, "")];
    assert_eq!(diff(&a, &a), vec![]);
    assert_eq!(diff(&a, &clone_entries(&a)), vec![]);
}

#[test]
fn diff_of_two_empty_versions_is_empty() {
    assert_eq!(diff(&[], &[]), vec![]);
}

#[test]
fn diff_of_equal_length_versions_lists_each_mismatch() {
    let old = vec![entry(0, 1, "a"), entry(1, 2, "b"), entry(2, 3, "c"), entry(3, 4, "d")];
    let new = vec![entry(0, 1, "a"), entry(1, 2, "B"), entry(2, 3, "c"), entry(3, 5, "d")];
    assert_eq!(
        diff(&old, &new),
        vec![
            Difference { index: 1, old: Some(entry(1, 2, "b")), new: Some(entry(1, 2, "B")) },
            Difference { index: 3, old: Some(entry(3, 4, "d")), new: Some(entry(3, 5, "d")) },
        ]
    );
}

#[test]
fn diff_compares_every_field() {
    let base = vec![entry(10, 20, "x")];
    assert_eq!(diff(&base, &[entry(11, 20, "x")]).len(), 1);
    assert_eq!(diff(&base, &[entry(10, 21, "x")]).len(), 1);
    assert_eq!(diff(&base, &[entry(10, 20, "y")]).len(), 1);
    assert_eq!(diff(&base, &[entry(10, 20, "x")]).len(), 0);
}

#[test]
fn diff_reports_every_position_past_the_shorter_version() {
    let long = vec![entry(0, 1, "a"), entry(1, 2, "b"), entry(2, 3, "c")];
    let short = vec![entry(0, 1, "a")];
    assert_eq!(
        diff(&long, &short),
        vec![
            Difference { index: 1, old: Some(entry(1, 2, "b")), new: None },
            Difference { index: 2, old: Some(entry(2, 3, "c")), new: None },
        ]
    );
    assert_eq!(
        diff(&short, &long),
        vec![
            Difference { index: 1, old: None, new: Some(entry(1, 2, "b")) },
            Difference { index: 2, old: None, new: Some(entry(2, 3, "c")) },
        ]
    );
}

#[test]
fn diff_is_positional_not_aligned() {
    let old = vec![entry(0, 1, "a"), entry(1, 2, "b")];
    let new = vec![entry(0, 1, "new"), entry(0, 1, "a"), entry(1, 2, "b")];
    let changes = diff(&old, &new);
    assert_eq!(changes.len(), 3);
    assert_eq!(changes[0].index, 0);
    assert_eq!(changes[1].index, 1);
    assert_eq!(changes[2], Difference { index: 2, old: None, new: Some(entry(1, 2, "b")) });
}

#[test]
fn same_slot_tells_absent_from_present() {
    let a = entry(0, 1, "a");
    let b = entry(0, 1, "b");
    assert!(same_slot(None, None));
    assert!(same_slot(Some(&a), Some(&a)));
    assert!(!same_slot(Some(&a), None));
    assert!(!same_slot(None, Some(&a)));
    assert!(!same_slot(Some(&a), Some(&b)));
    assert!(a.same(&a.clone()));
}
