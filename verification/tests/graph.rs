use claim_graph::graph::{Data, Entry, PathEnd};
use std::collections::BTreeSet;

fn entry(text: &str, parents: &[u128]) -> Entry {
    Entry { text: text.to_owned(), parents: parents.to_vec() }
}

#[test]
fn from_raw_inverts_parent_relation() {
    let data = Data::from_raw(vec![
        (1, entry("root", &[])),
        (2, entry("left", &[1])),
        (3, entry("right", &[1])),
        (4, entry("join", &[2, 3])),
    ]);
    assert_eq!(data.entries.len(), 4);
    assert_eq!(data.entries.get(&2).unwrap().text, "left");
    assert_eq!(data.children.get(&1), Some(&vec![2, 3]));
    assert_eq!(data.children.get(&2), Some(&vec![4]));
    assert_eq!(data.children.get(&3), Some(&vec![4]));
    assert_eq!(data.children.get(&4), None);
}

#[test]
fn from_raw_handles_duplicate_and_dangling_parents() {
    let data = Data::from_raw(vec![
        // A parent listed twice is indexed once; a parent with no entry of
        // its own still gets a child list.
        (5, entry("a", &[9, 9])),
        (6, entry("b", &[9])),
    ]);
    assert_eq!(data.children.get(&9), Some(&vec![5, 6]));
    assert!(data.entries.get(&9).is_none());
}

#[test]
fn upstream_follows_first_parents() {
    let data = Data::from_raw(vec![
        (1, entry("root", &[])),
        (2, entry("mid", &[1])),
        (3, entry("leaf", &[2, 1])),
    ]);
    let path = data.upstream_path(3, &BTreeSet::new());
    assert_eq!(path.ids, vec![3, 2, 1]);
    assert_eq!(path.end, PathEnd::Exhausted);
}

#[test]
fn upstream_stops_at_missing_entry() {
    let data = Data::from_raw(vec![(2, entry("orphan", &[7]))]);
    let path = data.upstream_path(2, &BTreeSet::new());
    assert_eq!(path.ids, vec![2]);
    assert_eq!(path.end, PathEnd::Missing);
    let path = data.upstream_path(8, &BTreeSet::new());
    assert_eq!(path.ids, Vec::<u128>::new());
    assert_eq!(path.end, PathEnd::Missing);
}

#[test]
fn upstream_respects_prior_visits() {
    let data = Data::from_raw(vec![
        (1, entry("root", &[])),
        (2, entry("mid", &[1])),
    ]);
    let mut done = BTreeSet::new();
    done.insert(1);
    let path = data.upstream_path(2, &done);
    assert_eq!(path.ids, vec![2]);
    assert_eq!(path.end, PathEnd::Repeated);
}

#[test]
fn traversal_terminates_on_cycle() {
    // A three-node parent cycle: each traversal stops with a repetition
    // marker after visiting every node once, whichever node it starts at.
    let cycle = Data::from_raw(vec![
        (1, entry("a", &[2])),
        (2, entry("b", &[3])),
        (3, entry("c", &[1])),
    ]);
    for start in [1u128, 2, 3] {
        let path = cycle.upstream_path(start, &BTreeSet::new());
        assert_eq!(path.end, PathEnd::Repeated);
        assert_eq!(path.ids.len(), 3);
        assert_eq!(path.ids[0], start);
        let path = cycle.downstream_path(start, &BTreeSet::new());
        assert_eq!(path.end, PathEnd::Repeated);
        assert_eq!(path.ids.len(), 3);
        assert_eq!(path.ids[0], start);
    }
    let up = cycle.upstream_path(1, &BTreeSet::new());
    assert_eq!(up.ids, vec![1, 2, 3]);
    let down = cycle.downstream_path(1, &BTreeSet::new());
    assert_eq!(down.ids, vec![1, 3, 2]);
}

#[test]
fn downstream_follows_least_children() {
    let data = Data::from_raw(vec![
        (1, entry("root", &[])),
        (2, entry("left", &[1])),
        (3, entry("right", &[1])),
        (4, entry("leaf", &[2])),
    ]);
    let path = data.downstream_path(1, &BTreeSet::new());
    assert_eq!(path.ids, vec![1, 2, 4]);
    assert_eq!(path.end, PathEnd::Exhausted);
}

#[test]
fn downstream_checks_repetition_before_the_entry() {
    let data = Data::from_raw(vec![(1, entry("root", &[]))]);
    let mut done = BTreeSet::new();
    done.insert(9);
    // Even an id with no entry counts as repeated when already visited.
    let path = data.downstream_path(9, &done);
    assert_eq!(path.ids, Vec::<u128>::new());
    assert_eq!(path.end, PathEnd::Repeated);
    let path = data.downstream_path(8, &BTreeSet::new());
    assert_eq!(path.end, PathEnd::Missing);
}
