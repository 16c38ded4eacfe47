//! The claim-graph snapshot: entries keyed by a 128-bit id, the children
//! index derived by inverting every parent reference, and the cycle-guarded
//! traversals that pick the chain of rendered rows.
//!
//! Snapshots are immutable: an update replaces the whole snapshot, so the
//! children index stays consistent with the entries for a snapshot's
//! lifetime.

use std::collections::{BTreeMap, BTreeSet};
use vstd::prelude::*;

verus! {

broadcast use
    vstd::laws_cmp::group_laws_cmp,
    vstd::seq_lib::lemma_seq_contains_after_push,
;

/// One claim: its display text and the ordered ids of its parents.
#[derive(Debug, Clone, PartialEq)]
pub struct Entry {
    pub text: String,
    pub parents: Vec<u128>,
}

/// `c` is a child of `p`: the snapshot has an entry `c` that lists `p` among
/// its parents.
pub open spec fn is_child(entries: Map<u128, Entry>, c: u128, p: u128) -> bool {
    entries.contains_key(c) && entries[c].parents@.contains(p)
}

/// An edge `(c, p)` appears among the parent references processed so far: in
/// an entry before position `n` of the raw list, or among the first `m`
/// parent references of the entry at position `n`.
spec fn edge_listed(raw: Seq<(u128, Entry)>, n: int, m: int, c: u128, p: u128) -> bool {
    exists|k: int, l: int|
        {
            &&& 0 <= k <= n
            &&& k < raw.len()
            &&& 0 <= l < raw[k].1.parents@.len()
            &&& (k < n || l < m)
            &&& raw[k].0 == c
            &&& #[trigger] raw[k].1.parents@[l] == p
        }
}

/// A graph snapshot: the entries map and the children index derived from it.
#[derive(Debug, Clone)]
pub struct Data {
    pub entries: BTreeMap<u128, Entry>,
    pub children: BTreeMap<u128, Vec<u128>>,
}

impl Data {
    /// Every recorded child edge comes from some entry's parent list.
    pub open spec fn children_sound(self) -> bool {
        forall|p: u128, i: int|
            self.children@.contains_key(p) && 0 <= i < self.children@[p]@.len() ==> is_child(
                self.entries@,
                #[trigger] self.children@[p]@[i],
                p,
            )
    }

    /// Every parent reference of every entry is indexed.
    pub open spec fn children_complete(self) -> bool {
        forall|c: u128, p: u128|
            #[trigger] is_child(self.entries@, c, p) ==> self.children@.contains_key(p)
                && self.children@[p]@.contains(c)
    }

    /// Each child list is strictly ascending, so its ids are unique and its
    /// first element is the least child id.
    pub open spec fn children_sorted(self) -> bool {
        forall|p: u128, i: int, j: int|
            self.children@.contains_key(p) && 0 <= i < j < self.children@[p]@.len() ==> (
            #[trigger] self.children@[p]@[i]) < (#[trigger] self.children@[p]@[j])
    }

    /// The children index is exactly the inverse of the parent relation.
    pub open spec fn wf(self) -> bool {
        &&& self.children_sound()
        &&& self.children_complete()
        &&& self.children_sorted()
    }

    /// Builds a snapshot from raw entries sorted strictly ascending by id —
    /// the order a serialized id-keyed mapping arrives in — deriving the
    /// children index: for every entry `(id, e)` and every `p` among
    /// `e.parents`, `id` is added to `children[p]` once.
    pub fn from_raw(raw: Vec<(u128, Entry)>) -> (d: Data)
        requires
            forall|i: int, j: int|
                0 <= i < j < raw@.len() ==> (#[trigger] raw@[i]).0 < (#[trigger] raw@[j]).0,
        ensures
            forall|i: int|
                0 <= i < raw@.len() ==> d.entries@.contains_key((#[trigger] raw@[i]).0)
                    && d.entries@[raw@[i].0] == raw@[i].1,
            forall|k: u128|
                d.entries@.contains_key(k) ==> exists|i: int|
                    0 <= i < raw@.len() && (#[trigger] raw@[i]).0 == k,
            d.wf(),
    {
        let ghost all = raw@;
        // Derive the children index from the parent references, walking the
        // raw entries in ascending id order so each child list stays sorted.
        let mut children: BTreeMap<u128, Vec<u128>> = BTreeMap::new();
        let mut i: usize = 0;
        while i < raw.len()
            invariant
                all == raw@,
                forall|x: int, y: int|
                    0 <= x < y < all.len() ==> (#[trigger] all[x]).0 < (#[trigger] all[y]).0,
                i <= all.len(),
                forall|p: u128, x: int|
                    children@.contains_key(p) && 0 <= x < children@[p]@.len() ==> edge_listed(
                        all,
                        i as int,
                        0,
                        #[trigger] children@[p]@[x],
                        p,
                    ),
                forall|c: u128, p: u128|
                    #[trigger] edge_listed(all, i as int, 0, c, p) ==> children@.contains_key(p)
                        && children@[p]@.contains(c),
                forall|p: u128, x: int, y: int|
                    children@.contains_key(p) && 0 <= x < y < children@[p]@.len() ==> (
                    #[trigger] children@[p]@[x]) < (#[trigger] children@[p]@[y]),
            decreases all.len() - i,
        {
            let id = raw[i].0;
            let parent_count = raw[i].1.parents.len();
            let mut j: usize = 0;
            while j < parent_count
                invariant
                    all == raw@,
                    forall|x: int, y: int|
                        0 <= x < y < all.len() ==> (#[trigger] all[x]).0 < (#[trigger] all[y]).0,
                    i < all.len(),
                    id == all[i as int].0,
                    parent_count == all[i as int].1.parents@.len(),
                    j <= parent_count,
                    forall|p: u128, x: int|
                        children@.contains_key(p) && 0 <= x < children@[p]@.len() ==> edge_listed(
                            all,
                            i as int,
                            j as int,
                            #[trigger] children@[p]@[x],
                            p,
                        ),
                    forall|c: u128, p: u128|
                        #[trigger] edge_listed(all, i as int, j as int, c, p)
                            ==> children@.contains_key(p) && children@[p]@.contains(c),
                    forall|p: u128, x: int, y: int|
                        children@.contains_key(p) && 0 <= x < y < children@[p]@.len() ==> (
                        #[trigger] children@[p]@[x]) < (#[trigger] children@[p]@[y]),
                decreases parent_count - j,
            {
                let p = raw[i].1.parents[j];
                let mut v: Vec<u128> = match children.remove(&p) {
                    Some(v) => v,
                    None => Vec::new(),
                };
                let ghost v_before = v@;
                let duplicate = match v.last() {
                    Some(x) => *x == id,
                    None => false,
                };
                proof {
                    // Every element of `v` is the id of an entry at or
                    // before position `i`, so it is at most `id`; with the
                    // list strictly sorted, `id` can only sit at the end.
                    assert forall|x: int| 0 <= x < v_before.len() implies v_before[x] <= id by {
                        assert(edge_listed(all, i as int, j as int, v_before[x], p));
                        let (k, l) = choose|k: int, l: int|
                            {
                                &&& 0 <= k <= i as int
                                &&& k < all.len()
                                &&& 0 <= l < all[k].1.parents@.len()
                                &&& (k < i as int || l < j as int)
                                &&& all[k].0 == v_before[x]
                                &&& #[trigger] all[k].1.parents@[l] == p
                            };
                        if k < i as int {
                            assert(all[k].0 < all[i as int].0);
                        }
                    }
                    if !duplicate {
                        assert(!v_before.contains(id)) by {
                            if v_before.contains(id) {
                                let x = choose|x: int|
                                    0 <= x < v_before.len() && v_before[x] == id;
                                assert(v_before[v_before.len() - 1] <= id);
                                if x < v_before.len() - 1 {
                                    assert(v_before[x] < v_before[v_before.len() - 1]);
                                }
                            }
                        }
                    }
                }
                if !duplicate {
                    v.push(id);
                }
                children.insert(p, v);
                proof {
                    assert(edge_listed(all, i as int, j as int + 1, id, p)) by {
                        assert(0 <= j < all[i as int].1.parents@.len());
                        assert(all[i as int].0 == id && all[i as int].1.parents@[j as int] == p);
                    }
                    assert(children@[p]@.contains(id)) by {
                        if duplicate {
                            assert(children@[p]@[v_before.len() - 1] == id);
                        } else {
                            assert(children@[p]@[children@[p]@.len() - 1] == id);
                        }
                    }
                    assert forall|c: u128, q: u128|
                        #[trigger] edge_listed(all, i as int, j as int + 1, c, q) implies children@.contains_key(
                        q,
                    ) && children@[q]@.contains(c) by {
                        let (k, l) = choose|k: int, l: int|
                            {
                                &&& 0 <= k <= i as int
                                &&& k < all.len()
                                &&& 0 <= l < all[k].1.parents@.len()
                                &&& (k < i as int || l < j as int + 1)
                                &&& all[k].0 == c
                                &&& #[trigger] all[k].1.parents@[l] == q
                            };
                        if k == i as int && l == j as int {
                            assert(c == id && q == p);
                        } else {
                            assert(edge_listed(all, i as int, j as int, c, q));
                            if q == p {
                                // The old list held `c`; the new one extends it.
                                assert(v_before.contains(c));
                                let x = choose|x: int|
                                    0 <= x < v_before.len() && v_before[x] == c;
                                assert(children@[p]@[x] == c);
                            }
                        }
                    }
                }
                j = j + 1;
            }
            proof {
                assert forall|c: u128, q: u128|
                    #[trigger] edge_listed(all, i as int + 1, 0, c, q) implies edge_listed(
                    all,
                    i as int,
                    parent_count as int,
                    c,
                    q,
                ) by {
                    let (k, l) = choose|k: int, l: int|
                        {
                            &&& 0 <= k <= i as int + 1
                            &&& k < all.len()
                            &&& 0 <= l < all[k].1.parents@.len()
                            &&& (k < i as int + 1 || l < 0)
                            &&& all[k].0 == c
                            &&& #[trigger] all[k].1.parents@[l] == q
                        };
                    assert(k <= i as int);
                    assert(k < i as int || l < parent_count as int);
                }
                assert forall|c: u128, q: u128|
                    #[trigger] edge_listed(all, i as int, parent_count as int, c, q) implies edge_listed(
                    all,
                    i as int + 1,
                    0,
                    c,
                    q,
                ) by {
                    let (k, l) = choose|k: int, l: int|
                        {
                            &&& 0 <= k <= i as int
                            &&& k < all.len()
                            &&& 0 <= l < all[k].1.parents@.len()
                            &&& (k < i as int || l < parent_count as int)
                            &&& all[k].0 == c
                            &&& #[trigger] all[k].1.parents@[l] == q
                        };
                    assert(k < i as int + 1);
                }
            }
            i = i + 1;
        }
        // Move the entries into the id-keyed map.
        let mut rest = raw;
        let mut entries: BTreeMap<u128, Entry> = BTreeMap::new();
        while rest.len() > 0
            invariant
                forall|x: int, y: int|
                    0 <= x < y < all.len() ==> (#[trigger] all[x]).0 < (#[trigger] all[y]).0,
                rest@ == all.take(rest@.len() as int),
                rest@.len() <= all.len(),
                forall|x: int|
                    rest@.len() <= x < all.len() ==> entries@.contains_key((#[trigger] all[x]).0)
                        && entries@[all[x].0] == all[x].1,
                forall|k: u128|
                    entries@.contains_key(k) ==> exists|x: int|
                        rest@.len() <= x < all.len() && (#[trigger] all[x]).0 == k,
            decreases rest@.len(),
        {
            let ghost before = rest@;
            let pair = rest.pop().unwrap();
            proof {
                assert(pair == all[before.len() - 1]);
                assert(rest@ =~= all.take(rest@.len() as int));
            }
            entries.insert(pair.0, pair.1);
        }
        let d = Data { entries, children };
        proof {
            assert(all.take(0) =~= Seq::<(u128, Entry)>::empty());
            // The processed edges are exactly the parent relation of the
            // finished entries map.
            assert forall|c: u128, p: u128| #[trigger] is_child(d.entries@, c, p) implies d.children@.contains_key(
                p,
            ) && d.children@[p]@.contains(c) by {
                let x = choose|x: int| 0 <= x < all.len() && (#[trigger] all[x]).0 == c;
                assert(d.entries@[c] == all[x].1);
                let l = choose|l: int|
                    0 <= l < d.entries@[c].parents@.len() && d.entries@[c].parents@[l] == p;
                assert(edge_listed(all, all.len() as int, 0, c, p));
            }
            assert forall|p: u128, x: int|
                d.children@.contains_key(p) && 0 <= x < d.children@[p]@.len() implies is_child(
                d.entries@,
                #[trigger] d.children@[p]@[x],
                p,
            ) by {
                let c = d.children@[p]@[x];
                assert(edge_listed(all, all.len() as int, 0, c, p));
                let (k, l) = choose|k: int, l: int|
                    {
                        &&& 0 <= k <= all.len() as int
                        &&& k < all.len()
                        &&& 0 <= l < all[k].1.parents@.len()
                        &&& (k < all.len() as int || l < 0)
                        &&& all[k].0 == c
                        &&& #[trigger] all[k].1.parents@[l] == p
                    };
                assert(d.entries@.contains_key(c) && d.entries@[c] == all[k].1);
                assert(d.entries@[c].parents@.contains(p));
            }
        }
        d
    }
}

/// A traversal chain can never outgrow the snapshot: its ids are distinct
/// and each has an entry, so there are at most as many of them as the
/// snapshot has entries.  Together with the traversals' own contracts this
/// bounds every walk, cyclic snapshots included.
pub proof fn lemma_path_bounded(entries: Map<u128, Entry>, ids: Seq<u128>)
    requires
        entries.dom().finite(),
        forall|x: int| 0 <= x < ids.len() ==> entries.contains_key(#[trigger] ids[x]),
        forall|x: int, y: int| 0 <= x < y < ids.len() ==> (#[trigger] ids[x]) != (#[trigger] ids[y]),
    ensures
        ids.len() <= entries.dom().len(),
{
    assert(ids.no_duplicates());
    ids.unique_seq_to_set();
    assert forall|k: u128| #[trigger] ids.to_set().contains(k) implies entries.dom().contains(
        k,
    ) by {
        let x = choose|x: int| 0 <= x < ids.len() && ids[x] == k;
        assert(entries.contains_key(ids[x]));
    }
    vstd::set_lib::lemma_len_subset(ids.to_set(), entries.dom());
}

/// Why a rendered chain of rows stopped extending.
#[derive(Debug, Clone, Copy, PartialEq, Eq, Structural)]
pub enum PathEnd {
    /// The next id has no entry in the snapshot: the branch is rendered as a
    /// "missing" placeholder instead of being followed further.
    Missing,
    /// The next id was already visited: the repetition guard truncates the
    /// branch and renders a "repeated" marker instead of recursing.
    Repeated,
    /// The chain ran out: the last visited entry links nowhere further.
    Exhausted,
}

/// The outcome of a cycle-guarded traversal: the ids it visited, in order,
/// and why it stopped.
#[derive(Debug, Clone, PartialEq)]
pub struct TraversalPath {
    pub ids: Vec<u128>,
    pub end: PathEnd,
}

impl Data {
    /// Walks the ancestor chain rendered above a card: from `start`,
    /// repeatedly the first listed parent, visiting each id at most once.
    /// `done` carries the ids the enclosing rows already visited.
    ///
    /// The guard makes the walk total on every snapshot, cyclic ones
    /// included: each step visits an entry not seen before, so the walk stops
    /// after at most as many steps as the snapshot has entries — on a cycle
    /// with a `Repeated` marker, never by recursing forever.
    pub fn upstream_path(&self, start: u128, done: &BTreeSet<u128>) -> (r: TraversalPath)
        ensures
            ({
                let ids = r.ids@;
                let nxt = if ids.len() == 0 {
                    start
                } else {
                    self.entries@[ids.last()].parents@[0]
                };
                &&& forall|x: int|
                    0 <= x < ids.len() ==> self.entries@.contains_key(#[trigger] ids[x])
                &&& forall|x: int| 0 <= x < ids.len() ==> !done@.contains(#[trigger] ids[x])
                &&& forall|x: int, y: int|
                    0 <= x < y < ids.len() ==> (#[trigger] ids[x]) != (#[trigger] ids[y])
                &&& ids.len() > 0 ==> ids[0] == start
                &&& forall|x: int|
                    0 <= x < ids.len() - 1 ==> self.entries@[#[trigger] ids[x]].parents@.len() > 0
                        && ids[x + 1] == self.entries@[ids[x]].parents@[0]
                &&& (r.end is Exhausted <==> ids.len() > 0 && self.entries@[
                    ids.last()].parents@.len() == 0)
                &&& (r.end is Missing ==> !self.entries@.contains_key(nxt))
                &&& (r.end is Repeated ==> self.entries@.contains_key(nxt) && (done@.contains(nxt)
                    || ids.contains(nxt)))
            }),
    {
        let mut visited = done.clone();
        let mut ids: Vec<u128> = Vec::new();
        let mut current = start;
        loop
            invariant
                forall|x: int|
                    0 <= x < ids@.len() ==> self.entries@.contains_key(#[trigger] ids@[x]),
                forall|x: int| 0 <= x < ids@.len() ==> !done@.contains(#[trigger] ids@[x]),
                forall|x: int, y: int|
                    0 <= x < y < ids@.len() ==> (#[trigger] ids@[x]) != (#[trigger] ids@[y]),
                ids@.len() > 0 ==> ids@[0] == start,
                forall|x: int|
                    0 <= x < ids@.len() - 1 ==> self.entries@[#[trigger] ids@[x]].parents@.len()
                        > 0 && ids@[x + 1] == self.entries@[ids@[x]].parents@[0],
                ids@.len() == 0 ==> current == start,
                ids@.len() > 0 ==> self.entries@[ids@.last()].parents@.len() > 0 && current
                    == self.entries@[ids@.last()].parents@[0],
                forall|k: u128|
                    #[trigger] visited@.contains(k) <==> (done@.contains(k) || ids@.contains(k)),
            decreases self.entries@.dom().difference(visited@).len(),
        {
            match self.entries.get(&current) {
                None => {
                    return TraversalPath { ids, end: PathEnd::Missing };
                },
                Some(entry) => {
                    if visited.contains(&current) {
                        proof {
                            assert(done@.contains(current) || ids@.contains(current));
                        }
                        return TraversalPath { ids, end: PathEnd::Repeated };
                    }
                    proof {
                        self.entries@.dom().lemma_set_insert_diff_decreases(visited@, current);
                    }
                    visited.insert(current);
                    ids.push(current);
                    if entry.parents.len() == 0 {
                        return TraversalPath { ids, end: PathEnd::Exhausted };
                    }
                    current = entry.parents[0];
                },
            }
        }
    }

    /// Walks the descendant chain rendered below a card: from `start`,
    /// repeatedly the least child (the first of the sorted child list),
    /// visiting each id at most once.  The repetition guard is checked before
    /// the entry lookup, mirroring the downstream rendering order, and makes
    /// the walk total exactly as in [`Data::upstream_path`].
    pub fn downstream_path(&self, start: u128, done: &BTreeSet<u128>) -> (r: TraversalPath)
        ensures
            ({
                let ids = r.ids@;
                let nxt = if ids.len() == 0 {
                    start
                } else {
                    self.children@[ids.last()]@[0]
                };
                &&& forall|x: int|
                    0 <= x < ids.len() ==> self.entries@.contains_key(#[trigger] ids[x])
                &&& forall|x: int| 0 <= x < ids.len() ==> !done@.contains(#[trigger] ids[x])
                &&& forall|x: int, y: int|
                    0 <= x < y < ids.len() ==> (#[trigger] ids[x]) != (#[trigger] ids[y])
                &&& ids.len() > 0 ==> ids[0] == start
                &&& forall|x: int|
                    0 <= x < ids.len() - 1 ==> self.children@.contains_key(#[trigger] ids[x])
                        && self.children@[ids[x]]@.len() > 0 && ids[x + 1]
                        == self.children@[ids[x]]@[0]
                &&& (r.end is Exhausted ==> ids.len() > 0 && (!self.children@.contains_key(
                    ids.last()) || self.children@[ids.last()]@.len() == 0))
                &&& (r.end is Missing ==> !self.entries@.contains_key(nxt) && !(done@.contains(nxt)
                    || ids.contains(nxt)))
                &&& (r.end is Repeated ==> done@.contains(nxt) || ids.contains(nxt))
                &&& (!(r.end is Exhausted) && ids.len() > 0 ==> self.children@.contains_key(
                    ids.last()) && self.children@[ids.last()]@.len() > 0)
            }),
    {
        let mut visited = done.clone();
        let mut ids: Vec<u128> = Vec::new();
        let mut current = start;
        loop
            invariant
                forall|x: int|
                    0 <= x < ids@.len() ==> self.entries@.contains_key(#[trigger] ids@[x]),
                forall|x: int| 0 <= x < ids@.len() ==> !done@.contains(#[trigger] ids@[x]),
                forall|x: int, y: int|
                    0 <= x < y < ids@.len() ==> (#[trigger] ids@[x]) != (#[trigger] ids@[y]),
                ids@.len() > 0 ==> ids@[0] == start,
                forall|x: int|
                    0 <= x < ids@.len() - 1 ==> self.children@.contains_key(#[trigger] ids@[x])
                        && self.children@[ids@[x]]@.len() > 0 && ids@[x + 1]
                        == self.children@[ids@[x]]@[0],
                ids@.len() == 0 ==> current == start,
                ids@.len() > 0 ==> self.children@.contains_key(ids@.last())
                    && self.children@[ids@.last()]@.len() > 0 && current == self.children@[
                    ids@.last()]@[0],
                forall|k: u128|
                    #[trigger] visited@.contains(k) <==> (done@.contains(k) || ids@.contains(k)),
            decreases self.entries@.dom().difference(visited@).len(),
        {
            if visited.contains(&current) {
                proof {
                    assert(done@.contains(current) || ids@.contains(current));
                }
                return TraversalPath { ids, end: PathEnd::Repeated };
            }
            match self.entries.get(&current) {
                None => {
                    return TraversalPath { ids, end: PathEnd::Missing };
                },
                Some(_) => {
                    proof {
                        self.entries@.dom().lemma_set_insert_diff_decreases(visited@, current);
                    }
                    visited.insert(current);
                    ids.push(current);
                    match self.children.get(&current) {
                        None => {
                            return TraversalPath { ids, end: PathEnd::Exhausted };
                        },
                        Some(child_ids) => {
                            if child_ids.len() == 0 {
                                return TraversalPath { ids, end: PathEnd::Exhausted };
                            }
                            current = child_ids[0];
                        },
                    }
                },
            }
        }
    }
}

} // verus!
