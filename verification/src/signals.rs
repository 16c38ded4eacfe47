//! State machines of the signal combinators.
//!
//! The reactive scheduler — the thing that stores subscriber lists and decides
//! when callbacks run — lives outside this library.  What is verified here is
//! every decision such a scheduler delegates: whether a deduplicated signal
//! fires, which argument pair a windowed reducer receives, whether a gated
//! signal accepts a value, whether a subscription skips its initial echo, and
//! what an aggregation over a growing bag of sources sees.  Each combinator is
//! a small struct whose `step`-style methods the surrounding runtime calls
//! once per source notification.

use vstd::laws_eq::obeys_concrete_eq;
use vstd::pervasive::cloned;
use vstd::prelude::*;

verus! {

/// A value that may still be on its way.
#[derive(Clone, Copy, PartialEq, Eq, Debug)]
pub enum Load<T> {
    Loading,
    Ready(T),
}

/// Model of one observable cell: its current value together with the number
/// of change notifications it has sent to its subscribers so far.
///
/// The count is what the contracts of the conditional writers speak about:
/// `set` always notifies, `set_if_changed` notifies exactly once per
/// committed change and never for a write of an equal value.
#[derive(Clone, PartialEq, Eq, Debug)]
pub struct CellState<T> {
    pub value: T,
    pub notifications: u64,
}

impl<T> CellState<T> {
    /// A fresh cell holding `value`, with no notification sent yet.
    pub fn new(value: T) -> (c: Self)
        ensures
            c.value == value,
            c.notifications == 0,
    {
        CellState { value, notifications: 0 }
    }

    /// Unconditional write: stores the value and notifies once.
    pub fn set(&mut self, value: T)
        requires
            old(self).notifications < u64::MAX,
        ensures
            final(self).value == value,
            final(self).notifications == old(self).notifications + 1,
    {
        self.value = value;
        self.notifications = self.notifications + 1;
    }

    /// Wakes the subscribers without changing the value.
    pub fn trigger_subscribers(&mut self)
        requires
            old(self).notifications < u64::MAX,
        ensures
            final(self).value == old(self).value,
            final(self).notifications == old(self).notifications + 1,
    {
        self.notifications = self.notifications + 1;
    }
}

impl<T: PartialEq> CellState<T> {
    /// Writes the value only when it differs from the stored one, so an equal
    /// write sends no redundant notification.
    pub fn set_if_changed(&mut self, value: T)
        requires
            obeys_concrete_eq::<T>(),
            old(self).notifications < u64::MAX,
        ensures
            final(self).value == value,
            final(self).notifications == old(self).notifications + (
            if value == old(self).value {
                0int
            } else {
                1int
            }),
    {
        proof {
            reveal(vstd::laws_eq::obeys_concrete_eq);
        }
        let unchanged = self.value == value;
        if !unchanged {
            self.set(value);
        }
    }

    /// Applies a rewriting function to the current value and commits the
    /// result only when it differs, notifying at most once.
    pub fn update_if_changed<F: Fn(&T) -> T>(&mut self, f: F)
        requires
            obeys_concrete_eq::<T>(),
            old(self).notifications < u64::MAX,
            call_requires(f, (&old(self).value,)),
        ensures
            call_ensures(f, (&old(self).value,), final(self).value),
            final(self).notifications == old(self).notifications + (
            if final(self).value == old(self).value {
                0int
            } else {
                1int
            }),
    {
        let new = f(&self.value);
        self.set_if_changed(new);
    }
}

impl CellState<bool> {
    /// Inverts the stored flag, always notifying.
    pub fn flip(&mut self)
        requires
            old(self).notifications < u64::MAX,
        ensures
            final(self).value == !old(self).value,
            final(self).notifications == old(self).notifications + 1,
    {
        let inverted = !self.value;
        self.set(inverted);
    }
}

/// Scoped read-modify-write access to a cell's value: a private copy that is
/// mutated freely and then committed back with exactly one notification.
///
/// The source cell is untouched between [`CellState::modify`] and
/// [`Modify::commit`]; committing consumes the handle, so no handle commits
/// twice.
#[derive(Debug)]
pub struct Modify<T> {
    pub value: T,
}

impl<T: Clone> CellState<T> {
    /// Opens a mutation handle on a private copy of the current value.
    pub fn modify(&self) -> (m: Modify<T>)
        ensures
            cloned(self.value, m.value),
    {
        Modify { value: self.value.clone() }
    }
}

impl<T> Modify<T> {
    /// Commits the accumulated mutations back to the cell: one write, one
    /// notification, however many edits the copy received.
    pub fn commit(self, cell: &mut CellState<T>)
        requires
            old(cell).notifications < u64::MAX,
        ensures
            final(cell).value == self.value,
            final(cell).notifications == old(cell).notifications + 1,
    {
        cell.set(self.value);
    }
}

/// State of a deduplicating derived signal (`map_dedup`, and `dedup` as its
/// identity instance): the last value it propagated.
pub struct MapDedup<U> {
    pub last: U,
}

/// Whether a deduplicating signal seeded with `initial` fires on the `i`-th
/// element of the source sequence `inputs`: exactly when that element differs
/// from the one before it.
pub open spec fn dedup_fires_at<U>(initial: U, inputs: Seq<U>, i: int) -> bool {
    inputs[i] != (if i == 0 {
        initial
    } else {
        inputs[i - 1]
    })
}

impl<U: PartialEq> MapDedup<U> {
    /// Seeds the memo with the initially computed value, which the derived
    /// signal exposes without a change notification.
    pub fn new(initial: U) -> (s: Self)
        ensures
            s.last == initial,
    {
        MapDedup { last: initial }
    }

    /// A freshly computed value arrived: remember it, and report whether the
    /// subscribers are notified — exactly when it differs from the previous
    /// value.
    pub fn step(&mut self, value: U) -> (fired: bool)
        requires
            obeys_concrete_eq::<U>(),
        ensures
            fired == (value != old(self).last),
            final(self).last == value,
    {
        proof {
            reveal(vstd::laws_eq::obeys_concrete_eq);
        }
        let same = self.last == value;
        if same {
            false
        } else {
            self.last = value;
            true
        }
    }
}

/// Feeds a whole source sequence through a deduplicating signal and returns,
/// per element, whether the subscribers were notified.
pub fn run_dedup<U: Copy + PartialEq>(initial: U, inputs: &Vec<U>) -> (fired: Vec<bool>)
    requires
        obeys_concrete_eq::<U>(),
    ensures
        fired@.len() == inputs@.len(),
        forall|i: int|
            0 <= i < inputs@.len() ==> fired@[i] == dedup_fires_at(initial, inputs@, i),
{
    let mut state = MapDedup::new(initial);
    let mut fired: Vec<bool> = Vec::new();
    let mut k: usize = 0;
    while k < inputs.len()
        invariant
            obeys_concrete_eq::<U>(),
            k <= inputs@.len(),
            fired@.len() == k,
            state.last == (if k == 0 {
                initial
            } else {
                inputs@[k - 1]
            }),
            forall|i: int| 0 <= i < k ==> fired@[i] == dedup_fires_at(initial, inputs@, i),
        decreases inputs@.len() - k,
    {
        let f = state.step(inputs[k]);
        fired.push(f);
        k = k + 1;
    }
    fired
}

/// Pushing an unchanged value never fires: within any source sequence, an
/// element equal to its predecessor produces no notification, so a run of
/// equal values notifies at most once, on its first element.
pub proof fn lemma_dedup_suppression<U>(initial: U, inputs: Seq<U>, i: int)
    requires
        0 < i < inputs.len(),
        inputs[i] == inputs[i - 1],
    ensures
        !dedup_fires_at(initial, inputs, i),
{
}

/// State of a windowed derived signal (`map_window`, and of the
/// side-effecting `for_each_window`, whose callback receives the same pairs
/// from the second notification on): the source value seen by the previous
/// notification, which the reducer receives beside the new one.
pub struct MapWindow<T> {
    pub prev: T,
}

/// The argument pair the windowed reducer receives on its `i`-th invocation,
/// for a source that held `initial` at construction and then produced
/// `updates`: `(None, initial)` first, then each update paired with the
/// source value seen just before it.
pub open spec fn window_args_at<T>(initial: T, updates: Seq<T>, i: int) -> (Option<T>, T) {
    if i == 0 {
        (None, initial)
    } else {
        (
            Some(
                if i == 1 {
                    initial
                } else {
                    updates[i - 2]
                },
            ),
            updates[i - 1],
        )
    }
}

impl<T> MapWindow<T> {
    /// At construction the reducer has just been invoked with
    /// `(None, current)`; the state remembers `current` as the last seen
    /// source value.
    pub fn new(current: T) -> (s: Self)
        ensures
            s.prev == current,
    {
        MapWindow { prev: current }
    }

    /// A new source value arrived: returns the previously seen value — the
    /// reducer is invoked with `(Some(returned), new)` — and remembers the
    /// new one.  The window slides over *source* values, never over derived
    /// ones.
    pub fn step(&mut self, new: T) -> (prev: T)
        ensures
            prev == old(self).prev,
            final(self).prev == new,
    {
        let mut taken = new;
        core::mem::swap(&mut self.prev, &mut taken);
        taken
    }
}

/// Feeds a source history through a windowed signal and returns every
/// argument pair the reducer would receive, in order.
pub fn run_window<T: Copy>(initial: T, updates: &Vec<T>) -> (pairs: Vec<(Option<T>, T)>)
    ensures
        pairs@.len() == updates@.len() + 1,
        forall|i: int|
            0 <= i < pairs@.len() ==> pairs@[i] == window_args_at(initial, updates@, i),
{
    let mut state = MapWindow::new(initial);
    let mut pairs: Vec<(Option<T>, T)> = Vec::new();
    pairs.push((None, initial));
    let mut k: usize = 0;
    while k < updates.len()
        invariant
            k <= updates@.len(),
            pairs@.len() == k + 1,
            state.prev == (if k == 0 {
                initial
            } else {
                updates@[k - 1]
            }),
            forall|i: int| 0 <= i < k + 1 ==> pairs@[i] == window_args_at(initial, updates@, i),
        decreases updates@.len() - k,
    {
        let prev = state.step(updates[k]);
        pairs.push((Some(prev), updates[k]));
        k = k + 1;
    }
    pairs
}

/// State of a value-gated derived signal (`keep_if` / `skip_if`): the
/// latest value the predicate let through, still exposed while newer values
/// are held back.
pub struct ValueGate<T> {
    pub accepted: T,
}

impl<T> ValueGate<T> {
    /// A fresh gate holds the current value of its source signal.
    pub fn new(current: T) -> (s: Self)
        ensures
            s.accepted == current,
    {
        ValueGate { accepted: current }
    }

    /// `keep_if` semantics: the new value replaces the accepted one exactly
    /// when the predicate held for it (`keep`); otherwise the previously
    /// accepted value is retained.
    pub fn keep_if(&mut self, value: T, keep: bool)
        ensures
            final(self).accepted == (if keep {
                value
            } else {
                old(self).accepted
            }),
    {
        if keep {
            self.accepted = value;
        }
    }

    /// `skip_if` semantics: the new value is dropped exactly when the
    /// predicate held for it (`skip`).
    pub fn skip_if(&mut self, value: T, skip: bool)
        ensures
            final(self).accepted == (if skip {
                old(self).accepted
            } else {
                value
            }),
    {
        self.keep_if(value, !skip);
    }
}

/// Gate of a change-only subscription (`for_each_after_first`): suppresses
/// the initial synchronous invocation and lets every later one through.
pub struct AfterFirst {
    pub first: bool,
}

impl AfterFirst {
    /// A fresh gate: the next notification is the initial one.
    pub fn new() -> (s: Self)
        ensures
            s.first,
    {
        AfterFirst { first: true }
    }

    /// A notification arrived: report whether the callback runs — every time
    /// but the first.
    pub fn step(&mut self) -> (run: bool)
        ensures
            run == !old(self).first,
            !final(self).first,
    {
        let run = !self.first;
        self.first = false;
        run
    }
}

/// An append-only collection of source signals whose current values are
/// aggregated into one derived value.  Membership only grows: there is no
/// removal, by design.
///
/// `values` holds the current value of each registered source, in
/// registration order; the runtime mirrors each source's notifications into
/// [`SignalBag::source_changed`].
#[derive(Clone, Debug)]
pub struct SignalBag<I> {
    pub values: Vec<I>,
}

impl<I> SignalBag<I> {
    /// An empty bag: the aggregate sees no inputs yet.
    pub fn new() -> (s: Self)
        ensures
            s.values@.len() == 0,
    {
        SignalBag { values: Vec::new() }
    }

    /// Registers a new source with its current value.  The aggregate must
    /// recompute at once so it reflects the widened input set — the returned
    /// flag, always set, mirrors the trigger fire.
    pub fn push(&mut self, current: I) -> (recompute: bool)
        ensures
            final(self).values@ == old(self).values@.push(current),
            recompute,
    {
        self.values.push(current);
        true
    }

    /// A registered source changed: store its new current value.  The
    /// aggregate recomputes on every member change.
    pub fn source_changed(&mut self, index: usize, value: I) -> (recompute: bool)
        requires
            index < old(self).values@.len(),
        ensures
            final(self).values@ == old(self).values@.update(index as int, value),
            recompute,
    {
        self.values.set(index, value);
        true
    }

    /// Recomputes the aggregate: the reducer receives the current values of
    /// all registered sources, in registration order.
    pub fn map<O, F: Fn(&Vec<I>) -> O>(&self, f: &F) -> (aggregate: O)
        requires
            call_requires(*f, (&self.values,)),
        ensures
            call_ensures(*f, (&self.values,), aggregate),
    {
        f(&self.values)
    }
}

} // verus!
