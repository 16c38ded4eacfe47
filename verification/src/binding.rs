//! Bidirectional binding between a parent cell and a derived child cell
//! (`double_bind`).
//!
//! Two conversion functions propagate changes in both directions.  A
//! three-state lock stops the propagation from feeding back on itself: while
//! one direction is reacting, the echo arriving from the opposite side is
//! suppressed instead of re-applied.  A notification arriving while the lock
//! is already held in the *same* direction would mean the reactive graph's
//! invariants were broken; the contracts here rule that state out, so the
//! verified propagation can never reach it.

use crate::signals::CellState;
use vstd::prelude::*;

verus! {

/// The reentrancy lock: at most one directional reaction is in flight.
#[derive(Clone, Copy, PartialEq, Eq, Debug, Structural)]
pub enum BindingLock {
    /// No propagation is running.
    Idle,
    /// A parent change is being pushed to the child.
    ReactingToParent,
    /// A child change is being pushed to the parent.
    ReactingToChild,
}

/// A parent cell and its bidirectionally bound derived child cell, with the
/// lock that guards propagation between them.
pub struct DoubleBind<P, C> {
    pub lock: BindingLock,
    pub parent: CellState<P>,
    pub child: CellState<C>,
}

impl<P, C> DoubleBind<P, C> {
    /// Both cells carry the values they would after an external write and one
    /// settled propagation, and the lock is back to rest.
    pub open spec fn settled(self) -> bool {
        self.lock is Idle
    }

    /// Creates the binding: the child cell starts out holding the image of
    /// the parent's initial value under `to_child`, and this initial value
    /// triggers no propagation in either direction.
    pub fn new<F: Fn(&P) -> C>(parent_value: P, to_child: &F) -> (b: Self)
        requires
            call_requires(*to_child, (&parent_value,)),
        ensures
            b.settled(),
            b.parent.value == parent_value,
            b.parent.notifications == 0,
            call_ensures(*to_child, (&b.parent.value,), b.child.value),
            b.child.notifications == 0,
    {
        let child_value = to_child(&parent_value);
        DoubleBind {
            lock: BindingLock::Idle,
            parent: CellState::new(parent_value),
            child: CellState::new(child_value),
        }
    }

    /// The child-side subscriber, as the scheduler runs it after the child
    /// cell notified.  Idle lock: the reaction locks the child direction,
    /// writes the converted value to the parent, and unlocks.  Lock held by
    /// the parent direction: the notification is that propagation's own echo
    /// and is suppressed — the parent is not touched.
    pub fn child_changed<G: Fn(&C) -> P>(&mut self, to_parent: &G) -> (propagated: bool)
        requires
            !(old(self).lock is ReactingToChild),
            call_requires(*to_parent, (&old(self).child.value,)),
            old(self).lock is Idle ==> old(self).parent.notifications < u64::MAX,
        ensures
            final(self).lock == old(self).lock,
            final(self).child == old(self).child,
            propagated == (old(self).lock is Idle),
            propagated ==> call_ensures(
                *to_parent,
                (&old(self).child.value,),
                final(self).parent.value,
            ) && final(self).parent.notifications == old(self).parent.notifications + 1,
            !propagated ==> final(self).parent == old(self).parent,
    {
        match self.lock {
            BindingLock::Idle => {
                self.lock = BindingLock::ReactingToChild;
                let converted = to_parent(&self.child.value);
                self.parent.set(converted);
                self.lock = BindingLock::Idle;
                true
            },
            BindingLock::ReactingToParent => false,
            BindingLock::ReactingToChild => {
                // Same-direction reentry is excluded by the precondition.
                proof {
                    assert(false);
                }
                false
            },
        }
    }

    /// The parent-side subscriber, symmetric to [`DoubleBind::child_changed`].
    pub fn parent_changed<F: Fn(&P) -> C>(&mut self, to_child: &F) -> (propagated: bool)
        requires
            !(old(self).lock is ReactingToParent),
            call_requires(*to_child, (&old(self).parent.value,)),
            old(self).lock is Idle ==> old(self).child.notifications < u64::MAX,
        ensures
            final(self).lock == old(self).lock,
            final(self).parent == old(self).parent,
            propagated == (old(self).lock is Idle),
            propagated ==> call_ensures(
                *to_child,
                (&old(self).parent.value,),
                final(self).child.value,
            ) && final(self).child.notifications == old(self).child.notifications + 1,
            !propagated ==> final(self).child == old(self).child,
    {
        match self.lock {
            BindingLock::Idle => {
                self.lock = BindingLock::ReactingToParent;
                let converted = to_child(&self.parent.value);
                self.child.set(converted);
                self.lock = BindingLock::Idle;
                true
            },
            BindingLock::ReactingToChild => false,
            BindingLock::ReactingToParent => {
                proof {
                    assert(false);
                }
                false
            },
        }
    }

    /// An external write to the parent, followed by the whole propagation it
    /// triggers, run as the single-threaded scheduler would: the parent-side
    /// subscriber converts and writes the child; the child cell's
    /// notification wakes the child-side subscriber *while the lock is still
    /// held*, so that echo is suppressed and the parent is not rewritten.
    ///
    /// Each side is written exactly once — the parent by the external write,
    /// the child by the propagation — and the sides agree afterwards: the
    /// child holds an image of the new parent value under `to_child`.
    pub fn set_parent<F: Fn(&P) -> C, G: Fn(&C) -> P>(
        &mut self,
        value: P,
        to_child: &F,
        to_parent: &G,
    ) -> (echo_suppressed: bool)
        requires
            old(self).settled(),
            call_requires(*to_child, (&value,)),
            forall|c: &C| call_requires(*to_parent, (c,)),
            old(self).parent.notifications < u64::MAX,
            old(self).child.notifications < u64::MAX,
        ensures
            final(self).settled(),
            final(self).parent.value == value,
            final(self).parent.notifications == old(self).parent.notifications + 1,
            call_ensures(*to_child, (&value,), final(self).child.value),
            final(self).child.notifications == old(self).child.notifications + 1,
            echo_suppressed,
    {
        self.parent.set(value);
        // The parent subscriber reacts: lock, convert, write the child.
        self.lock = BindingLock::ReactingToParent;
        let converted = to_child(&self.parent.value);
        self.child.set(converted);
        // The child cell just notified, so its subscriber runs now, sees the
        // lock held by the opposite direction, and suppresses the echo.
        let echoed = self.child_changed(to_parent);
        self.lock = BindingLock::Idle;
        !echoed
    }

    /// An external write to the child, symmetric to
    /// [`DoubleBind::set_parent`]: the child-side subscriber converts and
    /// writes the parent; the parent-side echo is suppressed; afterwards the
    /// parent holds an image of the new child value under `to_parent`.
    pub fn set_child<F: Fn(&P) -> C, G: Fn(&C) -> P>(
        &mut self,
        value: C,
        to_child: &F,
        to_parent: &G,
    ) -> (echo_suppressed: bool)
        requires
            old(self).settled(),
            call_requires(*to_parent, (&value,)),
            forall|p: &P| call_requires(*to_child, (p,)),
            old(self).parent.notifications < u64::MAX,
            old(self).child.notifications < u64::MAX,
        ensures
            final(self).settled(),
            final(self).child.value == value,
            final(self).child.notifications == old(self).child.notifications + 1,
            call_ensures(*to_parent, (&value,), final(self).parent.value),
            final(self).parent.notifications == old(self).parent.notifications + 1,
            echo_suppressed,
    {
        self.child.set(value);
        self.lock = BindingLock::ReactingToChild;
        let converted = to_parent(&self.child.value);
        self.parent.set(converted);
        let echoed = self.parent_changed(to_child);
        self.lock = BindingLock::Idle;
        !echoed
    }
}

} // verus!
