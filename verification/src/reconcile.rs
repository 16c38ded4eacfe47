//! Scroll reconciliation: which card of a scrolled row becomes active, at
//! most one evaluation per animation frame, and the spacer arithmetic that
//! keeps the viewport still when the active card changes upstream.

use crate::visibility::{classify_args_wf, spec_classify, Visibility, COORD_LIMIT};
use vstd::prelude::*;

verus! {

/// Coalesces scroll events to one scheduled evaluation per animation frame:
/// while a frame callback is pending, further events schedule nothing.
pub struct FrameCoalescer {
    pub pending: bool,
}

impl FrameCoalescer {
    /// No frame callback is pending yet.
    pub fn new() -> (c: Self)
        ensures
            !c.pending,
    {
        FrameCoalescer { pending: false }
    }

    /// A scroll event arrived: a frame callback is scheduled exactly when
    /// none is pending already.
    pub fn on_scroll(&mut self) -> (schedule: bool)
        ensures
            schedule == !old(self).pending,
            final(self).pending,
    {
        let schedule = !self.pending;
        self.pending = true;
        schedule
    }

    /// The scheduled frame fired: the evaluation runs and the guard clears,
    /// so the next scroll event schedules again.
    pub fn on_frame(&mut self)
        ensures
            !final(self).pending,
    {
        self.pending = false;
    }

    /// A burst of scroll events within one animation frame schedules exactly
    /// one evaluation — one when no callback was pending as the burst began,
    /// none otherwise.
    pub fn scroll_burst(&mut self, events: usize) -> (scheduled: usize)
        ensures
            final(self).pending == (old(self).pending || events > 0),
            scheduled == (if !old(self).pending && events > 0 {
                1int
            } else {
                0int
            }),
    {
        let mut scheduled: usize = 0;
        let mut k: usize = 0;
        while k < events
            invariant
                k <= events,
                self.pending == (old(self).pending || k > 0),
                scheduled == (if !old(self).pending && k > 0 {
                    1int
                } else {
                    0int
                }),
            decreases events - k,
        {
            if self.on_scroll() {
                scheduled = scheduled + 1;
            }
            k = k + 1;
        }
        scheduled
    }
}

/// Whether a classification designates its element as the active one of a
/// left-to-right scan: the first card whose leading edge is still off screen
/// while some of it shows, or which sits fully inside the window.
pub open spec fn designates_active(v: Visibility) -> bool {
    v is PeekingBefore || v is Straddling || v is Inside
}

/// The scan precondition: some element is visible, and everything to its left
/// is still entirely before the window — the shape a scrolled row of
/// left-to-right cards always has when a scroll event fires.
pub open spec fn scan_has_active(boxes: Seq<(i64, i64)>, window: int) -> bool {
    exists|i: int|
        0 <= i < boxes.len() && designates_active(
            spec_classify(boxes[i].0 as int, boxes[i].1 as int, window),
        ) && (forall|j: int|
            0 <= j < i ==> spec_classify(boxes[j].0 as int, boxes[j].1 as int, window) is Before)
}

/// Every box of the row is a proper interval with coordinates the classifier
/// accepts.
pub open spec fn boxes_wf(boxes: Seq<(i64, i64)>, window: int) -> bool {
    forall|i: int|
        0 <= i < boxes.len() ==> classify_args_wf(boxes[i].0 as int, boxes[i].1 as int, window)
}

/// Scans a row of measured boxes left to right and returns the first element
/// that any part of the window shows, skipping the ones still entirely before
/// it — `None` when nothing designates an active element.
pub fn first_visible(boxes: &Vec<(i64, i64)>, window: i64) -> (r: Option<usize>)
    requires
        boxes_wf(boxes@, window as int),
    ensures
        match r {
            Some(i) => {
                &&& i < boxes@.len()
                &&& designates_active(
                    spec_classify(boxes@[i as int].0 as int, boxes@[i as int].1 as int, window as int),
                )
                &&& forall|j: int|
                    0 <= j < i ==> !designates_active(
                        spec_classify(boxes@[j].0 as int, boxes@[j].1 as int, window as int),
                    )
            },
            None => forall|j: int|
                0 <= j < boxes@.len() ==> !designates_active(
                    spec_classify(boxes@[j].0 as int, boxes@[j].1 as int, window as int),
                ),
        },
{
    let mut k: usize = 0;
    while k < boxes.len()
        invariant
            k <= boxes@.len(),
            boxes_wf(boxes@, window as int),
            forall|j: int|
                0 <= j < k ==> !designates_active(
                    spec_classify(boxes@[j].0 as int, boxes@[j].1 as int, window as int),
                ),
        decreases boxes@.len() - k,
    {
        let (start, end) = boxes[k];
        let v = Visibility::new(start, end, window);
        if v.is_first_visible() || v == Visibility::Inside {
            return Some(k);
        }
        k = k + 1;
    }
    None
}

/// The reconciliation scan as the frame callback runs it: the row's card ids
/// beside their measured boxes, and the id and index of the designated active
/// card.  The caller guarantees what a scrolled row always provides — a
/// visible element preceded only by fully-before ones.
pub fn first_visible_element(ids: &Vec<u128>, boxes: &Vec<(i64, i64)>, window: i64) -> (r: (
    u128,
    usize,
))
    requires
        ids@.len() == boxes@.len(),
        boxes_wf(boxes@, window as int),
        scan_has_active(boxes@, window as int),
    ensures
        r.1 < boxes@.len(),
        r.0 == ids@[r.1 as int],
        designates_active(
            spec_classify(boxes@[r.1 as int].0 as int, boxes@[r.1 as int].1 as int, window as int),
        ),
        forall|j: int|
            0 <= j < r.1 ==> spec_classify(
                boxes@[j].0 as int,
                boxes@[j].1 as int,
                window as int,
            ) is Before,
{
    let ghost witness: int = choose|i: int|
        0 <= i < boxes@.len() && designates_active(
            spec_classify(boxes@[i].0 as int, boxes@[i].1 as int, window as int),
        ) && (forall|j: int|
            0 <= j < i ==> spec_classify(
                boxes@[j].0 as int,
                boxes@[j].1 as int,
                window as int,
            ) is Before);
    let mut k: usize = 0;
    while k < boxes.len()
        invariant
            k <= boxes@.len(),
            ids@.len() == boxes@.len(),
            boxes_wf(boxes@, window as int),
            0 <= witness < boxes@.len(),
            k <= witness,
            designates_active(
                spec_classify(
                    boxes@[witness].0 as int,
                    boxes@[witness].1 as int,
                    window as int,
                ),
            ),
            forall|j: int|
                0 <= j < witness ==> spec_classify(
                    boxes@[j].0 as int,
                    boxes@[j].1 as int,
                    window as int,
                ) is Before,
        decreases boxes@.len() - k,
    {
        let (start, end) = boxes[k];
        let v = Visibility::new(start, end, window);
        if v.is_first_visible() || v == Visibility::Inside {
            return (ids[k], k);
        }
        k = k + 1;
    }
    proof {
        assert(false);
    }
    (0, 0)
}

/// What the upstream position-restoration procedure does next, once the
/// spacer has been reset and the target card remeasured.
#[derive(Debug, Clone, Copy, PartialEq, Eq, Structural)]
pub enum RestoreStep {
    /// Scrolling the window vertically by `delta` keeps the card where the
    /// user saw it.
    ScrollBy { delta: i64 },
    /// Restoring would need a negative scroll offset: widen the spacer above
    /// the row to `height` first, remeasure, and then scroll by the new
    /// difference.
    WidenSpacer { height: i64 },
}

/// Decides the restoration step from the card's position before the active
/// swap (`at`), its position after the swap with the spacer reset (`top`),
/// and the window's current vertical scroll offset.
///
/// The margin check: scrolling by `delta = top - at` is only possible while
/// the resulting offset stays non-negative; otherwise the spacer must make up
/// the missing `-(delta + scroll_y)` pixels of height above the row.
pub fn plan_restore(at: i64, top: i64, scroll_y: i64) -> (r: RestoreStep)
    requires
        -COORD_LIMIT <= at <= COORD_LIMIT,
        -COORD_LIMIT <= top <= COORD_LIMIT,
        -COORD_LIMIT <= scroll_y <= COORD_LIMIT,
    ensures
        ({
            let delta = top - at;
            let margin = delta + scroll_y;
            if margin <= 0 {
                r == (RestoreStep::WidenSpacer { height: (-margin) as i64 })
            } else {
                r == (RestoreStep::ScrollBy { delta: delta as i64 })
            }
        }),
{
    let delta = top - at;
    let margin = delta + scroll_y;
    if margin <= 0 {
        RestoreStep::WidenSpacer { height: -margin }
    } else {
        RestoreStep::ScrollBy { delta }
    }
}

/// The scroll correction once the spacer is in place and the card has been
/// remeasured at `top`: the window scrolls by exactly the card's displacement
/// from where the user last saw it.
pub fn finish_restore(at: i64, top: i64) -> (delta: i64)
    requires
        -COORD_LIMIT <= at <= COORD_LIMIT,
        -COORD_LIMIT <= top <= COORD_LIMIT,
    ensures
        delta == top - at,
{
    top - at
}

} // verus!
