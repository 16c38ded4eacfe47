//! Classifies how a one-dimensional interval `[start, end)` — an element's
//! bounding box along the scroll axis — relates to the viewport window
//! `[0, window)`.
//!
//! Coordinates are whole device pixels.  The visible share of an interval is
//! kept as an exact ratio of two lengths rather than a rounded quotient, so
//! every contract here is exact.

use vstd::prelude::*;

verus! {

/// Bound on the coordinates the classifier accepts; keeps every difference
/// and sum of two coordinates inside `i64`.
pub const COORD_LIMIT: i64 = 0x1000_0000_0000_0000;

/// An exact ratio `num / den` with `0 < num <= den`: the visible share of an
/// interval, in `(0, 1]`.
#[derive(Debug, Clone, Copy, PartialEq, Eq, Structural)]
pub struct Fraction {
    pub num: i64,
    pub den: i64,
}

impl Fraction {
    /// A fraction is well formed when it lies in `(0, 1]`.
    pub open spec fn wf(self) -> bool {
        0 < self.num <= self.den
    }
}

/// How an interval relates to the viewport window.  Exactly one variant
/// applies to each `(interval, window)` pair.
#[derive(Debug, Clone, Copy, PartialEq, Eq, Structural)]
pub enum Visibility {
    /// The box ends at or before the window start; nothing of it is shown.
    Before,
    /// The box straddles the window start; its trailing part is shown.
    PeekingBefore(Fraction),
    /// The box lies fully inside the window.
    Inside,
    /// The box straddles the window end; its leading part is shown.
    PeekingAfter(Fraction),
    /// The box starts at or after the window end; nothing of it is shown.
    After,
    /// The box covers the whole window; both of its edges are off screen.
    Straddling(Fraction),
}

/// The mathematical case analysis: which variant `[s, e)` falls under against
/// the window `[0, w)`, with the exact ratio for the partially visible cases.
///
/// A zero-width box exactly at the origin (`s == e == 0`) counts as `Before`:
/// it is not yet visible.
pub open spec fn spec_classify(s: int, e: int, w: int) -> Visibility {
    if e <= 0 {
        Visibility::Before
    } else if s < 0 && e <= w {
        Visibility::PeekingBefore(Fraction { num: e as i64, den: (e - s) as i64 })
    } else if s < 0 {
        Visibility::Straddling(Fraction { num: w as i64, den: (e - s) as i64 })
    } else if s >= w {
        Visibility::After
    } else if e <= w {
        Visibility::Inside
    } else {
        Visibility::PeekingAfter(Fraction { num: (w - s) as i64, den: (e - s) as i64 })
    }
}

/// The arguments `spec_classify` is meant for: a proper interval, a positive
/// window, and coordinates small enough that their differences fit in `i64`.
pub open spec fn classify_args_wf(s: int, e: int, w: int) -> bool {
    &&& s <= e
    &&& 1 <= w
    &&& -COORD_LIMIT <= s
    &&& e <= COORD_LIMIT
    &&& w <= COORD_LIMIT
}

/// Length of the part of `[s, e)` that lies inside `[0, w)`.
pub open spec fn overlap_len(s: int, e: int, w: int) -> int {
    let lo = if s >= 0 {
        s
    } else {
        0
    };
    let hi = if e <= w {
        e
    } else {
        w
    };
    if hi >= lo {
        hi - lo
    } else {
        0
    }
}

/// The visible share of a classified interval: `None` when nothing is shown,
/// the whole (`1/1`) for `Inside`, and the stored ratio otherwise.
pub open spec fn spec_fraction_visible(v: Visibility) -> Option<Fraction> {
    match v {
        Visibility::Before | Visibility::After => None,
        Visibility::PeekingBefore(f) | Visibility::PeekingAfter(f) | Visibility::Straddling(f) => Some(
            f,
        ),
        Visibility::Inside => Some(Fraction { num: 1, den: 1 }),
    }
}

impl Visibility {
    /// Classifies the interval `[start, end)` against the window
    /// `[0, window)`.
    pub fn new(start: i64, end: i64, window: i64) -> (v: Visibility)
        requires
            classify_args_wf(start as int, end as int, window as int),
        ensures
            v == spec_classify(start as int, end as int, window as int),
    {
        if end <= 0 {
            Visibility::Before
        } else if start < 0 && end <= window {
            Visibility::PeekingBefore(Fraction { num: end, den: end - start })
        } else if start < 0 {
            Visibility::Straddling(Fraction { num: window, den: end - start })
        } else if start >= window {
            Visibility::After
        } else if end <= window {
            Visibility::Inside
        } else {
            Visibility::PeekingAfter(Fraction { num: window - start, den: end - start })
        }
    }

    /// The visible share of the interval, if any of it is shown.
    pub fn fraction_visible(self) -> (r: Option<Fraction>)
        ensures
            r == spec_fraction_visible(self),
    {
        match self {
            Visibility::Before | Visibility::After => None,
            Visibility::PeekingBefore(f) | Visibility::PeekingAfter(f) | Visibility::Straddling(
                f,
            ) => Some(f),
            Visibility::Inside => Some(Fraction { num: 1, den: 1 }),
        }
    }

    /// Whether any part of the interval is shown.
    pub fn is_visible(self) -> (r: bool)
        ensures
            r == (spec_fraction_visible(self) is Some),
    {
        self.fraction_visible().is_some()
    }

    /// Whether the interval's leading edge is still off screen while some of
    /// it shows: the states that mark the first visible element of a
    /// left-to-right scan.
    pub fn is_first_visible(self) -> (r: bool)
        ensures
            r == (self is PeekingBefore || self is Straddling),
    {
        match self {
            Visibility::PeekingBefore(_) | Visibility::Straddling(_) => true,
            Visibility::Before | Visibility::Inside | Visibility::PeekingAfter(_)
            | Visibility::After => false,
        }
    }
}

/// Classification is total and mutually exclusive: each well-formed argument
/// triple falls under exactly one variant, the edge variants come exactly on
/// the stated boundaries, the visible share exists exactly for the four
/// visible variants, and every stored ratio is a well-formed fraction whose
/// value is the visible part of the interval over its whole length.
pub proof fn lemma_classification_total(s: int, e: int, w: int)
    requires
        classify_args_wf(s, e, w),
    ensures
        ({
            let v = spec_classify(s, e, w);
            let f = spec_fraction_visible(v);
            &&& (v is Before <==> e <= 0)
            &&& (v is After <==> s >= w)
            &&& (f is None <==> (v is Before || v is After))
            &&& (f matches Some(fr) ==> fr.wf())
            &&& (f matches Some(fr) ==> fr.num * (e - s) == overlap_len(s, e, w) * fr.den)
        }),
{
    let v = spec_classify(s, e, w);
    if e <= 0 {
    } else if s < 0 && e <= w {
        assert(overlap_len(s, e, w) == e);
    } else if s < 0 {
        assert(overlap_len(s, e, w) == w);
    } else if s >= w {
    } else if e <= w {
        assert(overlap_len(s, e, w) == e - s);
    } else {
        assert(overlap_len(s, e, w) == w - s);
    }
}

/// While an interval of fixed length approaches the window from before
/// (`start <= 0`), its visible share never shrinks as it slides forward.
pub proof fn lemma_share_monotone_approaching(s1: int, s2: int, len: int, w: int)
    requires
        s1 <= s2 <= 0,
        0 <= len,
        1 <= w,
    ensures
        overlap_len(s1, s1 + len, w) <= overlap_len(s2, s2 + len, w),
{
}

/// While an interval of fixed length leaves the window (`start >= 0`), its
/// visible share never grows as it slides forward.
pub proof fn lemma_share_monotone_leaving(s1: int, s2: int, len: int, w: int)
    requires
        0 <= s1 <= s2,
        0 <= len,
        1 <= w,
    ensures
        overlap_len(s1, s1 + len, w) >= overlap_len(s2, s2 + len, w),
{
}

/// The ratio form of the approach-side monotonicity: for two positions of the
/// same interval on the approach side, the earlier fraction is at most the
/// later one (compared as exact rationals), and an interval that shows
/// nothing at the later position showed nothing at the earlier one either.
pub proof fn lemma_fraction_monotone_approaching(s1: int, s2: int, len: int, w: int)
    requires
        s1 <= s2 <= 0,
        1 <= len,
        1 <= w,
        classify_args_wf(s1, s1 + len, w),
        classify_args_wf(s2, s2 + len, w),
    ensures
        ({
            let f1 = spec_fraction_visible(spec_classify(s1, s1 + len, w));
            let f2 = spec_fraction_visible(spec_classify(s2, s2 + len, w));
            &&& (f1 is Some ==> f2 is Some)
            &&& (f1 is Some && f2 is Some ==> (f1->0).num * (f2->0).den <= (f2->0).num * (
            f1->0).den)
        }),
{
    lemma_classification_total(s1, s1 + len, w);
    lemma_classification_total(s2, s2 + len, w);
    lemma_share_monotone_approaching(s1, s2, len, w);
    let ov1 = overlap_len(s1, s1 + len, w);
    let ov2 = overlap_len(s2, s2 + len, w);
    let f1 = spec_fraction_visible(spec_classify(s1, s1 + len, w));
    let f2 = spec_fraction_visible(spec_classify(s2, s2 + len, w));
    if f1 is Some {
        let a = f1->0;
        assert(f2 is Some);
        let b = f2->0;
        assert(a.num * len == ov1 * a.den);
        assert(b.num * len == ov2 * b.den);
        assert(a.num * b.den <= b.num * a.den) by (nonlinear_arith)
            requires
                a.num * len == ov1 * a.den,
                b.num * len == ov2 * b.den,
                ov1 <= ov2,
                0 < a.den,
                0 < b.den,
                0 < len,
        {
        }
    }
}

/// The ratio form of the leaving-side monotonicity: for two positions of the
/// same interval on the leaving side, the later fraction is at most the
/// earlier one, and an interval that shows nothing at the earlier position
/// shows nothing at the later one either.
pub proof fn lemma_fraction_monotone_leaving(s1: int, s2: int, len: int, w: int)
    requires
        0 <= s1 <= s2,
        1 <= len,
        1 <= w,
        classify_args_wf(s1, s1 + len, w),
        classify_args_wf(s2, s2 + len, w),
    ensures
        ({
            let f1 = spec_fraction_visible(spec_classify(s1, s1 + len, w));
            let f2 = spec_fraction_visible(spec_classify(s2, s2 + len, w));
            &&& (f2 is Some ==> f1 is Some)
            &&& (f1 is Some && f2 is Some ==> (f2->0).num * (f1->0).den <= (f1->0).num * (
            f2->0).den)
        }),
{
    lemma_classification_total(s1, s1 + len, w);
    lemma_classification_total(s2, s2 + len, w);
    lemma_share_monotone_leaving(s1, s2, len, w);
    let ov1 = overlap_len(s1, s1 + len, w);
    let ov2 = overlap_len(s2, s2 + len, w);
    let f1 = spec_fraction_visible(spec_classify(s1, s1 + len, w));
    let f2 = spec_fraction_visible(spec_classify(s2, s2 + len, w));
    if f2 is Some {
        let b = f2->0;
        assert(f1 is Some);
        let a = f1->0;
        assert(a.num * len == ov1 * a.den);
        assert(b.num * len == ov2 * b.den);
        assert(b.num * a.den <= a.num * b.den) by (nonlinear_arith)
            requires
                a.num * len == ov1 * a.den,
                b.num * len == ov2 * b.den,
                ov2 <= ov1,
                0 < a.den,
                0 < b.den,
                0 < len,
        {
        }
    }
}

} // verus!
