//! A reactive-signal combinator core and viewport-visibility geometry for a
//! horizontally scrollable graph of linked text cards.
//!
//! The library models the decision logic of the interface: how an element's
//! bounding box is classified against the viewport, which card a scroll
//! position makes active, how derived signals suppress, window and gate their
//! source values, how a bidirectional binding avoids feedback loops, and how
//! the parent/child graph is indexed and walked.  The surrounding runtime
//! (DOM construction, measurement, the reactive scheduler) stays outside and
//! feeds plain values in.

pub mod binding;
pub mod graph;
pub mod human;
pub mod reconcile;
pub mod signals;
pub mod visibility;
