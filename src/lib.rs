//! A two-way "wait for both, fail on the first error" join of resumable
//! operations, as a verified state machine.
//!
//! The combinator does not resume the operations itself: whoever drives it
//! resumes the operation held in a pending slot, hands the report to the
//! combinator, and acts on what comes back. Within one resumption, slot `a` is
//! handled before slot `b`, and a failure ends the join at once.

pub mod join;
pub mod laws;
pub mod slot;

pub use join::{try_join, Action, Event, TryJoin};
pub use slot::{Progress, Slot};
