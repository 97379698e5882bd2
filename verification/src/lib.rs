//! Verified core of a segmented sexagesimal data-entry form.
//!
//! A value such as a telescope angle is entered as three bounded integer
//! cells (a signed high segment plus two `[0, 60)` sub-segments). This crate
//! proves the editing logic: per-cell text validation, wrap-around stepping
//! with overflow/underflow carries between adjacent cells, aggregation of
//! per-cell validity, and the submit gating of forms that combine two such
//! segmented values. Rendering and input plumbing live outside the library.

pub mod data;
pub mod events;
pub mod field;
pub mod form;
pub mod numeral;
pub mod pad;
pub mod segment;
