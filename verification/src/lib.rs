//! Verified helpers for a console tutorial.
//!
//! The heart of the crate is [`banner`], a section formatter that wraps a
//! title in fixed-width ASCII borders at three nesting levels.  The other
//! modules hold the small pieces of pure logic that the tutorial's demo
//! routines compute before printing: a fizzbuzz classifier, a singly linked
//! list, decimal rendering of integers, sums and squares of numbers, and a
//! pair of boxes illustrating field visibility.  All printing is left to the
//! callers: every function here returns plain values and carries a contract.

pub mod banner;
pub mod boxes;
pub mod decimal;
pub mod fizzbuzz;
pub mod list;
pub mod series;
