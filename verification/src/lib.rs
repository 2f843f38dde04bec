//! A micro-benchmark harness for branch-prediction hints.
//!
//! The harness pairs two equality checks that always agree, one standing at
//! the place where a hint is given to the compiler and one left plain, with two
//! counting loops that differ only in which of the checks they call. Timing a
//! run of each from outside shows what the hint is worth; the contracts here
//! show that it can never change a result.

pub mod comparator;
pub mod driver;
pub mod entry;
