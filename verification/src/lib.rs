//! Verified core of a past-papers mirror: naming rules for academic years,
//! link discovery on index pages, download planning and progress accounting,
//! a per-year task state machine, and first-error aggregation.

pub mod discover;
pub mod download;
pub mod errors;
pub mod naming;
pub mod orchestrate;
pub mod progress;
pub mod strings;
pub mod task;

use vstd::prelude::*;

verus! {

/// First calendar year for which papers exist (inclusive).
pub const FIRST_YEAR: usize = 2000;

/// Upper bound of the supported interval (exclusive).
pub const END_YEAR: usize = 2022;

/// Year used when no starting year is supplied.
pub const DEFAULT_START_YEAR: usize = 2017;

/// Years at or after this one use the new filename-prefix scheme;
/// strictly earlier years use the old one.
pub const PREFIX_CUTOFF_YEAR: usize = 2021;

} // verus!
