//! Orchestration decisions: which years one run processes, and how the
//! outcomes of concurrently running year tasks aggregate into one result —
//! the first failure wins, later outcomes never displace it.

use vstd::prelude::*;

verus! {

use crate::errors::TaskError;
use crate::{DEFAULT_START_YEAR, END_YEAR, FIRST_YEAR};

/// The starting year one run uses: the argument when one was given, the
/// default otherwise.
pub open spec fn spec_start_year(papers_from: Option<usize>) -> usize {
    match papers_from {
        Some(y) => y,
        None => DEFAULT_START_YEAR,
    }
}

/// The years one run processes: the contiguous range from the chosen start
/// (inclusive) to the end of the supported interval (exclusive).
pub fn years_to_process(papers_from: Option<usize>) -> (r: Vec<usize>)
    requires
        papers_from matches Some(y) ==> FIRST_YEAR <= y < END_YEAR,
    ensures
        r@.len() == END_YEAR - spec_start_year(papers_from),
        forall|i: int| 0 <= i < r@.len() ==> r@[i] == spec_start_year(papers_from) + i,
{
    let start = match papers_from {
        Some(y) => y,
        None => DEFAULT_START_YEAR,
    };
    let mut r: Vec<usize> = Vec::new();
    let mut year = start;
    while year < END_YEAR
        invariant
            start <= year <= END_YEAR,
            r@.len() == year - start,
            forall|i: int| 0 <= i < r@.len() ==> r@[i] == start + i,
        decreases END_YEAR - year,
    {
        r.push(year);
        year = year + 1;
    }
    r
}

/// Aggregates the outcomes of all year tasks: holds the first failure seen,
/// if any.
pub struct RunCollector {
    /// The first failure recorded, with its year and cause; `None` while no
    /// task has failed.
    pub first_error: Option<TaskError>,
}

impl RunCollector {
    /// A collector that has seen no failure.
    pub fn new() -> (r: Self)
        ensures
            r.first_error is None,
    {
        RunCollector { first_error: None }
    }

    /// Records one task's failure: kept when it is the first, discarded when
    /// an earlier failure already holds the slot. Sibling tasks are never
    /// cancelled; their later outcomes cannot displace the first error.
    pub fn record_failure(&mut self, e: TaskError)
        ensures
            old(self).first_error is None ==> final(self).first_error == Some(e),
            old(self).first_error is Some ==> final(self).first_error == old(self).first_error,
    {
        if self.first_error.is_none() {
            self.first_error = Some(e);
        }
    }

    /// Whether the whole run succeeded: true exactly when no task failed.
    pub fn succeeded(&self) -> (r: bool)
        ensures
            r == (self.first_error is None),
    {
        self.first_error.is_none()
    }
}

} // verus!
