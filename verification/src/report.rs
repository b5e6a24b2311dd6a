//! Evaluation report placeholder.
use vstd::prelude::*;

verus! {

/// Evaluation report for human or machine consumption.
#[derive(Debug, Clone, Copy, PartialEq, Eq, Default)]
pub struct Report;

impl Report {
    pub fn placeholder() -> (r: Self)
        ensures
            r == Report,
    {
        Report
    }
}

} // verus!
