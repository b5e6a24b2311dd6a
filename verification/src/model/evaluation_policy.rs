//! Evaluation policy vocabulary.
use vstd::prelude::*;

verus! {

/// Protocol-defined strategy for deriving one verification outcome from an evidence set.
#[derive(Debug, Clone, Copy, PartialEq, Eq, Hash, Structural)]
pub enum EvaluationPolicy {
    /// Every applicable evidence envelope must be `satisfied` for aggregate `satisfied`.
    AllRequired,
}

impl Default for EvaluationPolicy {
    fn default() -> (r: Self)
        ensures
            r == EvaluationPolicy::AllRequired,
    {
        EvaluationPolicy::AllRequired
    }
}

impl EvaluationPolicy {
    /// Canonical policy identifier.
    pub open spec fn label(self) -> Seq<char> {
        match self {
            EvaluationPolicy::AllRequired => "ALL_REQUIRED"@,
        }
    }

    /// Canonical policy identifier for reporting and conformance comparison.
    pub fn policy_id(self) -> (r: &'static str)
        ensures
            r@ == self.label(),
    {
        match self {
            EvaluationPolicy::AllRequired => "ALL_REQUIRED",
        }
    }
}

} // verus!
