//! Normative verification outcome.
use vstd::prelude::*;

verus! {

/// Verification outcome vocabulary: no other protocol outcome labels exist.
#[derive(Debug, Clone, Copy, PartialEq, Eq, Hash, Structural)]
pub enum Outcome {
    Satisfied,
    NotSatisfied,
    Indeterminate,
}

impl Outcome {
    /// Canonical snake_case label of the outcome.
    pub open spec fn label(self) -> Seq<char> {
        match self {
            Outcome::Satisfied => "satisfied"@,
            Outcome::NotSatisfied => "not_satisfied"@,
            Outcome::Indeterminate => "indeterminate"@,
        }
    }

    /// Canonical snake_case label for reporting and conformance comparison.
    pub fn as_str(self) -> (r: &'static str)
        ensures
            r@ == self.label(),
    {
        match self {
            Outcome::Satisfied => "satisfied",
            Outcome::NotSatisfied => "not_satisfied",
            Outcome::Indeterminate => "indeterminate",
        }
    }
}

/// Distinct outcomes carry distinct labels, so a label identifies its outcome.
pub proof fn outcome_labels_are_distinct(a: Outcome, b: Outcome)
    ensures
        a.label() == b.label() <==> a == b,
{
    reveal_strlit("satisfied");
    reveal_strlit("not_satisfied");
    reveal_strlit("indeterminate");
    if a != b {
        match (a, b) {
            (Outcome::Satisfied, _) => assert(a.label()[0] != b.label()[0] || a.label().len() != b.label().len()),
            (Outcome::NotSatisfied, _) => assert(a.label()[0] != b.label()[0]),
            (Outcome::Indeterminate, _) => assert(a.label()[0] != b.label()[0] || a.label().len() != b.label().len()),
        }
    }
}

} // verus!
