//! `ALL_REQUIRED` aggregation of per-envelope outcomes.
use vstd::prelude::*;

use crate::model::outcome::Outcome;
use crate::text::{decimal, decimal_text};

verus! {

/// The `ALL_REQUIRED` outcome of a collection of per-envelope outcomes:
/// indeterminate when there is none, else not satisfied when any is, else
/// indeterminate when any is, else satisfied.
pub open spec fn all_required(outcomes: Seq<Outcome>) -> Outcome {
    if outcomes.len() == 0 {
        Outcome::Indeterminate
    } else if outcomes.contains(Outcome::NotSatisfied) {
        Outcome::NotSatisfied
    } else if outcomes.contains(Outcome::Indeterminate) {
        Outcome::Indeterminate
    } else {
        Outcome::Satisfied
    }
}

/// Aggregates per-envelope outcomes under the `ALL_REQUIRED` policy.
pub fn aggregate_all_required(per_envelope_outcomes: &[Outcome]) -> (r: Outcome)
    ensures
        r == all_required(per_envelope_outcomes@),
{
    let n = per_envelope_outcomes.len();
    if n == 0 {
        return Outcome::Indeterminate;
    }
    let mut any_indeterminate = false;
    let mut i: usize = 0;
    while i < n
        invariant
            n == per_envelope_outcomes@.len(),
            i <= n,
            forall|j: int| 0 <= j < i ==> per_envelope_outcomes@[j] != Outcome::NotSatisfied,
            any_indeterminate <==> exists|j: int| 0 <= j < i && per_envelope_outcomes@[j] == Outcome::Indeterminate,
        decreases n - i,
    {
        let outcome = per_envelope_outcomes[i];
        if outcome == Outcome::NotSatisfied {
            assert(per_envelope_outcomes@[i as int] == Outcome::NotSatisfied);
            return Outcome::NotSatisfied;
        }
        if outcome == Outcome::Indeterminate {
            any_indeterminate = true;
        }
        i = i + 1;
    }
    if any_indeterminate {
        Outcome::Indeterminate
    } else {
        Outcome::Satisfied
    }
}

/// `ALL_REQUIRED` is satisfied exactly when there is at least one envelope and every envelope is satisfied.
pub proof fn all_required_satisfied_iff_every_envelope_satisfied(outcomes: Seq<Outcome>)
    ensures
        all_required(outcomes) == Outcome::Satisfied <==> (outcomes.len() > 0 && forall|i: int|
            0 <= i < outcomes.len() ==> outcomes[i] == Outcome::Satisfied),
{
    if outcomes.len() > 0 && !(forall|i: int| 0 <= i < outcomes.len() ==> outcomes[i] == Outcome::Satisfied) {
        let i = choose|i: int| 0 <= i < outcomes.len() && outcomes[i] != Outcome::Satisfied;
        assert(outcomes.contains(outcomes[i]));
    }
}

/// `ALL_REQUIRED` is not satisfied exactly when some envelope is not satisfied.
pub proof fn all_required_not_satisfied_iff_some_envelope_not_satisfied(outcomes: Seq<Outcome>)
    ensures
        all_required(outcomes) == Outcome::NotSatisfied <==> outcomes.contains(Outcome::NotSatisfied),
{
}

/// The `ALL_REQUIRED` outcome does not depend on the order of the envelopes: any
/// rearrangement of the same outcomes aggregates to the same outcome.
pub proof fn all_required_ignores_order(a: Seq<Outcome>, b: Seq<Outcome>)
    requires
        a.to_multiset() == b.to_multiset(),
    ensures
        all_required(a) == all_required(b),
{
    vstd::seq_lib::to_multiset_len(a);
    vstd::seq_lib::to_multiset_len(b);
    vstd::seq_lib::to_multiset_contains(a, Outcome::NotSatisfied);
    vstd::seq_lib::to_multiset_contains(b, Outcome::NotSatisfied);
    vstd::seq_lib::to_multiset_contains(a, Outcome::Indeterminate);
    vstd::seq_lib::to_multiset_contains(b, Outcome::Indeterminate);
}

/// Human-readable reason for an aggregated `ALL_REQUIRED` outcome over `count` envelopes.
pub open spec fn all_required_reason(aggregated: Outcome, count: nat) -> Seq<char> {
    if count == 0 {
        "Evidence set is empty; ALL_REQUIRED yields indeterminate"@
    } else {
        match aggregated {
            Outcome::Satisfied => "All "@ + decimal(count) + " applicable evidence envelope(s) satisfied (ALL_REQUIRED)"@,
            Outcome::NotSatisfied => "At least one applicable evidence envelope is not_satisfied (ALL_REQUIRED)"@,
            Outcome::Indeterminate => "At least one applicable evidence envelope is indeterminate with no not_satisfied (ALL_REQUIRED)"@,
        }
    }
}

/// Human-readable reason for an aggregated `ALL_REQUIRED` outcome.
pub fn all_required_aggregation_reason(aggregated: Outcome, envelope_count: usize) -> (r: String)
    ensures
        r@ == all_required_reason(aggregated, envelope_count as nat),
{
    if envelope_count == 0 {
        return String::from_str("Evidence set is empty; ALL_REQUIRED yields indeterminate");
    }
    match aggregated {
        Outcome::Satisfied => {
            let mut text = String::from_str("All ");
            let count = decimal_text(envelope_count as u64);
            text.append(count.as_str());
            text.append(" applicable evidence envelope(s) satisfied (ALL_REQUIRED)");
            text
        },
        Outcome::NotSatisfied => String::from_str(
            "At least one applicable evidence envelope is not_satisfied (ALL_REQUIRED)",
        ),
        Outcome::Indeterminate => String::from_str(
            "At least one applicable evidence envelope is indeterminate with no not_satisfied (ALL_REQUIRED)",
        ),
    }
}

} // verus!
