//! Assertion evaluator trait: semantic evaluation for one assertion type family.
use vstd::prelude::*;

use crate::context::evaluation_context::{EvaluationContext, EvaluationContextView};
use crate::model::verification_result::VerificationResult;

verus! {

/// Semantic evaluator for one or more assertion type identifiers.
pub trait AssertionEvaluator {
    /// Stable assertion type identifiers handled by this evaluator.
    fn supported_assertion_types(&self) -> &[&'static str];

    /// Whether this evaluator can evaluate `context` (an evaluator whose rule set is empty
    /// cannot, as no rule gives a final evaluation).
    spec fn accepts(&self, context: EvaluationContextView) -> bool;

    /// Evaluates the context and returns a complete verification result.
    fn evaluate(&self, context: &EvaluationContext) -> VerificationResult
        requires
            self.accepts(context@),
    ;
}

} // verus!
