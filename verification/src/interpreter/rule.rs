//! Evaluation rule abstraction.
use vstd::prelude::*;

use crate::context::evaluation_context::EvaluationContext;
use crate::interpreter::rule_evaluation::RuleEvaluation;

verus! {

/// Verification decision unit applied by an evaluation run; users may implement their own.
pub trait EvaluationRule {
    fn evaluate(&self, context: &EvaluationContext) -> RuleEvaluation;
}

} // verus!
