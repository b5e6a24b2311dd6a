//! Minimal body-equality rule of the engineering profile.
use vstd::prelude::*;

use crate::context::evaluation_context::{EvaluationContext, EvaluationContextView};
use crate::interpreter::rule::EvaluationRule;
use crate::interpreter::rule_evaluation::{rule_verdict, RuleEvaluation, RuleEvaluationView};
use crate::model::outcome::Outcome;

verus! {

/// Engineering rule reference label (not normative spec text).
pub const MINIMAL_BODY_EQUALITY_RULE_REFERENCE: &'static str = "vp-ref-minimal.body-equality";

/// Compares the assertion body to the evidence content body literally.
#[derive(Debug, Clone, Copy, Default, PartialEq, Eq)]
pub struct MinimalBodyEqualityRule;

impl MinimalBodyEqualityRule {
    pub open spec fn spec_evaluate(ctx: EvaluationContextView) -> RuleEvaluationView {
        if ctx.evidence.claim_id != ctx.claim.id {
            rule_verdict(
                Outcome::Indeterminate,
                "evidence is not linked to the claim under evaluation"@,
                MINIMAL_BODY_EQUALITY_RULE_REFERENCE@,
                false,
            )
        } else if ctx.evidence.content.body.len() == 0 {
            rule_verdict(
                Outcome::Indeterminate,
                "evidence content body is empty"@,
                MINIMAL_BODY_EQUALITY_RULE_REFERENCE@,
                false,
            )
        } else if ctx.evidence.content.body == ctx.claim.assertion.body {
            rule_verdict(
                Outcome::Satisfied,
                "assertion body matches evidence content body"@,
                MINIMAL_BODY_EQUALITY_RULE_REFERENCE@,
                false,
            )
        } else {
            rule_verdict(
                Outcome::NotSatisfied,
                "assertion body does not match evidence content body"@,
                MINIMAL_BODY_EQUALITY_RULE_REFERENCE@,
                false,
            )
        }
    }
}

impl EvaluationRule for MinimalBodyEqualityRule {
    fn evaluate(&self, context: &EvaluationContext) -> (r: RuleEvaluation)
        ensures
            r@ == Self::spec_evaluate(context@),
    {
        let claim = context.claim();
        let evidence = context.evidence();

        if !evidence.claim_id.same_as(&claim.id) {
            return RuleEvaluation::new(
                Outcome::Indeterminate,
                "evidence is not linked to the claim under evaluation",
            ).with_rule_reference(MINIMAL_BODY_EQUALITY_RULE_REFERENCE);
        }
        let assertion_body = &claim.assertion.body;
        let evidence_body = &evidence.content.body;
        if evidence_body.as_str().is_empty() {
            return RuleEvaluation::new(Outcome::Indeterminate, "evidence content body is empty").with_rule_reference(
                MINIMAL_BODY_EQUALITY_RULE_REFERENCE,
            );
        }
        if *evidence_body == *assertion_body {
            RuleEvaluation::new(
                Outcome::Satisfied,
                "assertion body matches evidence content body",
            ).with_rule_reference(MINIMAL_BODY_EQUALITY_RULE_REFERENCE)
        } else {
            RuleEvaluation::new(
                Outcome::NotSatisfied,
                "assertion body does not match evidence content body",
            ).with_rule_reference(MINIMAL_BODY_EQUALITY_RULE_REFERENCE)
        }
    }
}

} // verus!
