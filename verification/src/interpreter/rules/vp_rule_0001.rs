//! Assertion body evidence match rule.
use vstd::prelude::*;

use crate::context::evaluation_context::{EvaluationContext, EvaluationContextView};
use crate::interpreter::rule::EvaluationRule;
use crate::interpreter::rule_evaluation::{rule_verdict, RuleEvaluation, RuleEvaluationView};
use crate::model::outcome::Outcome;

verus! {

/// Normative rule identifier of the assertion body evidence match rule.
pub const VP_RULE_0001_REFERENCE: &'static str = "VP-RULE-0001";

/// Assertion Body Evidence Match: compares the assertion body to the evidence body literally.
#[derive(Debug, Clone, Copy, Default, PartialEq, Eq)]
pub struct VpRule0001;

impl VpRule0001 {
    pub open spec fn spec_evaluate(ctx: EvaluationContextView) -> RuleEvaluationView {
        if ctx.evidence.claim_id != ctx.claim.id {
            rule_verdict(
                Outcome::Indeterminate,
                "Evidence is not linked to the claim under evaluation (VP-RULE-0001)"@,
                VP_RULE_0001_REFERENCE@,
                false,
            )
        } else if ctx.evidence.content.body.len() == 0 {
            rule_verdict(
                Outcome::Indeterminate,
                "Evidence content body is empty (VP-RULE-0001)"@,
                VP_RULE_0001_REFERENCE@,
                false,
            )
        } else if ctx.evidence.content.body == ctx.claim.assertion.body {
            rule_verdict(
                Outcome::Satisfied,
                "Assertion body matches evidence body (VP-RULE-0001)"@,
                VP_RULE_0001_REFERENCE@,
                false,
            )
        } else {
            rule_verdict(
                Outcome::NotSatisfied,
                "Assertion body does not match evidence body (VP-RULE-0001)"@,
                VP_RULE_0001_REFERENCE@,
                false,
            )
        }
    }
}

impl EvaluationRule for VpRule0001 {
    fn evaluate(&self, context: &EvaluationContext) -> (r: RuleEvaluation)
        ensures
            r@ == Self::spec_evaluate(context@),
    {
        let claim = context.claim();
        let evidence = context.evidence();

        if !evidence.claim_id.same_as(&claim.id) {
            return RuleEvaluation::new(
                Outcome::Indeterminate,
                "Evidence is not linked to the claim under evaluation (VP-RULE-0001)",
            ).with_rule_reference(VP_RULE_0001_REFERENCE);
        }
        let assertion_body = &claim.assertion.body;
        let evidence_body = &evidence.content.body;
        if evidence_body.as_str().is_empty() {
            return RuleEvaluation::new(
                Outcome::Indeterminate,
                "Evidence content body is empty (VP-RULE-0001)",
            ).with_rule_reference(VP_RULE_0001_REFERENCE);
        }
        if *evidence_body == *assertion_body {
            RuleEvaluation::new(
                Outcome::Satisfied,
                "Assertion body matches evidence body (VP-RULE-0001)",
            ).with_rule_reference(VP_RULE_0001_REFERENCE)
        } else {
            RuleEvaluation::new(
                Outcome::NotSatisfied,
                "Assertion body does not match evidence body (VP-RULE-0001)",
            ).with_rule_reference(VP_RULE_0001_REFERENCE)
        }
    }
}

/// VP-RULE-0001 compares the bodies literally. Evidence not bound to the claim, or with an
/// empty body, leaves the rule indeterminate; otherwise the rule is satisfied exactly when the
/// evidence body equals the assertion body character for character, and not satisfied exactly
/// when they differ. The verdict always names the rule and ends the run.
pub proof fn literal_body_equality_decides_rule_0001(ctx: EvaluationContextView)
    ensures
        ({
            let e = VpRule0001::spec_evaluate(ctx);
            let bound = ctx.evidence.claim_id == ctx.claim.id;
            let offered = ctx.evidence.content.body;
            let asserted = ctx.claim.assertion.body;
            &&& !bound ==> e.outcome == Outcome::Indeterminate
            &&& bound && offered.len() == 0 ==> e.outcome == Outcome::Indeterminate
            &&& bound && offered.len() > 0 ==> ((e.outcome == Outcome::Satisfied) <==> offered == asserted)
            &&& bound && offered.len() > 0 ==> ((e.outcome == Outcome::NotSatisfied) <==> offered != asserted)
            &&& bound && offered.len() > 0 && offered == asserted ==> e.reason
                == "Assertion body matches evidence body (VP-RULE-0001)"@
            &&& bound && offered.len() > 0 && offered != asserted ==> e.reason
                == "Assertion body does not match evidence body (VP-RULE-0001)"@
            &&& e.rule_reference == Some(VP_RULE_0001_REFERENCE@)
            &&& !e.continues
        }),
{
}

} // verus!
