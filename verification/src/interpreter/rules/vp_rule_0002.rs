//! Evidence claim binding rule.
use vstd::prelude::*;

use crate::context::evaluation_context::{EvaluationContext, EvaluationContextView};
use crate::interpreter::rule::EvaluationRule;
use crate::interpreter::rule_evaluation::{rule_verdict, RuleEvaluation, RuleEvaluationView};
use crate::model::outcome::Outcome;

verus! {

/// Normative rule identifier of the evidence claim binding rule.
pub const VP_RULE_0002_REFERENCE: &'static str = "VP-RULE-0002";

/// Evidence Claim Binding: decides whether evidence is applicable to the claim under evaluation.
///
/// It never decides an outcome itself: bound evidence passes on to the next rule,
/// unbound evidence stops the run as indeterminate.
#[derive(Debug, Clone, Copy, Default, PartialEq, Eq)]
pub struct VpRule0002;

impl VpRule0002 {
    pub open spec fn spec_evaluate(ctx: EvaluationContextView) -> RuleEvaluationView {
        if ctx.claim.id.len() == 0 {
            rule_verdict(Outcome::Indeterminate, "Claim id is empty (VP-RULE-0002)"@, VP_RULE_0002_REFERENCE@, false)
        } else if ctx.evidence.claim_id.len() == 0 {
            rule_verdict(
                Outcome::Indeterminate,
                "Evidence claim id is empty (VP-RULE-0002)"@,
                VP_RULE_0002_REFERENCE@,
                false,
            )
        } else if ctx.evidence.claim_id != ctx.claim.id {
            rule_verdict(
                Outcome::Indeterminate,
                "Evidence claim id does not match claim id (VP-RULE-0002)"@,
                VP_RULE_0002_REFERENCE@,
                false,
            )
        } else {
            rule_verdict(
                Outcome::Indeterminate,
                "Evidence is bound to the claim under evaluation (VP-RULE-0002)"@,
                VP_RULE_0002_REFERENCE@,
                true,
            )
        }
    }
}

/// The binding rule never decides an outcome: it is always indeterminate, and it passes on to
/// the next rule exactly when both claim ids are present and equal.
pub proof fn binding_rule_only_gates(ctx: EvaluationContextView)
    ensures
        VpRule0002::spec_evaluate(ctx).outcome == Outcome::Indeterminate,
        VpRule0002::spec_evaluate(ctx).continues <==> (ctx.claim.id.len() > 0 && ctx.evidence.claim_id == ctx.claim.id),
{
}

impl EvaluationRule for VpRule0002 {
    fn evaluate(&self, context: &EvaluationContext) -> (r: RuleEvaluation)
        ensures
            r@ == Self::spec_evaluate(context@),
    {
        let claim = context.claim();
        let evidence = context.evidence();

        if claim.id.as_str().is_empty() {
            return RuleEvaluation::new(Outcome::Indeterminate, "Claim id is empty (VP-RULE-0002)").with_rule_reference(
                VP_RULE_0002_REFERENCE,
            );
        }
        if evidence.claim_id.as_str().is_empty() {
            return RuleEvaluation::new(
                Outcome::Indeterminate,
                "Evidence claim id is empty (VP-RULE-0002)",
            ).with_rule_reference(VP_RULE_0002_REFERENCE);
        }
        if !evidence.claim_id.same_as(&claim.id) {
            return RuleEvaluation::new(
                Outcome::Indeterminate,
                "Evidence claim id does not match claim id (VP-RULE-0002)",
            ).with_rule_reference(VP_RULE_0002_REFERENCE);
        }
        RuleEvaluation::new(
            Outcome::Indeterminate,
            "Evidence is bound to the claim under evaluation (VP-RULE-0002)",
        ).with_rule_reference(VP_RULE_0002_REFERENCE).with_continues(true)
    }
}

} // verus!
