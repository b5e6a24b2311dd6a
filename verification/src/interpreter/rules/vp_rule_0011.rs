//! Normalized text equality rule.
use vstd::prelude::*;
use vstd::utf8::{encode_utf8_decode_utf8, encode_utf8_valid_utf8};

use crate::context::evaluation_context::{EvaluationContext, EvaluationContextView};
use crate::interpreter::rule::EvaluationRule;
use crate::interpreter::rule_evaluation::{rule_verdict, RuleEvaluation, RuleEvaluationView};
use crate::interpreter::text_normalization::{normalized, try_normalize_text_bytes, NormalizationError};
use crate::model::outcome::Outcome;

verus! {

/// Normative rule identifier of the normalized text equality rule.
pub const VP_RULE_0011_REFERENCE: &'static str = "VP-RULE-0011";

/// Normalized Text Equality: compares the bodies after normalization
/// (NFC, trimming, inner whitespace collapse).
#[derive(Debug, Clone, Copy, Default, PartialEq, Eq)]
pub struct VpRule0011;

impl VpRule0011 {
    pub open spec fn spec_evaluate(ctx: EvaluationContextView) -> RuleEvaluationView {
        let assertion = normalized(ctx.claim.assertion.body);
        let evidence = normalized(ctx.evidence.content.body);
        if ctx.evidence.claim_id != ctx.claim.id {
            rule_verdict(
                Outcome::Indeterminate,
                "Evidence is not linked to the claim under evaluation (VP-RULE-0011)"@,
                VP_RULE_0011_REFERENCE@,
                false,
            )
        } else if ctx.evidence.content.body.len() == 0 {
            rule_verdict(
                Outcome::Indeterminate,
                "Evidence content body is empty (VP-RULE-0011)"@,
                VP_RULE_0011_REFERENCE@,
                false,
            )
        } else if evidence.len() == 0 {
            rule_verdict(
                Outcome::Indeterminate,
                "Evidence content body is empty after normalization (VP-RULE-0011)"@,
                VP_RULE_0011_REFERENCE@,
                false,
            )
        } else if evidence == assertion {
            rule_verdict(
                Outcome::Satisfied,
                "Normalized assertion body matches normalized evidence body (VP-RULE-0011)"@,
                VP_RULE_0011_REFERENCE@,
                false,
            )
        } else {
            rule_verdict(
                Outcome::NotSatisfied,
                "Normalized assertion body does not match normalized evidence body (VP-RULE-0011)"@,
                VP_RULE_0011_REFERENCE@,
                false,
            )
        }
    }
}

impl EvaluationRule for VpRule0011 {
    fn evaluate(&self, context: &EvaluationContext) -> (r: RuleEvaluation)
        ensures
            r@ == Self::spec_evaluate(context@),
    {
        let claim = context.claim();
        let evidence = context.evidence();

        if !evidence.claim_id.same_as(&claim.id) {
            return RuleEvaluation::new(
                Outcome::Indeterminate,
                "Evidence is not linked to the claim under evaluation (VP-RULE-0011)",
            ).with_rule_reference(VP_RULE_0011_REFERENCE);
        }
        let assertion_body = claim.assertion.body.as_str();
        let evidence_body = evidence.content.body.as_str();
        if evidence_body.is_empty() {
            return RuleEvaluation::new(
                Outcome::Indeterminate,
                "Evidence content body is empty (VP-RULE-0011)",
            ).with_rule_reference(VP_RULE_0011_REFERENCE);
        }
        proof {
            encode_utf8_valid_utf8(assertion_body@);
            encode_utf8_decode_utf8(assertion_body@);
            encode_utf8_valid_utf8(evidence_body@);
            encode_utf8_decode_utf8(evidence_body@);
        }
        let normalized_assertion = match try_normalize_text_bytes(assertion_body.as_bytes()) {
            Ok(value) => value,
            Err(NormalizationError::InvalidUtf8) => {
                return RuleEvaluation::new(
                    Outcome::Indeterminate,
                    "Assertion body is not valid UTF-8 (VP-RULE-0011)",
                ).with_rule_reference(VP_RULE_0011_REFERENCE);
            },
        };
        let normalized_evidence = match try_normalize_text_bytes(evidence_body.as_bytes()) {
            Ok(value) => value,
            Err(NormalizationError::InvalidUtf8) => {
                return RuleEvaluation::new(
                    Outcome::Indeterminate,
                    "Evidence content body is not valid UTF-8 (VP-RULE-0011)",
                ).with_rule_reference(VP_RULE_0011_REFERENCE);
            },
        };
        if normalized_evidence.as_str().is_empty() {
            return RuleEvaluation::new(
                Outcome::Indeterminate,
                "Evidence content body is empty after normalization (VP-RULE-0011)",
            ).with_rule_reference(VP_RULE_0011_REFERENCE);
        }
        if normalized_evidence == normalized_assertion {
            RuleEvaluation::new(
                Outcome::Satisfied,
                "Normalized assertion body matches normalized evidence body (VP-RULE-0011)",
            ).with_rule_reference(VP_RULE_0011_REFERENCE)
        } else {
            RuleEvaluation::new(
                Outcome::NotSatisfied,
                "Normalized assertion body does not match normalized evidence body (VP-RULE-0011)",
            ).with_rule_reference(VP_RULE_0011_REFERENCE)
        }
    }
}

/// VP-RULE-0011 compares the bodies after normalization. Evidence not bound to the claim, or
/// whose body is empty before or after normalization, leaves the rule indeterminate; otherwise
/// the rule is satisfied exactly when the normalized evidence body equals the normalized
/// assertion body, and not satisfied exactly when they differ. Bodies that are equal before
/// normalization therefore always match. The verdict always names the rule and ends the run.
pub proof fn normalized_equality_decides_rule_0011(ctx: EvaluationContextView)
    ensures
        ({
            let e = VpRule0011::spec_evaluate(ctx);
            let bound = ctx.evidence.claim_id == ctx.claim.id;
            let offered = ctx.evidence.content.body;
            let asserted = ctx.claim.assertion.body;
            let ready = bound && offered.len() > 0 && normalized(offered).len() > 0;
            &&& !bound ==> e.outcome == Outcome::Indeterminate
            &&& bound && (offered.len() == 0 || normalized(offered).len() == 0) ==> e.outcome == Outcome::Indeterminate
            &&& ready ==> ((e.outcome == Outcome::Satisfied) <==> normalized(offered) == normalized(asserted))
            &&& ready ==> ((e.outcome == Outcome::NotSatisfied) <==> normalized(offered) != normalized(asserted))
            &&& ready && offered == asserted ==> e.outcome == Outcome::Satisfied
            &&& ready && normalized(offered) == normalized(asserted) ==> e.reason
                == "Normalized assertion body matches normalized evidence body (VP-RULE-0011)"@
            &&& ready && normalized(offered) != normalized(asserted) ==> e.reason
                == "Normalized assertion body does not match normalized evidence body (VP-RULE-0011)"@
            &&& e.rule_reference == Some(VP_RULE_0011_REFERENCE@)
            &&& !e.continues
        }),
{
}

} // verus!
