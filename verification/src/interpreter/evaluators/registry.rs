//! Dispatch registry: maps an assertion type to the evaluator that handles it.
use vstd::prelude::*;

use crate::context::evaluation_context::{EvaluationContext, EvaluationContextView};
use crate::interpreter::evaluator_run::{run_fits, RuleSetRun};
use crate::interpreter::evaluators::body_equality::{
    body_equality_rules, run_result, unknown_assertion_type_result, unknown_type_result, BodyEqualityEvaluator,
    BODY_EQUALITY_ASSERTION_TYPE,
};
use crate::interpreter::evaluators::normalized_text::{
    normalized_text_rules, NormalizedTextEvaluator, NORMALIZED_TEXT_ASSERTION_TYPE,
};
use crate::interpreter::evaluators::trait_def::AssertionEvaluator;
use crate::interpreter::rule_evaluation::RuleEvaluationView;
use crate::interpreter::rule_set::{RuleKind, RuleSet};
use crate::model::verification_result::{VerificationResult, VerificationResultView};
use crate::text::text_equals;

verus! {

/// Label of the minimal profile, evaluated as body equality.
pub const MINIMAL_PROFILE_ASSERTION_TYPE: &'static str = "minimal";

/// The evaluator family that handles an assertion type.
#[derive(Debug, Clone, Copy, PartialEq, Eq, Structural)]
pub enum AssertionFamily {
    BodyEquality,
    NormalizedText,
    Unsupported,
}

/// `body_equality` and `minimal` are body equality, `normalized_text` is normalized text;
/// every other assertion type is unsupported.
pub open spec fn assertion_family(assertion_type: Seq<char>) -> AssertionFamily {
    if assertion_type == BODY_EQUALITY_ASSERTION_TYPE@ || assertion_type == MINIMAL_PROFILE_ASSERTION_TYPE@ {
        AssertionFamily::BodyEquality
    } else if assertion_type == NORMALIZED_TEXT_ASSERTION_TYPE@ {
        AssertionFamily::NormalizedText
    } else {
        AssertionFamily::Unsupported
    }
}

/// The family that handles `assertion_type`.
pub fn assertion_family_of(assertion_type: &str) -> (r: AssertionFamily)
    ensures
        r == assertion_family(assertion_type@),
{
    if text_equals(assertion_type, BODY_EQUALITY_ASSERTION_TYPE) || text_equals(
        assertion_type,
        MINIMAL_PROFILE_ASSERTION_TYPE,
    ) {
        AssertionFamily::BodyEquality
    } else if text_equals(assertion_type, NORMALIZED_TEXT_ASSERTION_TYPE) {
        AssertionFamily::NormalizedText
    } else {
        AssertionFamily::Unsupported
    }
}

/// Dispatches evaluation by assertion type.
pub struct AssertionEvaluatorRegistry {
    body_equality: BodyEqualityEvaluator,
    normalized_text: NormalizedTextEvaluator,
}

impl AssertionEvaluatorRegistry {
    /// The rules applied to an assertion of the given family.
    pub closed spec fn rules_for(&self, family: AssertionFamily) -> Seq<RuleKind> {
        match family {
            AssertionFamily::BodyEquality => self.body_equality.rules(),
            AssertionFamily::NormalizedText => self.normalized_text.rules(),
            AssertionFamily::Unsupported => Seq::empty(),
        }
    }

    /// The result that evaluating `ctx` may give: for an unsupported assertion type the
    /// unknown-type result; otherwise the result of a run of the family's rules.
    pub open spec fn result_fits(&self, ctx: EvaluationContextView, r: VerificationResultView) -> bool {
        let family = assertion_family(ctx.claim.assertion.assertion_type);
        if family == AssertionFamily::Unsupported {
            r == unknown_type_result(ctx)
        } else {
            exists|evals: Seq<RuleEvaluationView>| run_fits(self.rules_for(family), ctx, evals) && r == run_result(ctx, evals)
        }
    }

    /// Claims of this assertion type can be evaluated: the type is unsupported (and answered
    /// indeterminate) or its family's rule set holds at least one rule.
    pub open spec fn evaluable(&self, assertion_type: Seq<char>) -> bool {
        let family = assertion_family(assertion_type);
        family == AssertionFamily::Unsupported || self.rules_for(family).len() > 0
    }

    pub fn platform_default() -> (r: Self)
        ensures
            r.rules_for(AssertionFamily::BodyEquality) == body_equality_rules(),
            r.rules_for(AssertionFamily::NormalizedText) == normalized_text_rules(),
            r.rules_for(AssertionFamily::Unsupported) == Seq::<RuleKind>::empty(),
    {
        AssertionEvaluatorRegistry {
            body_equality: BodyEqualityEvaluator::new(),
            normalized_text: NormalizedTextEvaluator::new(),
        }
    }

    /// A registry whose body equality evaluator applies `rule_set`.
    pub fn with_body_equality_rule_set(rule_set: RuleSet) -> (r: Self)
        requires
            rule_set@.len() <= u32::MAX - 2,
        ensures
            r.rules_for(AssertionFamily::BodyEquality) == rule_set@,
            r.rules_for(AssertionFamily::NormalizedText) == normalized_text_rules(),
            r.rules_for(AssertionFamily::Unsupported) == Seq::<RuleKind>::empty(),
    {
        AssertionEvaluatorRegistry {
            body_equality: BodyEqualityEvaluator::with_rule_set(rule_set),
            normalized_text: NormalizedTextEvaluator::new(),
        }
    }

    pub fn body_equality_rule_set(&self) -> (r: &RuleSet)
        ensures
            r@ == self.rules_for(AssertionFamily::BodyEquality),
    {
        self.body_equality.rule_set()
    }

    pub fn supports_assertion_type(&self, assertion_type: &str) -> (r: bool)
        ensures
            r == (assertion_family(assertion_type@) != AssertionFamily::Unsupported),
    {
        match assertion_family_of(assertion_type) {
            AssertionFamily::Unsupported => false,
            _ => true,
        }
    }

    /// Evaluates the context with the evaluator for its assertion type.
    pub fn evaluate(&self, context: &EvaluationContext) -> (r: VerificationResult)
        requires
            self.evaluable(context@.claim.assertion.assertion_type),
        ensures
            self.result_fits(context@, r@),
    {
        match assertion_family_of(context.claim().assertion.assertion_type.as_str()) {
            AssertionFamily::BodyEquality => self.body_equality.evaluate(context),
            AssertionFamily::NormalizedText => self.normalized_text.evaluate(context),
            AssertionFamily::Unsupported => unknown_assertion_type_result(context),
        }
    }

    /// Applies the rules for the context's assertion type, which must be supported.
    pub fn run_dispatched(&self, context: &EvaluationContext) -> (run: RuleSetRun)
        requires
            assertion_family(context@.claim.assertion.assertion_type) != AssertionFamily::Unsupported,
            self.evaluable(context@.claim.assertion.assertion_type),
        ensures
            run_fits(self.rules_for(assertion_family(context@.claim.assertion.assertion_type)), context@, run.evals()),
            run.final_evaluation@ == run.evals().last(),
    {
        match assertion_family_of(context.claim().assertion.assertion_type.as_str()) {
            AssertionFamily::NormalizedText => self.normalized_text.run_rules(context),
            _ => self.body_equality.run_rules(context),
        }
    }
}

impl Default for AssertionEvaluatorRegistry {
    fn default() -> (r: Self)
        ensures
            r.rules_for(AssertionFamily::BodyEquality) == body_equality_rules(),
            r.rules_for(AssertionFamily::NormalizedText) == normalized_text_rules(),
    {
        AssertionEvaluatorRegistry::platform_default()
    }
}

} // verus!
