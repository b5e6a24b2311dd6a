//! Normalized text assertion evaluator: evidence binding, then the normalized body match.
use vstd::prelude::*;

use crate::context::evaluation_context::{EvaluationContext, EvaluationContextView};
use crate::interpreter::evaluator_run::{run_fits, run_rule_set, RuleSetRun};
use crate::interpreter::evaluators::body_equality::{evaluate_run, run_result};
use crate::interpreter::evaluators::trait_def::AssertionEvaluator;
use crate::interpreter::rule_evaluation::RuleEvaluationView;
use crate::interpreter::rule_set::{BuiltinRule, RuleKind, RuleSet};
use crate::model::verification_result::VerificationResult;

verus! {

/// Normative assertion type of normalized text equality.
pub const NORMALIZED_TEXT_ASSERTION_TYPE: &'static str = "normalized_text";

/// The rules of the normalized text rule set.
pub open spec fn normalized_text_rules() -> Seq<RuleKind> {
    seq![RuleKind::Builtin(BuiltinRule::VpRule0002), RuleKind::Builtin(BuiltinRule::VpRule0011)]
}

/// Normalized text evaluator: the normalized text rule set, or another one given by the caller.
pub struct NormalizedTextEvaluator {
    rule_set: RuleSet,
}

impl NormalizedTextEvaluator {
    #[verifier::type_invariant]
    spec fn wf(self) -> bool {
        0 < self.rule_set@.len() <= u32::MAX - 2
    }

    /// The rules this evaluator applies, in order.
    pub closed spec fn rules(&self) -> Seq<RuleKind> {
        self.rule_set@
    }

    pub fn new() -> (r: Self)
        ensures
            r.rules() == normalized_text_rules(),
    {
        NormalizedTextEvaluator { rule_set: RuleSet::platform_1_3() }
    }

    /// An evaluator applying `rule_set`, which must hold at least one rule.
    pub fn with_rule_set(rule_set: RuleSet) -> (r: Self)
        requires
            0 < rule_set@.len() <= u32::MAX - 2,
        ensures
            r.rules() == rule_set@,
    {
        NormalizedTextEvaluator { rule_set }
    }

    pub fn rule_set(&self) -> (r: &RuleSet)
        ensures
            r@ == self.rules(),
            0 < r@.len() <= u32::MAX - 2,
    {
        proof {
            use_type_invariant(self);
        }
        &self.rule_set
    }

    /// Applies the evaluator's rules to `context`.
    pub fn run_rules(&self, context: &EvaluationContext) -> (run: RuleSetRun)
        ensures
            run_fits(self.rules(), context@, run.evals()),
            run.final_evaluation@ == run.evals().last(),
    {
        proof {
            use_type_invariant(self);
        }
        run_rule_set(&self.rule_set, context)
    }
}

impl Default for NormalizedTextEvaluator {
    fn default() -> (r: Self)
        ensures
            r.rules() == normalized_text_rules(),
    {
        NormalizedTextEvaluator::new()
    }
}

impl AssertionEvaluator for NormalizedTextEvaluator {
    fn supported_assertion_types(&self) -> (r: &[&'static str])
        ensures
            r@ == seq![NORMALIZED_TEXT_ASSERTION_TYPE],
    {
        let r: &[&'static str] = &[NORMALIZED_TEXT_ASSERTION_TYPE];
        assert(r@ =~= seq![NORMALIZED_TEXT_ASSERTION_TYPE]);
        r
    }

    /// The evaluator's rule set always holds a rule.
    open spec fn accepts(&self, context: EvaluationContextView) -> bool {
        true
    }

    fn evaluate(&self, context: &EvaluationContext) -> (r: VerificationResult)
        ensures
            exists|evals: Seq<RuleEvaluationView>|
                run_fits(self.rules(), context@, evals) && r@ == run_result(context@, evals),
    {
        proof {
            use_type_invariant(self);
        }
        let run = self.run_rules(context);
        evaluate_run(context, &run)
    }
}

} // verus!
