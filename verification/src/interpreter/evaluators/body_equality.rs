//! Body equality assertion evaluator: evidence binding, then the literal body match.
use vstd::prelude::*;

use crate::context::evaluation_context::{EvaluationContext, EvaluationContextView};
use crate::context::specification::SpecificationContext;
use crate::interpreter::evaluator_run::{build_trace, rule_events, run_fits, run_rule_set, single_trace, RuleSetRun};
use crate::interpreter::evaluators::trait_def::AssertionEvaluator;
use crate::interpreter::rule_evaluation::RuleEvaluationView;
use crate::interpreter::rule_set::{evaluation_fits, BuiltinRule, RuleKind, RuleSet};
use crate::interpreter::rules::vp_rule_0001::VP_RULE_0001_REFERENCE;
use crate::interpreter::rules::vp_rule_0002::VpRule0002;
use crate::model::identifiers::SpecificationBinding;
use crate::model::outcome::Outcome;
use crate::model::trace::{Trace, TraceEventView};
use crate::model::verification_result::{VerificationResult, VerificationResultBuilder, VerificationResultView};
use crate::text::copy_opt_text;

verus! {

/// Normative assertion type of literal body equality.
pub const BODY_EQUALITY_ASSERTION_TYPE: &'static str = "body_equality";

/// The result of an evaluation whose rule run gave `evals`, with `trace` as its trace.
pub open spec fn result_with_trace(
    ctx: EvaluationContextView,
    evals: Seq<RuleEvaluationView>,
    trace: Seq<TraceEventView>,
) -> VerificationResultView {
    VerificationResultView {
        evaluated_claim_id: ctx.claim.id,
        outcome: evals.last().outcome,
        trace,
        metadata: Map::empty(),
        specification_binding: ctx.specification.binding(),
        reasons: seq![evals.last().reason],
    }
}

/// The result of evaluating `ctx` when the rule run gave `evals`: the last evaluation's
/// outcome and reason, and the run's trace when tracing is enabled.
pub open spec fn run_result(ctx: EvaluationContextView, evals: Seq<RuleEvaluationView>) -> VerificationResultView {
    result_with_trace(
        ctx,
        evals,
        if ctx.options.trace_enabled {
            single_trace(ctx.claim.id, evals, evals.last().outcome)
        } else {
            Seq::empty()
        },
    )
}

/// The rules of the body equality rule set.
pub open spec fn body_equality_rules() -> Seq<RuleKind> {
    seq![RuleKind::Builtin(BuiltinRule::VpRule0002), RuleKind::Builtin(BuiltinRule::VpRule0001)]
}

/// Body equality evaluator: the body equality rule set, or another one given by the caller.
pub struct BodyEqualityEvaluator {
    rule_set: RuleSet,
}

impl BodyEqualityEvaluator {
    #[verifier::type_invariant]
    spec fn wf(self) -> bool {
        self.rule_set@.len() <= u32::MAX - 2
    }

    /// The rules this evaluator applies, in order.
    pub closed spec fn rules(&self) -> Seq<RuleKind> {
        self.rule_set@
    }

    pub fn new() -> (r: Self)
        ensures
            r.rules() == body_equality_rules(),
    {
        BodyEqualityEvaluator { rule_set: RuleSet::platform_1() }
    }

    /// An evaluator applying `rule_set`; it can evaluate only once the set holds a rule.
    pub fn with_rule_set(rule_set: RuleSet) -> (r: Self)
        requires
            rule_set@.len() <= u32::MAX - 2,
        ensures
            r.rules() == rule_set@,
    {
        BodyEqualityEvaluator { rule_set }
    }

    pub fn rule_set(&self) -> (r: &RuleSet)
        ensures
            r@ == self.rules(),
            r@.len() <= u32::MAX - 2,
    {
        proof {
            use_type_invariant(self);
        }
        &self.rule_set
    }

    /// Applies the evaluator's rules, of which there must be at least one, to `context`.
    pub fn run_rules(&self, context: &EvaluationContext) -> (run: RuleSetRun)
        requires
            self.rules().len() > 0,
        ensures
            run_fits(self.rules(), context@, run.evals()),
            run.final_evaluation@ == run.evals().last(),
    {
        proof {
            use_type_invariant(self);
        }
        run_rule_set(&self.rule_set, context)
    }
}

impl Default for BodyEqualityEvaluator {
    fn default() -> (r: Self)
        ensures
            r.rules() == body_equality_rules(),
    {
        BodyEqualityEvaluator::new()
    }
}

impl AssertionEvaluator for BodyEqualityEvaluator {
    fn supported_assertion_types(&self) -> (r: &[&'static str])
        ensures
            r@ == seq![BODY_EQUALITY_ASSERTION_TYPE],
    {
        let r: &[&'static str] = &[BODY_EQUALITY_ASSERTION_TYPE];
        assert(r@ =~= seq![BODY_EQUALITY_ASSERTION_TYPE]);
        r
    }

    /// The evaluator's rule set holds at least one rule.
    open spec fn accepts(&self, context: EvaluationContextView) -> bool {
        self.rules().len() > 0
    }

    fn evaluate(&self, context: &EvaluationContext) -> (r: VerificationResult)
        ensures
            exists|evals: Seq<RuleEvaluationView>|
                run_fits(self.rules(), context@, evals) && r@ == run_result(context@, evals),
    {
        proof {
            use_type_invariant(self);
        }
        let run = self.run_rules(context);
        evaluate_run(context, &run)
    }
}

/// Turns a rule run over `context` into a verification result, with its trace when enabled.
pub fn evaluate_run(context: &EvaluationContext, run: &RuleSetRun) -> (r: VerificationResult)
    requires
        1 <= run.evals().len() <= u32::MAX - 2,
        run.final_evaluation@ == run.evals().last(),
    ensures
        r@ == run_result(context@, run.evals()),
{
    let trace = if context.options().trace_enabled {
        build_trace(context, run)
    } else {
        Trace::default()
    };
    build_verification_result(context, run, trace)
}

/// A verification result carrying `run`'s final outcome and reason and the given trace.
pub fn build_verification_result(context: &EvaluationContext, run: &RuleSetRun, trace: Trace) -> (r: VerificationResult)
    ensures
        r@ == (VerificationResultView {
            evaluated_claim_id: context@.claim.id,
            outcome: run.final_evaluation.outcome,
            trace: trace@,
            metadata: Map::empty(),
            specification_binding: context@.specification.binding(),
            reasons: seq![run.final_evaluation.reason@],
        }),
{
    let built = VerificationResultBuilder::new().evaluated_claim_id(context.claim().id.duplicate()).outcome(
        run.final_evaluation.outcome,
    ).trace(trace).specification_binding(specification_binding(context.specification())).reason(
        run.final_evaluation.reason.clone(),
    ).build();
    match built {
        Ok(result) => {
            assert(result@.reasons =~= seq![run.final_evaluation.reason@]);
            result
        },
        Err(_) => vstd::pervasive::unreached(),
    }
}

/// The binding (edition and protocol version) of a specification context.
pub fn specification_binding(specification: &SpecificationContext) -> (r: SpecificationBinding)
    ensures
        r@ == specification@.binding(),
{
    SpecificationBinding {
        edition_id: copy_opt_text(&specification.edition_id),
        protocol_version: copy_opt_text(&specification.protocol_version),
    }
}

/// The reason given for an assertion type that no evaluator handles.
pub open spec fn unknown_type_reason(assertion_type: Seq<char>) -> Seq<char> {
    "Unknown assertion type '"@ + assertion_type + "'; evaluation dispatch yields indeterminate"@
}

/// The result for an assertion type that no evaluator handles: indeterminate, with no trace.
pub open spec fn unknown_type_result(ctx: EvaluationContextView) -> VerificationResultView {
    VerificationResultView {
        evaluated_claim_id: ctx.claim.id,
        outcome: Outcome::Indeterminate,
        trace: Seq::empty(),
        metadata: Map::empty(),
        specification_binding: ctx.specification.binding(),
        reasons: seq![unknown_type_reason(ctx.claim.assertion.assertion_type)],
    }
}

/// The reason given for an assertion type that no evaluator handles.
pub fn unknown_assertion_type_reason(assertion_type: &str) -> (r: String)
    ensures
        r@ == unknown_type_reason(assertion_type@),
{
    let mut reason = String::from_str("Unknown assertion type '");
    reason.append(assertion_type);
    reason.append("'; evaluation dispatch yields indeterminate");
    reason
}

/// The verification result for an assertion type that no evaluator handles.
pub fn unknown_assertion_type_result(context: &EvaluationContext) -> (r: VerificationResult)
    ensures
        r@ == unknown_type_result(context@),
{
    let reason = unknown_assertion_type_reason(context.claim().assertion.assertion_type.as_str());
    let built = VerificationResultBuilder::new().evaluated_claim_id(context.claim().id.duplicate()).outcome(
        Outcome::Indeterminate,
    ).trace(Trace::default()).specification_binding(specification_binding(context.specification())).reason(
        reason,
    ).build();
    match built {
        Ok(result) => {
            assert(result@.reasons =~= seq![unknown_type_reason(context@.claim.assertion.assertion_type)]);
            result
        },
        Err(_) => vstd::pervasive::unreached(),
    }
}

/// The literal body match is never applied once the evidence binding fails: the run of the
/// body equality rule set stops at the binding rule, and its trace names no other rule.
pub proof fn binding_failure_stops_before_body_match(
    ctx: EvaluationContextView,
    evals: Seq<RuleEvaluationView>,
    next: nat,
)
    requires
        run_fits(body_equality_rules(), ctx, evals),
        !VpRule0002::spec_evaluate(ctx).continues,
    ensures
        evals == seq![VpRule0002::spec_evaluate(ctx)],
        forall|i: int|
            0 <= i < rule_events(evals, next).len() ==> (#[trigger] rule_events(
                evals,
                next,
            )[i]).rule_reference != Some(VP_RULE_0001_REFERENCE@),
{
    reveal_strlit("VP-RULE-0001");
    reveal_strlit("VP-RULE-0002");
    let kinds = body_equality_rules();
    assert(evaluation_fits(kinds[0], ctx, evals[0]));
    if evals.len() > 1 {
        assert(evals[0].continues);
    }
    assert(evals =~= seq![VpRule0002::spec_evaluate(ctx)]);
    assert("VP-RULE-0001"@[11] != "VP-RULE-0002"@[11]);
}

} // verus!
