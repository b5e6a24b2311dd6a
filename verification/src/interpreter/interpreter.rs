//! Interpreter orchestration: dispatches evaluators and aggregates evidence sets.
use vstd::prelude::*;

use crate::context::evaluation_context::{EvaluationContext, EvaluationContextView};
use crate::model::claim::ClaimView;
use crate::model::evidence::EvidenceView;
use crate::context::evaluation_context::EvaluationOptions;
use crate::context::evaluation_input::EvaluationInput;
use crate::context::specification::SpecificationContextView;
use crate::interpreter::evaluation_policy::{
    aggregate_all_required, all_required, all_required_aggregation_reason, all_required_reason,
};
use crate::interpreter::evaluator_run::{
    append_rule_trace_events, applied_rules, applied_rule_event, lemma_rule_event_ids, rule_events_name_applied_rules, builtin_only, builtin_run, builtin_runs_are_determined, event_id, event_id_text,
    lemma_rule_events_len, lemma_runs_agree, rule_events, rules_agree, run_fits, RuleSetRun,
};
use crate::interpreter::evaluators::body_equality::{
    body_equality_rules, run_result, specification_binding, unknown_assertion_type_reason, unknown_type_reason,
    unknown_type_result,
};
use crate::interpreter::evaluators::normalized_text::normalized_text_rules;
use crate::interpreter::evaluators::registry::{assertion_family, AssertionEvaluatorRegistry, AssertionFamily};
use crate::interpreter::rule_evaluation::{RuleEvaluation, RuleEvaluationView};
use crate::interpreter::rule_set::{BuiltinRule, RuleKind, RuleSet};
use crate::interpreter::rules::vp_rule_0001::{literal_body_equality_decides_rule_0001, VpRule0001};
use crate::interpreter::rules::vp_rule_0002::{binding_rule_only_gates, VpRule0002};
use crate::interpreter::rules::vp_rule_0011::{normalized_equality_decides_rule_0011, VpRule0011};
use crate::interpreter::text_normalization::normalized;
use crate::model::evaluation_policy::EvaluationPolicy;
use crate::model::evidence::Evidence;
use crate::model::identifiers::EvidenceId;
use crate::model::outcome::Outcome;
use crate::model::trace::{plain_event, Trace, TraceBuilder, TraceEventView};
use crate::model::verification_result::{VerificationResult, VerificationResultBuilder, VerificationResultView};
use crate::text::{decimal, decimal_text};

verus! {

/// The context in which the `i`-th evidence record of `input` is evaluated.
pub open spec fn envelope_context(input: EvaluationInput, i: int) -> EvaluationContextView {
    EvaluationContextView {
        specification: input.specification@,
        claim: input.claim@,
        evidence: input.evidence_set@[i]@,
        options: input.options,
    }
}

/// The single evaluation recorded for an envelope whose assertion type no evaluator handles.
pub open spec fn unknown_type_evaluation(ctx: EvaluationContextView) -> RuleEvaluationView {
    RuleEvaluationView {
        outcome: Outcome::Indeterminate,
        reason: unknown_type_reason(ctx.claim.assertion.assertion_type),
        rule_reference: None,
        trace_events: Seq::empty(),
        continues: false,
    }
}

/// Final outcome of each envelope's run.
pub open spec fn envelope_outcomes(runs: Seq<Seq<RuleEvaluationView>>) -> Seq<Outcome> {
    runs.map_values(|evals: Seq<RuleEvaluationView>| evals.last().outcome)
}

/// The trace events of one envelope, numbered from `next`: an opening event, the applied
/// rules and the envelope's outcome.
pub open spec fn envelope_block(id: Seq<char>, index: nat, evals: Seq<RuleEvaluationView>, next: nat) -> Seq<
    TraceEventView,
> {
    let rules = rule_events(evals, next + 1);
    seq![plain_event(event_id_text(next), "evaluating evidence["@ + decimal(index) + "] "@ + id)] + rules + seq![
        plain_event(
            event_id_text(next + 1 + rules.len()),
            "evidence["@ + decimal(index) + "] ("@ + id + ") outcome: "@ + evals.last().outcome.label(),
        ),
    ]
}

/// The trace events of all envelopes in order, numbered from `next`.
pub open spec fn envelope_events(ids: Seq<Seq<char>>, runs: Seq<Seq<RuleEvaluationView>>, next: nat) -> Seq<
    TraceEventView,
>
    decreases runs.len(),
{
    if runs.len() == 0 {
        Seq::empty()
    } else {
        let before = envelope_events(ids.drop_last(), runs.drop_last(), next);
        before + envelope_block(ids[runs.len() - 1], (runs.len() - 1) as nat, runs.last(), next + before.len())
    }
}

/// The trace of a multi-evidence evaluation.
pub open spec fn multi_trace(
    claim_id: Seq<char>,
    policy: Seq<char>,
    ids: Seq<Seq<char>>,
    runs: Seq<Seq<RuleEvaluationView>>,
    aggregated: Outcome,
) -> Seq<TraceEventView> {
    let envelopes = envelope_events(ids, runs, 2);
    seq![plain_event(event_id_text(1), "evaluation started for claim "@ + claim_id + " with policy "@ + policy)]
        + envelopes + seq![
        plain_event(event_id_text(2 + envelopes.len()), "aggregation completed with outcome "@ + aggregated.label()),
    ]
}

/// Identifiers of the evidence records of an input, in order.
pub open spec fn evidence_ids(input: EvaluationInput) -> Seq<Seq<char>> {
    input.evidence_set@.map_values(|e: Evidence| e.id@)
}

/// The result of evaluating a claim against evidence records with identifiers `ids`,
/// when their runs gave `runs`.
pub open spec fn input_result_of(
    specification: SpecificationContextView,
    claim: ClaimView,
    ids: Seq<Seq<char>>,
    policy: EvaluationPolicy,
    options: EvaluationOptions,
    runs: Seq<Seq<RuleEvaluationView>>,
) -> VerificationResultView {
    let outcome = all_required(envelope_outcomes(runs));
    VerificationResultView {
        evaluated_claim_id: claim.id,
        outcome,
        trace: if options.trace_enabled {
            multi_trace(claim.id, policy.label(), ids, runs, outcome)
        } else {
            Seq::empty()
        },
        metadata: Map::empty(),
        specification_binding: specification.binding(),
        reasons: seq![all_required_reason(outcome, runs.len())],
    }
}

/// The result of evaluating `input` when its envelopes' runs gave `runs`.
pub open spec fn input_result(input: EvaluationInput, runs: Seq<Seq<RuleEvaluationView>>) -> VerificationResultView {
    input_result_of(
        input.specification@,
        input.claim@,
        evidence_ids(input),
        input.evaluation_policy,
        input.options,
        runs,
    )
}

/// The rules the default interpreter applies to each assertion family.
pub open spec fn default_rules(family: AssertionFamily) -> Seq<RuleKind> {
    match family {
        AssertionFamily::BodyEquality => body_equality_rules(),
        AssertionFamily::NormalizedText => normalized_text_rules(),
        AssertionFamily::Unsupported => Seq::empty(),
    }
}

/// The run of one envelope, given the rules applied to each assertion family.
pub open spec fn envelope_run(rules: spec_fn(AssertionFamily) -> Seq<RuleKind>, ctx: EvaluationContextView) -> Seq<
    RuleEvaluationView,
> {
    let family = assertion_family(ctx.claim.assertion.assertion_type);
    if family == AssertionFamily::Unsupported {
        seq![unknown_type_evaluation(ctx)]
    } else {
        builtin_run(rules(family), ctx)
    }
}

/// Per-envelope rule pipeline result for multi-evidence evaluation.
struct EnvelopeEvaluation {
    index: usize,
    evidence_id: EvidenceId,
    run: RuleSetRun,
}

/// Reference interpreter: dispatches assertion evaluators and aggregates evidence sets.
pub struct Interpreter {
    registry: AssertionEvaluatorRegistry,
}

impl Default for Interpreter {
    fn default() -> (r: Self)
        ensures
            r.rules_for(AssertionFamily::BodyEquality) == body_equality_rules(),
            r.rules_for(AssertionFamily::NormalizedText) == normalized_text_rules(),
    {
        Interpreter::new()
    }
}

impl Interpreter {
    /// The rules applied to an assertion of the given family.
    pub closed spec fn rules_for(&self, family: AssertionFamily) -> Seq<RuleKind> {
        self.registry.rules_for(family)
    }

    /// The result that evaluating `ctx` may give: for an unsupported assertion type the
    /// unknown-type result; otherwise the result of a run of the family's rules.
    pub open spec fn result_fits(&self, ctx: EvaluationContextView, r: VerificationResultView) -> bool {
        let family = assertion_family(ctx.claim.assertion.assertion_type);
        if family == AssertionFamily::Unsupported {
            r == unknown_type_result(ctx)
        } else {
            exists|evals: Seq<RuleEvaluationView>| run_fits(self.rules_for(family), ctx, evals) && r == run_result(ctx, evals)
        }
    }

    /// The rules applied to an assertion of `ctx`'s type are all built in.
    pub open spec fn builtin_for(&self, ctx: EvaluationContextView) -> bool {
        builtin_only(self.rules_for(assertion_family(ctx.claim.assertion.assertion_type)))
    }

    /// The result of evaluating `ctx` when the rules for its assertion type are built in.
    pub open spec fn determined_result(&self, ctx: EvaluationContextView) -> VerificationResultView {
        let family = assertion_family(ctx.claim.assertion.assertion_type);
        if family == AssertionFamily::Unsupported {
            unknown_type_result(ctx)
        } else {
            run_result(ctx, builtin_run(self.rules_for(family), ctx))
        }
    }

    /// `evals` is what evaluating one envelope in `ctx` gives.
    pub open spec fn envelope_run_fits(&self, ctx: EvaluationContextView, evals: Seq<RuleEvaluationView>) -> bool {
        let family = assertion_family(ctx.claim.assertion.assertion_type);
        if family == AssertionFamily::Unsupported {
            evals == seq![unknown_type_evaluation(ctx)]
        } else {
            run_fits(self.rules_for(family), ctx, evals)
        }
    }

    /// `runs` holds, for each evidence record of `input` in order, what evaluating it gives.
    pub open spec fn runs_fit(&self, input: EvaluationInput, runs: Seq<Seq<RuleEvaluationView>>) -> bool {
        &&& runs.len() == input.evidence_set@.len()
        &&& forall|i: int| 0 <= i < runs.len() ==> self.envelope_run_fits(envelope_context(input, i), #[trigger] runs[i])
    }

    /// The result that evaluating `input` may give.
    pub open spec fn input_result_fits(&self, input: EvaluationInput, r: VerificationResultView) -> bool {
        exists|runs: Seq<Seq<RuleEvaluationView>>| self.runs_fit(input, runs) && r == input_result(input, runs)
    }

    /// Claims of this assertion type can be evaluated: the type is unsupported (and answered
    /// indeterminate) or its family's rule set holds at least one rule.
    pub open spec fn evaluable(&self, assertion_type: Seq<char>) -> bool {
        let family = assertion_family(assertion_type);
        family == AssertionFamily::Unsupported || self.rules_for(family).len() > 0
    }

    /// An input can be evaluated: it has no evidence, or claims of its type can be evaluated.
    pub open spec fn input_evaluable(&self, input: EvaluationInput) -> bool {
        input.evidence_set@.len() > 0 ==> self.evaluable(input.claim@.assertion.assertion_type)
    }

    /// Trace event numbers stay within the 32-bit counter for this input (needed only when
    /// tracing is enabled).
    pub open spec fn trace_fits(&self, input: EvaluationInput) -> bool {
        input.evidence_set@.len() * (self.rules_for(assertion_family(input.claim@.assertion.assertion_type)).len()
            + 3) + 2 <= u32::MAX
    }

    pub fn new() -> (r: Self)
        ensures
            r.rules_for(AssertionFamily::BodyEquality) == body_equality_rules(),
            r.rules_for(AssertionFamily::NormalizedText) == normalized_text_rules(),
            forall|family: AssertionFamily| #[trigger] r.rules_for(family) == default_rules(family),
    {
        let r = Interpreter { registry: AssertionEvaluatorRegistry::platform_default() };
        assert forall|family: AssertionFamily| #[trigger] r.rules_for(family) == default_rules(family) by {
            if family == AssertionFamily::Unsupported {
                assert(r.rules_for(family) == Seq::<RuleKind>::empty());
            }
        }
        r
    }

    /// An interpreter whose body equality evaluation applies `rule_set`; body equality
    /// claims can be evaluated only once the set holds a rule.
    pub fn with_rule_set(rule_set: RuleSet) -> (r: Self)
        requires
            rule_set@.len() <= u32::MAX - 2,
        ensures
            r.rules_for(AssertionFamily::BodyEquality) == rule_set@,
            r.rules_for(AssertionFamily::NormalizedText) == normalized_text_rules(),
    {
        Interpreter { registry: AssertionEvaluatorRegistry::with_body_equality_rule_set(rule_set) }
    }

    /// The default interpreter.
    pub fn placeholder() -> (r: Self)
        ensures
            r.rules_for(AssertionFamily::BodyEquality) == body_equality_rules(),
            r.rules_for(AssertionFamily::NormalizedText) == normalized_text_rules(),
    {
        Interpreter::new()
    }

    /// The body equality rule set.
    pub fn rule_set(&self) -> (r: &RuleSet)
        ensures
            r@ == self.rules_for(AssertionFamily::BodyEquality),
    {
        self.registry.body_equality_rule_set()
    }

    /// Evaluates one claim against one evidence record.
    pub fn evaluate(&self, context: &EvaluationContext) -> (r: VerificationResult)
        requires
            self.evaluable(context@.claim.assertion.assertion_type),
        ensures
            self.result_fits(context@, r@),
    {
        let r = self.registry.evaluate(context);
        assert(self.registry.result_fits(context@, r@));
        r
    }

    /// Evaluates a claim against an evidence set under the input's evaluation policy.
    pub fn evaluate_input(&self, input: &EvaluationInput) -> (r: VerificationResult)
        requires
            input.options.trace_enabled ==> self.trace_fits(*input),
            self.input_evaluable(*input),
        ensures
            self.input_result_fits(*input, r@),
    {
        match input.evaluation_policy() {
            EvaluationPolicy::AllRequired => self.evaluate_all_required(input),
        }
    }

    fn evaluate_all_required(&self, input: &EvaluationInput) -> (r: VerificationResult)
        requires
            input.options.trace_enabled ==> self.trace_fits(*input),
            self.input_evaluable(*input),
        ensures
            self.input_result_fits(*input, r@),
    {
        let envelopes = self.evaluate_envelopes(input);
        let ghost runs = envelopes@.map_values(|e: EnvelopeEvaluation| e.run.evals());
        let mut outcomes: Vec<Outcome> = Vec::new();
        let mut i: usize = 0;
        while i < envelopes.len()
            invariant
                i <= envelopes@.len(),
                runs == envelopes@.map_values(|e: EnvelopeEvaluation| e.run.evals()),
                forall|j: int| 0 <= j < envelopes@.len() ==> (#[trigger] envelopes@[j]).run.final_evaluation@
                    == envelopes@[j].run.evals().last(),
                outcomes@ == envelope_outcomes(runs).subrange(0, i as int),
            decreases envelopes@.len() - i,
        {
            outcomes.push(envelopes[i].run.final_evaluation.outcome);
            assert(envelope_outcomes(runs).subrange(0, i + 1) =~= envelope_outcomes(runs).subrange(0, i as int).push(
                envelopes@[i as int].run.final_evaluation.outcome,
            ));
            i = i + 1;
        }
        assert(outcomes@ =~= envelope_outcomes(runs));
        let aggregated = aggregate_all_required(outcomes.as_slice());
        let reason = all_required_aggregation_reason(aggregated, envelopes.len());

        let ghost limit: nat = self.rules_for(assertion_family(input.claim@.assertion.assertion_type)).len() + 1;
        proof {
            assert forall|j: int| 0 <= j < envelopes@.len() implies (#[trigger] envelopes@[j]).run.evals().len() <= limit by {
                assert(self.envelope_run_fits(envelope_context(*input, j), envelopes@[j].run.evals()));
            }
        }
        let trace = if input.options().trace_enabled {
            build_multi_evidence_trace(input, &envelopes, aggregated, Ghost(limit))
        } else {
            Trace::default()
        };

        let built = VerificationResultBuilder::new().evaluated_claim_id(input.claim().id.duplicate()).outcome(
            aggregated,
        ).trace(trace).specification_binding(specification_binding(input.specification())).reason(reason).build();
        match built {
            Ok(result) => {
                proof {
                    assert forall|j: int| 0 <= j < runs.len() implies self.envelope_run_fits(
                        envelope_context(*input, j),
                        #[trigger] runs[j],
                    ) by {
                        assert(runs[j] == envelopes@[j].run.evals());
                    }
                    assert(self.runs_fit(*input, runs));
                    assert(result@.reasons =~= seq![all_required_reason(aggregated, runs.len())]);
                    assert(result@ == input_result(*input, runs));
                }
                result
            },
            Err(_) => vstd::pervasive::unreached(),
        }
    }

    fn evaluate_envelopes(&self, input: &EvaluationInput) -> (r: Vec<EnvelopeEvaluation>)
        requires
            input.options.trace_enabled ==> self.trace_fits(*input),
            self.input_evaluable(*input),
        ensures
            r@.len() == input.evidence_set@.len(),
            forall|i: int| 0 <= i < r@.len() ==> (#[trigger] r@[i]).index == i,
            forall|i: int| 0 <= i < r@.len() ==> (#[trigger] r@[i]).evidence_id@ == input.evidence_set@[i].id@,
            forall|i: int| 0 <= i < r@.len() ==> self.envelope_run_fits(envelope_context(*input, i), (#[trigger] r@[i]).run.evals()),
            forall|i: int| 0 <= i < r@.len() ==> (#[trigger] r@[i]).run.final_evaluation@ == r@[i].run.evals().last(),
    {
        let evidence = input.evidence_set().evidence();
        let supported = self.registry.supports_assertion_type(input.claim().assertion.assertion_type.as_str());
        let mut envelopes: Vec<EnvelopeEvaluation> = Vec::new();
        let mut index: usize = 0;
        while index < evidence.len()
            invariant
                evidence@ == input.evidence_set@,
                index <= evidence@.len(),
                supported == (assertion_family(input.claim@.assertion.assertion_type) != AssertionFamily::Unsupported),
                self.input_evaluable(*input),
                envelopes@.len() == index,
                forall|i: int| 0 <= i < index ==> (#[trigger] envelopes@[i]).index == i,
                forall|i: int| 0 <= i < index ==> (#[trigger] envelopes@[i]).evidence_id@ == input.evidence_set@[i].id@,
                forall|i: int| 0 <= i < index ==> self.envelope_run_fits(envelope_context(*input, i), (#[trigger] envelopes@[i]).run.evals()),
                forall|i: int| 0 <= i < index ==> (#[trigger] envelopes@[i]).run.final_evaluation@ == envelopes@[i].run.evals().last(),
            decreases evidence@.len() - index,
        {
            let context = context_for_evidence(input, &evidence[index]);
            assert(context@ == envelope_context(*input, index as int));
            let run = if supported {
                self.registry.run_dispatched(&context)
            } else {
                indeterminate_dispatch_run(&context)
            };
            envelopes.push(EnvelopeEvaluation { index, evidence_id: evidence[index].id.duplicate(), run });
            index = index + 1;
        }
        envelopes
    }
}

/// When the rules for the assertion type are built in, evaluating a context has exactly
/// one possible result.
pub proof fn evaluation_is_determined(interpreter: Interpreter, ctx: EvaluationContextView, r: VerificationResultView)
    requires
        interpreter.builtin_for(ctx),
        interpreter.result_fits(ctx, r),
    ensures
        r == interpreter.determined_result(ctx),
{
    let family = assertion_family(ctx.claim.assertion.assertion_type);
    if family != AssertionFamily::Unsupported {
        let evals = choose|evals: Seq<RuleEvaluationView>|
            run_fits(interpreter.rules_for(family), ctx, evals) && r == run_result(ctx, evals);
        builtin_runs_are_determined(interpreter.rules_for(family), ctx, evals);
    }
}

/// When the rules for the claim's assertion type are built in, evaluating an input has
/// exactly one possible result: each envelope's run is determined by its context.
pub proof fn input_evaluation_is_determined(interpreter: Interpreter, input: EvaluationInput, r: VerificationResultView)
    requires
        builtin_only(interpreter.rules_for(assertion_family(input.claim@.assertion.assertion_type))),
        interpreter.input_result_fits(input, r),
    ensures
        r == input_result(
            input,
            Seq::new(
                input.evidence_set@.len(),
                |i: int| envelope_run(|f: AssertionFamily| interpreter.rules_for(f), envelope_context(input, i)),
            ),
        ),
{
    let runs = choose|runs: Seq<Seq<RuleEvaluationView>>| interpreter.runs_fit(input, runs) && r == input_result(input, runs);
    let expected = Seq::new(
        input.evidence_set@.len(),
        |i: int| envelope_run(|f: AssertionFamily| interpreter.rules_for(f), envelope_context(input, i)),
    );
    assert forall|i: int| 0 <= i < runs.len() implies runs[i] == expected[i] by {
        let ctx = envelope_context(input, i);
        assert(interpreter.envelope_run_fits(ctx, runs[i]));
        let family = assertion_family(ctx.claim.assertion.assertion_type);
        if family != AssertionFamily::Unsupported {
            builtin_runs_are_determined(interpreter.rules_for(family), ctx, runs[i]);
        }
    }
    assert(runs =~= expected);
}

/// Evaluating the same context twice gives the same result when its rules are built in.
pub proof fn repeated_evaluation_agrees(
    interpreter: Interpreter,
    ctx: EvaluationContextView,
    first: VerificationResultView,
    second: VerificationResultView,
)
    requires
        interpreter.builtin_for(ctx),
        interpreter.result_fits(ctx, first),
        interpreter.result_fits(ctx, second),
    ensures
        first == second,
{
    evaluation_is_determined(interpreter, ctx, first);
    evaluation_is_determined(interpreter, ctx, second);
}

proof fn lemma_envelope_event_ids(ids: Seq<Seq<char>>, runs: Seq<Seq<RuleEvaluationView>>, next: nat)
    ensures
        forall|k: int| 0 <= k < envelope_events(ids, runs, next).len() ==> (#[trigger] envelope_events(ids, runs, next)[k]).id
            == event_id_text((next + k) as nat),
    decreases runs.len(),
{
    if runs.len() > 0 {
        lemma_envelope_event_ids(ids.drop_last(), runs.drop_last(), next);
        let before = envelope_events(ids.drop_last(), runs.drop_last(), next);
        let start = next + before.len();
        let index = (runs.len() - 1) as nat;
        let block = envelope_block(ids[runs.len() - 1], index, runs.last(), start);
        let rules = rule_events(runs.last(), start + 1);
        lemma_rule_event_ids(runs.last(), start + 1);
        let all = envelope_events(ids, runs, next);
        assert(all == before + block);
        assert forall|k: int| 0 <= k < all.len() implies (#[trigger] all[k]).id == event_id_text((next + k) as nat) by {
            if k >= before.len() {
                let j = k - before.len();
                assert(all[k] == block[j]);
                if 1 <= j <= rules.len() {
                    assert(block[j] == rules[j - 1]);
                }
            }
        }
    }
}

/// The events of a multi-evidence trace are numbered `evt-1`, `evt-2`, ... in order.
pub proof fn multi_trace_ids_are_sequential(
    claim_id: Seq<char>,
    policy: Seq<char>,
    ids: Seq<Seq<char>>,
    runs: Seq<Seq<RuleEvaluationView>>,
    aggregated: Outcome,
)
    ensures
        forall|k: int| 0 <= k < multi_trace(claim_id, policy, ids, runs, aggregated).len() ==> (#[trigger] multi_trace(
            claim_id,
            policy,
            ids,
            runs,
            aggregated,
        )[k]).id == event_id_text((k + 1) as nat),
{
    lemma_envelope_event_ids(ids, runs, 2);
    let envelopes = envelope_events(ids, runs, 2);
    let trace = multi_trace(claim_id, policy, ids, runs, aggregated);
    assert forall|k: int| 0 <= k < trace.len() implies (#[trigger] trace[k]).id == event_id_text((k + 1) as nat) by {
        if 1 <= k <= envelopes.len() {
            assert(trace[k] == envelopes[k - 1]);
        }
    }
}

/// With tracing disabled, a single-evidence evaluation returns an empty trace.
pub proof fn disabled_trace_is_empty(interpreter: Interpreter, ctx: EvaluationContextView, r: VerificationResultView)
    requires
        !ctx.options.trace_enabled,
        interpreter.result_fits(ctx, r),
    ensures
        r.trace.len() == 0,
{
}

/// With tracing disabled, a multi-evidence evaluation returns an empty trace.
pub proof fn disabled_input_trace_is_empty(interpreter: Interpreter, input: EvaluationInput, r: VerificationResultView)
    requires
        !input.options.trace_enabled,
        interpreter.input_result_fits(input, r),
    ensures
        r.trace.len() == 0,
{
}

/// The outcome of one envelope's run, when the rules for its assertion type are built in.
proof fn lemma_envelope_outcome(interpreter: Interpreter, ctx: EvaluationContextView, evals: Seq<RuleEvaluationView>)
    requires
        interpreter.builtin_for(ctx),
        interpreter.envelope_run_fits(ctx, evals),
    ensures
        evals.last().outcome == interpreter.determined_result(ctx).outcome,
{
    let family = assertion_family(ctx.claim.assertion.assertion_type);
    if family != AssertionFamily::Unsupported {
        builtin_runs_are_determined(interpreter.rules_for(family), ctx, evals);
    }
}

/// Evaluating an input with exactly one evidence record gives the same outcome as
/// evaluating that record's context directly.
pub proof fn single_evidence_input_matches_context(
    interpreter: Interpreter,
    input: EvaluationInput,
    by_context: VerificationResultView,
    by_input: VerificationResultView,
)
    requires
        input.evidence_set@.len() == 1,
        interpreter.builtin_for(envelope_context(input, 0)),
        interpreter.result_fits(envelope_context(input, 0), by_context),
        interpreter.input_result_fits(input, by_input),
    ensures
        by_context.outcome == by_input.outcome,
{
    let ctx = envelope_context(input, 0);
    evaluation_is_determined(interpreter, ctx, by_context);
    let runs = choose|runs: Seq<Seq<RuleEvaluationView>>| interpreter.runs_fit(input, runs) && by_input == input_result(input, runs);
    assert(interpreter.envelope_run_fits(ctx, runs[0]));
    lemma_envelope_outcome(interpreter, ctx, runs[0]);
    let outcomes = envelope_outcomes(runs);
    assert(outcomes =~= seq![runs[0].last().outcome]);
    assert(outcomes.contains(outcomes[0]));
}

/// Evaluating an input aggregates, under `ALL_REQUIRED`, the outcomes that evaluating each
/// evidence record's context on its own gives (see [`evaluation_is_determined`]); its reason
/// states the aggregate and the number of records, and it names the input's claim.
pub proof fn input_outcome_aggregates_context_outcomes(
    interpreter: Interpreter,
    input: EvaluationInput,
    r: VerificationResultView,
)
    requires
        builtin_only(interpreter.rules_for(assertion_family(input.claim@.assertion.assertion_type))),
        interpreter.input_result_fits(input, r),
    ensures
        r.outcome == all_required(
            Seq::new(
                input.evidence_set@.len(),
                |j: int| interpreter.determined_result(envelope_context(input, j)).outcome,
            ),
        ),
        r.reasons == seq![all_required_reason(r.outcome, input.evidence_set@.len())],
        r.evaluated_claim_id == input.claim@.id,
{
    let runs = choose|runs: Seq<Seq<RuleEvaluationView>>| interpreter.runs_fit(input, runs) && r == input_result(input, runs);
    let outcomes = envelope_outcomes(runs);
    let expected = Seq::new(
        input.evidence_set@.len(),
        |j: int| interpreter.determined_result(envelope_context(input, j)).outcome,
    );
    assert forall|j: int| 0 <= j < outcomes.len() implies outcomes[j] == expected[j] by {
        assert(interpreter.envelope_run_fits(envelope_context(input, j), runs[j]));
        lemma_envelope_outcome(interpreter, envelope_context(input, j), runs[j]);
    }
    assert(outcomes =~= expected);
}

/// The outcome of a multi-evidence evaluation does not depend on the order of the
/// evidence records: two inputs that differ only in how the same records are arranged
/// (same count, each record of one found in the other) get the same outcome.
pub proof fn evidence_order_does_not_change_outcome(
    interpreter: Interpreter,
    a: EvaluationInput,
    b: EvaluationInput,
    ra: VerificationResultView,
    rb: VerificationResultView,
)
    requires
        a.specification@ == b.specification@,
        a.claim@ == b.claim@,
        a.options == b.options,
        a.evidence_set@.len() == b.evidence_set@.len(),
        forall|i: int| 0 <= i < a.evidence_set@.len() ==> exists|j: int| 0 <= j < b.evidence_set@.len() && #[trigger] a.evidence_set@[i]@ == b.evidence_set@[j]@,
        forall|j: int| 0 <= j < b.evidence_set@.len() ==> exists|i: int| 0 <= i < a.evidence_set@.len() && a.evidence_set@[i]@ == #[trigger] b.evidence_set@[j]@,
        builtin_only(interpreter.rules_for(assertion_family(a.claim@.assertion.assertion_type))),
        interpreter.input_result_fits(a, ra),
        interpreter.input_result_fits(b, rb),
    ensures
        ra.outcome == rb.outcome,
{
    let runs_a = choose|runs: Seq<Seq<RuleEvaluationView>>| interpreter.runs_fit(a, runs) && ra == input_result(a, runs);
    let runs_b = choose|runs: Seq<Seq<RuleEvaluationView>>| interpreter.runs_fit(b, runs) && rb == input_result(b, runs);
    let oa = envelope_outcomes(runs_a);
    let ob = envelope_outcomes(runs_b);
    assert forall|i: int| 0 <= i < oa.len() implies ob.contains(#[trigger] oa[i]) by {
        let j = choose|j: int| 0 <= j < b.evidence_set@.len() && a.evidence_set@[i]@ == b.evidence_set@[j]@;
        assert(envelope_context(a, i) == envelope_context(b, j));
        assert(interpreter.envelope_run_fits(envelope_context(a, i), runs_a[i]));
        assert(interpreter.envelope_run_fits(envelope_context(b, j), runs_b[j]));
        lemma_envelope_outcome(interpreter, envelope_context(a, i), runs_a[i]);
        lemma_envelope_outcome(interpreter, envelope_context(b, j), runs_b[j]);
        assert(ob[j] == oa[i]);
    }
    assert forall|j: int| 0 <= j < ob.len() implies oa.contains(#[trigger] ob[j]) by {
        let i = choose|i: int| 0 <= i < a.evidence_set@.len() && a.evidence_set@[i]@ == b.evidence_set@[j]@;
        assert(envelope_context(a, i) == envelope_context(b, j));
        assert(interpreter.envelope_run_fits(envelope_context(a, i), runs_a[i]));
        assert(interpreter.envelope_run_fits(envelope_context(b, j), runs_b[j]));
        lemma_envelope_outcome(interpreter, envelope_context(a, i), runs_a[i]);
        lemma_envelope_outcome(interpreter, envelope_context(b, j), runs_b[j]);
        assert(oa[i] == ob[j]);
    }
    assert(oa.contains(Outcome::NotSatisfied) == ob.contains(Outcome::NotSatisfied));
    assert(oa.contains(Outcome::Indeterminate) == ob.contains(Outcome::Indeterminate));
}

/// Metadata never decides protocol truth: evaluating two contexts that differ only in the
/// claim's and the evidence's metadata gives the same result.
pub proof fn metadata_does_not_decide_outcome(
    interpreter: Interpreter,
    a: EvaluationContextView,
    b: EvaluationContextView,
    ra: VerificationResultView,
    rb: VerificationResultView,
)
    requires
        a == (EvaluationContextView {
            claim: ClaimView { metadata: a.claim.metadata, ..b.claim },
            evidence: EvidenceView { metadata: a.evidence.metadata, ..b.evidence },
            ..b
        }),
        interpreter.builtin_for(a),
        interpreter.result_fits(a, ra),
        interpreter.result_fits(b, rb),
    ensures
        ra == rb,
{
    let family = assertion_family(a.claim.assertion.assertion_type);
    if family != AssertionFamily::Unsupported {
        let kinds = interpreter.rules_for(family);
        let ea = choose|evals: Seq<RuleEvaluationView>| run_fits(kinds, a, evals) && ra == run_result(a, evals);
        let eb = choose|evals: Seq<RuleEvaluationView>| run_fits(kinds, b, evals) && rb == run_result(b, evals);
        assert forall|i: int| 0 <= i < kinds.len() implies (#[trigger] kinds[i])->Builtin_0.spec_evaluate(a)
            == kinds[i]->Builtin_0.spec_evaluate(b) by {
            assert(kinds[i] is Builtin);
        }
        assert(rules_agree(kinds, a, b));
        lemma_runs_agree(kinds, a, b, ea, eb);
    }
}

/// The context in which one evidence record of `input` is evaluated.
pub fn context_for_evidence(input: &EvaluationInput, evidence: &Evidence) -> (r: EvaluationContext)
    ensures
        r@ == (EvaluationContextView {
            specification: input.specification@,
            claim: input.claim@,
            evidence: evidence@,
            options: input.options,
        }),
{
    let built = EvaluationContext::builder().specification_context(input.specification().duplicate()).claim(
        input.claim().duplicate(),
    ).evidence(evidence.duplicate()).options(*input.options()).build();
    match built {
        Ok(context) => context,
        Err(_) => vstd::pervasive::unreached(),
    }
}

/// The run recorded for an envelope whose assertion type no evaluator handles.
pub fn indeterminate_dispatch_run(context: &EvaluationContext) -> (run: RuleSetRun)
    ensures
        run.evals() == seq![unknown_type_evaluation(context@)],
        run.final_evaluation@ == unknown_type_evaluation(context@),
{
    let reason = unknown_assertion_type_reason(context.claim().assertion.assertion_type.as_str());
    let evaluation = RuleEvaluation::new(Outcome::Indeterminate, reason);
    let mut evaluations: Vec<RuleEvaluation> = Vec::new();
    let final_evaluation = evaluation.duplicate();
    evaluations.push(evaluation);
    let run = RuleSetRun { evaluations, final_evaluation };
    assert(run.evals() =~= seq![unknown_type_evaluation(context@)]);
    run
}

fn build_multi_evidence_trace(
    input: &EvaluationInput,
    envelopes: &Vec<EnvelopeEvaluation>,
    aggregated: Outcome,
    Ghost(limit): Ghost<nat>,
) -> (r: Trace)
    requires
        envelopes@.len() == input.evidence_set@.len(),
        forall|i: int| 0 <= i < envelopes@.len() ==> (#[trigger] envelopes@[i]).index == i,
        forall|i: int| 0 <= i < envelopes@.len() ==> (#[trigger] envelopes@[i]).evidence_id@ == input.evidence_set@[i].id@,
        forall|i: int| 0 <= i < envelopes@.len() ==> (#[trigger] envelopes@[i]).run.final_evaluation@ == envelopes@[i].run.evals().last(),
        forall|i: int| 0 <= i < envelopes@.len() ==> (#[trigger] envelopes@[i]).run.evals().len() <= limit,
        envelopes@.len() * (limit + 2) + 2 <= u32::MAX,
    ensures
        r@ == multi_trace(
            input.claim@.id,
            input.evaluation_policy.label(),
            evidence_ids(*input),
            envelopes@.map_values(|e: EnvelopeEvaluation| e.run.evals()),
            aggregated,
        ),
{
    let ghost runs = envelopes@.map_values(|e: EnvelopeEvaluation| e.run.evals());
    let ghost ids = evidence_ids(*input);
    let n = envelopes.len();
    let claim_id = input.claim().id.as_str();
    let policy_id = input.evaluation_policy().policy_id();

    let mut started = String::from_str("evaluation started for claim ");
    started.append(claim_id);
    started.append(" with policy ");
    started.append(policy_id);
    let mut builder = TraceBuilder::new().message(event_id(1), started);
    let ghost first = builder@;

    let mut sequence: u32 = 2;
    let mut i: usize = 0;
    while i < n
        invariant
            n == envelopes@.len(),
            n == input.evidence_set@.len(),
            i <= n,
            runs == envelopes@.map_values(|e: EnvelopeEvaluation| e.run.evals()),
            ids == evidence_ids(*input),
            forall|j: int| 0 <= j < n ==> (#[trigger] envelopes@[j]).index == j,
            forall|j: int| 0 <= j < n ==> (#[trigger] envelopes@[j]).evidence_id@ == input.evidence_set@[j].id@,
            forall|j: int| 0 <= j < n ==> (#[trigger] envelopes@[j]).run.final_evaluation@ == envelopes@[j].run.evals().last(),
            forall|j: int| 0 <= j < n ==> (#[trigger] envelopes@[j]).run.evals().len() <= limit,
            n * (limit + 2) + 2 <= u32::MAX,
            builder@ == first + envelope_events(ids.take(i as int), runs.take(i as int), 2),
            sequence == 2 + envelope_events(ids.take(i as int), runs.take(i as int), 2).len(),
            sequence <= 2 + i * (limit + 2),
        decreases n - i,
    {
        let envelope = &envelopes[i];
        let ghost before = envelope_events(ids.take(i as int), runs.take(i as int), 2);
        let ghost evals = envelope.run.evals();
        proof {
            assert((i + 1) * (limit + 2) == i * (limit + 2) + (limit + 2)) by (nonlinear_arith);
            assert((i + 1) * (limit + 2) <= n * (limit + 2)) by (nonlinear_arith)
                requires
                    i + 1 <= n,
            ;
            lemma_rule_events_len(evals, (sequence + 1) as nat);
            assert(ids.take(i + 1).drop_last() == ids.take(i as int));
            assert(runs.take(i + 1).drop_last() == runs.take(i as int));
            assert(runs.take(i + 1).last() == evals);
            assert(ids.take(i + 1)[i as int] == envelope.evidence_id@);
        }
        let index_text = decimal_text(envelope.index as u64);

        let mut opening = String::from_str("evaluating evidence[");
        opening.append(index_text.as_str());
        opening.append("] ");
        opening.append(envelope.evidence_id.as_str());
        builder = builder.message(event_id(sequence), opening);
        sequence = sequence + 1;

        builder = append_rule_trace_events(builder, &mut sequence, &envelope.run);

        let mut closing = String::from_str("evidence[");
        closing.append(index_text.as_str());
        closing.append("] (");
        closing.append(envelope.evidence_id.as_str());
        closing.append(") outcome: ");
        closing.append(envelope.run.final_evaluation.outcome.as_str());
        builder = builder.message(event_id(sequence), closing);
        sequence = sequence + 1;

        proof {
            let block = envelope_block(envelope.evidence_id@, i as nat, evals, 2 + before.len());
            assert(envelope_events(ids.take(i + 1), runs.take(i + 1), 2) == before + block);
            assert(builder@ =~= first + (before + block));
        }
        i = i + 1;
    }
    assert(ids.take(n as int) == ids);
    assert(runs.take(n as int) == runs);
    let mut completed = String::from_str("aggregation completed with outcome ");
    completed.append(aggregated.as_str());
    let r = builder.message(event_id(sequence), completed).build();
    assert(r@ =~= multi_trace(input.claim@.id, input.evaluation_policy.label(), ids, runs, aggregated));
    r
}

} // verus!

verus! {

/// Where the events of the `i`-th envelope start among the envelope events: the sizes of the
/// blocks before it, each an opening event, the rules its run applied and named, and an
/// outcome event.
pub open spec fn block_offset(runs: Seq<Seq<RuleEvaluationView>>, i: int) -> int
    decreases i,
{
    if i <= 0 {
        0
    } else {
        block_offset(runs, i - 1) + applied_rules(runs[i - 1]).len() + 2
    }
}

proof fn lemma_block_offset_prefix(runs: Seq<Seq<RuleEvaluationView>>, i: int)
    requires
        0 <= i < runs.len(),
    ensures
        block_offset(runs.drop_last(), i) == block_offset(runs, i),
    decreases i,
{
    if i > 0 {
        lemma_block_offset_prefix(runs, i - 1);
        assert(runs.drop_last()[i - 1] == runs[i - 1]);
    }
}

/// The events of one envelope: an opening event naming the evidence record, one "applied
/// rule" event per rule its run applied and named, and an event naming its outcome,
/// numbered on from `next`.
pub proof fn envelope_block_layout(id: Seq<char>, index: nat, evals: Seq<RuleEvaluationView>, next: nat)
    ensures
        ({
            let b = envelope_block(id, index, evals, next);
            let names = applied_rules(evals);
            let k = names.len() as int;
            &&& b.len() == k + 2
            &&& b[0] == plain_event(event_id_text(next), "evaluating evidence["@ + decimal(index) + "] "@ + id)
            &&& forall|j: int| 0 <= j < k ==> b[j + 1] == applied_rule_event((next + 1 + j) as nat, #[trigger] names[j])
            &&& b[k + 1] == plain_event(
                event_id_text((next + 1 + k) as nat),
                "evidence["@ + decimal(index) + "] ("@ + id + ") outcome: "@ + evals.last().outcome.label(),
            )
        }),
{
    rule_events_name_applied_rules(evals, next + 1);
    let b = envelope_block(id, index, evals, next);
    let rules = rule_events(evals, next + 1);
    assert forall|j: int| 0 <= j < applied_rules(evals).len() implies b[j + 1] == applied_rule_event(
        (next + 1 + j) as nat,
        #[trigger] applied_rules(evals)[j],
    ) by {
        assert(b[j + 1] == rules[j]);
        assert(rules[j] == applied_rule_event((next + 1 + j) as nat, applied_rules(evals)[j]));
    }
}

proof fn lemma_envelope_events_blocks(ids: Seq<Seq<char>>, runs: Seq<Seq<RuleEvaluationView>>, next: nat)
    requires
        ids.len() == runs.len(),
    ensures
        envelope_events(ids, runs, next).len() == block_offset(runs, runs.len() as int),
        forall|i: int|
            0 <= i < runs.len() ==> envelope_events(ids, runs, next).subrange(
                #[trigger] block_offset(runs, i),
                block_offset(runs, i) + applied_rules(runs[i]).len() + 2,
            ) == envelope_block(ids[i], i as nat, runs[i], (next + block_offset(runs, i)) as nat),
    decreases runs.len(),
{
    if runs.len() > 0 {
        let last = runs.len() - 1;
        let pids = ids.drop_last();
        let pruns = runs.drop_last();
        lemma_envelope_events_blocks(pids, pruns, next);
        let before = envelope_events(pids, pruns, next);
        lemma_block_offset_prefix(runs, last);
        let start = next + before.len();
        let block = envelope_block(ids[last], last as nat, runs.last(), start);
        envelope_block_layout(ids[last], last as nat, runs.last(), start);
        let all = envelope_events(ids, runs, next);
        assert(all == before + block);
        assert forall|i: int| 0 <= i < runs.len() implies all.subrange(
            #[trigger] block_offset(runs, i),
            block_offset(runs, i) + applied_rules(runs[i]).len() + 2,
        ) == envelope_block(ids[i], i as nat, runs[i], (next + block_offset(runs, i)) as nat) by {
            if i < last {
                lemma_block_offset_prefix(runs, i);
                lemma_block_offset_prefix(runs, i + 1);
                assert(pruns[i] == runs[i]);
                assert(pids[i] == ids[i]);
                assert(block_offset(runs, i + 1) <= block_offset(runs, last)) by {
                    lemma_block_offset_monotonic(runs, i + 1, last);
                }
                lemma_block_offset_monotonic(runs, 0, i);
                assert(block_offset(runs, i + 1) == block_offset(runs, i) + applied_rules(runs[i]).len() + 2);
                assert(all.subrange(block_offset(runs, i), block_offset(runs, i) + applied_rules(runs[i]).len() + 2)
                    =~= before.subrange(block_offset(pruns, i), block_offset(pruns, i) + applied_rules(pruns[i]).len() + 2));
            } else {
                assert(all.subrange(block_offset(runs, i), block_offset(runs, i) + applied_rules(runs[i]).len() + 2)
                    =~= block);
            }
        }
    }
}

proof fn lemma_block_offset_monotonic(runs: Seq<Seq<RuleEvaluationView>>, i: int, j: int)
    requires
        0 <= i <= j,
    ensures
        block_offset(runs, i) <= block_offset(runs, j),
    decreases j - i,
{
    if i < j {
        lemma_block_offset_monotonic(runs, i, j - 1);
    }
}

/// The trace of a multi-evidence evaluation is a start event naming the claim and the
/// policy, then each envelope's events in evidence order (see [`envelope_block_layout`]),
/// starting after the blocks of the envelopes before it, then an event naming the aggregated
/// outcome; the events are numbered `evt-1`, `evt-2`, ... in order.
pub proof fn multi_trace_layout(
    claim_id: Seq<char>,
    policy: Seq<char>,
    ids: Seq<Seq<char>>,
    runs: Seq<Seq<RuleEvaluationView>>,
    aggregated: Outcome,
)
    requires
        ids.len() == runs.len(),
    ensures
        ({
            let t = multi_trace(claim_id, policy, ids, runs, aggregated);
            let total = block_offset(runs, runs.len() as int);
            &&& t.len() == total + 2
            &&& forall|k: int| 0 <= k < t.len() ==> (#[trigger] t[k]).id == event_id_text((k + 1) as nat)
            &&& t[0] == plain_event(event_id_text(1), "evaluation started for claim "@ + claim_id + " with policy "@ + policy)
            &&& forall|i: int|
                0 <= i < runs.len() ==> t.subrange(
                    1 + #[trigger] block_offset(runs, i),
                    1 + block_offset(runs, i) + applied_rules(runs[i]).len() + 2,
                ) == envelope_block(ids[i], i as nat, runs[i], (2 + block_offset(runs, i)) as nat)
            &&& t[total + 1] == plain_event(
                event_id_text((total + 2) as nat),
                "aggregation completed with outcome "@ + aggregated.label(),
            )
        }),
{
    multi_trace_ids_are_sequential(claim_id, policy, ids, runs, aggregated);
    lemma_envelope_events_blocks(ids, runs, 2);
    let t = multi_trace(claim_id, policy, ids, runs, aggregated);
    let envelopes = envelope_events(ids, runs, 2);
    assert forall|i: int| 0 <= i < runs.len() implies t.subrange(
        1 + #[trigger] block_offset(runs, i),
        1 + block_offset(runs, i) + applied_rules(runs[i]).len() + 2,
    ) == envelope_block(ids[i], i as nat, runs[i], (2 + block_offset(runs, i)) as nat) by {
        lemma_block_offset_monotonic(runs, 0, i);
        assert(block_offset(runs, i + 1) == block_offset(runs, i) + applied_rules(runs[i]).len() + 2);
        assert(block_offset(runs, i) + applied_rules(runs[i]).len() + 2 <= block_offset(runs, runs.len() as int)) by {
            lemma_block_offset_monotonic(runs, i + 1, runs.len() as int);
        }
        assert(t.subrange(1 + block_offset(runs, i), 1 + block_offset(runs, i) + applied_rules(runs[i]).len() + 2)
            =~= envelopes.subrange(block_offset(runs, i), block_offset(runs, i) + applied_rules(runs[i]).len() + 2));
    }
}

} // verus!

verus! {

/// What evaluating one evidence record decides with the default rule sets, when the evidence
/// is bound to the claim (both ids present and equal) and has a non-empty body: a
/// `body_equality` (or minimal) claim is satisfied exactly when the evidence body equals the
/// assertion body character for character, and otherwise not satisfied; a `normalized_text`
/// claim whose evidence stays non-empty after normalization is satisfied exactly when the
/// normalized bodies are equal, and otherwise not satisfied.
pub proof fn default_rules_compare_bodies(interpreter: Interpreter, ctx: EvaluationContextView, r: VerificationResultView)
    requires
        interpreter.rules_for(AssertionFamily::BodyEquality) == body_equality_rules(),
        interpreter.rules_for(AssertionFamily::NormalizedText) == normalized_text_rules(),
        interpreter.result_fits(ctx, r),
        ctx.claim.id.len() > 0,
        ctx.evidence.claim_id == ctx.claim.id,
        ctx.evidence.content.body.len() > 0,
    ensures
        assertion_family(ctx.claim.assertion.assertion_type) == AssertionFamily::BodyEquality ==> {
            &&& (r.outcome == Outcome::Satisfied) <==> ctx.evidence.content.body == ctx.claim.assertion.body
            &&& (r.outcome == Outcome::NotSatisfied) <==> ctx.evidence.content.body != ctx.claim.assertion.body
        },
        assertion_family(ctx.claim.assertion.assertion_type) == AssertionFamily::NormalizedText && normalized(
            ctx.evidence.content.body,
        ).len() > 0 ==> {
            &&& (r.outcome == Outcome::Satisfied) <==> normalized(ctx.evidence.content.body) == normalized(
                ctx.claim.assertion.body,
            )
            &&& (r.outcome == Outcome::NotSatisfied) <==> normalized(ctx.evidence.content.body) != normalized(
                ctx.claim.assertion.body,
            )
        },
{
    let family = assertion_family(ctx.claim.assertion.assertion_type);
    if family != AssertionFamily::Unsupported {
        let kinds = interpreter.rules_for(family);
        assert forall|i: int| 0 <= i < kinds.len() implies (#[trigger] kinds[i]) is Builtin by {}
        evaluation_is_determined(interpreter, ctx, r);
        binding_rule_only_gates(ctx);
        let binding = VpRule0002::spec_evaluate(ctx);
        assert(kinds[0] == RuleKind::Builtin(BuiltinRule::VpRule0002));
        assert(kinds[0]->Builtin_0.spec_evaluate(ctx) == binding);
        assert(kinds.drop_first().len() == 1);
        let deciding = kinds.drop_first()[0]->Builtin_0.spec_evaluate(ctx);
        assert(builtin_run(kinds.drop_first(), ctx) == seq![deciding]);
        assert(builtin_run(kinds, ctx) == seq![binding] + seq![deciding]);
        assert(builtin_run(kinds, ctx).last() == deciding);
        if family == AssertionFamily::BodyEquality {
            literal_body_equality_decides_rule_0001(ctx);
            assert(deciding == VpRule0001::spec_evaluate(ctx));
        } else {
            normalized_equality_decides_rule_0011(ctx);
            assert(deciding == VpRule0011::spec_evaluate(ctx));
        }
    }
}

} // verus!
