//! Per-rule-set evaluation runs and the traces they produce.
use vstd::prelude::*;

use crate::context::evaluation_context::{EvaluationContext, EvaluationContextView};
use crate::interpreter::rule_evaluation::{
    evaluations_view, lemma_evaluations_view_push, RuleEvaluation, RuleEvaluationView,
};
use crate::interpreter::rule_set::{evaluation_fits, RuleKind, RuleSet};
use crate::model::outcome::Outcome;
use crate::model::trace::{plain_event, Trace, TraceBuilder, TraceEvent, TraceEventView};
use crate::text::{decimal, decimal_text};

verus! {

/// Ordered rule evaluations produced by applying one rule set.
#[derive(Debug, Clone, PartialEq, Eq)]
pub struct RuleSetRun {
    pub evaluations: Vec<RuleEvaluation>,
    pub final_evaluation: RuleEvaluation,
}

impl RuleSetRun {
    /// Views of the evaluations, in application order.
    pub open spec fn evals(&self) -> Seq<RuleEvaluationView> {
        evaluations_view(self.evaluations@)
    }
}

/// `evals` is what applying the rules `kinds` in order to `ctx` gives: each built-in
/// rule's own evaluation, one evaluation per applied rule, stopping after the first
/// evaluation that does not continue or after the last rule.
pub open spec fn run_fits(kinds: Seq<RuleKind>, ctx: EvaluationContextView, evals: Seq<RuleEvaluationView>) -> bool {
    &&& 1 <= evals.len() <= kinds.len()
    &&& forall|i: int| 0 <= i < evals.len() ==> evaluation_fits(kinds[i], ctx, #[trigger] evals[i])
    &&& forall|i: int| 0 <= i < evals.len() - 1 ==> (#[trigger] evals[i]).continues
    &&& (evals.len() == kinds.len() || !evals.last().continues)
}

/// Every rule of `kinds` is built in, so runs over them are determined by the context.
pub open spec fn builtin_only(kinds: Seq<RuleKind>) -> bool {
    forall|i: int| 0 <= i < kinds.len() ==> (#[trigger] kinds[i]) is Builtin
}

/// The run that built-in rules give on `ctx`: each rule's evaluation in order, up to
/// the first one that does not continue.
pub open spec fn builtin_run(kinds: Seq<RuleKind>, ctx: EvaluationContextView) -> Seq<RuleEvaluationView>
    decreases kinds.len(),
{
    if kinds.len() == 0 {
        Seq::empty()
    } else {
        let first = kinds[0]->Builtin_0.spec_evaluate(ctx);
        if !first.continues || kinds.len() == 1 {
            seq![first]
        } else {
            seq![first] + builtin_run(kinds.drop_first(), ctx)
        }
    }
}

/// Two contexts on which every rule of `kinds` gives the same evaluation.
pub open spec fn rules_agree(kinds: Seq<RuleKind>, a: EvaluationContextView, b: EvaluationContextView) -> bool {
    forall|i: int| 0 <= i < kinds.len() ==> (#[trigger] kinds[i])->Builtin_0.spec_evaluate(a) == kinds[i]->Builtin_0.spec_evaluate(b)
}

/// Runs of built-in rules over contexts on which the rules agree are the same run.
pub proof fn lemma_runs_agree(
    kinds: Seq<RuleKind>,
    a: EvaluationContextView,
    b: EvaluationContextView,
    ea: Seq<RuleEvaluationView>,
    eb: Seq<RuleEvaluationView>,
)
    requires
        builtin_only(kinds),
        rules_agree(kinds, a, b),
        run_fits(kinds, a, ea),
        run_fits(kinds, b, eb),
    ensures
        ea == eb,
{
    assert forall|i: int| 0 <= i < ea.len() && i < eb.len() implies ea[i] == eb[i] by {
        assert(kinds[i] is Builtin);
        assert(evaluation_fits(kinds[i], a, ea[i]));
        assert(evaluation_fits(kinds[i], b, eb[i]));
    }
    if ea.len() < eb.len() {
        let k = ea.len() - 1;
        assert(eb[k].continues);
        assert(ea[k] == eb[k]);
    }
    if eb.len() < ea.len() {
        let k = eb.len() - 1;
        assert(ea[k].continues);
        assert(ea[k] == eb[k]);
    }
    assert(ea =~= eb);
}

/// A run of built-in rules is the run [`builtin_run`] describes.
pub proof fn lemma_builtin_run_fits(kinds: Seq<RuleKind>, ctx: EvaluationContextView)
    requires
        builtin_only(kinds),
        kinds.len() > 0,
    ensures
        run_fits(kinds, ctx, builtin_run(kinds, ctx)),
    decreases kinds.len(),
{
    let first = kinds[0]->Builtin_0.spec_evaluate(ctx);
    assert(kinds[0] is Builtin);
    if !first.continues || kinds.len() == 1 {
        assert(builtin_run(kinds, ctx) == seq![first]);
    } else {
        let rest = kinds.drop_first();
        assert forall|i: int| 0 <= i < rest.len() implies (#[trigger] rest[i]) is Builtin by {
            assert(rest[i] == kinds[i + 1]);
        }
        lemma_builtin_run_fits(rest, ctx);
        let tail = builtin_run(rest, ctx);
        let all = builtin_run(kinds, ctx);
        assert(all == seq![first] + tail);
        assert forall|i: int| 0 <= i < all.len() implies evaluation_fits(kinds[i], ctx, #[trigger] all[i]) by {
            if i > 0 {
                assert(all[i] == tail[i - 1]);
                assert(kinds[i] == rest[i - 1]);
            }
        }
        assert forall|i: int| 0 <= i < all.len() - 1 implies (#[trigger] all[i]).continues by {
            if i > 0 {
                assert(all[i] == tail[i - 1]);
            }
        }
        assert(all.last() == tail.last());
    }
}

/// Any run of built-in rules on a context is the run [`builtin_run`] describes.
pub proof fn builtin_runs_are_determined(kinds: Seq<RuleKind>, ctx: EvaluationContextView, evals: Seq<RuleEvaluationView>)
    requires
        builtin_only(kinds),
        run_fits(kinds, ctx, evals),
    ensures
        evals == builtin_run(kinds, ctx),
{
    lemma_builtin_run_fits(kinds, ctx);
    lemma_runs_agree(kinds, ctx, ctx, evals, builtin_run(kinds, ctx));
}

/// Applies the rules of `rule_set` in order until one does not continue.
pub fn run_rule_set(rule_set: &RuleSet, context: &EvaluationContext) -> (run: RuleSetRun)
    requires
        rule_set@.len() > 0,
    ensures
        run_fits(rule_set@, context@, run.evals()),
        run.final_evaluation@ == run.evals().last(),
{
    let n = rule_set.len();
    let mut evaluations: Vec<RuleEvaluation> = Vec::new();
    let mut i: usize = 0;
    while i < n
        invariant_except_break
            i == 0 || evaluations_view(evaluations@)[i - 1].continues,
        invariant
            n == rule_set@.len(),
            n > 0,
            i <= n,
            evaluations@.len() == i,
            forall|j: int| 0 <= j < i ==> evaluation_fits(rule_set@[j], context@, #[trigger] evaluations_view(evaluations@)[j]),
            forall|j: int| 0 <= j < i - 1 ==> (#[trigger] evaluations_view(evaluations@)[j]).continues,
        ensures
            1 <= i <= n,
            evaluations@.len() == i,
            forall|j: int| 0 <= j < i ==> evaluation_fits(rule_set@[j], context@, #[trigger] evaluations_view(evaluations@)[j]),
            forall|j: int| 0 <= j < i - 1 ==> (#[trigger] evaluations_view(evaluations@)[j]).continues,
            i == n || !evaluations_view(evaluations@)[i - 1].continues,
        decreases n - i,
    {
        let evaluation = rule_set.evaluate_rule(i, context);
        let continues = evaluation.continues;
        proof {
            lemma_evaluations_view_push(evaluations@, evaluation);
        }
        evaluations.push(evaluation);
        i = i + 1;
        if !continues {
            break;
        }
    }
    let final_evaluation = evaluations[i - 1].duplicate();
    RuleSetRun { evaluations, final_evaluation }
}

/// Identifier of the `n`-th trace event.
pub open spec fn event_id_text(n: nat) -> Seq<char> {
    "evt-"@ + decimal(n)
}

/// The identifier of the `sequence`-th trace event.
pub fn event_id(sequence: u32) -> (r: String)
    ensures
        r@ == event_id_text(sequence as nat),
{
    let mut id = String::from_str("evt-");
    let digits = decimal_text(sequence as u64);
    id.append(digits.as_str());
    id
}

/// The trace event recording that the rule `reference` was applied.
pub open spec fn applied_rule_event(n: nat, reference: Seq<char>) -> TraceEventView {
    TraceEventView {
        id: event_id_text(n),
        rule_reference: Some(reference),
        message: "applied rule "@ + reference,
        metadata: Map::empty(),
    }
}

/// Trace events for a run's evaluations, numbered from `next`: one per evaluation
/// that names a rule, up to the first evaluation that does not continue.
pub open spec fn rule_events(evals: Seq<RuleEvaluationView>, next: nat) -> Seq<TraceEventView>
    decreases evals.len(),
{
    if evals.len() == 0 {
        Seq::empty()
    } else {
        let here: Seq<TraceEventView> = match evals[0].rule_reference {
            Some(reference) => seq![applied_rule_event(next, reference)],
            None => Seq::empty(),
        };
        if evals[0].continues {
            here + rule_events(evals.drop_first(), next + here.len())
        } else {
            here
        }
    }
}

/// A run yields at most one trace event per evaluation.
pub proof fn lemma_rule_events_len(evals: Seq<RuleEvaluationView>, next: nat)
    ensures
        rule_events(evals, next).len() <= evals.len(),
    decreases evals.len(),
{
    if evals.len() > 0 {
        let here_len: nat = if evals[0].rule_reference is Some { 1 } else { 0 };
        lemma_rule_events_len(evals.drop_first(), next + here_len);
    }
}

/// Appends the trace events of `run`'s evaluations, numbering them from `*sequence` on.
pub fn append_rule_trace_events(builder: TraceBuilder, sequence: &mut u32, run: &RuleSetRun) -> (r: TraceBuilder)
    requires
        *old(sequence) + rule_events(run.evals(), *old(sequence) as nat).len() <= u32::MAX,
    ensures
        r@ == builder@ + rule_events(run.evals(), *old(sequence) as nat),
        *final(sequence) == *old(sequence) + rule_events(run.evals(), *old(sequence) as nat).len(),
        *final(sequence) == *old(sequence) + applied_rules(run.evals()).len(),
{
    let ghost evals = run.evals();
    let ghost start = *sequence as nat;
    let ghost target = builder@ + rule_events(evals, start);
    let n = run.evaluations.len();
    let mut acc = builder;
    let mut i: usize = 0;
    assert(evals.subrange(0, n as int) == evals);
    while i < n
        invariant_except_break
            acc@ + rule_events(evals.subrange(i as int, n as int), *sequence as nat) == target,
            *sequence <= start + i,
        invariant
            evals == run.evals(),
            n == evals.len(),
            i <= n,
            start <= *sequence,
            start + rule_events(evals, start).len() <= u32::MAX,
            target == builder@ + rule_events(evals, start),
            acc@.len() - builder@.len() == *sequence - start,
        ensures
            acc@ == target,
            acc@.len() - builder@.len() == *sequence - start,
        decreases n - i,
    {
        let evaluation = &run.evaluations[i];
        let ghost rest = evals.subrange(i as int, n as int);
        let ghost at = *sequence as nat;
        assert(rest[0] == evaluation@);
        assert(rest.drop_first() == evals.subrange(i + 1, n as int));
        match &evaluation.rule_reference {
            Some(reference) => {
                let mut message = String::from_str("applied rule ");
                message.append(reference.as_str());
                let event = TraceEvent::new(event_id(*sequence), message).with_rule_reference(reference.as_str());
                assert(event@ == applied_rule_event(at, reference@));
                assert(rule_events(rest, at).len() >= 1);
                assert(target.len() == builder@.len() + rule_events(evals, start).len());
                assert(*sequence + rule_events(rest, at).len() <= u32::MAX);
                acc = acc.event(event);
                *sequence = *sequence + 1;
            },
            None => {},
        }
        if !evaluation.continues {
            break;
        }
        i = i + 1;
    }
    proof {
        if i == n {
            assert(evals.subrange(n as int, n as int) =~= Seq::<RuleEvaluationView>::empty());
        }
        rule_events_name_applied_rules(evals, start);
    }
    acc
}

/// The trace of a single-evidence evaluation: a start event, the applied rules, a completion event.
pub open spec fn single_trace(claim_id: Seq<char>, evals: Seq<RuleEvaluationView>, outcome: Outcome) -> Seq<TraceEventView> {
    let rules = rule_events(evals, 2);
    seq![plain_event(event_id_text(1), "evaluation started for claim "@ + claim_id)] + rules + seq![
        plain_event(event_id_text(2 + rules.len()), "evaluation completed with outcome "@ + outcome.label()),
    ]
}

/// Builds the trace of one run over one evidence record.
pub fn build_trace(context: &EvaluationContext, run: &RuleSetRun) -> (r: Trace)
    requires
        run.evaluations@.len() + 2 <= u32::MAX,
    ensures
        r@ == single_trace(context@.claim.id, run.evals(), run.final_evaluation.outcome),
        r@.len() == applied_rules(run.evals()).len() + 2,
{
    let claim_id = context.claim().id.as_str();
    let outcome_label = run.final_evaluation.outcome.as_str();

    let mut started = String::from_str("evaluation started for claim ");
    started.append(claim_id);
    let builder = TraceBuilder::new().message(event_id(1), started);

    let mut sequence: u32 = 2;
    proof {
        lemma_rule_events_len(run.evals(), 2);
    }
    let builder = append_rule_trace_events(builder, &mut sequence, run);

    let mut completed = String::from_str("evaluation completed with outcome ");
    completed.append(outcome_label);
    let r = builder.message(event_id(sequence), completed).build();
    assert(r@ =~= single_trace(context@.claim.id, run.evals(), run.final_evaluation.outcome));
    proof {
        single_trace_layout(context@.claim.id, run.evals(), run.final_evaluation.outcome);
    }
    r
}

} // verus!

verus! {

/// The `k`-th rule event of a run numbered from `next` is numbered `next + k`.
pub(crate) proof fn lemma_rule_event_ids(evals: Seq<RuleEvaluationView>, next: nat)
    ensures
        forall|k: int| 0 <= k < rule_events(evals, next).len() ==> (#[trigger] rule_events(evals, next)[k]).id == event_id_text((next + k) as nat),
    decreases evals.len(),
{
    if evals.len() > 0 {
        let here: Seq<TraceEventView> = match evals[0].rule_reference {
            Some(reference) => seq![applied_rule_event(next, reference)],
            None => Seq::empty(),
        };
        if evals[0].continues {
            lemma_rule_event_ids(evals.drop_first(), next + here.len());
            let all = rule_events(evals, next);
            let rest = rule_events(evals.drop_first(), next + here.len());
            assert(all == here + rest);
            assert forall|k: int| 0 <= k < all.len() implies (#[trigger] all[k]).id == event_id_text((next + k) as nat) by {
                if k >= here.len() {
                    assert(all[k] == rest[k - here.len()]);
                }
            }
        }
    }
}

/// The events of a single-evidence trace are numbered `evt-1`, `evt-2`, ... in order.
pub proof fn single_trace_ids_are_sequential(claim_id: Seq<char>, evals: Seq<RuleEvaluationView>, outcome: Outcome)
    ensures
        forall|k: int| 0 <= k < single_trace(claim_id, evals, outcome).len() ==> (#[trigger] single_trace(
            claim_id,
            evals,
            outcome,
        )[k]).id == event_id_text((k + 1) as nat),
{
    lemma_rule_event_ids(evals, 2);
    let rules = rule_events(evals, 2);
    let trace = single_trace(claim_id, evals, outcome);
    assert forall|k: int| 0 <= k < trace.len() implies (#[trigger] trace[k]).id == event_id_text((k + 1) as nat) by {
        if 1 <= k <= rules.len() {
            assert(trace[k] == rules[k - 1]);
        }
    }
}

} // verus!

verus! {

/// The evaluations a run applies: every one up to and including the first that does not continue.
pub open spec fn applied_prefix(evals: Seq<RuleEvaluationView>) -> Seq<RuleEvaluationView>
    decreases evals.len(),
{
    if evals.len() == 0 {
        Seq::empty()
    } else if !evals[0].continues {
        seq![evals[0]]
    } else {
        seq![evals[0]] + applied_prefix(evals.drop_first())
    }
}

/// The rule references that evaluations name, in order, skipping those that name none.
pub open spec fn named_rules(evals: Seq<RuleEvaluationView>) -> Seq<Seq<char>>
    decreases evals.len(),
{
    if evals.len() == 0 {
        Seq::empty()
    } else {
        let here: Seq<Seq<char>> = match evals[0].rule_reference {
            Some(reference) => seq![reference],
            None => Seq::empty(),
        };
        here + named_rules(evals.drop_first())
    }
}

/// The rules a run applied and named, in order.
pub open spec fn applied_rules(evals: Seq<RuleEvaluationView>) -> Seq<Seq<char>> {
    named_rules(applied_prefix(evals))
}

/// The rule events of a run numbered from `next` are, in order, one "applied rule" event per
/// rule the run applied and named: the `j`-th is numbered `next + j` and names that rule.
pub proof fn rule_events_name_applied_rules(evals: Seq<RuleEvaluationView>, next: nat)
    ensures
        rule_events(evals, next).len() == applied_rules(evals).len(),
        forall|j: int|
            0 <= j < applied_rules(evals).len() ==> #[trigger] rule_events(evals, next)[j] == applied_rule_event(
                (next + j) as nat,
                applied_rules(evals)[j],
            ),
    decreases evals.len(),
{
    if evals.len() > 0 {
        let here: Seq<TraceEventView> = match evals[0].rule_reference {
            Some(reference) => seq![applied_rule_event(next, reference)],
            None => Seq::empty(),
        };
        let names: Seq<Seq<char>> = match evals[0].rule_reference {
            Some(reference) => seq![reference],
            None => Seq::empty(),
        };
        let first = seq![evals[0]];
        assert(first.drop_first() =~= Seq::<RuleEvaluationView>::empty());
        assert(named_rules(first) == names + named_rules(first.drop_first()));
        assert(named_rules(first) =~= names);
        if evals[0].continues {
            let rest = evals.drop_first();
            rule_events_name_applied_rules(rest, next + here.len());
            let prefix = applied_prefix(evals);
            assert(prefix == first + applied_prefix(rest));
            assert(prefix[0] == evals[0]);
            assert(prefix.drop_first() =~= applied_prefix(rest));
            assert(applied_rules(evals) == names + applied_rules(rest));
            let all = rule_events(evals, next);
            assert(all == here + rule_events(rest, next + here.len()));
            assert forall|j: int| 0 <= j < applied_rules(evals).len() implies #[trigger] rule_events(evals, next)[j]
                == applied_rule_event((next + j) as nat, applied_rules(evals)[j]) by {
                if j >= here.len() {
                    assert(all[j] == rule_events(rest, next + here.len())[j - here.len()]);
                    assert(applied_rules(evals)[j] == applied_rules(rest)[j - here.len()]);
                }
            }
        } else {
            assert(applied_prefix(evals) == first);
            assert(rule_events(evals, next) == here);
        }
    } else {
        assert(applied_prefix(evals) =~= Seq::<RuleEvaluationView>::empty());
    }
}

/// Appending a run's rule events to a trace keeps the events already there, adds one
/// "applied rule" event per rule the run applied and named, numbered on from `start`, and
/// advances the event counter by their number.
pub proof fn appended_rule_events_follow_the_trace(
    events: Seq<TraceEventView>,
    evals: Seq<RuleEvaluationView>,
    start: nat,
)
    ensures
        ({
            let appended = events + rule_events(evals, start);
            let names = applied_rules(evals);
            &&& appended.subrange(0, events.len() as int) == events
            &&& appended.len() == events.len() + names.len()
            &&& start + rule_events(evals, start).len() == start + names.len()
            &&& forall|j: int|
                0 <= j < names.len() ==> #[trigger] appended[events.len() + j] == applied_rule_event(
                    (start + j) as nat,
                    names[j],
                )
        }),
{
    rule_events_name_applied_rules(evals, start);
    let appended = events + rule_events(evals, start);
    assert(appended.subrange(0, events.len() as int) =~= events);
    assert forall|j: int| 0 <= j < applied_rules(evals).len() implies #[trigger] appended[events.len() + j]
        == applied_rule_event((start + j) as nat, applied_rules(evals)[j]) by {
        assert(appended[events.len() + j] == rule_events(evals, start)[j]);
    }
}

/// The trace of a single-evidence evaluation is a start event naming the claim, one
/// "applied rule" event per rule the run applied and named, and a completion event naming
/// the outcome, numbered `evt-1`, `evt-2`, ... in order.
pub proof fn single_trace_layout(claim_id: Seq<char>, evals: Seq<RuleEvaluationView>, outcome: Outcome)
    ensures
        ({
            let t = single_trace(claim_id, evals, outcome);
            let names = applied_rules(evals);
            let n = names.len() as int;
            &&& t.len() == n + 2
            &&& forall|i: int| 0 <= i < t.len() ==> (#[trigger] t[i]).id == event_id_text((i + 1) as nat)
            &&& t[0] == plain_event(event_id_text(1), "evaluation started for claim "@ + claim_id)
            &&& forall|j: int| 0 <= j < n ==> #[trigger] t[j + 1] == applied_rule_event((j + 2) as nat, names[j])
            &&& t[n + 1] == plain_event(
                event_id_text((n + 2) as nat),
                "evaluation completed with outcome "@ + outcome.label(),
            )
        }),
{
    rule_events_name_applied_rules(evals, 2);
    single_trace_ids_are_sequential(claim_id, evals, outcome);
    let t = single_trace(claim_id, evals, outcome);
    let rules = rule_events(evals, 2);
    assert forall|j: int| 0 <= j < applied_rules(evals).len() implies #[trigger] t[j + 1] == applied_rule_event(
        (j + 2) as nat,
        applied_rules(evals)[j],
    ) by {
        assert(t[j + 1] == rules[j]);
    }
}

} // verus!
