//! Per-rule outcome fragment returned to the evaluation run.
use vstd::prelude::*;

use crate::model::identifiers::RuleReference;
use crate::model::outcome::Outcome;
use crate::model::trace::{events_view, lemma_events_view_push, opt_rule_reference, TraceEvent, TraceEventView};
use crate::text::IntoText;

verus! {

/// Result of applying a single evaluation rule.
#[derive(Debug, Clone, PartialEq, Eq)]
pub struct RuleEvaluation {
    pub outcome: Outcome,
    pub reason: String,
    pub rule_reference: Option<RuleReference>,
    pub trace_events: Vec<TraceEvent>,
    /// Whether the next rule of the rule set is applied after this one.
    pub continues: bool,
}

/// Spec-level contents of a [`RuleEvaluation`].
pub struct RuleEvaluationView {
    pub outcome: Outcome,
    pub reason: Seq<char>,
    pub rule_reference: Option<Seq<char>>,
    pub trace_events: Seq<TraceEventView>,
    pub continues: bool,
}

impl View for RuleEvaluation {
    type V = RuleEvaluationView;

    open spec fn view(&self) -> RuleEvaluationView {
        RuleEvaluationView {
            outcome: self.outcome,
            reason: self.reason@,
            rule_reference: opt_rule_reference(self.rule_reference),
            trace_events: events_view(self.trace_events@),
            continues: self.continues,
        }
    }
}

/// The evaluation a rule gives: an outcome and reason under its reference, with no trace events.
pub open spec fn rule_verdict(outcome: Outcome, reason: Seq<char>, reference: Seq<char>, continues: bool) -> RuleEvaluationView {
    RuleEvaluationView { outcome, reason, rule_reference: Some(reference), trace_events: Seq::empty(), continues }
}

/// Views of a sequence of rule evaluations.
pub open spec fn evaluations_view(s: Seq<RuleEvaluation>) -> Seq<RuleEvaluationView> {
    s.map_values(|e: RuleEvaluation| e@)
}

/// Appending an evaluation appends its view.
pub proof fn lemma_evaluations_view_push(s: Seq<RuleEvaluation>, e: RuleEvaluation)
    ensures
        evaluations_view(s.push(e)) == evaluations_view(s).push(e@),
{
    assert(evaluations_view(s.push(e)) =~= evaluations_view(s).push(e@));
}

impl RuleEvaluation {
    pub fn new<T: IntoText>(outcome: Outcome, reason: T) -> (r: Self)
        ensures
            r@ == (RuleEvaluationView {
                outcome,
                reason: reason.text_view(),
                rule_reference: None,
                trace_events: Seq::empty(),
                continues: false,
            }),
    {
        let r = RuleEvaluation {
            outcome,
            reason: reason.into_text(),
            rule_reference: None,
            trace_events: Vec::new(),
            continues: false,
        };
        assert(r@.trace_events =~= Seq::<TraceEventView>::empty());
        r
    }

    pub fn with_rule_reference<T: IntoText>(self, rule_reference: T) -> (r: Self)
        ensures
            r@ == (RuleEvaluationView { rule_reference: Some(rule_reference.text_view()), ..self@ }),
    {
        RuleEvaluation { rule_reference: Some(RuleReference::new(rule_reference)), ..self }
    }

    pub fn with_trace_events(self, trace_events: Vec<TraceEvent>) -> (r: Self)
        ensures
            r@ == (RuleEvaluationView { trace_events: events_view(trace_events@), ..self@ }),
    {
        RuleEvaluation { trace_events, ..self }
    }

    /// Marks whether the next rule of the rule set is applied after this one.
    pub fn with_continues(self, continues: bool) -> (r: Self)
        ensures
            r@ == (RuleEvaluationView { continues, ..self@ }),
    {
        RuleEvaluation { continues, ..self }
    }

    /// A copy with the same contents.
    pub fn duplicate(&self) -> (r: Self)
        ensures
            r@ == self@,
    {
        let mut events: Vec<TraceEvent> = Vec::new();
        let mut i: usize = 0;
        while i < self.trace_events.len()
            invariant
                i <= self.trace_events@.len(),
                events_view(events@) == events_view(self.trace_events@.subrange(0, i as int)),
            decreases self.trace_events@.len() - i,
        {
            let event = self.trace_events[i].duplicate();
            proof {
                lemma_events_view_push(events@, event);
                lemma_events_view_push(self.trace_events@.subrange(0, i as int), self.trace_events@[i as int]);
                assert(self.trace_events@.subrange(0, i + 1) == self.trace_events@.subrange(0, i as int).push(
                    self.trace_events@[i as int],
                ));
            }
            events.push(event);
            i = i + 1;
        }
        assert(self.trace_events@.subrange(0, i as int) == self.trace_events@);
        RuleEvaluation {
            outcome: self.outcome,
            reason: self.reason.clone(),
            rule_reference: match &self.rule_reference {
                Some(reference) => Some(reference.duplicate()),
                None => None,
            },
            trace_events: events,
            continues: self.continues,
        }
    }
}

} // verus!
