//! Informative explanations derived from the evaluation input and the trace.
use vstd::prelude::*;

use crate::context::evaluation_input::EvaluationInput;
use crate::interpreter::rules::vp_rule_0001::VP_RULE_0001_REFERENCE;
use crate::interpreter::rules::vp_rule_0011::VP_RULE_0011_REFERENCE;
use crate::model::evidence::{Evidence, EvidenceView};
use crate::model::outcome::Outcome;
use crate::model::trace::{events_view, Trace, TraceEventView};
use crate::model::verification_result::VerificationResult;
use crate::text::{lemma_texts_view_push, text_equals, texts_view};

verus! {

/// Developer-facing explanation derived from the trace and the evaluation input.
#[derive(Debug, Clone, PartialEq, Eq)]
pub struct VerificationExplanation {
    pub applied_rules: Vec<String>,
    pub steps: Vec<String>,
}

/// Summary of one evidence envelope.
#[derive(Debug, Clone, PartialEq, Eq)]
pub struct EvidenceSummary {
    pub evidence_id: String,
    pub claim_id: String,
    pub content_type: String,
}

/// `s` summarizes evidence `e`.
pub open spec fn summarizes(s: EvidenceSummary, e: EvidenceView) -> bool {
    s.evidence_id@ == e.id && s.claim_id@ == e.claim_id && s.content_type@ == e.content.content_type
}

/// One summary per evidence envelope of the input, in order.
pub fn evidence_summaries(input: &EvaluationInput) -> (r: Vec<EvidenceSummary>)
    ensures
        r@.len() == input.evidence_set@.len(),
        forall|i: int| 0 <= i < r@.len() ==> summarizes(#[trigger] r@[i], input.evidence_set@[i]@),
        forall|i: int| 0 <= i < r@.len() ==> (#[trigger] r@[i]).evidence_id@ == input.evidence_set@[i].id@,
        forall|i: int| 0 <= i < r@.len() ==> (#[trigger] r@[i]).claim_id@ == input.evidence_set@[i].claim_id@,
        forall|i: int| 0 <= i < r@.len() ==> (#[trigger] r@[i]).content_type@
            == input.evidence_set@[i].content.content_type@,
{
    let evidence = input.evidence_set().evidence();
    let mut summaries: Vec<EvidenceSummary> = Vec::new();
    let mut i: usize = 0;
    while i < evidence.len()
        invariant
            evidence@ == input.evidence_set@,
            i <= evidence@.len(),
            summaries@.len() == i,
            forall|j: int| 0 <= j < i ==> summarizes(#[trigger] summaries@[j], input.evidence_set@[j]@),
        decreases evidence@.len() - i,
    {
        let item: &Evidence = &evidence[i];
        summaries.push(
            EvidenceSummary {
                evidence_id: item.id.as_str().to_owned(),
                claim_id: item.claim_id.as_str().to_owned(),
                content_type: item.content.content_type.clone(),
            },
        );
        i = i + 1;
    }
    summaries
}

/// The rule references named by trace events, each once, in the order they first appear.
pub open spec fn first_seen_rules(events: Seq<TraceEventView>) -> Seq<Seq<char>>
    decreases events.len(),
{
    if events.len() == 0 {
        Seq::empty()
    } else {
        let before = first_seen_rules(events.drop_last());
        match events.last().rule_reference {
            Some(reference) => if before.contains(reference) {
                before
            } else {
                before.push(reference)
            },
            None => before,
        }
    }
}

/// The rules the trace shows as applied, each once, in first-seen order.
pub fn applied_rules_from_trace(trace: &Trace) -> (r: Vec<String>)
    ensures
        texts_view(r@) == first_seen_rules(trace@),
{
    let events = trace.events();
    let ghost all = events_view(events@);
    let mut rules: Vec<String> = Vec::new();
    let mut i: usize = 0;
    while i < events.len()
        invariant
            all == trace@,
            all == events_view(events@),
            i <= events@.len(),
            texts_view(rules@) == first_seen_rules(all.subrange(0, i as int)),
        decreases events@.len() - i,
    {
        assert(all.subrange(0, i + 1).drop_last() == all.subrange(0, i as int));
        assert(all.subrange(0, i + 1).last() == events@[i as int]@);
        match &events[i].rule_reference {
            Some(reference) => {
                let rule_id = reference.as_str();
                let seen = contains_rule(&rules, rule_id);
                if !seen {
                    let owned = rule_id.to_owned();
                    proof {
                        lemma_texts_view_push(rules@, owned);
                    }
                    rules.push(owned);
                }
            },
            None => {},
        }
        i = i + 1;
    }
    assert(all.subrange(0, i as int) == all);
    rules
}

/// No rule appears twice among the applied rules.
pub proof fn applied_rules_are_distinct(events: Seq<TraceEventView>)
    ensures
        first_seen_rules(events).no_duplicates(),
    decreases events.len(),
{
    if events.len() > 0 {
        applied_rules_are_distinct(events.drop_last());
    }
}

/// The applied rules are exactly the rules that some trace event refers to.
pub proof fn applied_rules_are_the_referenced_rules(events: Seq<TraceEventView>, rule: Seq<char>)
    ensures
        first_seen_rules(events).contains(rule) <==> exists|i: int|
            0 <= i < events.len() && (#[trigger] events[i]).rule_reference == Some(rule),
    decreases events.len(),
{
    if events.len() > 0 {
        let before = events.drop_last();
        applied_rules_are_the_referenced_rules(before, rule);
        let fs_before = first_seen_rules(before);
        let fs = first_seen_rules(events);
        let last = events[events.len() - 1];
        assert(events.last() == last);
        if last.rule_reference == Some(rule) {
            if !fs_before.contains(rule) {
                assert(fs == fs_before.push(rule));
                assert(fs[fs.len() - 1] == rule);
            }
            assert(fs.contains(rule));
        } else {
            if fs.contains(rule) {
                let k = choose|k: int| 0 <= k < fs.len() && fs[k] == rule;
                match last.rule_reference {
                    Some(reference) => {
                        if !fs_before.contains(reference) {
                            assert(fs == fs_before.push(reference));
                            assert(k < fs_before.len());
                            assert(fs_before[k] == rule);
                        }
                    },
                    None => {},
                }
                assert(fs_before.contains(rule));
            } else {
                match last.rule_reference {
                    Some(reference) => {
                        if !fs_before.contains(reference) {
                            assert(fs == fs_before.push(reference));
                            if fs_before.contains(rule) {
                                let k = choose|k: int| 0 <= k < fs_before.len() && fs_before[k] == rule;
                                assert(fs[k] == rule);
                            }
                        }
                    },
                    None => {},
                }
                assert(!fs_before.contains(rule));
            }
        }
        if exists|i: int| 0 <= i < before.len() && (#[trigger] before[i]).rule_reference == Some(rule) {
            let i = choose|i: int| 0 <= i < before.len() && (#[trigger] before[i]).rule_reference == Some(rule);
            assert(events[i] == before[i]);
        }
        if exists|i: int| 0 <= i < events.len() && (#[trigger] events[i]).rule_reference == Some(rule) {
            let i = choose|i: int| 0 <= i < events.len() && (#[trigger] events[i]).rule_reference == Some(rule);
            if i < before.len() {
                assert(before[i] == events[i]);
            }
        }
    }
}

/// The applied rules keep the order in which the trace first refers to them: of any two,
/// the earlier one is referred to by some event before any event refers to the later one.
pub proof fn applied_rules_keep_first_reference_order(events: Seq<TraceEventView>, a: int, b: int)
    requires
        0 <= a < b < first_seen_rules(events).len(),
    ensures
        exists|i: int|
            0 <= i < events.len() && (#[trigger] events[i]).rule_reference == Some(first_seen_rules(events)[a])
                && forall|j: int| 0 <= j <= i ==> (#[trigger] events[j]).rule_reference != Some(
                first_seen_rules(events)[b],
            ),
    decreases events.len(),
{
    let before = events.drop_last();
    let fs_before = first_seen_rules(before);
    let fs = first_seen_rules(events);
    assert(events.len() > 0);
    let ra = fs[a];
    let rb = fs[b];
    if b < fs_before.len() {
        assert(fs_before.len() <= fs.len());
        assert(fs_before[a] == ra && fs_before[b] == rb) by {
            match events.last().rule_reference {
                Some(reference) => {
                    if !fs_before.contains(reference) {
                        assert(fs == fs_before.push(reference));
                    }
                },
                None => {},
            }
        }
        applied_rules_keep_first_reference_order(before, a, b);
        let i = choose|i: int|
            0 <= i < before.len() && (#[trigger] before[i]).rule_reference == Some(fs_before[a])
                && forall|j: int| 0 <= j <= i ==> (#[trigger] before[j]).rule_reference != Some(fs_before[b]);
        assert(events[i] == before[i]);
        assert forall|j: int| 0 <= j <= i implies (#[trigger] events[j]).rule_reference != Some(rb) by {
            assert(events[j] == before[j]);
        }
    } else {
        let reference = events.last().rule_reference->0;
        assert(events.last().rule_reference is Some && !fs_before.contains(reference)) by {
            match events.last().rule_reference {
                Some(r) => {
                    if fs_before.contains(r) {
                        assert(fs == fs_before);
                    }
                },
                None => {},
            }
        }
        assert(fs == fs_before.push(reference));
        assert(rb == reference);
        assert(fs_before[a] == ra);
        assert(fs_before.contains(ra));
        applied_rules_are_the_referenced_rules(before, ra);
        applied_rules_are_the_referenced_rules(before, rb);
        let i = choose|i: int| 0 <= i < before.len() && (#[trigger] before[i]).rule_reference == Some(ra);
        assert(events[i] == before[i]);
        assert forall|j: int| 0 <= j <= i implies (#[trigger] events[j]).rule_reference != Some(rb) by {
            assert(events[j] == before[j]);
            if before[j].rule_reference == Some(rb) {
                assert(fs_before.contains(rb));
            }
        }
    }
}

/// An evidence summary carries its evidence record's own identifier, the identifier of the
/// claim that record is bound to, and its content type.
pub proof fn summary_names_evidence_and_its_claim(s: EvidenceSummary, e: EvidenceView)
    requires
        summarizes(s, e),
    ensures
        s.evidence_id@ == e.id,
        s.claim_id@ == e.claim_id,
        s.content_type@ == e.content.content_type,
{
}

/// The first explanation step reports the binding check: it says the claim ids matched exactly
/// when the claim's id equals the id the evidence record is bound to, and that they did not
/// match otherwise. The last step reports the aggregated outcome.
pub proof fn explanation_reports_binding_and_outcome(
    claim_id: Seq<char>,
    evidence: EvidenceView,
    outcome: Outcome,
    rules: Seq<Seq<char>>,
)
    ensures
        ({
            let steps = explanation(claim_id, evidence, outcome, rules);
            &&& (steps[0] == "Evidence claim_id matched claim claim_id."@) <==> claim_id == evidence.claim_id
            &&& (steps[0] == "Evidence claim_id did not match claim claim_id."@) <==> claim_id != evidence.claim_id
            &&& steps.last() == "ALL_REQUIRED aggregation returned "@ + outcome.label() + "."@
        }),
{
    reveal_strlit("Evidence claim_id matched claim claim_id.");
    reveal_strlit("Evidence claim_id did not match claim claim_id.");
    assert("Evidence claim_id matched claim claim_id."@.len() != "Evidence claim_id did not match claim claim_id."@.len());
}

/// The comparison the explanation reports follows the applied rules and the outcome: when the
/// normalized text rule was applied, it says the text was normalized and then that the
/// normalized bodies matched exactly when the outcome is satisfied, and did not match exactly
/// when it is not satisfied; when only the literal rule was applied, it says the bodies matched
/// literally exactly when the outcome is satisfied, and did not exactly when it is not
/// satisfied; when neither was applied, no comparison is reported.
pub proof fn explanation_reports_the_comparison(
    claim_id: Seq<char>,
    evidence: EvidenceView,
    outcome: Outcome,
    rules: Seq<Seq<char>>,
)
    ensures
        ({
            let steps = explanation(claim_id, evidence, outcome, rules);
            let normalized_rule = rules.contains(VP_RULE_0011_REFERENCE@);
            let literal_rule = !normalized_rule && rules.contains(VP_RULE_0001_REFERENCE@);
            &&& normalized_rule ==> steps.len() == 4 && steps[1] == "Evidence text was normalized."@
            &&& normalized_rule ==> ((steps[2] == "Normalized assertion body matched normalized evidence body."@)
                <==> outcome == Outcome::Satisfied)
            &&& normalized_rule ==> ((steps[2] == "Normalized assertion body did not match normalized evidence body."@)
                <==> outcome == Outcome::NotSatisfied)
            &&& literal_rule ==> steps.len() == 3
            &&& literal_rule ==> ((steps[1] == "Assertion body matched evidence body literally."@) <==> outcome
                == Outcome::Satisfied)
            &&& literal_rule ==> ((steps[1] == "Assertion body did not match evidence body literally."@) <==> outcome
                == Outcome::NotSatisfied)
            &&& !normalized_rule && !literal_rule ==> steps.len() == 2
        }),
{
    reveal_strlit("Assertion body matched evidence body literally.");
    reveal_strlit("Assertion body did not match evidence body literally.");
    reveal_strlit("Evidence content body was empty.");
    reveal_strlit("Body equality comparison returned indeterminate.");
    reveal_strlit("Normalized assertion body matched normalized evidence body.");
    reveal_strlit("Normalized assertion body did not match normalized evidence body.");
    reveal_strlit("Evidence content was empty or whitespace-only before comparison.");
    reveal_strlit("Normalized text comparison returned indeterminate.");
    let steps = explanation(claim_id, evidence, outcome, rules);
    let binding = steps[0];
    let closing = "ALL_REQUIRED aggregation returned "@ + outcome.label() + "."@;
    if rules.contains(VP_RULE_0011_REFERENCE@) {
        let comparison = seq!["Evidence text was normalized."@, normalized_comparison_step(outcome, evidence.content.body)];
        assert(steps == seq![binding] + comparison + seq![closing]);
        assert(steps[1] == comparison[0]);
        assert(steps[2] == comparison[1]);
    } else if rules.contains(VP_RULE_0001_REFERENCE@) {
        let comparison = seq![literal_comparison_step(outcome, evidence.content.body)];
        assert(steps == seq![binding] + comparison + seq![closing]);
        assert(steps[1] == comparison[0]);
    } else {
        assert(steps == seq![binding] + Seq::<Seq<char>>::empty() + seq![closing]);
    }
}

/// Unicode `White_Space` characters (what `char::is_whitespace` recognizes).
pub open spec fn is_white_space(c: char) -> bool {
    let v = c as u32;
    (0x09 <= v <= 0x0d) || v == 0x20 || v == 0x85 || v == 0xa0 || v == 0x1680 || (0x2000 <= v <= 0x200a) || v
        == 0x2028 || v == 0x2029 || v == 0x202f || v == 0x205f || v == 0x3000
}

/// Whether `c` has the Unicode `White_Space` property.
pub fn is_white_space_char(c: char) -> (r: bool)
    ensures
        r == is_white_space(c),
{
    let v = c as u32;
    (0x09 <= v && v <= 0x0d) || v == 0x20 || v == 0x85 || v == 0xa0 || v == 0x1680 || (0x2000 <= v && v <= 0x200a)
        || v == 0x2028 || v == 0x2029 || v == 0x202f || v == 0x205f || v == 0x3000
}

/// The text is empty or holds only Unicode whitespace.
pub open spec fn blank(s: Seq<char>) -> bool {
    forall|i: int| 0 <= i < s.len() ==> is_white_space(#[trigger] s[i])
}

/// Whether the text is empty or holds only Unicode whitespace.
pub fn is_blank(text: &str) -> (r: bool)
    ensures
        r == blank(text@),
{
    let n = text.unicode_len();
    let mut i: usize = 0;
    while i < n
        invariant
            n == text@.len(),
            i <= n,
            forall|j: int| 0 <= j < i ==> is_white_space(#[trigger] text@[j]),
        decreases n - i,
    {
        if !is_white_space_char(text.get_char(i)) {
            return false;
        }
        i = i + 1;
    }
    true
}

/// The step describing a normalized text comparison.
pub open spec fn normalized_comparison_step(outcome: Outcome, evidence_body: Seq<char>) -> Seq<char> {
    match outcome {
        Outcome::Satisfied => "Normalized assertion body matched normalized evidence body."@,
        Outcome::NotSatisfied => "Normalized assertion body did not match normalized evidence body."@,
        Outcome::Indeterminate => if blank(evidence_body) {
            "Evidence content was empty or whitespace-only before comparison."@
        } else {
            "Normalized text comparison returned indeterminate."@
        },
    }
}

/// The step describing a literal body comparison.
pub open spec fn literal_comparison_step(outcome: Outcome, evidence_body: Seq<char>) -> Seq<char> {
    match outcome {
        Outcome::Satisfied => "Assertion body matched evidence body literally."@,
        Outcome::NotSatisfied => "Assertion body did not match evidence body literally."@,
        Outcome::Indeterminate => if evidence_body.len() == 0 {
            "Evidence content body was empty."@
        } else {
            "Body equality comparison returned indeterminate."@
        },
    }
}

/// The explanation steps: the binding check, the comparison the applied rules show, the aggregation.
pub open spec fn explanation(claim_id: Seq<char>, evidence: EvidenceView, outcome: Outcome, rules: Seq<Seq<char>>) -> Seq<
    Seq<char>,
> {
    let binding = if claim_id == evidence.claim_id {
        "Evidence claim_id matched claim claim_id."@
    } else {
        "Evidence claim_id did not match claim claim_id."@
    };
    let comparison: Seq<Seq<char>> = if rules.contains(VP_RULE_0011_REFERENCE@) {
        seq!["Evidence text was normalized."@, normalized_comparison_step(outcome, evidence.content.body)]
    } else if rules.contains(VP_RULE_0001_REFERENCE@) {
        seq![literal_comparison_step(outcome, evidence.content.body)]
    } else {
        Seq::empty()
    };
    seq![binding] + comparison + seq!["ALL_REQUIRED aggregation returned "@ + outcome.label() + "."@]
}

/// Builds the explanation of `result` for an input with at least one evidence envelope;
/// the first envelope is the one explained.
pub fn build_explanation(input: &EvaluationInput, result: &VerificationResult) -> (r: VerificationExplanation)
    requires
        input.evidence_set@.len() >= 1,
    ensures
        texts_view(r.applied_rules@) == first_seen_rules(result.trace@),
        texts_view(r.steps@) == explanation(
            input.claim@.id,
            input.evidence_set@[0]@,
            result.outcome,
            first_seen_rules(result.trace@),
        ),
{
    let applied_rules = applied_rules_from_trace(&result.trace);
    let steps = explanation_steps(input, result.outcome, &applied_rules);
    VerificationExplanation { applied_rules, steps }
}

fn contains_rule(rules: &Vec<String>, rule: &str) -> (r: bool)
    ensures
        r == texts_view(rules@).contains(rule@),
{
    let mut k: usize = 0;
    while k < rules.len()
        invariant
            k <= rules@.len(),
            !texts_view(rules@).subrange(0, k as int).contains(rule@),
        decreases rules@.len() - k,
    {
        if text_equals(rules[k].as_str(), rule) {
            assert(texts_view(rules@)[k as int] == rule@);
            return true;
        }
        assert(texts_view(rules@).subrange(0, k + 1) == texts_view(rules@).subrange(0, k as int).push(
            rules@[k as int]@,
        ));
        k = k + 1;
    }
    assert(texts_view(rules@).subrange(0, k as int) == texts_view(rules@));
    false
}

/// The explanation steps for the first evidence envelope of `input`.
pub fn explanation_steps(input: &EvaluationInput, outcome: Outcome, applied_rules: &Vec<String>) -> (r: Vec<String>)
    requires
        input.evidence_set@.len() >= 1,
    ensures
        texts_view(r@) == explanation(input.claim@.id, input.evidence_set@[0]@, outcome, texts_view(applied_rules@)),
{
    let mut steps: Vec<String> = Vec::new();
    let claim = input.claim();
    let evidence = &input.evidence_set().evidence()[0];

    if claim.id.same_as(&evidence.claim_id) {
        steps.push(String::from_str("Evidence claim_id matched claim claim_id."));
    } else {
        steps.push(String::from_str("Evidence claim_id did not match claim claim_id."));
    }
    let ghost first = texts_view(steps@);

    if contains_rule(applied_rules, VP_RULE_0011_REFERENCE) {
        let normalized = String::from_str("Evidence text was normalized.");
        proof {
            lemma_texts_view_push(steps@, normalized);
        }
        steps.push(normalized);
        let step = normalized_text_comparison_step(outcome, evidence.content.body.as_str());
        proof {
            lemma_texts_view_push(steps@, step);
        }
        steps.push(step);
    } else if contains_rule(applied_rules, VP_RULE_0001_REFERENCE) {
        let step = body_equality_comparison_step(outcome, evidence.content.body.as_str());
        proof {
            lemma_texts_view_push(steps@, step);
        }
        steps.push(step);
    }
    let ghost middle = texts_view(steps@);

    let mut closing = String::from_str("ALL_REQUIRED aggregation returned ");
    closing.append(outcome.as_str());
    closing.append(".");
    proof {
        lemma_texts_view_push(steps@, closing);
    }
    steps.push(closing);
    assert(texts_view(steps@) =~= explanation(
        input.claim@.id,
        input.evidence_set@[0]@,
        outcome,
        texts_view(applied_rules@),
    ));
    steps
}

/// The step describing a normalized text comparison.
pub fn normalized_text_comparison_step(outcome: Outcome, evidence_body: &str) -> (r: String)
    ensures
        r@ == normalized_comparison_step(outcome, evidence_body@),
{
    match outcome {
        Outcome::Satisfied => String::from_str("Normalized assertion body matched normalized evidence body."),
        Outcome::NotSatisfied => String::from_str("Normalized assertion body did not match normalized evidence body."),
        Outcome::Indeterminate => if is_blank(evidence_body) {
            String::from_str("Evidence content was empty or whitespace-only before comparison.")
        } else {
            String::from_str("Normalized text comparison returned indeterminate.")
        },
    }
}

/// The step describing a literal body comparison.
pub fn body_equality_comparison_step(outcome: Outcome, evidence_body: &str) -> (r: String)
    ensures
        r@ == literal_comparison_step(outcome, evidence_body@),
{
    match outcome {
        Outcome::Satisfied => String::from_str("Assertion body matched evidence body literally."),
        Outcome::NotSatisfied => String::from_str("Assertion body did not match evidence body literally."),
        Outcome::Indeterminate => if evidence_body.is_empty() {
            String::from_str("Evidence content body was empty.")
        } else {
            String::from_str("Body equality comparison returned indeterminate.")
        },
    }
}

} // verus!
