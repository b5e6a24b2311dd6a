//! Human-readable rendering and the JSON report of a verification.
use vstd::prelude::*;

use crate::cli::error::VerifyError;
use crate::cli::explain::{
    build_explanation, evidence_summaries, explanation, first_seen_rules, summarizes, EvidenceSummary,
};
use crate::context::evaluation_input::EvaluationInput;
use crate::model::claim::ClaimView;
use crate::model::evaluation_policy::EvaluationPolicy;
use crate::model::evidence::{Evidence, EvidenceView};
use crate::model::outcome::Outcome;
use crate::model::trace::{events_view, Trace, TraceEventView};
use crate::model::verification_result::{VerificationResult, VerificationResultView};
use crate::text::{
    decimal, decimal_text, join_texts, joined, lemma_texts_view_push, opt_text, text_equals, texts_view,
};

verus! {

/// Report rendering format.
#[derive(Debug, Clone, Copy, PartialEq, Eq, Structural)]
pub enum OutputFormat {
    Human,
    Json,
}

impl Default for OutputFormat {
    fn default() -> (r: Self)
        ensures
            r == OutputFormat::Human,
    {
        OutputFormat::Human
    }
}

impl OutputFormat {
    /// Parses `human` or `json`; anything else is a user error naming the value.
    pub fn parse(value: &str) -> (r: Result<Self, VerifyError>)
        ensures
            value@ == "human"@ ==> r == Ok::<OutputFormat, VerifyError>(OutputFormat::Human),
            value@ == "json"@ ==> r == Ok::<OutputFormat, VerifyError>(OutputFormat::Json),
            value@ != "human"@ && value@ != "json"@ ==> (r matches Err(e) && e@ == "invalid format '"@ + value@
                + "'; expected human or json"@),
    {
        proof {
            reveal_strlit("human");
            reveal_strlit("json");
            assert("human"@.len() != "json"@.len());
        }
        if text_equals(value, "human") {
            Ok(OutputFormat::Human)
        } else if text_equals(value, "json") {
            Ok(OutputFormat::Json)
        } else {
            let mut message = String::from_str("invalid format '");
            message.append(value);
            message.append("'; expected human or json");
            Err(VerifyError::user(message))
        }
    }
}

/// What is rendered: the evaluation input, its result, and whether to explain it.
pub struct VerifyRenderInput<'a> {
    pub evaluation_input: &'a EvaluationInput,
    pub result: &'a VerificationResult,
    pub explain: bool,
}

/// The symbol shown before an outcome.
pub open spec fn symbol_of(outcome: Outcome) -> char {
    match outcome {
        Outcome::Satisfied => '\u{2713}',
        Outcome::NotSatisfied => '\u{2717}',
        Outcome::Indeterminate => '?',
    }
}

/// Check mark for satisfied, cross for not satisfied, question mark for indeterminate.
pub fn outcome_symbol(outcome: Outcome) -> (r: char)
    ensures
        r == symbol_of(outcome),
{
    match outcome {
        Outcome::Satisfied => '\u{2713}',
        Outcome::NotSatisfied => '\u{2717}',
        Outcome::Indeterminate => '?',
    }
}

fn outcome_symbol_text(outcome: Outcome) -> (r: &'static str)
    ensures
        r@ == seq![symbol_of(outcome)],
{
    match outcome {
        Outcome::Satisfied => {
            proof {
                reveal_strlit("\u{2713}");
            }
            "\u{2713}"
        },
        Outcome::NotSatisfied => {
            proof {
                reveal_strlit("\u{2717}");
            }
            "\u{2717}"
        },
        Outcome::Indeterminate => {
            proof {
                reveal_strlit("?");
            }
            "?"
        },
    }
}

/// The reasons joined with `; `, when there is any.
pub open spec fn primary_reason_of(result: VerificationResultView) -> Option<Seq<char>> {
    if result.reasons.len() == 0 {
        None
    } else {
        Some(joined(result.reasons, "; "@))
    }
}

/// The result's reasons joined with `; `, or nothing when it has none.
pub fn primary_reason(result: &VerificationResult) -> (r: Option<String>)
    ensures
        opt_text(r) == primary_reason_of(result@),
{
    if result.reasons.len() == 0 {
        None
    } else {
        Some(join_texts(&result.reasons, "; "))
    }
}

/// First line of a rendering: symbol, outcome label and claim id.
pub open spec fn headline(result: VerificationResultView) -> Seq<char> {
    seq![symbol_of(result.outcome)] + " "@ + result.outcome.label() + " "@ + result.evaluated_claim_id
}

/// Lines of the compact rendering: the headline and the reason, when there is one.
pub open spec fn compact_lines(result: VerificationResultView) -> Seq<Seq<char>> {
    seq![headline(result)] + match primary_reason_of(result) {
        Some(reason) => seq!["Reason: "@ + reason],
        None => Seq::empty(),
    }
}

/// Lines of the explained rendering of `result` for `claim` and its first evidence record.
pub open spec fn explain_lines(
    claim: ClaimView,
    evidence: EvidenceView,
    policy: EvaluationPolicy,
    result: VerificationResultView,
) -> Seq<Seq<char>> {
    let rules = first_seen_rules(result.trace);
    let steps = explanation(claim.id, evidence, result.outcome, rules);
    seq![
        headline(result),
        ""@,
        "Assertion type: "@ + claim.assertion.assertion_type,
        "Evidence: "@ + evidence.id,
        "Policy: "@ + policy.label(),
        ""@,
        "Applied rules:"@,
    ] + rules.map_values(|rule: Seq<char>| "- "@ + rule) + seq![""@, "Explanation:"@] + Seq::new(
        steps.len(),
        |i: int| decimal((i + 1) as nat) + ". "@ + steps[i],
    ) + seq![""@, "Reason:"@] + match primary_reason_of(result) {
        Some(reason) => seq![reason],
        None => Seq::empty(),
    }
}

/// The human-readable text: explained when asked for, compact otherwise.
pub open spec fn human_text(input: EvaluationInput, result: VerificationResultView, explain: bool) -> Seq<char> {
    if explain {
        joined(explain_lines(input.claim@, input.evidence_set@[0]@, input.evaluation_policy, result), "\n"@)
    } else {
        joined(compact_lines(result), "\n"@)
    }
}

/// Renders the verification for a human reader.
pub fn render_human(input: &VerifyRenderInput<'_>) -> (r: String)
    requires
        input.explain ==> input.evaluation_input.evidence_set@.len() >= 1,
    ensures
        r@ == human_text(*input.evaluation_input, input.result@, input.explain),
{
    if input.explain {
        render_human_explain(input)
    } else {
        render_human_compact(input.result)
    }
}

fn headline_text(result: &VerificationResult) -> (r: String)
    ensures
        r@ == headline(result@),
{
    let mut line = String::from_str(outcome_symbol_text(result.outcome));
    line.append(" ");
    line.append(result.outcome.as_str());
    line.append(" ");
    line.append(result.evaluated_claim_id.as_str());
    line
}

fn push_line(lines: &mut Vec<String>, line: String)
    ensures
        texts_view(final(lines)@) == texts_view(old(lines)@).push(line@),
{
    proof {
        lemma_texts_view_push(lines@, line);
    }
    lines.push(line);
}

fn prefixed(prefix: &str, text: &str) -> (r: String)
    ensures
        r@ == prefix@ + text@,
{
    let mut line = String::from_str(prefix);
    line.append(text);
    line
}

/// Compact rendering: headline, then the reason when there is one.
pub fn render_human_compact(result: &VerificationResult) -> (r: String)
    ensures
        r@ == joined(compact_lines(result@), "\n"@),
{
    let mut lines: Vec<String> = Vec::new();
    push_line(&mut lines, headline_text(result));
    match primary_reason(result) {
        Some(reason) => push_line(&mut lines, prefixed("Reason: ", reason.as_str())),
        None => {},
    }
    assert(texts_view(lines@) =~= compact_lines(result@));
    join_texts(&lines, "\n")
}

/// Explained rendering: headline, assertion type, evidence, policy, applied rules,
/// numbered explanation steps and the reason.
pub fn render_human_explain(input: &VerifyRenderInput<'_>) -> (r: String)
    requires
        input.evaluation_input.evidence_set@.len() >= 1,
    ensures
        r@ == joined(
            explain_lines(
                input.evaluation_input.claim@,
                input.evaluation_input.evidence_set@[0]@,
                input.evaluation_input.evaluation_policy,
                input.result@,
            ),
            "\n"@,
        ),
{
    let result = input.result;
    let evaluation_input = input.evaluation_input;
    let explained = build_explanation(evaluation_input, result);
    let evidence = &evaluation_input.evidence_set().evidence()[0];
    let ghost rules = first_seen_rules(result@.trace);
    let ghost steps = explanation(
        evaluation_input.claim@.id,
        evaluation_input.evidence_set@[0]@,
        result.outcome,
        rules,
    );

    proof {
        reveal_strlit("");
    }
    let mut lines: Vec<String> = Vec::new();
    push_line(&mut lines, headline_text(result));
    push_line(&mut lines, String::new());
    push_line(&mut lines, prefixed("Assertion type: ", evaluation_input.claim().assertion.assertion_type.as_str()));
    push_line(&mut lines, prefixed("Evidence: ", evidence.id.as_str()));
    push_line(&mut lines, prefixed("Policy: ", evaluation_input.evaluation_policy().policy_id()));
    push_line(&mut lines, String::new());
    push_line(&mut lines, String::from_str("Applied rules:"));
    let ghost head = texts_view(lines@);
    assert(head.len() == 7);
    assert(head[0] == headline(result@));
    assert(head[1] == ""@);
    assert(head[2] == "Assertion type: "@ + evaluation_input.claim@.assertion.assertion_type);
    assert(head[3] == "Evidence: "@ + evaluation_input.evidence_set@[0]@.id);
    assert(head[4] == "Policy: "@ + evaluation_input.evaluation_policy.label());
    assert(head[6] == "Applied rules:"@);
    assert(head =~= seq![
        headline(result@),
        ""@,
        "Assertion type: "@ + evaluation_input.claim@.assertion.assertion_type,
        "Evidence: "@ + evaluation_input.evidence_set@[0]@.id,
        "Policy: "@ + evaluation_input.evaluation_policy.label(),
        ""@,
        "Applied rules:"@,
    ]);

    let mut k: usize = 0;
    while k < explained.applied_rules.len()
        invariant
            texts_view(explained.applied_rules@) == rules,
            k <= rules.len(),
            texts_view(lines@) == head + rules.subrange(0, k as int).map_values(|rule: Seq<char>| "- "@ + rule),
        decreases rules.len() - k,
    {
        push_line(&mut lines, prefixed("- ", explained.applied_rules[k].as_str()));
        assert(rules.subrange(0, k + 1).map_values(|rule: Seq<char>| "- "@ + rule) =~= rules.subrange(
            0,
            k as int,
        ).map_values(|rule: Seq<char>| "- "@ + rule).push("- "@ + rules[k as int]));
        k = k + 1;
    }
    assert(rules.subrange(0, k as int) == rules);
    push_line(&mut lines, String::new());
    push_line(&mut lines, String::from_str("Explanation:"));
    let ghost middle = texts_view(lines@);
    assert(middle =~= head + rules.map_values(|rule: Seq<char>| "- "@ + rule) + seq![""@, "Explanation:"@]);

    let mut index: usize = 0;
    while index < explained.steps.len()
        invariant
            texts_view(explained.steps@) == steps,
            index <= steps.len(),
            texts_view(lines@) == middle + Seq::new(
                index as nat,
                |i: int| decimal((i + 1) as nat) + ". "@ + steps[i],
            ),
        decreases steps.len() - index,
    {
        let mut line = decimal_text((index + 1) as u64);
        line.append(". ");
        line.append(explained.steps[index].as_str());
        push_line(&mut lines, line);
        assert(Seq::new((index + 1) as nat, |i: int| decimal((i + 1) as nat) + ". "@ + steps[i]) =~= Seq::new(
            index as nat,
            |i: int| decimal((i + 1) as nat) + ". "@ + steps[i],
        ).push(decimal((index + 1) as nat) + ". "@ + steps[index as int]));
        index = index + 1;
    }
    let ghost numbered = Seq::new(steps.len(), |i: int| decimal((i + 1) as nat) + ". "@ + steps[i]);
    assert(texts_view(lines@) =~= middle + numbered);
    push_line(&mut lines, String::new());
    push_line(&mut lines, String::from_str("Reason:"));
    let ghost tail = texts_view(lines@);
    assert(tail =~= middle + numbered + seq![""@, "Reason:"@]);
    match primary_reason(result) {
        Some(reason) => push_line(&mut lines, reason),
        None => {},
    }
    assert(texts_view(lines@) =~= explain_lines(
        evaluation_input.claim@,
        evaluation_input.evidence_set@[0]@,
        evaluation_input.evaluation_policy,
        result@,
    ));
    join_texts(&lines, "\n")
}

/// One trace event of the JSON report.
#[derive(Debug, Clone, PartialEq, Eq)]
pub struct TraceEventSummary {
    pub id: String,
    pub rule_reference: Option<String>,
    pub message: String,
}

/// `s` reports trace event `e`.
pub open spec fn reports_event(s: TraceEventSummary, e: TraceEventView) -> bool {
    s.id@ == e.id && opt_text(s.rule_reference) == e.rule_reference && s.message@ == e.message
}

/// One summary per trace event, in order.
pub fn trace_events_json(trace: &Trace) -> (r: Vec<TraceEventSummary>)
    ensures
        r@.len() == trace@.len(),
        forall|i: int| 0 <= i < r@.len() ==> reports_event(#[trigger] r@[i], trace@[i]),
{
    let events = trace.events();
    let mut summaries: Vec<TraceEventSummary> = Vec::new();
    let mut i: usize = 0;
    while i < events.len()
        invariant
            events_view(events@) == trace@,
            i <= events@.len(),
            summaries@.len() == i,
            forall|j: int| 0 <= j < i ==> reports_event(#[trigger] summaries@[j], trace@[j]),
        decreases events@.len() - i,
    {
        let event = &events[i];
        assert(trace@[i as int] == event@);
        let rule_reference = match &event.rule_reference {
            Some(reference) => Some(reference.as_str().to_owned()),
            None => None,
        };
        summaries.push(
            TraceEventSummary { id: event.id.as_str().to_owned(), rule_reference, message: event.message.clone() },
        );
        i = i + 1;
    }
    summaries
}

/// The machine-readable report of a verification; serializing it is left to the caller.
#[derive(Debug, Clone, PartialEq, Eq)]
pub struct JsonReport {
    pub claim_id: String,
    pub outcome: String,
    pub reason: String,
    pub assertion_type: Option<String>,
    pub evidence: Option<Vec<EvidenceSummary>>,
    pub policy: Option<String>,
    pub applied_rules: Option<Vec<String>>,
    pub explanation: Option<Vec<String>>,
    pub trace: Vec<TraceEventSummary>,
}

/// `r` is the JSON report of `result` for `claim`, evidence records `evidence` and `policy`,
/// with the explanation fields exactly when `explain` holds.
pub open spec fn reports(
    r: JsonReport,
    claim: ClaimView,
    evidence: Seq<EvidenceView>,
    policy: EvaluationPolicy,
    result: VerificationResultView,
    explain: bool,
) -> bool {
    &&& r.claim_id@ == result.evaluated_claim_id
    &&& r.outcome@ == result.outcome.label()
    &&& r.reason@ == match primary_reason_of(result) {
        Some(reason) => reason,
        None => Seq::empty(),
    }
    &&& r.trace@.len() == result.trace.len()
    &&& forall|i: int| 0 <= i < r.trace@.len() ==> reports_event(#[trigger] r.trace@[i], result.trace[i])
    &&& (explain <==> r.assertion_type is Some)
    &&& (explain <==> r.evidence is Some)
    &&& (explain <==> r.policy is Some)
    &&& (explain <==> r.applied_rules is Some)
    &&& (explain <==> r.explanation is Some)
    &&& (r.assertion_type matches Some(t) ==> t@ == claim.assertion.assertion_type)
    &&& (r.policy matches Some(p) ==> p@ == policy.label())
    &&& (r.evidence matches Some(summaries) ==> summaries@.len() == evidence.len() && forall|i: int|
        0 <= i < summaries@.len() ==> summarizes(#[trigger] summaries@[i], evidence[i]))
    &&& (r.applied_rules matches Some(rules) ==> texts_view(rules@) == first_seen_rules(result.trace))
    &&& (r.explanation matches Some(steps) ==> texts_view(steps@) == explanation(
        claim.id,
        evidence[0],
        result.outcome,
        first_seen_rules(result.trace),
    ))
}

/// Assembles the JSON report: identity, outcome, reason and trace always; assertion type,
/// evidence summaries, policy, applied rules and explanation steps when explaining.
pub fn json_report(input: &VerifyRenderInput<'_>) -> (r: JsonReport)
    requires
        input.explain ==> input.evaluation_input.evidence_set@.len() >= 1,
    ensures
        reports(
            r,
            input.evaluation_input.claim@,
            input.evaluation_input.evidence_set@.map_values(|e: Evidence| e@),
            input.evaluation_input.evaluation_policy,
            input.result@,
            input.explain,
        ),
{
    let result = input.result;
    let reason = match primary_reason(result) {
        Some(reason) => reason,
        None => String::new(),
    };
    let trace = trace_events_json(&result.trace);
    if input.explain {
        let explained = build_explanation(input.evaluation_input, result);
        JsonReport {
            claim_id: result.evaluated_claim_id.as_str().to_owned(),
            outcome: result.outcome.as_str().to_owned(),
            reason,
            assertion_type: Some(input.evaluation_input.claim().assertion.assertion_type.clone()),
            evidence: Some(evidence_summaries(input.evaluation_input)),
            policy: Some(input.evaluation_input.evaluation_policy().policy_id().to_owned()),
            applied_rules: Some(explained.applied_rules),
            explanation: Some(explained.steps),
            trace,
        }
    } else {
        JsonReport {
            claim_id: result.evaluated_claim_id.as_str().to_owned(),
            outcome: result.outcome.as_str().to_owned(),
            reason,
            assertion_type: None,
            evidence: None,
            policy: None,
            applied_rules: None,
            explanation: None,
            trace,
        }
    }
}

} // verus!
