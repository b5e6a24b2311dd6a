use vp_reference::{
    applied_rules_from_trace, build_explanation, Assertion, ClaimBuilder, EvaluationInput, EvaluationOptions,
    EvaluationPolicy, EvidenceBuilder, EvidenceContent, EvidenceSetBuilder, Outcome, SpecificationContext, Trace,
    TraceEvent, VerificationResult, VerificationResultBuilder, VP_RULE_0001_REFERENCE, VP_RULE_0011_REFERENCE,
};

fn sample_input(assertion_type: &str, evidence_body: &str) -> EvaluationInput {
    let claim = ClaimBuilder::new()
        .id("claim-001")
        .subject("subject")
        .assertion(Assertion::new(assertion_type, "Hello"))
        .build()
        .expect("claim");

    let evidence = EvidenceBuilder::new()
        .id("evidence-001")
        .claim_id("claim-001")
        .content(EvidenceContent::new("text/plain", evidence_body))
        .build()
        .expect("evidence");

    let evidence_set = EvidenceSetBuilder::new().evidence(evidence).build().expect("evidence set");

    EvaluationInput::builder()
        .specification_context(SpecificationContext::placeholder())
        .claim(claim)
        .evidence_set(evidence_set)
        .evaluation_policy(EvaluationPolicy::AllRequired)
        .options(EvaluationOptions::default())
        .build()
        .expect("input")
}

fn trace_with_rules(rules: &[&str]) -> Trace {
    let mut builder = Trace::builder();
    for (index, rule) in rules.iter().enumerate() {
        builder = builder.event(
            TraceEvent::new(format!("evt-{index}"), format!("applied rule {rule}")).with_rule_reference(*rule),
        );
    }
    builder.build()
}

fn result_with_trace(outcome: Outcome, trace: Trace) -> VerificationResult {
    VerificationResultBuilder::new()
        .evaluated_claim_id("claim-001")
        .outcome(outcome)
        .trace(trace)
        .reason("fixture reason")
        .build()
        .expect("result")
}

#[test]
fn applied_rules_preserves_first_seen_order_without_duplicates() {
    let trace = trace_with_rules(&["VP-RULE-0002", VP_RULE_0011_REFERENCE, "VP-RULE-0002"]);
    assert_eq!(
        applied_rules_from_trace(&trace),
        vec!["VP-RULE-0002".to_owned(), VP_RULE_0011_REFERENCE.to_owned()]
    );
}

#[test]
fn normalized_text_satisfied_explanation_steps() {
    let input = sample_input("normalized_text", "  Hello  ");
    let result = result_with_trace(Outcome::Satisfied, trace_with_rules(&["VP-RULE-0002", VP_RULE_0011_REFERENCE]));
    let explanation = build_explanation(&input, &result);

    assert_eq!(
        explanation.applied_rules,
        vec!["VP-RULE-0002".to_owned(), VP_RULE_0011_REFERENCE.to_owned()]
    );
    assert_eq!(
        explanation.steps,
        vec![
            "Evidence claim_id matched claim claim_id.".to_owned(),
            "Evidence text was normalized.".to_owned(),
            "Normalized assertion body matched normalized evidence body.".to_owned(),
            "ALL_REQUIRED aggregation returned satisfied.".to_owned(),
        ]
    );
}

#[test]
fn body_equality_satisfied_explanation_steps() {
    let input = sample_input("body_equality", "Hello");
    let result = result_with_trace(Outcome::Satisfied, trace_with_rules(&["VP-RULE-0002", VP_RULE_0001_REFERENCE]));
    let explanation = build_explanation(&input, &result);

    assert!(explanation.steps.contains(&"Assertion body matched evidence body literally.".to_owned()));
}
