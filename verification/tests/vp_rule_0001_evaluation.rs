use vp_reference::{
    Assertion, ClaimBuilder, EvaluationContext, EvaluationOptions, EvaluationRule, EvidenceBuilder, EvidenceContent,
    Interpreter, Outcome, SpecificationBinding, SpecificationContext, SpecificationSummary, VpRule0001,
    VP_RULE_0001_REFERENCE,
};

fn sample_specification() -> SpecificationContext {
    SpecificationContext {
        spec_root_identity: "fixture-spec".to_owned(),
        edition_id: Some("2026-01".to_owned()),
        protocol_version: Some("0.1.0".to_owned()),
        summary: SpecificationSummary::default(),
    }
}

fn evaluation_context(
    assertion_body: &str,
    evidence_body: &str,
    claim_id: &str,
    evidence_claim_id: &str,
    options: EvaluationOptions,
) -> EvaluationContext {
    let claim = ClaimBuilder::new()
        .id(claim_id)
        .subject("alice@example.com")
        .assertion(Assertion::new("minimal", assertion_body))
        .build()
        .expect("claim");

    let evidence = EvidenceBuilder::new()
        .id("evidence-001")
        .claim_id(evidence_claim_id)
        .content(EvidenceContent::new("document", evidence_body))
        .build()
        .expect("evidence");

    EvaluationContext::builder()
        .specification_context(sample_specification())
        .claim(claim)
        .evidence(evidence)
        .options(options)
        .build()
        .expect("evaluation context")
}

#[test]
fn fixture_alpha_alpha_matching_claim_id_is_satisfied() {
    let context = evaluation_context("alpha", "alpha", "claim-001", "claim-001", EvaluationOptions::default());

    let result = Interpreter::new().evaluate(&context);

    assert_eq!(result.outcome, Outcome::Satisfied);
    assert_eq!(result.evaluated_claim_id.as_str(), "claim-001");
    assert_eq!(
        result.specification_binding,
        SpecificationBinding::new().with_edition_id("2026-01").with_protocol_version("0.1.0")
    );
}

#[test]
fn vp_rule_0001_evaluation_fixture_alpha_beta_matching_claim_id_is_not_satisfied() {
    let context = evaluation_context("alpha", "beta", "claim-001", "claim-001", EvaluationOptions::default());

    let result = Interpreter::new().evaluate(&context);

    assert_eq!(result.outcome, Outcome::NotSatisfied);
}

#[test]
fn vp_rule_0001_evaluation_fixture_alpha_empty_evidence_body_is_indeterminate() {
    let context = evaluation_context("alpha", "", "claim-001", "claim-001", EvaluationOptions::default());

    let result = Interpreter::new().evaluate(&context);

    assert_eq!(result.outcome, Outcome::Indeterminate);
}

#[test]
fn fixture_mismatched_evidence_claim_id_is_indeterminate() {
    let context = evaluation_context("alpha", "alpha", "claim-001", "claim-002", EvaluationOptions::default());

    let result = Interpreter::new().evaluate(&context);

    assert_eq!(result.outcome, Outcome::Indeterminate);
}

#[test]
fn vp_rule_0001_evaluation_trace_disabled_returns_empty_trace() {
    let context = evaluation_context(
        "alpha",
        "alpha",
        "claim-001",
        "claim-001",
        EvaluationOptions { deterministic: true, trace_enabled: false },
    );

    let result = Interpreter::new().evaluate(&context);

    assert!(result.trace.is_empty());
    assert_eq!(result.outcome, Outcome::Satisfied);
}

#[test]
fn vp_rule_0001_evaluation_vp_rule_0001_evaluates_independently() {
    let context = evaluation_context("alpha", "beta", "claim-001", "claim-001", EvaluationOptions::default());

    let evaluation = VpRule0001.evaluate(&context);

    assert_eq!(evaluation.outcome, Outcome::NotSatisfied);
    assert_eq!(evaluation.rule_reference.as_ref().map(|r| r.as_str()), Some(VP_RULE_0001_REFERENCE));
    assert!(!evaluation.reason.is_empty());
}

#[test]
fn verification_result_includes_reason() {
    let context = evaluation_context("alpha", "alpha", "claim-001", "claim-001", EvaluationOptions::default());

    let result = Interpreter::new().evaluate(&context);

    assert_eq!(result.reasons, vec!["Assertion body matches evidence body (VP-RULE-0001)"]);
}
