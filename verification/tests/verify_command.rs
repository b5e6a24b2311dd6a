use vp_reference::{
    run_verify_documents, AssertionFile, ClaimFile, EvidenceContentFile, EvidenceFile, OutputFormat, VerifyOutput,
};

fn claim_document(assertion_type: &str, body: &str) -> ClaimFile {
    ClaimFile {
        claim_id: "claim-001".to_owned(),
        subject: "example-subject".to_owned(),
        assertion: AssertionFile { assertion_type: assertion_type.to_owned(), body: body.to_owned() },
    }
}

fn evidence_document(content_type: &str, body: &str) -> EvidenceFile {
    EvidenceFile {
        evidence_id: "evidence-001".to_owned(),
        claim_id: "claim-001".to_owned(),
        evidence_type: "document".to_owned(),
        content: EvidenceContentFile { content_type: content_type.to_owned(), body: body.to_owned() },
    }
}

/// The normalized text example pair: a claim asserting "Hello World" and evidence with extra spaces.
fn example_documents() -> (ClaimFile, EvidenceFile) {
    (claim_document("normalized_text", "Hello World"), evidence_document("text/plain", "  Hello   World  "))
}

fn human(claim: ClaimFile, evidence: EvidenceFile, explain: bool) -> String {
    let output = run_verify_documents(claim, evidence, OutputFormat::Human, explain).expect("verify");
    output.rendered().expect("human output").to_owned()
}

#[test]
fn normalized_text_example_is_satisfied() {
    let (claim, evidence) = example_documents();

    let rendered = human(claim, evidence, false);

    assert!(rendered.contains("\u{2713} satisfied claim-001"));
    assert!(rendered.contains("Reason:"));
}

#[test]
fn body_equality_is_satisfied() {
    let rendered = human(claim_document("body_equality", "alpha"), evidence_document("document", "alpha"), false);

    assert!(rendered.contains("\u{2713} satisfied claim-001"));
}

#[test]
fn normalized_text_case_mismatch_is_not_satisfied() {
    let rendered = human(claim_document("normalized_text", "Hello"), evidence_document("text/plain", "hello"), false);

    assert!(rendered.contains("\u{2717} not_satisfied claim-001"));
}

#[test]
fn verify_command_whitespace_only_evidence_is_indeterminate() {
    let rendered = human(claim_document("normalized_text", "Hello"), evidence_document("text/plain", "     "), false);

    assert!(rendered.contains("? indeterminate claim-001"));
}

#[test]
fn json_format_output_is_valid() {
    let (claim, evidence) = example_documents();

    let output = run_verify_documents(claim, evidence, OutputFormat::Json, false).expect("verify");

    match output {
        VerifyOutput::Json(report) => {
            assert_eq!(report.claim_id, "claim-001");
            assert_eq!(report.outcome, "satisfied");
            assert!(!report.reason.is_empty());
            assert!(!report.trace.is_empty());
            assert!(report.assertion_type.is_none());
        },
        VerifyOutput::Human(_) => panic!("expected a JSON report"),
    }
}

#[test]
fn explain_human_includes_assertion_type_evidence_rules_and_explanation() {
    let (claim, evidence) = example_documents();

    let rendered = human(claim, evidence, true);

    assert!(rendered.contains("\u{2713} satisfied claim-001"));
    assert!(rendered.contains("Assertion type: normalized_text"));
    assert!(rendered.contains("Evidence: evidence-001"));
    assert!(rendered.contains("Policy: ALL_REQUIRED"));
    assert!(rendered.contains("- VP-RULE-0002"));
    assert!(rendered.contains("- VP-RULE-0011"));
    assert!(rendered.contains("Explanation:"));
    assert!(rendered.contains("1. Evidence claim_id matched claim claim_id."));
    assert!(rendered.contains("Reason:"));
    assert!(rendered.contains("All 1 applicable evidence envelope(s) satisfied (ALL_REQUIRED)"));
}

#[test]
fn explain_json_includes_applied_rules_and_explanation() {
    let (claim, evidence) = example_documents();

    let output = run_verify_documents(claim, evidence, OutputFormat::Json, true).expect("verify");

    match output {
        VerifyOutput::Json(report) => {
            assert_eq!(report.assertion_type.as_deref(), Some("normalized_text"));
            assert_eq!(report.policy.as_deref(), Some("ALL_REQUIRED"));
            let rules = report.applied_rules.expect("applied rules");
            assert_eq!(rules[0], "VP-RULE-0002");
            assert_eq!(rules[1], "VP-RULE-0011");
            let steps = report.explanation.expect("explanation");
            assert!(!steps.is_empty());
            assert!(report.evidence.is_some());
            assert!(!report.trace.is_empty());
        },
        VerifyOutput::Human(_) => panic!("expected a JSON report"),
    }
}

#[test]
fn body_equality_explain_includes_literal_comparison_step() {
    let rendered = human(claim_document("body_equality", "alpha"), evidence_document("document", "alpha"), true);

    assert!(rendered.contains("Assertion type: body_equality"));
    assert!(rendered.contains("- VP-RULE-0001"));
    assert!(rendered.contains("Assertion body matched evidence body literally."));
}

#[test]
fn normalized_text_explain_not_satisfied_includes_mismatch_step() {
    let rendered = human(claim_document("normalized_text", "Hello"), evidence_document("text/plain", "hello"), true);

    assert!(rendered.contains("\u{2717} not_satisfied claim-001"));
    assert!(rendered.contains("Normalized assertion body did not match normalized evidence body."));
}

#[test]
fn normalized_text_explain_indeterminate_includes_whitespace_step() {
    let rendered = human(claim_document("normalized_text", "Hello"), evidence_document("text/plain", "     "), true);

    assert!(rendered.contains("? indeterminate claim-001"));
    assert!(rendered.contains("Evidence content was empty or whitespace-only before comparison."));
}

#[test]
fn non_explain_output_unchanged_without_explain_flag() {
    let (claim, evidence) = example_documents();

    let rendered = human(claim, evidence, false);

    assert!(rendered.starts_with("\u{2713} satisfied claim-001\nReason:"));
    assert!(rendered.contains("All 1 applicable evidence envelope(s) satisfied (ALL_REQUIRED)"));
    assert!(!rendered.contains("Explanation:"));
    assert!(!rendered.contains("Applied rules:"));
}
