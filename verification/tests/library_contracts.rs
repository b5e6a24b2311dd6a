use vp_reference::{
    aggregate_all_required, all_required_aggregation_reason, applied_rules_from_trace, build_evaluation_input,
    is_normalization_whitespace, json_report, normalize_composed, normalize_text, render_human, run_verify_documents, Assertion,
    AssertionFile, BuildError, BuiltinRule, ClaimBuilder, ClaimFile, ContextBuildError, EvaluationContext,
    EvaluationInput, EvaluationOptions, EvaluationPolicy, EvaluationRule, EvidenceBuilder, EvidenceContent,
    EvidenceContentFile, EvidenceFile, EvidenceSet, HealthResponse, Interpreter, Metadata, MinimalBodyEqualityRule,
    OutputFormat, Outcome, RuleEvaluation, RuleKind, RuleSet, ServeOptions, SpecificationContext,
    SpecificationSummary, Trace, TraceEvent, VerificationResultBuilder, VerifyError, VerifyOptions, VerifyOutput,
    VerifyRenderInput, VpRule0011, SERVICE_VERSION,
};

fn specification() -> SpecificationContext {
    SpecificationContext {
        spec_root_identity: "fixture-spec".to_owned(),
        edition_id: Some("2026-01".to_owned()),
        protocol_version: Some("0.1.0".to_owned()),
        summary: SpecificationSummary::default(),
    }
}

fn context_with(assertion_type: &str, assertion_body: &str, claim_id: &str, evidence_claim_id: &str, evidence_body: &str, trace: bool) -> EvaluationContext {
    let claim = ClaimBuilder::new()
        .id(claim_id)
        .subject("alice@example.com")
        .assertion(Assertion::new(assertion_type, assertion_body))
        .build()
        .expect("claim");
    let evidence = EvidenceBuilder::new()
        .id("evidence-001")
        .claim_id(evidence_claim_id)
        .content(EvidenceContent::new("document", evidence_body))
        .build()
        .expect("evidence");
    EvaluationContext::builder()
        .specification_context(specification())
        .claim(claim)
        .evidence(evidence)
        .options(EvaluationOptions { deterministic: true, trace_enabled: trace })
        .build()
        .expect("context")
}

fn messages(trace: &Trace) -> Vec<String> {
    trace.events().iter().map(|event| event.message.clone()).collect()
}

fn ids(trace: &Trace) -> Vec<String> {
    trace.events().iter().map(|event| event.id.as_str().to_owned()).collect()
}

#[test]
fn outcome_labels_identify_outcomes() {
    let all = [Outcome::Satisfied, Outcome::NotSatisfied, Outcome::Indeterminate];
    for a in all {
        for b in all {
            assert_eq!(a.as_str() == b.as_str(), a == b);
        }
    }
}

#[test]
fn aggregation_ignores_order_of_outcomes() {
    let outcomes = [Outcome::Satisfied, Outcome::Indeterminate, Outcome::NotSatisfied];
    let orders = [[0, 1, 2], [0, 2, 1], [1, 0, 2], [1, 2, 0], [2, 0, 1], [2, 1, 0]];
    for order in orders {
        let arranged: Vec<Outcome> = order.iter().map(|i| outcomes[*i]).collect();
        assert_eq!(aggregate_all_required(&arranged), Outcome::NotSatisfied);
    }
    assert_eq!(aggregate_all_required(&[Outcome::Indeterminate, Outcome::Satisfied]), Outcome::Indeterminate);
    assert_eq!(aggregate_all_required(&[Outcome::Satisfied]), Outcome::Satisfied);
}

#[test]
fn aggregation_reason_counts_envelopes_in_decimal() {
    assert_eq!(
        all_required_aggregation_reason(Outcome::Satisfied, 12),
        "All 12 applicable evidence envelope(s) satisfied (ALL_REQUIRED)"
    );
    assert_eq!(
        all_required_aggregation_reason(Outcome::NotSatisfied, 0),
        "Evidence set is empty; ALL_REQUIRED yields indeterminate"
    );
}

#[test]
fn single_evidence_trace_lists_started_rules_and_completion() {
    let context = context_with("minimal", "alpha", "claim-001", "claim-001", "alpha", true);
    let result = Interpreter::new().evaluate(&context);

    assert_eq!(
        messages(&result.trace),
        vec![
            "evaluation started for claim claim-001",
            "applied rule VP-RULE-0002",
            "applied rule VP-RULE-0001",
            "evaluation completed with outcome satisfied",
        ]
    );
    assert_eq!(result.trace.events()[0].rule_reference, None);
}

#[test]
fn multi_evidence_trace_numbers_every_event() {
    let claim = ClaimBuilder::new()
        .id("claim-001")
        .subject("s")
        .assertion(Assertion::new("minimal", "alpha"))
        .build()
        .expect("claim");
    let first = EvidenceBuilder::new()
        .id("evidence-a")
        .claim_id("claim-001")
        .content(EvidenceContent::new("document", "alpha"))
        .build()
        .expect("evidence");
    let second = EvidenceBuilder::new()
        .id("evidence-b")
        .claim_id("claim-999")
        .content(EvidenceContent::new("document", "alpha"))
        .build()
        .expect("evidence");
    let input = EvaluationInput::builder()
        .specification_context(specification())
        .claim(claim)
        .evidence_set(EvidenceSet::from_vec(vec![first, second]))
        .build()
        .expect("input");

    let result = Interpreter::new().evaluate_input(&input);

    assert_eq!(result.outcome, Outcome::Indeterminate);
    assert_eq!(
        messages(&result.trace),
        vec![
            "evaluation started for claim claim-001 with policy ALL_REQUIRED",
            "evaluating evidence[0] evidence-a",
            "applied rule VP-RULE-0002",
            "applied rule VP-RULE-0001",
            "evidence[0] (evidence-a) outcome: satisfied",
            "evaluating evidence[1] evidence-b",
            "applied rule VP-RULE-0002",
            "evidence[1] (evidence-b) outcome: indeterminate",
            "aggregation completed with outcome indeterminate",
        ]
    );
    assert_eq!(ids(&result.trace), vec!["evt-1", "evt-2", "evt-3", "evt-4", "evt-5", "evt-6", "evt-7", "evt-8", "evt-9"]);
}

#[test]
fn disabled_trace_is_empty_for_inputs() {
    let claim = ClaimBuilder::new()
        .id("claim-001")
        .subject("s")
        .assertion(Assertion::new("minimal", "alpha"))
        .build()
        .expect("claim");
    let evidence = EvidenceBuilder::new()
        .id("evidence-a")
        .claim_id("claim-001")
        .content(EvidenceContent::new("document", "alpha"))
        .build()
        .expect("evidence");
    let input = EvaluationInput::builder()
        .specification_context(specification())
        .claim(claim)
        .evidence_set(EvidenceSet::from_vec(vec![evidence]))
        .options(EvaluationOptions { deterministic: true, trace_enabled: false })
        .build()
        .expect("input");

    let result = Interpreter::new().evaluate_input(&input);

    assert!(result.trace.is_empty());
    assert_eq!(result.outcome, Outcome::Satisfied);
}

#[test]
fn unknown_assertion_type_has_exact_reason_and_no_trace() {
    let context = context_with("regex", "alpha", "claim-001", "claim-001", "alpha", true);
    let result = Interpreter::new().evaluate(&context);

    assert_eq!(result.outcome, Outcome::Indeterminate);
    assert_eq!(result.reasons, vec!["Unknown assertion type 'regex'; evaluation dispatch yields indeterminate"]);
    assert!(result.trace.is_empty());
}

#[test]
fn metadata_does_not_change_the_result() {
    let plain = context_with("minimal", "alpha", "claim-001", "claim-001", "alpha", true);
    let claim = ClaimBuilder::new()
        .id("claim-001")
        .subject("alice@example.com")
        .assertion(Assertion::new("minimal", "alpha"))
        .metadata_entry("origin", "import")
        .build()
        .expect("claim");
    let evidence = EvidenceBuilder::new()
        .id("evidence-001")
        .claim_id("claim-001")
        .content(EvidenceContent::new("document", "alpha"))
        .metadata(Metadata::from_pairs(vec![("weight", "heavy")]))
        .build()
        .expect("evidence");
    let annotated = EvaluationContext::builder()
        .specification_context(specification())
        .claim(claim)
        .evidence(evidence)
        .build()
        .expect("context");

    let interpreter = Interpreter::new();
    assert_eq!(interpreter.evaluate(&plain), interpreter.evaluate(&annotated));
}

#[test]
fn metadata_keeps_last_value_and_sorted_keys() {
    let metadata = Metadata::from_pairs(vec![("b", "1"), ("a", "2"), ("b", "3")]);

    assert_eq!(metadata.get("b"), Some("3"));
    assert_eq!(metadata.get("a"), Some("2"));
    assert_eq!(metadata.get("c"), None);
    let keys: Vec<&str> = metadata.entries().iter().map(|(key, _)| key.as_str()).collect();
    assert_eq!(keys, vec!["a", "b"]);
    assert!(Metadata::new().is_empty());
    let built = Metadata::builder().entry("z", "1").entry("y", "2").build();
    assert_eq!(built.entries().len(), 2);
    assert_eq!(built.get("y"), Some("2"));
}

#[test]
fn normalization_uses_unicode_separators_and_composition() {
    assert_eq!(normalize_text("\u{3000}Hello\u{2028}\u{2029}World\u{a0}"), "Hello World");
    assert_eq!(normalize_text("e\u{301}"), "\u{e9}");
    assert!(is_normalization_whitespace('\u{3000}'));
    assert!(is_normalization_whitespace('\u{0b}'));
    assert!(!is_normalization_whitespace('\u{85}'));
    assert!(!is_normalization_whitespace('a'));
}

#[test]
fn normalization_output_is_stable_and_single_spaced() {
    for sample in ["  a \t b\n\nc  ", "\u{2003}x\u{2003}\u{2003}y", "plain", "", "cafe\u{301}  au  lait"] {
        let once = normalize_text(sample);
        assert_eq!(normalize_text(&once), once);
        assert!(!once.contains("  "));
        assert!(!once.starts_with(' ') && !once.ends_with(' '));
    }
}

#[test]
fn normalized_rule_reports_each_indeterminate_cause() {
    let unlinked = VpRule0011.evaluate(&context_with("normalized_text", "Hello", "claim-001", "claim-002", "Hello", true));
    assert_eq!(unlinked.reason, "Evidence is not linked to the claim under evaluation (VP-RULE-0011)");
    let blank = VpRule0011.evaluate(&context_with("normalized_text", "Hello", "claim-001", "claim-001", "\u{2000}\t", true));
    assert_eq!(blank.reason, "Evidence content body is empty after normalization (VP-RULE-0011)");
    assert_eq!(blank.outcome, Outcome::Indeterminate);
}

#[test]
fn minimal_rule_compares_bodies_literally() {
    let matched = MinimalBodyEqualityRule.evaluate(&context_with("minimal", "alpha", "c", "c", "alpha", true));
    assert_eq!(matched.outcome, Outcome::Satisfied);
    assert_eq!(matched.reason, "assertion body matches evidence content body");
    let empty = MinimalBodyEqualityRule.evaluate(&context_with("minimal", "alpha", "c", "c", "", true));
    assert_eq!(empty.reason, "evidence content body is empty");
    let unlinked = MinimalBodyEqualityRule.evaluate(&context_with("minimal", "alpha", "c", "d", "alpha", true));
    assert_eq!(unlinked.outcome, Outcome::Indeterminate);
}

struct Continuing;

impl EvaluationRule for Continuing {
    fn evaluate(&self, _context: &EvaluationContext) -> RuleEvaluation {
        RuleEvaluation::new(Outcome::Satisfied, "kept going").with_continues(true).with_rule_reference("custom")
    }
}

#[test]
fn event_numbers_continue_past_nine() {
    let mut rules: Vec<Box<dyn EvaluationRule>> = Vec::new();
    for _ in 0..10 {
        rules.push(Box::new(Continuing));
    }
    let rule_set = RuleSet::from_rules(rules);
    assert_eq!(rule_set.rules(), vec![RuleKind::Custom; 10]);
    let context = context_with("minimal", "alpha", "claim-001", "claim-001", "alpha", true);

    let result = Interpreter::with_rule_set(rule_set).evaluate(&context);

    let event_ids = ids(&result.trace);
    assert_eq!(event_ids.len(), 12);
    assert_eq!(event_ids[11], "evt-12");
    assert_eq!(result.reasons, vec!["kept going"]);
}

#[test]
fn platform_rule_sets_list_their_rules() {
    assert_eq!(
        RuleSet::platform_1().rules(),
        vec![RuleKind::Builtin(BuiltinRule::VpRule0002), RuleKind::Builtin(BuiltinRule::VpRule0001)]
    );
    assert_eq!(
        RuleSet::platform_1_3().rules(),
        vec![RuleKind::Builtin(BuiltinRule::VpRule0002), RuleKind::Builtin(BuiltinRule::VpRule0011)]
    );
}

#[test]
fn builders_name_the_first_missing_field() {
    assert_eq!(ClaimBuilder::new().subject("s").build().unwrap_err(), BuildError::missing("id"));
    assert_eq!(ClaimBuilder::new().id("c").build().unwrap_err(), BuildError::missing("subject"));
    assert_eq!(ClaimBuilder::new().id("c").subject("s").build().unwrap_err(), BuildError::missing("assertion"));
    assert_eq!(EvidenceBuilder::new().build().unwrap_err(), BuildError::missing("id"));
    assert_eq!(EvidenceBuilder::new().id("e").build().unwrap_err(), BuildError::missing("claim_id"));
    assert_eq!(EvidenceBuilder::new().id("e").claim_id("c").build().unwrap_err(), BuildError::missing("content"));
    assert_eq!(
        VerificationResultBuilder::new().outcome(Outcome::Satisfied).build().unwrap_err(),
        BuildError::missing("evaluated_claim_id")
    );
    assert_eq!(
        VerificationResultBuilder::new().evaluated_claim_id("c").build().unwrap_err(),
        BuildError::missing("outcome")
    );
    assert_eq!(BuildError::missing("id").message(), "missing required field: id");
    assert_eq!(ContextBuildError::missing("claim").message(), "missing required field: claim");
    let no_spec = EvaluationInput::builder().build().unwrap_err();
    assert_eq!(no_spec, ContextBuildError::missing("specification"));
}

#[test]
fn verification_result_defaults_trace_and_collects_reasons() {
    let result = VerificationResultBuilder::new()
        .evaluated_claim_id("c")
        .outcome(Outcome::NotSatisfied)
        .reasons(vec!["one", "two"])
        .reason("three")
        .build()
        .expect("result");
    assert!(result.trace.is_empty());
    assert_eq!(result.reasons, vec!["one", "two", "three"]);
}

#[test]
fn output_format_parse_accepts_two_names() {
    assert_eq!(OutputFormat::parse("human"), Ok(OutputFormat::Human));
    assert_eq!(OutputFormat::parse("json"), Ok(OutputFormat::Json));
    assert_eq!(
        OutputFormat::parse("xml"),
        Err(VerifyError::user("invalid format 'xml'; expected human or json"))
    );
}

fn claim_file() -> ClaimFile {
    ClaimFile {
        claim_id: "claim-001".to_owned(),
        subject: "example-subject".to_owned(),
        assertion: AssertionFile { assertion_type: "body_equality".to_owned(), body: "alpha".to_owned() },
    }
}

fn evidence_file(body: &str) -> EvidenceFile {
    EvidenceFile {
        evidence_id: "evidence-001".to_owned(),
        claim_id: "claim-001".to_owned(),
        evidence_type: "document".to_owned(),
        content: EvidenceContentFile { content_type: "document".to_owned(), body: body.to_owned() },
    }
}

#[test]
fn documents_become_a_one_envelope_input() {
    let input = build_evaluation_input(claim_file(), evidence_file("alpha")).expect("input");

    assert_eq!(input.specification.spec_root_identity, "developer-cli");
    assert_eq!(input.specification.protocol_version.as_deref(), Some("platform-1.3-dev"));
    assert_eq!(input.evidence_set.len(), 1);
    assert_eq!(input.evidence_set.evidence()[0].metadata.get("evidence_type"), Some("document"));
    assert_eq!(input.evaluation_policy, EvaluationPolicy::AllRequired);
}

#[test]
fn compact_rendering_is_exact() {
    let output = run_verify_documents(claim_file(), evidence_file("alpha"), OutputFormat::Human, false).expect("verify");
    assert_eq!(
        output.rendered(),
        Some("\u{2713} satisfied claim-001\nReason: All 1 applicable evidence envelope(s) satisfied (ALL_REQUIRED)")
    );
}

#[test]
fn explained_rendering_is_exact() {
    let output = run_verify_documents(claim_file(), evidence_file("beta"), OutputFormat::Human, true).expect("verify");
    let expected = [
        "\u{2717} not_satisfied claim-001",
        "",
        "Assertion type: body_equality",
        "Evidence: evidence-001",
        "Policy: ALL_REQUIRED",
        "",
        "Applied rules:",
        "- VP-RULE-0002",
        "- VP-RULE-0001",
        "",
        "Explanation:",
        "1. Evidence claim_id matched claim claim_id.",
        "2. Assertion body did not match evidence body literally.",
        "3. ALL_REQUIRED aggregation returned not_satisfied.",
        "",
        "Reason:",
        "At least one applicable evidence envelope is not_satisfied (ALL_REQUIRED)",
    ]
    .join("\n");
    assert_eq!(output.rendered(), Some(expected.as_str()));
}

#[test]
fn json_report_summarizes_trace_events() {
    let input = build_evaluation_input(claim_file(), evidence_file("alpha")).expect("input");
    let result = Interpreter::new().evaluate_input(&input);
    let report = json_report(&VerifyRenderInput { evaluation_input: &input, result: &result, explain: false });

    assert_eq!(report.trace.len(), result.trace.events().len());
    assert_eq!(report.trace[0].id, "evt-1");
    assert_eq!(report.trace[2].rule_reference.as_deref(), Some("VP-RULE-0002"));
    assert!(report.explanation.is_none());
    let text = render_human(&VerifyRenderInput { evaluation_input: &input, result: &result, explain: false });
    assert!(text.starts_with("\u{2713} satisfied"));
    match run_verify_documents(claim_file(), evidence_file("alpha"), OutputFormat::Json, false).expect("verify") {
        VerifyOutput::Json(json) => assert_eq!(json, report),
        VerifyOutput::Human(_) => panic!("expected JSON"),
    }
}

#[test]
fn applied_rules_come_from_referenced_events_only() {
    let trace = Trace::builder()
        .event(TraceEvent::new("evt-1", "no rule"))
        .event(TraceEvent::new("evt-2", "r").with_rule_reference("R-1"))
        .event(TraceEvent::new("evt-3", "r").with_rule_reference("R-1"))
        .build();
    assert_eq!(applied_rules_from_trace(&trace), vec!["R-1".to_owned()]);
}

#[test]
fn service_values_hold_what_they_were_given() {
    let health = HealthResponse::current();
    assert_eq!((health.status, health.service, health.version), ("ok", "vp-reference", SERVICE_VERSION));
    let options = ServeOptions::new("127.0.0.1", 8080);
    assert_eq!((options.host(), options.port()), ("127.0.0.1", 8080));
    let verify = VerifyOptions::new("c.json", "e.json", OutputFormat::Json).with_explain(true);
    assert_eq!((verify.claim_path(), verify.evidence_path()), ("c.json", "e.json"));
    assert_eq!((verify.format(), verify.explain()), (OutputFormat::Json, true));
    assert_eq!(VerifyError::user("bad").message(), "bad");
}

#[test]
fn remaining_builders_and_accessors_behave() {
    let first = EvidenceBuilder::new()
        .id("e-1")
        .claim_id("c")
        .content(EvidenceContent::new("d", "x"))
        .build()
        .expect("evidence");
    let second = EvidenceBuilder::new()
        .id("e-2")
        .claim_id("c")
        .content(EvidenceContent::new("d", "y"))
        .build()
        .expect("evidence");
    let set = vp_reference::EvidenceSetBuilder::new()
        .evidence(first.clone())
        .evidence_vec(vec![second.clone()])
        .build()
        .expect("set");
    assert_eq!(set.evidence(), &[first, second]);

    let placeholder = vp_reference::SpecInput::placeholder().load_placeholder();
    assert_eq!(placeholder, SpecificationContext::placeholder());
    assert!(placeholder.spec_root_identity.is_empty());

    assert_eq!(vp_reference::cli::output::outcome_symbol(Outcome::Satisfied), '\u{2713}');
    assert_eq!(vp_reference::cli::output::outcome_symbol(Outcome::NotSatisfied), '\u{2717}');
    assert_eq!(vp_reference::cli::output::outcome_symbol(Outcome::Indeterminate), '?');

    let event = TraceEvent::new("evt-9", "m").with_metadata(Metadata::from_pairs(vec![("k", "v")]));
    assert_eq!(event.metadata.get("k"), Some("v"));
    let evaluation = RuleEvaluation::new(Outcome::Satisfied, "r").with_trace_events(vec![event.clone()]);
    assert_eq!(evaluation.trace_events, vec![event]);
    assert!(!evaluation.continues);
}

#[test]
fn evaluation_context_placeholder_is_empty() {
    let context = EvaluationContext::placeholder();
    assert_eq!(context.specification(), &SpecificationContext::placeholder());
    assert_eq!(context.claim().id.as_str(), "");
    assert_eq!(context.claim().subject, "");
    assert_eq!(context.claim().assertion, Assertion::new("", ""));
    assert_eq!(context.claim().specification_binding, None);
    assert!(context.claim().metadata.is_empty());
    assert_eq!(context.evidence().id.as_str(), "");
    assert_eq!(context.evidence().claim_id.as_str(), "");
    assert_eq!(context.evidence().content, EvidenceContent::new("", ""));
    assert!(context.evidence().metadata.is_empty());
    assert_eq!(*context.options(), EvaluationOptions { deterministic: true, trace_enabled: true });
}

#[test]
fn separator_categories_are_normalization_whitespace() {
    for c in ['\u{0020}', '\u{00A0}', '\u{3000}', '\u{2028}', '\u{2029}', '\t', '\n', '\r', '\u{000B}', '\u{000C}'] {
        assert!(is_normalization_whitespace(c), "{c:?}");
    }
    for c in ['a', '0', '-', '\u{0085}', '\u{200B}', '\u{FEFF}'] {
        assert!(!is_normalization_whitespace(c), "{c:?}");
    }
}

#[test]
fn empty_rule_set_interpreter_still_evaluates_other_assertion_types() {
    let interpreter = Interpreter::with_rule_set(RuleSet::from_rules(Vec::new()));
    assert_eq!(interpreter.rule_set().len(), 0);

    let unknown = interpreter.evaluate(&context_with("unknown_type", "alpha", "claim-001", "claim-001", "alpha", false));
    assert_eq!(unknown.outcome, Outcome::Indeterminate);

    let normalized =
        interpreter.evaluate(&context_with("normalized_text", "Hello World", "claim-001", "claim-001", "  Hello   World ", false));
    assert_eq!(normalized.outcome, Outcome::Satisfied);
}

#[test]
fn normalized_ascii_text_joins_its_words_with_single_spaces() {
    for s in ["", "   ", "a", "  Hello   World  ", "\tx\ny\r\u{000B}z\u{000C}", "one two", " lead", "trail "] {
        let words: Vec<&str> = s.split(is_normalization_whitespace).filter(|w| !w.is_empty()).collect();
        assert_eq!(normalize_text(s), words.join(" "), "{s:?}");
    }
}

#[test]
fn metadata_from_pairs_keeps_the_last_value_of_each_key() {
    let metadata = Metadata::from_pairs(vec![("runner", "local"), ("mode", "fast"), ("runner", "ci")]);
    assert_eq!(metadata.get("runner"), Some("ci"));
    assert_eq!(metadata.get("mode"), Some("fast"));
    assert_eq!(metadata.get("missing"), None);
    assert!(!metadata.is_empty());
    assert!(!Metadata::from_pairs(vec![("runner", "local")]).is_empty());
    assert!(Metadata::from_pairs(Vec::<(&str, &str)>::new()).is_empty());
}

#[test]
fn normalize_composed_trims_and_collapses_whitespace_only() {
    assert_eq!(normalize_composed("  Hello \t\n  World\u{3000}"), "Hello World");
    assert_eq!(normalize_composed("\u{00A0}\u{2028}"), "");
    assert_eq!(normalize_composed("e\u{0301}  x"), "e\u{0301} x");
    assert_eq!(normalize_composed("a"), "a");
}
