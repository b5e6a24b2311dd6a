//! The verify pipeline: documents in, rendered verification out.
use vstd::prelude::*;

use crate::cli::error::VerifyError;
use crate::cli::input::{
    build_evaluation_input, developer_specification, document_claim, document_evidence, ClaimFile, EvidenceFile,
};
use crate::cli::output::{
    compact_lines, explain_lines, json_report, render_human, reports, JsonReport, OutputFormat, VerifyRenderInput,
};
use crate::context::evaluation_context::{EvaluationContextView, EvaluationOptions};
use crate::interpreter::evaluator_run::builtin_only;
use crate::interpreter::evaluators::registry::{assertion_family, AssertionFamily};
use crate::interpreter::interpreter::{
    default_rules, envelope_context, envelope_run, input_evaluation_is_determined, input_result_of,
    Interpreter,
};
use crate::model::evaluation_policy::EvaluationPolicy;
use crate::model::verification_result::VerificationResultView;
use crate::text::{joined, IntoText};

verus! {

/// Options for one claim and evidence verification run.
#[derive(Debug, Clone, PartialEq, Eq)]
pub struct VerifyOptions {
    claim_path: String,
    evidence_path: String,
    format: OutputFormat,
    explain: bool,
}

impl VerifyOptions {
    pub closed spec fn claim_path_view(&self) -> Seq<char> {
        self.claim_path@
    }

    pub closed spec fn evidence_path_view(&self) -> Seq<char> {
        self.evidence_path@
    }

    pub closed spec fn format_value(&self) -> OutputFormat {
        self.format
    }

    pub closed spec fn explain_value(&self) -> bool {
        self.explain
    }

    pub fn new<T: IntoText, U: IntoText>(claim_path: T, evidence_path: U, format: OutputFormat) -> (r: Self)
        ensures
            r.claim_path_view() == claim_path.text_view(),
            r.evidence_path_view() == evidence_path.text_view(),
            r.format_value() == format,
            !r.explain_value(),
    {
        VerifyOptions {
            claim_path: claim_path.into_text(),
            evidence_path: evidence_path.into_text(),
            format,
            explain: false,
        }
    }

    pub fn with_explain(self, explain: bool) -> (r: Self)
        ensures
            r.claim_path_view() == self.claim_path_view(),
            r.evidence_path_view() == self.evidence_path_view(),
            r.format_value() == self.format_value(),
            r.explain_value() == explain,
    {
        VerifyOptions { explain, ..self }
    }

    pub fn claim_path(&self) -> (r: &str)
        ensures
            r@ == self.claim_path_view(),
    {
        self.claim_path.as_str()
    }

    pub fn evidence_path(&self) -> (r: &str)
        ensures
            r@ == self.evidence_path_view(),
    {
        self.evidence_path.as_str()
    }

    pub fn format(&self) -> (r: OutputFormat)
        ensures
            r == self.format_value(),
    {
        self.format
    }

    pub fn explain(&self) -> (r: bool)
        ensures
            r == self.explain_value(),
    {
        self.explain
    }
}

/// Rendered verification: text for a human reader, or the report to serialize as JSON.
#[derive(Debug, Clone, PartialEq, Eq)]
pub enum VerifyOutput {
    Human(String),
    Json(JsonReport),
}

impl VerifyOutput {
    /// The rendered text of human output.
    pub fn rendered(&self) -> (r: Option<&str>)
        ensures
            match self {
                VerifyOutput::Human(text) => r matches Some(t) && t@ == text@,
                VerifyOutput::Json(_) => r is None,
            },
    {
        match self {
            VerifyOutput::Human(text) => Some(text.as_str()),
            VerifyOutput::Json(_) => None,
        }
    }
}

/// The context in which the evidence document is evaluated against the claim document.
pub open spec fn document_context(claim: ClaimFile, evidence: EvidenceFile) -> EvaluationContextView {
    EvaluationContextView {
        specification: developer_specification(),
        claim: document_claim(claim),
        evidence: document_evidence(evidence),
        options: EvaluationOptions { deterministic: true, trace_enabled: true },
    }
}

/// The result of verifying the evidence document against the claim document.
pub open spec fn document_result(claim: ClaimFile, evidence: EvidenceFile) -> VerificationResultView {
    input_result_of(
        developer_specification(),
        document_claim(claim),
        seq![evidence.evidence_id@],
        EvaluationPolicy::AllRequired,
        EvaluationOptions { deterministic: true, trace_enabled: true },
        seq![envelope_run(|f: AssertionFamily| default_rules(f), document_context(claim, evidence))],
    )
}

/// Verifies in-memory claim and evidence documents with the default interpreter and renders the result.
pub fn run_verify_documents(
    claim_file: ClaimFile,
    evidence_file: EvidenceFile,
    format: OutputFormat,
    explain: bool,
) -> (r: Result<VerifyOutput, VerifyError>)
    ensures
        r is Ok,
        format == OutputFormat::Human ==> (r matches Ok(VerifyOutput::Human(text)) && text@ == joined(
            if explain {
                explain_lines(
                    document_claim(claim_file),
                    document_evidence(evidence_file),
                    EvaluationPolicy::AllRequired,
                    document_result(claim_file, evidence_file),
                )
            } else {
                compact_lines(document_result(claim_file, evidence_file))
            },
            "\n"@,
        )),
        format == OutputFormat::Json ==> (r matches Ok(VerifyOutput::Json(report)) && reports(
            report,
            document_claim(claim_file),
            seq![document_evidence(evidence_file)],
            EvaluationPolicy::AllRequired,
            document_result(claim_file, evidence_file),
            explain,
        )),
{
    let ghost claim_doc = claim_file;
    let ghost evidence_doc = evidence_file;
    let input = match build_evaluation_input(claim_file, evidence_file) {
        Ok(input) => input,
        Err(error) => return Err(error),
    };
    let interpreter = Interpreter::new();
    let ghost family = assertion_family(input.claim@.assertion.assertion_type);
    proof {
        let rules = interpreter.rules_for(family);
        assert(rules == default_rules(family));
        assert(rules.len() <= 2);
        assert(builtin_only(rules));
        assert(input.evidence_set@.len() * (rules.len() + 3) + 2 <= u32::MAX) by (nonlinear_arith)
            requires
                input.evidence_set@.len() == 1,
                rules.len() <= 2,
        ;
    }
    let result = interpreter.evaluate_input(&input);
    proof {
        input_evaluation_is_determined(interpreter, input, result@);
        assert((|f: AssertionFamily| interpreter.rules_for(f)) =~= (|f: AssertionFamily| default_rules(f)));
        assert(envelope_context(input, 0) == document_context(claim_doc, evidence_doc));
        assert(input.evidence_set@.map_values(|e: crate::model::evidence::Evidence| e.id@) =~= seq![
            evidence_doc.evidence_id@,
        ]);
        assert(Seq::new(
            input.evidence_set@.len(),
            |i: int| envelope_run(|f: AssertionFamily| interpreter.rules_for(f), envelope_context(input, i)),
        ) =~= seq![envelope_run(|f: AssertionFamily| default_rules(f), document_context(claim_doc, evidence_doc))]);
        assert(result@ == document_result(claim_doc, evidence_doc));
        assert(input.evidence_set@.map_values(|e: crate::model::evidence::Evidence| e@) =~= seq![
            document_evidence(evidence_doc),
        ]);
    }
    let render_input = VerifyRenderInput { evaluation_input: &input, result: &result, explain };
    match format {
        OutputFormat::Human => Ok(VerifyOutput::Human(render_human(&render_input))),
        OutputFormat::Json => Ok(VerifyOutput::Json(json_report(&render_input))),
    }
}

} // verus!
