//! Claim and evidence documents of the developer CLI and the evaluation input built from them.
use vstd::prelude::*;

use crate::cli::error::VerifyError;
use crate::context::context_error::ContextBuildError;
use crate::context::evaluation_context::EvaluationOptions;
use crate::context::evaluation_input::EvaluationInput;
use crate::context::specification::{SpecificationContext, SpecificationContextView, SpecificationSummary};
use crate::model::assertion::{Assertion, AssertionView};
use crate::model::build_error::BuildError;
use crate::model::claim::{ClaimBuilder, ClaimView};
use crate::model::evaluation_policy::EvaluationPolicy;
use crate::model::evidence::{EvidenceBuilder, EvidenceView};
use crate::model::evidence_content::{EvidenceContent, EvidenceContentView};
use crate::model::evidence_set::EvidenceSetBuilder;

verus! {

/// Claim document shape.
#[derive(Debug, Clone, PartialEq, Eq)]
pub struct ClaimFile {
    pub claim_id: String,
    pub subject: String,
    pub assertion: AssertionFile,
}

/// Assertion payload of a claim document.
#[derive(Debug, Clone, PartialEq, Eq)]
pub struct AssertionFile {
    pub assertion_type: String,
    pub body: String,
}

/// Evidence document shape.
#[derive(Debug, Clone, PartialEq, Eq)]
pub struct EvidenceFile {
    pub evidence_id: String,
    pub claim_id: String,
    pub evidence_type: String,
    pub content: EvidenceContentFile,
}

/// Content of an evidence document.
#[derive(Debug, Clone, PartialEq, Eq)]
pub struct EvidenceContentFile {
    pub content_type: String,
    pub body: String,
}

/// The claim a claim document describes.
pub open spec fn document_claim(claim: ClaimFile) -> ClaimView {
    ClaimView {
        id: claim.claim_id@,
        subject: claim.subject@,
        assertion: AssertionView { assertion_type: claim.assertion.assertion_type@, body: claim.assertion.body@ },
        specification_binding: None,
        metadata: Map::empty(),
    }
}

/// The evidence record an evidence document describes; its evidence type becomes metadata.
pub open spec fn document_evidence(evidence: EvidenceFile) -> EvidenceView {
    EvidenceView {
        id: evidence.evidence_id@,
        claim_id: evidence.claim_id@,
        content: EvidenceContentView { content_type: evidence.content.content_type@, body: evidence.content.body@ },
        metadata: Map::empty().insert("evidence_type"@, evidence.evidence_type@),
    }
}

/// The records built from documents keep the documents' texts unchanged: the claim its id,
/// subject, assertion type and body; the evidence record its id, the claim id it is bound to,
/// its content type and its content body, character for character.
pub proof fn documents_are_taken_verbatim(claim: ClaimFile, evidence: EvidenceFile)
    ensures
        document_claim(claim).id == claim.claim_id@,
        document_claim(claim).subject == claim.subject@,
        document_claim(claim).assertion.assertion_type == claim.assertion.assertion_type@,
        document_claim(claim).assertion.body == claim.assertion.body@,
        document_evidence(evidence).id == evidence.evidence_id@,
        document_evidence(evidence).claim_id == evidence.claim_id@,
        document_evidence(evidence).content.content_type == evidence.content.content_type@,
        document_evidence(evidence).content.body == evidence.content.body@,
{
}

/// The specification context the developer CLI evaluates against.
pub open spec fn developer_specification() -> SpecificationContextView {
    SpecificationContextView {
        spec_root_identity: "developer-cli"@,
        edition_id: None,
        protocol_version: Some("platform-1.3-dev"@),
        summary: SpecificationSummary { term_count: 0, rfc_count: 0, document_count: 0, reference_edge_count: 0 },
    }
}

/// Builds the evaluation input for one claim document and one evidence document:
/// the `ALL_REQUIRED` policy, default options, and a one-envelope evidence set.
pub fn build_evaluation_input(claim_file: ClaimFile, evidence_file: EvidenceFile) -> (r: Result<
    EvaluationInput,
    VerifyError,
>)
    ensures
        r matches Ok(input) && input.claim@ == document_claim(claim_file) && input.evidence_set@.len() == 1
            && input.evidence_set@[0]@ == document_evidence(evidence_file) && input.specification@
            == developer_specification() && input.evaluation_policy == EvaluationPolicy::AllRequired
            && input.options == (EvaluationOptions { deterministic: true, trace_enabled: true }),
        r matches Ok(input) && input.claim@.id == claim_file.claim_id@ && input.claim@.assertion.assertion_type
            == claim_file.assertion.assertion_type@ && input.claim@.assertion.body == claim_file.assertion.body@
            && input.evidence_set@[0]@.id == evidence_file.evidence_id@ && input.evidence_set@[0]@.claim_id
            == evidence_file.claim_id@ && input.evidence_set@[0]@.content.content_type
            == evidence_file.content.content_type@ && input.evidence_set@[0]@.content.body
            == evidence_file.content.body@,
{
    let ghost evidence_doc = evidence_file;
    let claim = match ClaimBuilder::new().id(claim_file.claim_id).subject(claim_file.subject).assertion(
        Assertion::new(claim_file.assertion.assertion_type, claim_file.assertion.body),
    ).build() {
        Ok(claim) => claim,
        Err(error) => return Err(domain_build_error(error)),
    };

    let evidence = match EvidenceBuilder::new().id(evidence_file.evidence_id).claim_id(evidence_file.claim_id).content(
        EvidenceContent::new(evidence_file.content.content_type, evidence_file.content.body),
    ).metadata_entry("evidence_type", evidence_file.evidence_type).build() {
        Ok(evidence) => evidence,
        Err(error) => return Err(domain_build_error(error)),
    };
    assert(evidence@ == document_evidence(evidence_doc));

    let evidence_set = match EvidenceSetBuilder::new().evidence(evidence).build() {
        Ok(set) => set,
        Err(error) => return Err(domain_build_error(error)),
    };

    let specification = SpecificationContext {
        spec_root_identity: String::from_str("developer-cli"),
        edition_id: None,
        protocol_version: Some(String::from_str("platform-1.3-dev")),
        summary: SpecificationSummary::default(),
    };

    let built = EvaluationInput::builder().specification_context(specification).claim(claim).evidence_set(
        evidence_set,
    ).evaluation_policy(EvaluationPolicy::AllRequired).options(EvaluationOptions::default()).build();
    match built {
        Ok(input) => Ok(input),
        Err(error) => Err(context_build_error(error)),
    }
}

/// The user error for a domain object that could not be built.
pub fn domain_build_error(error: BuildError) -> (r: VerifyError)
    ensures
        r@ == "invalid claim or evidence: missing "@ + error.field@,
{
    let mut message = String::from_str("invalid claim or evidence: missing ");
    message.append(error.field);
    VerifyError::user(message)
}

/// The user error for an evaluation input that could not be built.
pub fn context_build_error(error: ContextBuildError) -> (r: VerifyError)
    ensures
        r@ == "invalid evaluation input: missing "@ + error.field@,
{
    let mut message = String::from_str("invalid evaluation input: missing ");
    message.append(error.field);
    VerifyError::user(message)
}

} // verus!
