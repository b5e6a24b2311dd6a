//! Session context for one claim/evidence evaluation run.
use vstd::prelude::*;

use crate::context::context_error::ContextBuildError;
use crate::context::specification::{SpecificationContext, SpecificationContextView};
use crate::model::claim::{Claim, ClaimView};
use crate::model::assertion::Assertion;
use crate::model::evidence::{Evidence, EvidenceView};
use crate::model::evidence_content::EvidenceContent;
use crate::model::identifiers::{ClaimId, EvidenceId};
use crate::model::metadata::Metadata;

verus! {

/// Switches for an evaluation run.
#[derive(Debug, Clone, Copy, PartialEq, Eq, Structural)]
pub struct EvaluationOptions {
    pub deterministic: bool,
    pub trace_enabled: bool,
}

impl Default for EvaluationOptions {
    /// Deterministic evaluation with tracing on.
    fn default() -> (r: Self)
        ensures
            r.deterministic,
            r.trace_enabled,
    {
        EvaluationOptions { deterministic: true, trace_enabled: true }
    }
}

/// Everything one rule evaluation reads: specification, claim, one evidence record and options.
#[derive(Debug, Clone, PartialEq, Eq)]
pub struct EvaluationContext {
    specification: SpecificationContext,
    claim: Claim,
    evidence: Evidence,
    options: EvaluationOptions,
}

/// Spec-level contents of an [`EvaluationContext`].
pub struct EvaluationContextView {
    pub specification: SpecificationContextView,
    pub claim: ClaimView,
    pub evidence: EvidenceView,
    pub options: EvaluationOptions,
}

impl View for EvaluationContext {
    type V = EvaluationContextView;

    closed spec fn view(&self) -> EvaluationContextView {
        EvaluationContextView {
            specification: self.specification@,
            claim: self.claim@,
            evidence: self.evidence@,
            options: self.options,
        }
    }
}

impl EvaluationContext {
    pub fn builder() -> (r: EvaluationContextBuilder)
        ensures
            r@ == EvaluationContextBuilder::empty_view(),
    {
        EvaluationContextBuilder::new()
    }

    /// An empty context: the empty specification, a claim and an evidence record whose
    /// texts are all empty, with no binding and no metadata, and the default options.
    pub fn placeholder() -> (r: Self)
        ensures
            r@.specification.spec_root_identity.len() == 0,
            r@.specification.edition_id is None,
            r@.specification.protocol_version is None,
            r@.specification.summary == SpecificationContext::placeholder_summary(),
            r@.claim.id.len() == 0,
            r@.claim.subject.len() == 0,
            r@.claim.assertion.assertion_type.len() == 0,
            r@.claim.assertion.body.len() == 0,
            r@.claim.specification_binding is None,
            r@.claim.metadata == Map::<Seq<char>, Seq<char>>::empty(),
            r@.evidence.id.len() == 0,
            r@.evidence.claim_id.len() == 0,
            r@.evidence.content.content_type.len() == 0,
            r@.evidence.content.body.len() == 0,
            r@.evidence.metadata == Map::<Seq<char>, Seq<char>>::empty(),
            r@.options == (EvaluationOptions { deterministic: true, trace_enabled: true }),
    {
        let claim = Claim {
            id: ClaimId::new(String::new()),
            subject: String::new(),
            assertion: Assertion::new(String::new(), String::new()),
            specification_binding: None,
            metadata: Metadata::new(),
        };
        let evidence = Evidence {
            id: EvidenceId::new(String::new()),
            claim_id: ClaimId::new(String::new()),
            content: EvidenceContent::new(String::new(), String::new()),
            metadata: Metadata::new(),
        };
        EvaluationContext {
            specification: SpecificationContext::placeholder(),
            claim,
            evidence,
            options: EvaluationOptions::default(),
        }
    }

    pub fn specification(&self) -> (r: &SpecificationContext)
        ensures
            r@ == self@.specification,
    {
        &self.specification
    }

    pub fn claim(&self) -> (r: &Claim)
        ensures
            r@ == self@.claim,
    {
        &self.claim
    }

    pub fn evidence(&self) -> (r: &Evidence)
        ensures
            r@ == self@.evidence,
    {
        &self.evidence
    }

    pub fn options(&self) -> (r: &EvaluationOptions)
        ensures
            *r == self@.options,
    {
        &self.options
    }
}

/// Constructs an [`EvaluationContext`]; specification, claim and evidence are required.
#[derive(Debug)]
pub struct EvaluationContextBuilder {
    specification: Option<SpecificationContext>,
    claim: Option<Claim>,
    evidence: Option<Evidence>,
    options: EvaluationOptions,
}

/// Spec-level contents of an [`EvaluationContextBuilder`]: the fields set so far.
pub struct EvaluationContextBuilderView {
    pub specification: Option<SpecificationContextView>,
    pub claim: Option<ClaimView>,
    pub evidence: Option<EvidenceView>,
    pub options: EvaluationOptions,
}

impl View for EvaluationContextBuilder {
    type V = EvaluationContextBuilderView;

    closed spec fn view(&self) -> EvaluationContextBuilderView {
        EvaluationContextBuilderView {
            specification: match self.specification {
                Some(s) => Some(s@),
                None => None,
            },
            claim: match self.claim {
                Some(c) => Some(c@),
                None => None,
            },
            evidence: match self.evidence {
                Some(e) => Some(e@),
                None => None,
            },
            options: self.options,
        }
    }
}

impl Default for EvaluationContextBuilder {
    fn default() -> (r: Self)
        ensures
            r@ == EvaluationContextBuilder::empty_view(),
    {
        EvaluationContextBuilder::new()
    }
}

impl EvaluationContextBuilder {
    /// A builder with nothing set and default options.
    pub open spec fn empty_view() -> EvaluationContextBuilderView {
        EvaluationContextBuilderView {
            specification: None,
            claim: None,
            evidence: None,
            options: EvaluationOptions { deterministic: true, trace_enabled: true },
        }
    }

    pub fn new() -> (r: Self)
        ensures
            r@ == Self::empty_view(),
    {
        EvaluationContextBuilder {
            specification: None,
            claim: None,
            evidence: None,
            options: EvaluationOptions::default(),
        }
    }

    pub fn specification_context(self, specification: SpecificationContext) -> (r: Self)
        ensures
            r@ == (EvaluationContextBuilderView { specification: Some(specification@), ..self@ }),
    {
        EvaluationContextBuilder { specification: Some(specification), ..self }
    }

    pub fn claim(self, claim: Claim) -> (r: Self)
        ensures
            r@ == (EvaluationContextBuilderView { claim: Some(claim@), ..self@ }),
    {
        EvaluationContextBuilder { claim: Some(claim), ..self }
    }

    pub fn evidence(self, evidence: Evidence) -> (r: Self)
        ensures
            r@ == (EvaluationContextBuilderView { evidence: Some(evidence@), ..self@ }),
    {
        EvaluationContextBuilder { evidence: Some(evidence), ..self }
    }

    pub fn options(self, options: EvaluationOptions) -> (r: Self)
        ensures
            r@ == (EvaluationContextBuilderView { options, ..self@ }),
    {
        EvaluationContextBuilder { options, ..self }
    }

    /// Builds the context, or names the first required field that is missing
    /// (checked in the order `specification`, `claim`, `evidence`).
    pub fn build(self) -> (r: Result<EvaluationContext, ContextBuildError>)
        ensures
            r is Ok <==> (self@.specification is Some && self@.claim is Some && self@.evidence is Some),
            r matches Ok(c) ==> c@ == (EvaluationContextView {
                specification: self@.specification->0,
                claim: self@.claim->0,
                evidence: self@.evidence->0,
                options: self@.options,
            }),
            self@.specification is None ==> r == Err::<EvaluationContext, ContextBuildError>(
                ContextBuildError { field: "specification" },
            ),
            self@.specification is Some && self@.claim is None ==> r == Err::<EvaluationContext, ContextBuildError>(
                ContextBuildError { field: "claim" },
            ),
            self@.specification is Some && self@.claim is Some && self@.evidence is None ==> r == Err::<
                EvaluationContext,
                ContextBuildError,
            >(ContextBuildError { field: "evidence" }),
    {
        let specification = match self.specification {
            Some(specification) => specification,
            None => return Err(ContextBuildError::missing("specification")),
        };
        let claim = match self.claim {
            Some(claim) => claim,
            None => return Err(ContextBuildError::missing("claim")),
        };
        let evidence = match self.evidence {
            Some(evidence) => evidence,
            None => return Err(ContextBuildError::missing("evidence")),
        };
        Ok(EvaluationContext { specification, claim, evidence, options: self.options })
    }
}

} // verus!
