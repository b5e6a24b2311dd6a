//! Multi-evidence evaluation input: one claim, an evidence set and a policy.
use vstd::prelude::*;

use crate::context::context_error::ContextBuildError;
use crate::context::evaluation_context::EvaluationOptions;
use crate::context::specification::{SpecificationContext, SpecificationContextView};
use crate::model::claim::{Claim, ClaimView};
use crate::model::evaluation_policy::EvaluationPolicy;
use crate::model::evidence::Evidence;
use crate::model::evidence_set::EvidenceSet;

verus! {

/// Path-free input bundle for multi-evidence evaluation.
#[derive(Debug, Clone, PartialEq, Eq)]
pub struct EvaluationInput {
    pub specification: SpecificationContext,
    pub claim: Claim,
    pub evidence_set: EvidenceSet,
    pub evaluation_policy: EvaluationPolicy,
    pub options: EvaluationOptions,
}

impl EvaluationInput {
    pub fn builder() -> (r: EvaluationInputBuilder)
        ensures
            r@ == EvaluationInputBuilder::empty_view(),
    {
        EvaluationInputBuilder::new()
    }

    pub fn specification(&self) -> (r: &SpecificationContext)
        ensures
            r == &self.specification,
    {
        &self.specification
    }

    pub fn claim(&self) -> (r: &Claim)
        ensures
            r == &self.claim,
    {
        &self.claim
    }

    pub fn evidence_set(&self) -> (r: &EvidenceSet)
        ensures
            r == &self.evidence_set,
    {
        &self.evidence_set
    }

    pub fn evaluation_policy(&self) -> (r: EvaluationPolicy)
        ensures
            r == self.evaluation_policy,
    {
        self.evaluation_policy
    }

    pub fn options(&self) -> (r: &EvaluationOptions)
        ensures
            *r == self.options,
    {
        &self.options
    }
}

/// Constructs an [`EvaluationInput`]; specification, claim and evidence set are required.
#[derive(Debug)]
pub struct EvaluationInputBuilder {
    specification: Option<SpecificationContext>,
    claim: Option<Claim>,
    evidence_set: Option<EvidenceSet>,
    evaluation_policy: EvaluationPolicy,
    options: EvaluationOptions,
}

/// Spec-level contents of an [`EvaluationInputBuilder`]: the fields set so far.
pub struct EvaluationInputBuilderView {
    pub specification: Option<SpecificationContextView>,
    pub claim: Option<ClaimView>,
    pub evidence_set: Option<Seq<Evidence>>,
    pub evaluation_policy: EvaluationPolicy,
    pub options: EvaluationOptions,
}

impl View for EvaluationInputBuilder {
    type V = EvaluationInputBuilderView;

    closed spec fn view(&self) -> EvaluationInputBuilderView {
        EvaluationInputBuilderView {
            specification: match self.specification {
                Some(s) => Some(s@),
                None => None,
            },
            claim: match self.claim {
                Some(c) => Some(c@),
                None => None,
            },
            evidence_set: match self.evidence_set {
                Some(e) => Some(e@),
                None => None,
            },
            evaluation_policy: self.evaluation_policy,
            options: self.options,
        }
    }
}

impl Default for EvaluationInputBuilder {
    fn default() -> (r: Self)
        ensures
            r@ == EvaluationInputBuilder::empty_view(),
    {
        EvaluationInputBuilder::new()
    }
}

impl EvaluationInputBuilder {
    /// A builder with nothing set, the `ALL_REQUIRED` policy and default options.
    pub open spec fn empty_view() -> EvaluationInputBuilderView {
        EvaluationInputBuilderView {
            specification: None,
            claim: None,
            evidence_set: None,
            evaluation_policy: EvaluationPolicy::AllRequired,
            options: EvaluationOptions { deterministic: true, trace_enabled: true },
        }
    }

    pub fn new() -> (r: Self)
        ensures
            r@ == Self::empty_view(),
    {
        EvaluationInputBuilder {
            specification: None,
            claim: None,
            evidence_set: None,
            evaluation_policy: EvaluationPolicy::AllRequired,
            options: EvaluationOptions::default(),
        }
    }

    pub fn specification_context(self, specification: SpecificationContext) -> (r: Self)
        ensures
            r@ == (EvaluationInputBuilderView { specification: Some(specification@), ..self@ }),
    {
        EvaluationInputBuilder { specification: Some(specification), ..self }
    }

    pub fn claim(self, claim: Claim) -> (r: Self)
        ensures
            r@ == (EvaluationInputBuilderView { claim: Some(claim@), ..self@ }),
    {
        EvaluationInputBuilder { claim: Some(claim), ..self }
    }

    pub fn evidence_set(self, evidence_set: EvidenceSet) -> (r: Self)
        ensures
            r@ == (EvaluationInputBuilderView { evidence_set: Some(evidence_set@), ..self@ }),
    {
        EvaluationInputBuilder { evidence_set: Some(evidence_set), ..self }
    }

    pub fn evaluation_policy(self, evaluation_policy: EvaluationPolicy) -> (r: Self)
        ensures
            r@ == (EvaluationInputBuilderView { evaluation_policy, ..self@ }),
    {
        EvaluationInputBuilder { evaluation_policy, ..self }
    }

    pub fn options(self, options: EvaluationOptions) -> (r: Self)
        ensures
            r@ == (EvaluationInputBuilderView { options, ..self@ }),
    {
        EvaluationInputBuilder { options, ..self }
    }

    /// Builds the input, or names the first required field that is missing
    /// (checked in the order `specification`, `claim`, `evidence_set`).
    pub fn build(self) -> (r: Result<EvaluationInput, ContextBuildError>)
        ensures
            r is Ok <==> (self@.specification is Some && self@.claim is Some && self@.evidence_set is Some),
            r matches Ok(input) ==> input.specification@ == self@.specification->0 && input.claim@
                == self@.claim->0 && input.evidence_set@ == self@.evidence_set->0 && input.evaluation_policy
                == self@.evaluation_policy && input.options == self@.options,
            self@.specification is None ==> r == Err::<EvaluationInput, ContextBuildError>(
                ContextBuildError { field: "specification" },
            ),
            self@.specification is Some && self@.claim is None ==> r == Err::<EvaluationInput, ContextBuildError>(
                ContextBuildError { field: "claim" },
            ),
            self@.specification is Some && self@.claim is Some && self@.evidence_set is None ==> r == Err::<
                EvaluationInput,
                ContextBuildError,
            >(ContextBuildError { field: "evidence_set" }),
    {
        let specification = match self.specification {
            Some(specification) => specification,
            None => return Err(ContextBuildError::missing("specification")),
        };
        let claim = match self.claim {
            Some(claim) => claim,
            None => return Err(ContextBuildError::missing("claim")),
        };
        let evidence_set = match self.evidence_set {
            Some(evidence_set) => evidence_set,
            None => return Err(ContextBuildError::missing("evidence_set")),
        };
        Ok(EvaluationInput {
            specification,
            claim,
            evidence_set,
            evaluation_policy: self.evaluation_policy,
            options: self.options,
        })
    }
}

} // verus!
