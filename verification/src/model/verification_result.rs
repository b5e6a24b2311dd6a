//! Root verification result returned by the interpreter.
use vstd::prelude::*;

use crate::model::build_error::BuildError;
use crate::model::identifiers::{ClaimId, SpecificationBinding, SpecificationBindingView};
use crate::model::metadata::Metadata;
use crate::model::outcome::Outcome;
use crate::model::trace::{Trace, TraceEventView};
use crate::text::{lemma_texts_view_push, texts_view, IntoText};

verus! {

/// Combined verification decision for reporting and conformance comparison.
#[derive(Debug, Clone, PartialEq, Eq)]
pub struct VerificationResult {
    pub evaluated_claim_id: ClaimId,
    pub outcome: Outcome,
    pub trace: Trace,
    pub metadata: Metadata,
    pub specification_binding: SpecificationBinding,
    pub reasons: Vec<String>,
}

/// Spec-level contents of a [`VerificationResult`].
pub struct VerificationResultView {
    pub evaluated_claim_id: Seq<char>,
    pub outcome: Outcome,
    pub trace: Seq<TraceEventView>,
    pub metadata: Map<Seq<char>, Seq<char>>,
    pub specification_binding: SpecificationBindingView,
    pub reasons: Seq<Seq<char>>,
}

impl View for VerificationResult {
    type V = VerificationResultView;

    open spec fn view(&self) -> VerificationResultView {
        VerificationResultView {
            evaluated_claim_id: self.evaluated_claim_id@,
            outcome: self.outcome,
            trace: self.trace@,
            metadata: self.metadata@,
            specification_binding: self.specification_binding@,
            reasons: texts_view(self.reasons@),
        }
    }
}

impl VerificationResult {
    pub fn builder() -> (r: VerificationResultBuilder)
        ensures
            r@ == VerificationResultBuilder::empty_view(),
    {
        VerificationResultBuilder::new()
    }
}

/// Constructs a [`VerificationResult`]; the claim id and the outcome are required.
#[derive(Debug)]
pub struct VerificationResultBuilder {
    evaluated_claim_id: Option<ClaimId>,
    outcome: Option<Outcome>,
    trace: Option<Trace>,
    metadata: Metadata,
    specification_binding: SpecificationBinding,
    reasons: Vec<String>,
}

/// Spec-level contents of a [`VerificationResultBuilder`]: the fields set so far.
pub struct VerificationResultBuilderView {
    pub evaluated_claim_id: Option<Seq<char>>,
    pub outcome: Option<Outcome>,
    pub trace: Option<Seq<TraceEventView>>,
    pub metadata: Map<Seq<char>, Seq<char>>,
    pub specification_binding: SpecificationBindingView,
    pub reasons: Seq<Seq<char>>,
}

impl View for VerificationResultBuilder {
    type V = VerificationResultBuilderView;

    closed spec fn view(&self) -> VerificationResultBuilderView {
        VerificationResultBuilderView {
            evaluated_claim_id: match self.evaluated_claim_id {
                Some(i) => Some(i@),
                None => None,
            },
            outcome: self.outcome,
            trace: match self.trace {
                Some(t) => Some(t@),
                None => None,
            },
            metadata: self.metadata@,
            specification_binding: self.specification_binding@,
            reasons: texts_view(self.reasons@),
        }
    }
}

impl Default for VerificationResultBuilder {
    fn default() -> (r: Self)
        ensures
            r@ == VerificationResultBuilder::empty_view(),
    {
        VerificationResultBuilder::new()
    }
}

impl VerificationResultBuilder {
    /// A builder with nothing set.
    pub open spec fn empty_view() -> VerificationResultBuilderView {
        VerificationResultBuilderView {
            evaluated_claim_id: None,
            outcome: None,
            trace: None,
            metadata: Map::empty(),
            specification_binding: SpecificationBindingView { edition_id: None, protocol_version: None },
            reasons: Seq::empty(),
        }
    }

    pub fn new() -> (r: Self)
        ensures
            r@ == Self::empty_view(),
    {
        let r = VerificationResultBuilder {
            evaluated_claim_id: None,
            outcome: None,
            trace: None,
            metadata: Metadata::new(),
            specification_binding: SpecificationBinding::new(),
            reasons: Vec::new(),
        };
        assert(r@.reasons =~= Seq::<Seq<char>>::empty());
        r
    }

    pub fn evaluated_claim_id<T: IntoText>(self, claim_id: T) -> (r: Self)
        ensures
            r@ == (VerificationResultBuilderView { evaluated_claim_id: Some(claim_id.text_view()), ..self@ }),
    {
        VerificationResultBuilder { evaluated_claim_id: Some(ClaimId::new(claim_id)), ..self }
    }

    pub fn outcome(self, outcome: Outcome) -> (r: Self)
        ensures
            r@ == (VerificationResultBuilderView { outcome: Some(outcome), ..self@ }),
    {
        VerificationResultBuilder { outcome: Some(outcome), ..self }
    }

    pub fn trace(self, trace: Trace) -> (r: Self)
        ensures
            r@ == (VerificationResultBuilderView { trace: Some(trace@), ..self@ }),
    {
        VerificationResultBuilder { trace: Some(trace), ..self }
    }

    pub fn metadata(self, metadata: Metadata) -> (r: Self)
        ensures
            r@ == (VerificationResultBuilderView { metadata: metadata@, ..self@ }),
    {
        VerificationResultBuilder { metadata, ..self }
    }

    pub fn specification_binding(self, binding: SpecificationBinding) -> (r: Self)
        ensures
            r@ == (VerificationResultBuilderView { specification_binding: binding@, ..self@ }),
    {
        VerificationResultBuilder { specification_binding: binding, ..self }
    }

    /// Appends one reason after those already added.
    pub fn reason<T: IntoText>(self, reason: T) -> (r: Self)
        ensures
            r@ == (VerificationResultBuilderView { reasons: self@.reasons.push(reason.text_view()), ..self@ }),
    {
        let mut reasons = self.reasons;
        let text = reason.into_text();
        proof {
            lemma_texts_view_push(reasons@, text);
        }
        reasons.push(text);
        VerificationResultBuilder { reasons, ..self }
    }

    /// Appends reasons in their order after those already added.
    pub fn reasons<T: IntoText>(self, reasons: Vec<T>) -> (r: Self)
        ensures
            r@ == (VerificationResultBuilderView {
                reasons: self@.reasons + reasons@.map_values(|t: T| t.text_view()),
                ..self@
            }),
    {
        let ghost given = reasons@;
        let mut builder = self;
        let mut rest = reasons;
        let ghost mut done: int = 0;
        while rest.len() > 0
            invariant
                0 <= done <= given.len(),
                rest@ == given.subrange(done, given.len() as int),
                builder@ == (VerificationResultBuilderView {
                    reasons: self@.reasons + given.subrange(0, done).map_values(|t: T| t.text_view()),
                    ..self@
                }),
            decreases rest.len(),
        {
            let next = rest.remove(0);
            proof {
                assert(given.subrange(0, done + 1).map_values(|t: T| t.text_view()) == given.subrange(0, done).map_values(
                    |t: T| t.text_view(),
                ).push(next.text_view()));
                assert(rest@ == given.subrange(done + 1, given.len() as int));
                done = done + 1;
            }
            builder = builder.reason(next);
        }
        assert(given.subrange(0, given.len() as int) == given);
        builder
    }

    /// Builds the result, or names the first required field that is missing
    /// (checked in the order `evaluated_claim_id`, `outcome`); an unset trace is empty.
    pub fn build(self) -> (r: Result<VerificationResult, BuildError>)
        ensures
            r is Ok <==> (self@.evaluated_claim_id is Some && self@.outcome is Some),
            r matches Ok(v) ==> v@ == (VerificationResultView {
                evaluated_claim_id: self@.evaluated_claim_id->0,
                outcome: self@.outcome->0,
                trace: match self@.trace {
                    Some(t) => t,
                    None => Seq::empty(),
                },
                metadata: self@.metadata,
                specification_binding: self@.specification_binding,
                reasons: self@.reasons,
            }),
            self@.evaluated_claim_id is None ==> r == Err::<VerificationResult, BuildError>(
                BuildError { field: "evaluated_claim_id" },
            ),
            self@.evaluated_claim_id is Some && self@.outcome is None ==> r == Err::<VerificationResult, BuildError>(
                BuildError { field: "outcome" },
            ),
    {
        let evaluated_claim_id = match self.evaluated_claim_id {
            Some(id) => id,
            None => return Err(BuildError::missing("evaluated_claim_id")),
        };
        let outcome = match self.outcome {
            Some(outcome) => outcome,
            None => return Err(BuildError::missing("outcome")),
        };
        let trace = match self.trace {
            Some(trace) => trace,
            None => Trace::default(),
        };
        Ok(VerificationResult {
            evaluated_claim_id,
            outcome,
            trace,
            metadata: self.metadata,
            specification_binding: self.specification_binding,
            reasons: self.reasons,
        })
    }
}

} // verus!
