//! Claim envelope: identity and binding separate from asserted content.
use vstd::prelude::*;

use crate::model::assertion::{Assertion, AssertionView};
use crate::model::build_error::BuildError;
use crate::model::identifiers::{ClaimId, SpecificationBinding, SpecificationBindingView};
use crate::model::metadata::Metadata;
use crate::text::IntoText;

verus! {

/// View of an optional specification binding.
pub open spec fn opt_binding(o: Option<SpecificationBinding>) -> Option<SpecificationBindingView> {
    match o {
        Some(b) => Some(b@),
        None => None,
    }
}

/// Verifiable protocol claim input (identity + assertion).
#[derive(Debug, Clone, PartialEq, Eq)]
pub struct Claim {
    pub id: ClaimId,
    pub subject: String,
    pub assertion: Assertion,
    pub specification_binding: Option<SpecificationBinding>,
    pub metadata: Metadata,
}

/// Spec-level contents of a [`Claim`].
pub struct ClaimView {
    pub id: Seq<char>,
    pub subject: Seq<char>,
    pub assertion: AssertionView,
    pub specification_binding: Option<SpecificationBindingView>,
    pub metadata: Map<Seq<char>, Seq<char>>,
}

impl View for Claim {
    type V = ClaimView;

    open spec fn view(&self) -> ClaimView {
        ClaimView {
            id: self.id@,
            subject: self.subject@,
            assertion: self.assertion@,
            specification_binding: opt_binding(self.specification_binding),
            metadata: self.metadata@,
        }
    }
}

impl Claim {
    pub fn builder() -> (r: ClaimBuilder)
        ensures
            r@ == ClaimBuilder::empty_view(),
    {
        ClaimBuilder::new()
    }

    /// A copy with the same contents.
    pub fn duplicate(&self) -> (r: Self)
        ensures
            r@ == self@,
    {
        Claim {
            id: self.id.duplicate(),
            subject: self.subject.clone(),
            assertion: self.assertion.duplicate(),
            specification_binding: match &self.specification_binding {
                Some(b) => Some(b.duplicate()),
                None => None,
            },
            metadata: self.metadata.clone(),
        }
    }
}

/// Constructs a [`Claim`]; `id`, `subject` and `assertion` are required.
#[derive(Debug)]
pub struct ClaimBuilder {
    id: Option<ClaimId>,
    subject: Option<String>,
    assertion: Option<Assertion>,
    specification_binding: Option<SpecificationBinding>,
    metadata: Metadata,
}

/// Spec-level contents of a [`ClaimBuilder`]: the fields set so far.
pub struct ClaimBuilderView {
    pub id: Option<Seq<char>>,
    pub subject: Option<Seq<char>>,
    pub assertion: Option<AssertionView>,
    pub specification_binding: Option<SpecificationBindingView>,
    pub metadata: Map<Seq<char>, Seq<char>>,
}

impl View for ClaimBuilder {
    type V = ClaimBuilderView;

    closed spec fn view(&self) -> ClaimBuilderView {
        ClaimBuilderView {
            id: match self.id {
                Some(i) => Some(i@),
                None => None,
            },
            subject: match self.subject {
                Some(s) => Some(s@),
                None => None,
            },
            assertion: match self.assertion {
                Some(a) => Some(a@),
                None => None,
            },
            specification_binding: opt_binding(self.specification_binding),
            metadata: self.metadata@,
        }
    }
}

impl Default for ClaimBuilder {
    fn default() -> (r: Self)
        ensures
            r@ == ClaimBuilder::empty_view(),
    {
        ClaimBuilder::new()
    }
}

impl ClaimBuilder {
    /// A builder with nothing set.
    pub open spec fn empty_view() -> ClaimBuilderView {
        ClaimBuilderView {
            id: None,
            subject: None,
            assertion: None,
            specification_binding: None,
            metadata: Map::empty(),
        }
    }

    pub fn new() -> (r: Self)
        ensures
            r@ == Self::empty_view(),
    {
        ClaimBuilder {
            id: None,
            subject: None,
            assertion: None,
            specification_binding: None,
            metadata: Metadata::new(),
        }
    }

    pub fn id<T: IntoText>(self, id: T) -> (r: Self)
        ensures
            r@ == (ClaimBuilderView { id: Some(id.text_view()), ..self@ }),
    {
        ClaimBuilder { id: Some(ClaimId::new(id)), ..self }
    }

    pub fn subject<T: IntoText>(self, subject: T) -> (r: Self)
        ensures
            r@ == (ClaimBuilderView { subject: Some(subject.text_view()), ..self@ }),
    {
        ClaimBuilder { subject: Some(subject.into_text()), ..self }
    }

    pub fn assertion(self, assertion: Assertion) -> (r: Self)
        ensures
            r@ == (ClaimBuilderView { assertion: Some(assertion@), ..self@ }),
    {
        ClaimBuilder { assertion: Some(assertion), ..self }
    }

    pub fn specification_binding(self, binding: SpecificationBinding) -> (r: Self)
        ensures
            r@ == (ClaimBuilderView { specification_binding: Some(binding@), ..self@ }),
    {
        ClaimBuilder { specification_binding: Some(binding), ..self }
    }

    pub fn metadata(self, metadata: Metadata) -> (r: Self)
        ensures
            r@ == (ClaimBuilderView { metadata: metadata@, ..self@ }),
    {
        ClaimBuilder { metadata, ..self }
    }

    /// Adds one metadata entry, replacing an earlier value under the same key.
    pub fn metadata_entry<K: IntoText, V: IntoText>(self, key: K, value: V) -> (r: Self)
        ensures
            r@ == (ClaimBuilderView { metadata: self@.metadata.insert(key.text_view(), value.text_view()), ..self@ }),
    {
        let mut metadata = self.metadata;
        metadata.insert(key.into_text(), value.into_text());
        ClaimBuilder { metadata, ..self }
    }

    /// Builds the claim, or names the first required field that is missing
    /// (checked in the order `id`, `subject`, `assertion`).
    pub fn build(self) -> (r: Result<Claim, BuildError>)
        ensures
            r is Ok <==> (self@.id is Some && self@.subject is Some && self@.assertion is Some),
            r matches Ok(c) ==> c@ == (ClaimView {
                id: self@.id->0,
                subject: self@.subject->0,
                assertion: self@.assertion->0,
                specification_binding: self@.specification_binding,
                metadata: self@.metadata,
            }),
            self@.id is None ==> r == Err::<Claim, BuildError>(BuildError { field: "id" }),
            self@.id is Some && self@.subject is None ==> r == Err::<Claim, BuildError>(BuildError { field: "subject" }),
            self@.id is Some && self@.subject is Some && self@.assertion is None ==> r == Err::<Claim, BuildError>(
                BuildError { field: "assertion" },
            ),
    {
        let id = match self.id {
            Some(id) => id,
            None => return Err(BuildError::missing("id")),
        };
        let subject = match self.subject {
            Some(subject) => subject,
            None => return Err(BuildError::missing("subject")),
        };
        let assertion = match self.assertion {
            Some(assertion) => assertion,
            None => return Err(BuildError::missing("assertion")),
        };
        Ok(Claim {
            id,
            subject,
            assertion,
            specification_binding: self.specification_binding,
            metadata: self.metadata,
        })
    }
}

} // verus!
