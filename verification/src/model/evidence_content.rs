//! Material offered to support or challenge an assertion.
use vstd::prelude::*;

use crate::text::IntoText;

verus! {

/// Content that verification rules consume from evidence.
#[derive(Debug, Clone, PartialEq, Eq)]
pub struct EvidenceContent {
    pub content_type: String,
    pub body: String,
}

/// Spec-level contents of an [`EvidenceContent`].
pub struct EvidenceContentView {
    pub content_type: Seq<char>,
    pub body: Seq<char>,
}

impl View for EvidenceContent {
    type V = EvidenceContentView;

    open spec fn view(&self) -> EvidenceContentView {
        EvidenceContentView { content_type: self.content_type@, body: self.body@ }
    }
}

impl EvidenceContent {
    pub fn new<T: IntoText, U: IntoText>(content_type: T, body: U) -> (r: Self)
        ensures
            r@ == (EvidenceContentView { content_type: content_type.text_view(), body: body.text_view() }),
    {
        EvidenceContent { content_type: content_type.into_text(), body: body.into_text() }
    }

    /// A copy with the same content type and body.
    pub fn duplicate(&self) -> (r: Self)
        ensures
            r@ == self@,
    {
        EvidenceContent { content_type: self.content_type.clone(), body: self.body.clone() }
    }
}

} // verus!
