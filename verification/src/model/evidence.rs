//! Evidence envelope: identity separate from offered content.
use vstd::prelude::*;

use crate::model::build_error::BuildError;
use crate::model::evidence_content::{EvidenceContent, EvidenceContentView};
use crate::model::identifiers::{ClaimId, EvidenceId};
use crate::model::metadata::Metadata;
use crate::text::IntoText;

verus! {

/// Material offered to support or challenge a claim.
#[derive(Debug, Clone, PartialEq, Eq)]
pub struct Evidence {
    pub id: EvidenceId,
    pub claim_id: ClaimId,
    pub content: EvidenceContent,
    pub metadata: Metadata,
}

/// Spec-level contents of an [`Evidence`] record.
pub struct EvidenceView {
    pub id: Seq<char>,
    pub claim_id: Seq<char>,
    pub content: EvidenceContentView,
    pub metadata: Map<Seq<char>, Seq<char>>,
}

impl View for Evidence {
    type V = EvidenceView;

    open spec fn view(&self) -> EvidenceView {
        EvidenceView {
            id: self.id@,
            claim_id: self.claim_id@,
            content: self.content@,
            metadata: self.metadata@,
        }
    }
}

impl Evidence {
    pub fn builder() -> (r: EvidenceBuilder)
        ensures
            r@ == EvidenceBuilder::empty_view(),
    {
        EvidenceBuilder::new()
    }

    /// A copy with the same contents.
    pub fn duplicate(&self) -> (r: Self)
        ensures
            r@ == self@,
    {
        Evidence {
            id: self.id.duplicate(),
            claim_id: self.claim_id.duplicate(),
            content: self.content.duplicate(),
            metadata: self.metadata.clone(),
        }
    }
}

/// Constructs an [`Evidence`] record; `id`, `claim_id` and `content` are required.
#[derive(Debug)]
pub struct EvidenceBuilder {
    id: Option<EvidenceId>,
    claim_id: Option<ClaimId>,
    content: Option<EvidenceContent>,
    metadata: Metadata,
}

/// Spec-level contents of an [`EvidenceBuilder`]: the fields set so far.
pub struct EvidenceBuilderView {
    pub id: Option<Seq<char>>,
    pub claim_id: Option<Seq<char>>,
    pub content: Option<EvidenceContentView>,
    pub metadata: Map<Seq<char>, Seq<char>>,
}

impl View for EvidenceBuilder {
    type V = EvidenceBuilderView;

    closed spec fn view(&self) -> EvidenceBuilderView {
        EvidenceBuilderView {
            id: match self.id {
                Some(i) => Some(i@),
                None => None,
            },
            claim_id: match self.claim_id {
                Some(i) => Some(i@),
                None => None,
            },
            content: match self.content {
                Some(c) => Some(c@),
                None => None,
            },
            metadata: self.metadata@,
        }
    }
}

impl Default for EvidenceBuilder {
    fn default() -> (r: Self)
        ensures
            r@ == EvidenceBuilder::empty_view(),
    {
        EvidenceBuilder::new()
    }
}

impl EvidenceBuilder {
    /// A builder with nothing set.
    pub open spec fn empty_view() -> EvidenceBuilderView {
        EvidenceBuilderView { id: None, claim_id: None, content: None, metadata: Map::empty() }
    }

    pub fn new() -> (r: Self)
        ensures
            r@ == Self::empty_view(),
    {
        EvidenceBuilder { id: None, claim_id: None, content: None, metadata: Metadata::new() }
    }

    pub fn id<T: IntoText>(self, id: T) -> (r: Self)
        ensures
            r@ == (EvidenceBuilderView { id: Some(id.text_view()), ..self@ }),
    {
        EvidenceBuilder { id: Some(EvidenceId::new(id)), ..self }
    }

    pub fn claim_id<T: IntoText>(self, claim_id: T) -> (r: Self)
        ensures
            r@ == (EvidenceBuilderView { claim_id: Some(claim_id.text_view()), ..self@ }),
    {
        EvidenceBuilder { claim_id: Some(ClaimId::new(claim_id)), ..self }
    }

    pub fn content(self, content: EvidenceContent) -> (r: Self)
        ensures
            r@ == (EvidenceBuilderView { content: Some(content@), ..self@ }),
    {
        EvidenceBuilder { content: Some(content), ..self }
    }

    pub fn metadata(self, metadata: Metadata) -> (r: Self)
        ensures
            r@ == (EvidenceBuilderView { metadata: metadata@, ..self@ }),
    {
        EvidenceBuilder { metadata, ..self }
    }

    /// Adds one metadata entry, replacing an earlier value under the same key.
    pub fn metadata_entry<K: IntoText, V: IntoText>(self, key: K, value: V) -> (r: Self)
        ensures
            r@ == (EvidenceBuilderView { metadata: self@.metadata.insert(key.text_view(), value.text_view()), ..self@ }),
    {
        let mut metadata = self.metadata;
        metadata.insert(key.into_text(), value.into_text());
        EvidenceBuilder { metadata, ..self }
    }

    /// Builds the evidence record, or names the first required field that is missing
    /// (checked in the order `id`, `claim_id`, `content`).
    pub fn build(self) -> (r: Result<Evidence, BuildError>)
        ensures
            r is Ok <==> (self@.id is Some && self@.claim_id is Some && self@.content is Some),
            r matches Ok(e) ==> e@ == (EvidenceView {
                id: self@.id->0,
                claim_id: self@.claim_id->0,
                content: self@.content->0,
                metadata: self@.metadata,
            }),
            self@.id is None ==> r == Err::<Evidence, BuildError>(BuildError { field: "id" }),
            self@.id is Some && self@.claim_id is None ==> r == Err::<Evidence, BuildError>(BuildError { field: "claim_id" }),
            self@.id is Some && self@.claim_id is Some && self@.content is None ==> r == Err::<Evidence, BuildError>(
                BuildError { field: "content" },
            ),
    {
        let id = match self.id {
            Some(id) => id,
            None => return Err(BuildError::missing("id")),
        };
        let claim_id = match self.claim_id {
            Some(claim_id) => claim_id,
            None => return Err(BuildError::missing("claim_id")),
        };
        let content = match self.content {
            Some(content) => content,
            None => return Err(BuildError::missing("content")),
        };
        Ok(Evidence { id, claim_id, content, metadata: self.metadata })
    }
}

} // verus!
