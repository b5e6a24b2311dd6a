//! Stable identifiers for conformance comparison.
use vstd::prelude::*;

use crate::text::{copy_opt_text, opt_text, IntoText};

verus! {

/// Stable identifier for a claim under evaluation.
#[derive(Debug, Clone, PartialEq, Eq, Hash)]
pub struct ClaimId(String);

impl View for ClaimId {
    type V = Seq<char>;

    closed spec fn view(&self) -> Seq<char> {
        self.0@
    }
}

impl ClaimId {
    pub fn new<T: IntoText>(value: T) -> (r: Self)
        ensures
            r@ == value.text_view(),
    {
        ClaimId(value.into_text())
    }

    pub fn as_str(&self) -> (r: &str)
        ensures
            r@ == self@,
    {
        self.0.as_str()
    }

    /// True when both identifiers hold the same text.
    pub fn same_as(&self, other: &Self) -> (r: bool)
        ensures
            r == (self@ == other@),
    {
        self.0 == other.0
    }

    /// A copy holding the same text.
    pub fn duplicate(&self) -> (r: Self)
        ensures
            r@ == self@,
    {
        ClaimId(self.0.clone())
    }
}

impl IntoText for ClaimId {
    open spec fn text_view(&self) -> Seq<char> {
        self@
    }

    fn into_text(self) -> (r: String) {
        self.0
    }
}

/// Stable identifier for an evidence record.
#[derive(Debug, Clone, PartialEq, Eq, Hash)]
pub struct EvidenceId(String);

impl View for EvidenceId {
    type V = Seq<char>;

    closed spec fn view(&self) -> Seq<char> {
        self.0@
    }
}

impl EvidenceId {
    pub fn new<T: IntoText>(value: T) -> (r: Self)
        ensures
            r@ == value.text_view(),
    {
        EvidenceId(value.into_text())
    }

    pub fn as_str(&self) -> (r: &str)
        ensures
            r@ == self@,
    {
        self.0.as_str()
    }

    /// True when both identifiers hold the same text.
    pub fn same_as(&self, other: &Self) -> (r: bool)
        ensures
            r == (self@ == other@),
    {
        self.0 == other.0
    }

    /// A copy holding the same text.
    pub fn duplicate(&self) -> (r: Self)
        ensures
            r@ == self@,
    {
        EvidenceId(self.0.clone())
    }
}

impl IntoText for EvidenceId {
    open spec fn text_view(&self) -> Seq<char> {
        self@
    }

    fn into_text(self) -> (r: String) {
        self.0
    }
}

/// Stable identifier for a single trace event.
#[derive(Debug, Clone, PartialEq, Eq, Hash)]
pub struct TraceEventId(String);

impl View for TraceEventId {
    type V = Seq<char>;

    closed spec fn view(&self) -> Seq<char> {
        self.0@
    }
}

impl TraceEventId {
    pub fn new<T: IntoText>(value: T) -> (r: Self)
        ensures
            r@ == value.text_view(),
    {
        TraceEventId(value.into_text())
    }

    pub fn as_str(&self) -> (r: &str)
        ensures
            r@ == self@,
    {
        self.0.as_str()
    }

    /// True when both identifiers hold the same text.
    pub fn same_as(&self, other: &Self) -> (r: bool)
        ensures
            r == (self@ == other@),
    {
        self.0 == other.0
    }

    /// A copy holding the same text.
    pub fn duplicate(&self) -> (r: Self)
        ensures
            r@ == self@,
    {
        TraceEventId(self.0.clone())
    }
}

impl IntoText for TraceEventId {
    open spec fn text_view(&self) -> Seq<char> {
        self@
    }

    fn into_text(self) -> (r: String) {
        self.0
    }
}

/// Reference to a normative rule in the loaded specification.
#[derive(Debug, Clone, PartialEq, Eq, Hash)]
pub struct RuleReference(String);

impl View for RuleReference {
    type V = Seq<char>;

    closed spec fn view(&self) -> Seq<char> {
        self.0@
    }
}

impl RuleReference {
    pub fn new<T: IntoText>(value: T) -> (r: Self)
        ensures
            r@ == value.text_view(),
    {
        RuleReference(value.into_text())
    }

    pub fn as_str(&self) -> (r: &str)
        ensures
            r@ == self@,
    {
        self.0.as_str()
    }

    /// True when both identifiers hold the same text.
    pub fn same_as(&self, other: &Self) -> (r: bool)
        ensures
            r == (self@ == other@),
    {
        self.0 == other.0
    }

    /// A copy holding the same text.
    pub fn duplicate(&self) -> (r: Self)
        ensures
            r@ == self@,
    {
        RuleReference(self.0.clone())
    }
}

impl IntoText for RuleReference {
    open spec fn text_view(&self) -> Seq<char> {
        self@
    }

    fn into_text(self) -> (r: String) {
        self.0
    }
}

/// Specification version or edition pin governing an evaluation.
#[derive(Debug, Clone, PartialEq, Eq, Hash)]
pub struct SpecificationBinding {
    pub edition_id: Option<String>,
    pub protocol_version: Option<String>,
}

/// Spec-level contents of a [`SpecificationBinding`].
pub struct SpecificationBindingView {
    pub edition_id: Option<Seq<char>>,
    pub protocol_version: Option<Seq<char>>,
}

impl View for SpecificationBinding {
    type V = SpecificationBindingView;

    open spec fn view(&self) -> SpecificationBindingView {
        SpecificationBindingView {
            edition_id: opt_text(self.edition_id),
            protocol_version: opt_text(self.protocol_version),
        }
    }
}

impl Default for SpecificationBinding {
    fn default() -> (r: Self)
        ensures
            r.edition_id is None,
            r.protocol_version is None,
    {
        SpecificationBinding { edition_id: None, protocol_version: None }
    }
}

impl SpecificationBinding {
    pub fn new() -> (r: Self)
        ensures
            r.edition_id is None,
            r.protocol_version is None,
    {
        SpecificationBinding { edition_id: None, protocol_version: None }
    }

    pub fn with_edition_id<T: IntoText>(self, edition_id: T) -> (r: Self)
        ensures
            opt_text(r.edition_id) == Some(edition_id.text_view()),
            r.protocol_version == self.protocol_version,
    {
        SpecificationBinding { edition_id: Some(edition_id.into_text()), protocol_version: self.protocol_version }
    }

    pub fn with_protocol_version<T: IntoText>(self, protocol_version: T) -> (r: Self)
        ensures
            opt_text(r.protocol_version) == Some(protocol_version.text_view()),
            r.edition_id == self.edition_id,
    {
        SpecificationBinding { edition_id: self.edition_id, protocol_version: Some(protocol_version.into_text()) }
    }

    /// A copy with the same edition and protocol version.
    pub fn duplicate(&self) -> (r: Self)
        ensures
            r@ == self@,
    {
        SpecificationBinding {
            edition_id: copy_opt_text(&self.edition_id),
            protocol_version: copy_opt_text(&self.protocol_version),
        }
    }
}

} // verus!
