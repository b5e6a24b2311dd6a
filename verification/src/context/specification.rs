//! Loaded, path-free specification context.
use vstd::prelude::*;

use crate::model::identifiers::SpecificationBindingView;
use crate::text::{copy_opt_text, opt_text};

verus! {

/// Counts summarizing loaded specification model data.
#[derive(Debug, Clone, Copy, PartialEq, Eq, Structural)]
pub struct SpecificationSummary {
    pub term_count: usize,
    pub rfc_count: usize,
    pub document_count: usize,
    pub reference_edge_count: usize,
}

impl Default for SpecificationSummary {
    fn default() -> (r: Self)
        ensures
            r.term_count == 0,
            r.rfc_count == 0,
            r.document_count == 0,
            r.reference_edge_count == 0,
    {
        SpecificationSummary { term_count: 0, rfc_count: 0, document_count: 0, reference_edge_count: 0 }
    }
}

/// Loaded, path-free specification context passed to the interpreter.
#[derive(Debug, Clone, PartialEq, Eq)]
pub struct SpecificationContext {
    /// Display identity of the spec checkout (not a live filesystem handle).
    pub spec_root_identity: String,
    pub edition_id: Option<String>,
    pub protocol_version: Option<String>,
    pub summary: SpecificationSummary,
}

/// Spec-level contents of a [`SpecificationContext`].
pub struct SpecificationContextView {
    pub spec_root_identity: Seq<char>,
    pub edition_id: Option<Seq<char>>,
    pub protocol_version: Option<Seq<char>>,
    pub summary: SpecificationSummary,
}

impl View for SpecificationContext {
    type V = SpecificationContextView;

    open spec fn view(&self) -> SpecificationContextView {
        SpecificationContextView {
            spec_root_identity: self.spec_root_identity@,
            edition_id: opt_text(self.edition_id),
            protocol_version: opt_text(self.protocol_version),
            summary: self.summary,
        }
    }
}

impl SpecificationContextView {
    /// The binding (edition and protocol version) that results carry.
    pub open spec fn binding(self) -> SpecificationBindingView {
        SpecificationBindingView { edition_id: self.edition_id, protocol_version: self.protocol_version }
    }
}

impl SpecificationContext {
    /// All counts zero.
    pub open spec fn placeholder_summary() -> SpecificationSummary {
        SpecificationSummary { term_count: 0, rfc_count: 0, document_count: 0, reference_edge_count: 0 }
    }

    /// Empty context: no identity, no edition, no protocol version, zero counts.
    pub fn placeholder() -> (r: Self)
        ensures
            r@.spec_root_identity.len() == 0,
            r@.edition_id is None,
            r@.protocol_version is None,
            r@.summary == Self::placeholder_summary(),
    {
        SpecificationContext {
            spec_root_identity: String::new(),
            edition_id: None,
            protocol_version: None,
            summary: SpecificationSummary::default(),
        }
    }

    /// A copy with the same contents.
    pub fn duplicate(&self) -> (r: Self)
        ensures
            r@ == self@,
    {
        SpecificationContext {
            spec_root_identity: self.spec_root_identity.clone(),
            edition_id: copy_opt_text(&self.edition_id),
            protocol_version: copy_opt_text(&self.protocol_version),
            summary: self.summary,
        }
    }
}

} // verus!
