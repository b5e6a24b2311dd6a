//! Specification input: load options and the path-free context built from a loaded model.
use vstd::prelude::*;

use crate::context::specification::{SpecificationContext, SpecificationSummary};
use crate::text::{copy_opt_text, opt_text, IntoText};

verus! {

/// Options for loading a specification checkout.
#[derive(Debug, Clone, PartialEq, Eq)]
pub struct SpecificationLoadOptions {
    /// Root directory of the specification checkout.
    pub spec_root: String,
    pub edition_id: Option<String>,
    pub protocol_version: Option<String>,
}

impl SpecificationLoadOptions {
    pub fn new<T: IntoText>(spec_root: T) -> (r: Self)
        ensures
            r.spec_root@ == spec_root.text_view(),
            r.edition_id is None,
            r.protocol_version is None,
    {
        SpecificationLoadOptions { spec_root: spec_root.into_text(), edition_id: None, protocol_version: None }
    }

    pub fn with_edition_id<T: IntoText>(self, edition_id: T) -> (r: Self)
        ensures
            r.spec_root == self.spec_root,
            opt_text(r.edition_id) == Some(edition_id.text_view()),
            r.protocol_version == self.protocol_version,
    {
        SpecificationLoadOptions { edition_id: Some(edition_id.into_text()), ..self }
    }

    pub fn with_protocol_version<T: IntoText>(self, protocol_version: T) -> (r: Self)
        ensures
            r.spec_root == self.spec_root,
            r.edition_id == self.edition_id,
            opt_text(r.protocol_version) == Some(protocol_version.text_view()),
    {
        SpecificationLoadOptions { protocol_version: Some(protocol_version.into_text()), ..self }
    }
}

/// Loads specification model data from a validated spec checkout.
#[derive(Debug, Clone, Copy, Default)]
pub struct SpecificationLoader;

impl SpecificationLoader {
    pub fn new() -> (r: Self)
        ensures
            r == SpecificationLoader,
    {
        SpecificationLoader
    }

    /// The path-free context of a loaded specification: its display identity, the
    /// edition and protocol version pinned by the options, and the model's counts.
    pub fn specification_context(
        &self,
        spec_root_identity: String,
        options: &SpecificationLoadOptions,
        summary: SpecificationSummary,
    ) -> (r: SpecificationContext)
        ensures
            r.spec_root_identity@ == spec_root_identity@,
            opt_text(r.edition_id) == opt_text(options.edition_id),
            opt_text(r.protocol_version) == opt_text(options.protocol_version),
            r.summary == summary,
    {
        SpecificationContext {
            spec_root_identity,
            edition_id: copy_opt_text(&options.edition_id),
            protocol_version: copy_opt_text(&options.protocol_version),
            summary,
        }
    }
}

/// Specification loading entry point placeholder.
#[derive(Debug, Clone, Copy, PartialEq, Eq, Default)]
pub struct SpecInput;

impl SpecInput {
    pub fn placeholder() -> (r: Self)
        ensures
            r == SpecInput,
    {
        SpecInput
    }

    /// An empty, path-free specification context.
    pub fn load_placeholder(&self) -> (r: SpecificationContext)
        ensures
            r@.spec_root_identity.len() == 0,
            r@.edition_id is None,
            r@.protocol_version is None,
            r@.summary == (SpecificationSummary {
                term_count: 0,
                rfc_count: 0,
                document_count: 0,
                reference_edge_count: 0,
            }),
    {
        SpecificationContext::placeholder()
    }
}

} // verus!
