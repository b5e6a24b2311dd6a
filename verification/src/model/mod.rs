//! Pure domain types: claims, evidence, outcomes, traces and results.
pub mod assertion;
pub mod build_error;
pub mod claim;
pub mod evaluation_policy;
pub mod evidence;
pub mod evidence_set;
pub mod evidence_content;
pub mod identifiers;
pub mod metadata;
pub mod outcome;
pub mod trace;
pub mod verification_result;
