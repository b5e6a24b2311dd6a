//! Assertion evaluators and the registry that dispatches to them by assertion type.
pub mod body_equality;
pub mod normalized_text;
pub mod registry;
pub mod trait_def;
