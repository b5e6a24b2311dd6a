//! Shared context and error contracts for evaluation runs.
pub mod context_error;
pub mod evaluation_context;
pub mod evaluation_input;
pub mod reference_error;
pub mod specification;
