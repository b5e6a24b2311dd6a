//! Developer-facing verify pipeline: input documents, explanations, rendering and service values.
pub mod error;
pub mod explain;
pub mod input;
pub mod output;
pub mod serve;
pub mod verify;
