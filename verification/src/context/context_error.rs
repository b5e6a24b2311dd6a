//! Errors returned when required evaluation context fields are missing.
use vstd::prelude::*;

verus! {

/// A required field was not set before a context builder's `build`.
#[derive(Debug, Clone, PartialEq, Eq)]
pub struct ContextBuildError {
    pub field: &'static str,
}

impl ContextBuildError {
    pub fn missing(field: &'static str) -> (r: Self)
        ensures
            r.field == field,
    {
        ContextBuildError { field }
    }

    /// Human-readable message naming the missing field.
    pub fn message(&self) -> (r: String)
        ensures
            r@ == "missing required field: "@ + self.field@,
    {
        let mut text = String::from_str("missing required field: ");
        text.append(self.field);
        text
    }
}

} // verus!
