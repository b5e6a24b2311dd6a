//! Errors returned when required builder fields are missing.
use vstd::prelude::*;

verus! {

/// A required field was not set before a builder's `build`.
#[derive(Debug, Clone, PartialEq, Eq)]
pub struct BuildError {
    pub field: &'static str,
}

impl BuildError {
    pub fn missing(field: &'static str) -> (r: Self)
        ensures
            r.field == field,
    {
        BuildError { field }
    }

    /// Human-readable message naming the missing field.
    pub fn message(&self) -> (r: String)
        ensures
            r@ == "missing required field: "@ + self.field@,
    {
        let mut text = String::from_str("missing required field: ");
        text.append(self.field);
        text
    }
}

} // verus!
