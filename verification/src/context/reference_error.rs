//! Generic execution and input errors.
use vstd::prelude::*;

verus! {

/// Reference interpreter error outside domain types.
#[derive(Debug, Clone, Copy, PartialEq, Eq, Structural)]
pub enum ReferenceError {
    /// Placeholder variant for workspace bootstrap.
    Placeholder,
}

impl ReferenceError {
    pub fn placeholder() -> (r: Self)
        ensures
            r == ReferenceError::Placeholder,
    {
        ReferenceError::Placeholder
    }

    /// Human-readable description of the error.
    pub fn message(&self) -> (r: &'static str)
        ensures
            r@ == "placeholder error"@,
    {
        match self {
            ReferenceError::Placeholder => "placeholder error",
        }
    }
}

} // verus!
