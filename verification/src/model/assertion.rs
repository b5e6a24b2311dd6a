//! Asserted content that verification rules evaluate.
use vstd::prelude::*;

use crate::text::IntoText;

verus! {

/// Payload being asserted within a claim.
#[derive(Debug, Clone, PartialEq, Eq)]
pub struct Assertion {
    pub assertion_type: String,
    pub body: String,
}

/// Spec-level contents of an [`Assertion`].
pub struct AssertionView {
    pub assertion_type: Seq<char>,
    pub body: Seq<char>,
}

impl View for Assertion {
    type V = AssertionView;

    open spec fn view(&self) -> AssertionView {
        AssertionView { assertion_type: self.assertion_type@, body: self.body@ }
    }
}

impl Assertion {
    pub fn new<T: IntoText, U: IntoText>(assertion_type: T, body: U) -> (r: Self)
        ensures
            r@ == (AssertionView { assertion_type: assertion_type.text_view(), body: body.text_view() }),
    {
        Assertion { assertion_type: assertion_type.into_text(), body: body.into_text() }
    }

    /// A copy with the same type and body.
    pub fn duplicate(&self) -> (r: Self)
        ensures
            r@ == self@,
    {
        Assertion { assertion_type: self.assertion_type.clone(), body: self.body.clone() }
    }
}

} // verus!
