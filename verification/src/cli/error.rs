//! CLI error type and exit codes.
use vstd::prelude::*;

use crate::text::IntoText;

verus! {

/// Exit code when verification completes successfully.
pub const EXIT_SUCCESS: i32 = 0;

/// Exit code for invalid user input (missing files, malformed JSON, invalid claim shape).
pub const EXIT_USER_ERROR: i32 = 2;

/// Recoverable user-facing error.
#[derive(Debug, Clone, PartialEq, Eq)]
pub struct VerifyError {
    message: String,
}

impl View for VerifyError {
    type V = Seq<char>;

    closed spec fn view(&self) -> Seq<char> {
        self.message@
    }
}

impl VerifyError {
    pub fn user<T: IntoText>(message: T) -> (r: Self)
        ensures
            r@ == message.text_view(),
    {
        VerifyError { message: message.into_text() }
    }

    pub fn message(&self) -> (r: &str)
        ensures
            r@ == self@,
    {
        self.message.as_str()
    }
}

} // verus!
