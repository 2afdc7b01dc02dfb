//! Compiler diagnostics.
use vstd::prelude::*;

use crate::lexer::token::Span;

verus! {

/// An error report, with a stable error code such as `E0004` when it has one.
#[derive(Debug)]
pub struct Diagnostic {
    pub message: String,
    pub span: Span,
    pub code: Option<String>,
}

/// `d` reports `message` with `code` at `span`.
pub open spec fn diag_is(d: Diagnostic, message: Seq<char>, code: Seq<char>, span: Span) -> bool {
    &&& d.message@ == message
    &&& d.code matches Some(c) && c@ == code
    &&& d.span == span
}

impl Diagnostic {
    /// An error with the given message, span and code.
    pub fn error_with_code(message: String, span: Span, code: &str) -> (d: Diagnostic)
        ensures
            diag_is(d, message@, code@, span),
    {
        Diagnostic { message, span, code: Some(String::from_str(code)) }
    }
}

} // verus!
