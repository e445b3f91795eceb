//! Why parsing stopped.

use vstd::prelude::*;
use crate::text::{concat2, decimal_text, push_decimal, push_str, string_from_chars};

verus! {

/// A syntax error. Parsing is all or nothing: the first error ends it.
#[derive(Debug)]
pub enum ParseError {
    /// A token that cannot stand where it stands: its text, what was
    /// expected there, and the byte offset where it starts.
    UnexpectedToken { found: String, expected: String, position: usize },
    /// The tokens ended where something was expected.
    UnexpectedEof { expected: String },
    InvalidSyntax { message: String },
}

/// What a [`ParseError`] denotes.
pub enum ParseErrorView {
    UnexpectedToken { found: Seq<char>, expected: Seq<char>, position: usize },
    UnexpectedEof { expected: Seq<char> },
    InvalidSyntax { message: Seq<char> },
}

impl ParseErrorView {
    /// The text shown for this error.
    pub open spec fn message(self) -> Seq<char> {
        match self {
            ParseErrorView::UnexpectedToken { found, expected, position } => "Unexpected token '"@ + found
                + "' at position "@ + decimal_text(position as nat) + ", expected "@ + expected,
            ParseErrorView::UnexpectedEof { expected } => "Unexpected end of input, expected "@ + expected,
            ParseErrorView::InvalidSyntax { message } => "Invalid syntax: "@ + message,
        }
    }
}

impl ParseError {
    pub open spec fn spec_view(self) -> ParseErrorView {
        match self {
            ParseError::UnexpectedToken { found, expected, position } => ParseErrorView::UnexpectedToken {
                found: found@,
                expected: expected@,
                position: position,
            },
            ParseError::UnexpectedEof { expected } => ParseErrorView::UnexpectedEof { expected: expected@ },
            ParseError::InvalidSyntax { message } => ParseErrorView::InvalidSyntax { message: message@ },
        }
    }

    /// The text shown for this error.
    pub fn message(&self) -> (text: String)
        ensures
            text@ == self@.message(),
    {
        match self {
            ParseError::UnexpectedToken { found, expected, position } => {
                let mut out: Vec<char> = Vec::new();
                push_str(&mut out, "Unexpected token '");
                push_str(&mut out, found.as_str());
                push_str(&mut out, "' at position ");
                push_decimal(&mut out, *position as u64);
                push_str(&mut out, ", expected ");
                push_str(&mut out, expected.as_str());
                string_from_chars(&out)
            },
            ParseError::UnexpectedEof { expected } => concat2("Unexpected end of input, expected ", expected.as_str()),
            ParseError::InvalidSyntax { message } => concat2("Invalid syntax: ", message.as_str()),
        }
    }
}

impl View for ParseError {
    type V = ParseErrorView;

    open spec fn view(&self) -> ParseErrorView {
        (*self).spec_view()
    }
}

} // verus!
