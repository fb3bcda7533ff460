//! The two ways in which parsing a source text fails.

use nom::error::ErrorKind;
use vstd::prelude::*;

verus! {

/// Why a source text is no program. Each failure is final: nothing is tried again, and no part
/// of a program comes with it.
#[derive(Debug)]
pub enum ParseError {
    /// The grammar engine read a program from the beginning of the text and left something other
    /// than white space unread. `content` is the first line of what it left.
    UnMatchContent { content: String },
    /// The grammar engine could not go on. `kind` is the code that it gave for the failure, and
    /// `text` is the input that it had not read when it stopped.
    ParseFailure { kind: ErrorKind, text: String },
}

/// The model of a [`ParseError`].
pub enum ParseErrorView {
    UnMatchContent { content: Seq<char> },
    ParseFailure { kind: ErrorKind, text: Seq<char> },
}

impl DeepView for ParseError {
    type V = ParseErrorView;

    open spec fn deep_view(&self) -> ParseErrorView {
        match self {
            ParseError::UnMatchContent { content } => ParseErrorView::UnMatchContent {
                content: content@,
            },
            ParseError::ParseFailure { kind, text } => ParseErrorView::ParseFailure {
                kind: *kind,
                text: text@,
            },
        }
    }
}

/// A copy of an error is of the same kind, and holds the same text and the same code.
impl Clone for ParseError {
    fn clone(&self) -> (copy: Self)
        ensures
            copy.deep_view() == self.deep_view(),
    {
        match self {
            ParseError::UnMatchContent { content } => ParseError::UnMatchContent {
                content: content.clone(),
            },
            ParseError::ParseFailure { kind, text } => ParseError::ParseFailure {
                kind: *kind,
                text: text.clone(),
            },
        }
    }
}

/// Two errors are equal where they are of one kind, hold the same text and, for a failure of the
/// engine, the same code.
impl PartialEq for ParseError {
    fn eq(&self, other: &Self) -> (same: bool) {
        match self {
            ParseError::UnMatchContent { content } => match other {
                ParseError::UnMatchContent { content: other_content } => *content
                    == *other_content,
                ParseError::ParseFailure { .. } => false,
            },
            ParseError::ParseFailure { kind, text } => match other {
                ParseError::UnMatchContent { .. } => false,
                ParseError::ParseFailure { kind: other_kind, text: other_text } => *kind
                    == *other_kind && *text == *other_text,
            },
        }
    }
}

impl vstd::std_specs::cmp::PartialEqSpecImpl for ParseError {
    open spec fn obeys_eq_spec() -> bool {
        true
    }

    open spec fn eq_spec(&self, other: &Self) -> bool {
        self.deep_view() == other.deep_view()
    }
}

} // verus!
