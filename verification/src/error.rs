//! What can go wrong while parsing.

use crate::position::Position;
use crate::position::Span;
use vstd::prelude::*;

verus! {

/// An error that ends a parse.
#[derive(Debug, PartialEq, Eq)]
pub enum ParseError {
    /// The tokens ended where one more was needed.
    AbruptEnd,
    /// A token stands where another kind was needed: what would have been
    /// accepted, the token that was found as an error message shows it, its
    /// place, and what was being parsed.
    Unexpected { expected: Vec<String>, found: String, span: Span, context: &'static str },
    /// A rule of the language is broken that is no plain mismatch of tokens.
    General { message: &'static str, position: Position },
}

/// An error, as contracts speak of it.
pub enum ParseErrorView {
    AbruptEnd,
    Unexpected { expected: Seq<Seq<char>>, found: Seq<char>, span: Span, context: Seq<char> },
    General { message: Seq<char>, position: Position },
}

/// The texts of a list of strings, one by one.
pub open spec fn texts(strings: Seq<String>) -> Seq<Seq<char>> {
    Seq::new(strings.len(), |i: int| strings[i]@)
}

impl View for ParseError {
    type V = ParseErrorView;

    open spec fn view(&self) -> ParseErrorView {
        match self {
            ParseError::AbruptEnd => ParseErrorView::AbruptEnd,
            ParseError::Unexpected { expected, found, span, context } => ParseErrorView::Unexpected {
                expected: texts(expected@),
                found: found@,
                span: *span,
                context: context@,
            },
            ParseError::General { message, position } => ParseErrorView::General {
                message: message@,
                position: *position,
            },
        }
    }
}

impl ParseError {
    /// The error for a token that is none of the `expected` ones.
    pub fn expected(expected: Vec<String>, found: String, span: Span, context: &'static str) -> (error:
        ParseError)
        ensures
            error@ == (ParseErrorView::Unexpected {
                expected: texts(expected@),
                found: found@,
                span,
                context: context@,
            }),
    {
        ParseError::Unexpected { expected, found, span, context }
    }

    /// The error for a token that cannot stand where it does, with a word
    /// on what was needed there and no list of what would have been accepted.
    pub fn unexpected(found: String, span: Span, message: &'static str) -> (error: ParseError)
        ensures
            error@ == (ParseErrorView::Unexpected {
                expected: Seq::empty(),
                found: found@,
                span,
                context: message@,
            }),
    {
        let expected: Vec<String> = Vec::new();
        assert(texts(expected@) =~= Seq::empty());
        ParseError::Unexpected { expected, found, span, context: message }
    }

    /// The error for a broken rule of the language.
    pub fn general(message: &'static str, position: Position) -> (error: ParseError)
        ensures
            error@ == (ParseErrorView::General { message: message@, position }),
    {
        ParseError::General { message, position }
    }
}

} // verus!
