//! Diagnostics of identifier parsing.

use crate::span::Span;
use vstd::prelude::*;

verus! {

/// What went wrong.
#[derive(Debug, PartialEq, Eq)]
pub enum SyntaxError {
    /// The input ended where a token was needed.
    Eof,
    /// The token cannot stand as an identifier here.
    ExpectedIdent,
    /// Something separates `#` from the name that must follow it directly.
    SpaceBetweenHashAndIdent,
    /// `await` used as an identifier in a module or an async body.
    InvalidIdentInAsync,
    /// The word, held here, is not an identifier in strict mode.
    InvalidIdentInStrict(String),
    /// `arguments` named inside a class field initializer.
    ArgumentsInClassField,
    /// The token is none of the kinds that `expected` describes.
    Unexpected { expected: &'static str },
}

/// A [`SyntaxError`] with its texts as sequences of characters.
pub enum SyntaxErrorView {
    Eof,
    ExpectedIdent,
    SpaceBetweenHashAndIdent,
    InvalidIdentInAsync,
    InvalidIdentInStrict(Seq<char>),
    ArgumentsInClassField,
    Unexpected { expected: Seq<char> },
}

impl View for SyntaxError {
    type V = SyntaxErrorView;

    open spec fn view(&self) -> SyntaxErrorView {
        match *self {
            SyntaxError::Eof => SyntaxErrorView::Eof,
            SyntaxError::ExpectedIdent => SyntaxErrorView::ExpectedIdent,
            SyntaxError::SpaceBetweenHashAndIdent => SyntaxErrorView::SpaceBetweenHashAndIdent,
            SyntaxError::InvalidIdentInAsync => SyntaxErrorView::InvalidIdentInAsync,
            SyntaxError::InvalidIdentInStrict(word) => SyntaxErrorView::InvalidIdentInStrict(word@),
            SyntaxError::ArgumentsInClassField => SyntaxErrorView::ArgumentsInClassField,
            SyntaxError::Unexpected { expected } => SyntaxErrorView::Unexpected {
                expected: expected@,
            },
        }
    }
}

impl Clone for SyntaxError {
    fn clone(&self) -> (e: SyntaxError)
        ensures
            e == *self,
    {
        match self {
            SyntaxError::Eof => SyntaxError::Eof,
            SyntaxError::ExpectedIdent => SyntaxError::ExpectedIdent,
            SyntaxError::SpaceBetweenHashAndIdent => SyntaxError::SpaceBetweenHashAndIdent,
            SyntaxError::InvalidIdentInAsync => SyntaxError::InvalidIdentInAsync,
            SyntaxError::InvalidIdentInStrict(word) => SyntaxError::InvalidIdentInStrict(
                word.clone(),
            ),
            SyntaxError::ArgumentsInClassField => SyntaxError::ArgumentsInClassField,
            SyntaxError::Unexpected { expected } => SyntaxError::Unexpected { expected: *expected },
        }
    }
}

/// A diagnostic: what went wrong, and where in the source.
#[derive(Debug, PartialEq, Eq)]
pub struct Error {
    pub span: Span,
    pub kind: SyntaxError,
}

/// An [`Error`] with its texts as sequences of characters.
pub struct ErrorView {
    pub span: Span,
    pub kind: SyntaxErrorView,
}

impl View for Error {
    type V = ErrorView;

    open spec fn view(&self) -> ErrorView {
        ErrorView { span: self.span, kind: self.kind@ }
    }
}

impl Clone for Error {
    fn clone(&self) -> (e: Error)
        ensures
            e == *self,
    {
        Error { span: self.span, kind: self.kind.clone() }
    }
}

/// The outcome of a fallible operation as the contracts speak of it: its
/// value or its diagnostic, with texts as sequences of characters.
pub open spec fn view_of<T: View, E: View>(r: Result<T, E>) -> Result<T::V, E::V> {
    match r {
        Ok(value) => Ok(value@),
        Err(e) => Err(e@),
    }
}

/// A diagnostic that may be absent, as the contracts speak of it.
pub open spec fn view_of_option(e: Option<SyntaxError>) -> Option<SyntaxErrorView> {
    match e {
        Some(kind) => Some(kind@),
        None => None,
    }
}

} // verus!
