//! Classified tokens, as the lexer hands them to the parser.

use crate::span::Span;
use swc_ecma_lexer::token::Keyword;
use vstd::prelude::*;

verus! {

/// The reserved words of the language. The enumeration is the lexer's own,
/// read by Verus from the lexer crate.
#[verifier::external_type_specification]
pub struct ExKeyword(Keyword);

/// How each reserved word is written in source text.
pub open spec fn keyword_spelling(k: Keyword) -> Seq<char> {
    match k {
        Keyword::Await => "await"@,
        Keyword::Break => "break"@,
        Keyword::Case => "case"@,
        Keyword::Catch => "catch"@,
        Keyword::Continue => "continue"@,
        Keyword::Debugger => "debugger"@,
        Keyword::Default_ => "default"@,
        Keyword::Do => "do"@,
        Keyword::Else => "else"@,
        Keyword::Finally => "finally"@,
        Keyword::For => "for"@,
        Keyword::Function => "function"@,
        Keyword::If => "if"@,
        Keyword::Return => "return"@,
        Keyword::Switch => "switch"@,
        Keyword::Throw => "throw"@,
        Keyword::Try => "try"@,
        Keyword::Var => "var"@,
        Keyword::Let => "let"@,
        Keyword::Const => "const"@,
        Keyword::While => "while"@,
        Keyword::With => "with"@,
        Keyword::New => "new"@,
        Keyword::This => "this"@,
        Keyword::Super => "super"@,
        Keyword::Class => "class"@,
        Keyword::Extends => "extends"@,
        Keyword::Export => "export"@,
        Keyword::Import => "import"@,
        Keyword::Yield => "yield"@,
        Keyword::In => "in"@,
        Keyword::InstanceOf => "instanceof"@,
        Keyword::TypeOf => "typeof"@,
        Keyword::Void => "void"@,
        Keyword::Delete => "delete"@,
    }
}

/// The text of a reserved word, taken from the lexer crate's
/// `Keyword::into_atom`.
///
/// Trusted: that `into_atom` gives each keyword the spelling listed in
/// [`keyword_spelling`], which repeats the table that `into_atom` is
/// generated from.
#[verifier::external_body]
pub(crate) fn keyword_text(k: Keyword) -> (s: String)
    ensures
        s@ == keyword_spelling(k),
{
    k.into_atom().as_str().to_owned()
}

/// Text equality of two string slices, by `str`'s `==`.
///
/// Trusted: that `==` on `str` holds exactly when both hold the same
/// characters.
#[verifier::external_body]
pub(crate) fn same_text(a: &str, b: &str) -> (same: bool)
    ensures
        same == (a@ == b@),
{
    a == b
}

/// A token made of identifier characters.
#[derive(Debug, PartialEq, Eq)]
pub enum Word {
    /// A reserved word.
    Keyword(Keyword),
    /// The literal `null`.
    Null,
    /// The literal `true`.
    True,
    /// The literal `false`.
    False,
    /// Any other word, with its text. Contextual keywords such as `static`
    /// or `enum` are words of this kind.
    Ident(String),
}

impl Clone for Word {
    fn clone(&self) -> (w: Word)
        ensures
            w == *self,
    {
        match self {
            Word::Keyword(k) => Word::Keyword(*k),
            Word::Null => Word::Null,
            Word::True => Word::True,
            Word::False => Word::False,
            Word::Ident(name) => Word::Ident(name.clone()),
        }
    }
}

impl Word {
    /// The word as it is written in source text.
    pub open spec fn spelling(self) -> Seq<char> {
        match self {
            Word::Keyword(k) => keyword_spelling(k),
            Word::Null => "null"@,
            Word::True => "true"@,
            Word::False => "false"@,
            Word::Ident(name) => name@,
        }
    }

    /// The word as it is written in source text.
    pub fn text(&self) -> (s: String)
        ensures
            s@ == self.spelling(),
    {
        match self {
            Word::Keyword(k) => keyword_text(*k),
            Word::Null => "null".to_owned(),
            Word::True => "true".to_owned(),
            Word::False => "false".to_owned(),
            Word::Ident(name) => name.clone(),
        }
    }
}

/// A token, classified as far as identifier parsing needs.
#[derive(Debug, PartialEq, Eq)]
pub enum Token {
    /// An identifier-shaped token.
    Word(Word),
    /// A string literal: its value and its source text, quotes included.
    Str { value: String, raw: String },
    /// The `#` sigil.
    Hash,
    /// A JSX name, which may hold `-`.
    JSXName { name: String },
    /// Any token that no identifier production starts with.
    Other,
}

impl Clone for Token {
    fn clone(&self) -> (t: Token)
        ensures
            t == *self,
    {
        match self {
            Token::Word(w) => Token::Word(w.clone()),
            Token::Str { value, raw } => Token::Str { value: value.clone(), raw: raw.clone() },
            Token::Hash => Token::Hash,
            Token::JSXName { name } => Token::JSXName { name: name.clone() },
            Token::Other => Token::Other,
        }
    }
}

/// A token with the place it was read from.
#[derive(Debug, PartialEq, Eq)]
pub struct TokenAndSpan {
    pub token: Token,
    pub span: Span,
}

impl Clone for TokenAndSpan {
    fn clone(&self) -> (t: TokenAndSpan)
        ensures
            t == *self,
    {
        TokenAndSpan { token: self.token.clone(), span: self.span }
    }
}

} // verus!
