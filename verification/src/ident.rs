//! The identifier-shaped productions: identifiers, identifier names, private
//! names and module export names.

use crate::ast::{
    Ident, IdentName, IdentNameView, IdentView, ModuleExportName, ModuleExportNameView,
    PrivateName, PrivateNameView, Str, StrView,
};
use crate::error::{view_of, Error, ErrorView, SyntaxError, SyntaxErrorView};
use crate::parser::{Parser, ParserView};
use crate::resolve::{resolution, resolve, restricted_in_strict, ResolutionView};
use crate::span::Span;
use crate::token::{Token, TokenAndSpan};
use either::Either;
use vstd::prelude::*;

verus! {

/// The sum of two types, from the `either` crate. Verus reads its two
/// variants from the crate itself.
#[verifier::external_type_specification]
#[verifier::reject_recursive_types(L)]
#[verifier::reject_recursive_types(R)]
pub struct ExEither<L, R>(Either<L, R>);

/// The name of either kind in the contracts, with texts as sequences of
/// characters.
pub open spec fn either_view(name: Either<PrivateName, IdentName>) -> Either<
    PrivateNameView,
    IdentNameView,
> {
    match name {
        Either::Left(private) => Either::Left(private@),
        Either::Right(plain) => Either::Right(plain@),
    }
}

/// The outcome of [`Parser::parse_maybe_private_name`] in the contracts.
pub open spec fn view_of_either(r: Result<Either<PrivateName, IdentName>, Error>) -> Result<
    Either<PrivateNameView, IdentNameView>,
    ErrorView,
> {
    match r {
        Ok(name) => Ok(either_view(name)),
        Err(e) => Err(e@),
    }
}

impl ParserView {
    /// The state after the diagnostics of a resolution are recorded at
    /// `span`, each in its channel.
    pub open spec fn record(self, span: Span, r: ResolutionView) -> ParserView {
        let flagged = match r.strict_mode {
            Some(kind) => self.emit_strict_mode_err(ErrorView { span, kind }),
            None => self,
        };
        match r.semantic {
            Some(kind) => flagged.emit_err(ErrorView { span, kind }),
            None => flagged,
        }
    }

    /// What [`Parser::parse_ident`] returns, and the state it leaves.
    ///
    /// A word is consumed and resolved; its diagnostics are recorded
    /// whether or not it is accepted. Anything else is left in place.
    pub open spec fn parse_ident(self, incl_yield: bool, incl_await: bool) -> (
        Result<IdentView, ErrorView>,
        ParserView,
    ) {
        match self.cur() {
            None => (Err(self.eof_error()), self),
            Some(t) => match t.token {
                Token::Word(word) => {
                    let r = resolution(word, self.ctx, self.syntax, incl_yield, incl_await);
                    let next = self.bump().record(t.span, r);
                    match r.outcome {
                        Ok(sym) => (
                            Ok(IdentView { span: Span::between(t.span.lo, t.span.hi), sym }),
                            next,
                        ),
                        Err(kind) => (Err(ErrorView { span: t.span, kind }), next),
                    }
                },
                _ => (Err(self.error_here(SyntaxErrorView::ExpectedIdent)), self),
            },
        }
    }

    /// What [`Parser::parse_ident_ref`] returns, and the state it leaves:
    /// `yield` is a name outside generators, `await` outside async bodies.
    pub open spec fn parse_ident_ref(self) -> (Result<IdentView, ErrorView>, ParserView) {
        self.parse_ident(!self.ctx.in_generator, !self.ctx.in_async)
    }

    /// The name that a token in a name position stands for: every word,
    /// reserved or not, under its own spelling, and a JSX name inside a type.
    pub open spec fn name_of(self, token: Token) -> Option<Seq<char>> {
        match token {
            Token::Word(word) => Some(word.spelling()),
            Token::JSXName { name } => if self.ctx.in_type {
                Some(name@)
            } else {
                None
            },
            _ => None,
        }
    }

    /// What [`Parser::parse_ident_name`] returns, and the state it leaves.
    /// Nothing is recorded.
    pub open spec fn parse_ident_name(self) -> (Result<IdentNameView, ErrorView>, ParserView) {
        match self.cur() {
            None => (Err(self.eof_error()), self),
            Some(t) => match self.name_of(t.token) {
                Some(sym) => (
                    Ok(IdentNameView { span: Span::between(t.span.lo, t.span.hi), sym }),
                    self.bump(),
                ),
                None => (Err(self.error_here(SyntaxErrorView::ExpectedIdent)), self),
            },
        }
    }

    /// Whether the current token is the `#` sigil.
    pub open spec fn is_hash(self) -> bool {
        self.cur() matches Some(t) && t.token is Hash
    }

    /// What [`Parser::parse_private_name`] returns, and the state it leaves,
    /// when the current token is `#`.
    ///
    /// The sigil is consumed in any case. The name must start where the
    /// sigil ends; if it does not, the parse fails with the name unread.
    pub open spec fn parse_private_name(self) -> (Result<PrivateNameView, ErrorView>, ParserView) {
        let start = self.cur_pos();
        let after_hash = self.bump();
        if after_hash.cur_pos() != after_hash.last_pos() {
            (
                Err(
                    ErrorView {
                        span: after_hash.span_from(start),
                        kind: SyntaxErrorView::SpaceBetweenHashAndIdent,
                    },
                ),
                after_hash,
            )
        } else {
            let (name, next) = after_hash.parse_ident_name();
            match name {
                Ok(id) => (
                    Ok(PrivateNameView { span: next.span_from(start), name: id.sym }),
                    next,
                ),
                Err(e) => (Err(e), next),
            }
        }
    }

    /// What [`Parser::parse_maybe_private_name`] returns, and the state it
    /// leaves: a private name on the left if the current token is `#`, a
    /// plain name on the right if not.
    pub open spec fn parse_maybe_private_name(self) -> (
        Result<Either<PrivateNameView, IdentNameView>, ErrorView>,
        ParserView,
    ) {
        if self.is_hash() {
            let (name, next) = self.parse_private_name();
            match name {
                Ok(private) => (Ok(Either::Left(private)), next),
                Err(e) => (Err(e), next),
            }
        } else {
            let (name, next) = self.parse_ident_name();
            match name {
                Ok(plain) => (Ok(Either::Right(plain)), next),
                Err(e) => (Err(e), next),
            }
        }
    }

    /// What [`Parser::parse_module_export_name`] returns, and the state it
    /// leaves: a string literal gives a string name, a word an identifier
    /// under the word's own spelling; anything else is left in place.
    pub open spec fn parse_module_export_name(self) -> (
        Result<ModuleExportNameView, ErrorView>,
        ParserView,
    ) {
        let unexpected = SyntaxErrorView::Unexpected { expected: "identifier or string"@ };
        match self.cur() {
            None => (Err(self.error_here(unexpected)), self),
            Some(t) => {
                let span = Span::between(t.span.lo, t.span.hi);
                match t.token {
                    Token::Str { value, raw } => (
                        Ok(ModuleExportNameView::Str(StrView { span, value: value@, raw: Some(raw@) })),
                        self.bump(),
                    ),
                    Token::Word(word) => (
                        Ok(ModuleExportNameView::Ident(IdentView { span, sym: word.spelling() })),
                        self.bump(),
                    ),
                    _ => (Err(self.error_here(unexpected)), self),
                }
            },
        }
    }
}

impl Parser {
    /// Parses an identifier.
    ///
    /// `incl_yield` and `incl_await` say whether the production takes
    /// `yield` and `await` as names. A word is consumed even when it is
    /// rejected; a token that is no word stays current.
    pub fn parse_ident(&mut self, incl_yield: bool, incl_await: bool) -> (r: Result<Ident, Error>)
        requires
            old(self).wf(),
        ensures
            final(self).wf(),
            view_of(r) == old(self)@.parse_ident(incl_yield, incl_await).0,
            final(self)@ == old(self)@.parse_ident(incl_yield, incl_await).1,
    {
        let (span, resolved) = match self.cur() {
            None => {
                return Err(self.eof_error());
            },
            Some(t) => match &t.token {
                Token::Word(word) => (
                    t.span,
                    resolve(word, self.ctx(), self.syntax(), incl_yield, incl_await),
                ),
                _ => {
                    return Err(Error { span: t.span, kind: SyntaxError::ExpectedIdent });
                },
            },
        };
        self.bump();
        if let Some(kind) = resolved.strict_mode {
            self.emit_strict_mode_err(span, kind);
        }
        if let Some(kind) = resolved.semantic {
            self.emit_err(span, kind);
        }
        match resolved.outcome {
            Ok(sym) => Ok(Ident { span: Span::new(span.lo, span.hi), sym }),
            Err(kind) => Err(Error { span, kind }),
        }
    }

    /// Parses an identifier reference: `yield` is taken as a name outside
    /// generators, `await` outside async bodies.
    pub fn parse_ident_ref(&mut self) -> (r: Result<Ident, Error>)
        requires
            old(self).wf(),
        ensures
            final(self).wf(),
            view_of(r) == old(self)@.parse_ident_ref().0,
            final(self)@ == old(self)@.parse_ident_ref().1,
    {
        let ctx = self.ctx();
        self.parse_ident(!ctx.in_generator, !ctx.in_async)
    }

    /// Parses a label identifier, by the rules of an identifier reference.
    pub fn parse_label_ident(&mut self) -> (r: Result<Ident, Error>)
        requires
            old(self).wf(),
        ensures
            final(self).wf(),
            view_of(r) == old(self)@.parse_ident_ref().0,
            final(self)@ == old(self)@.parse_ident_ref().1,
    {
        let ctx = self.ctx();
        self.parse_ident(!ctx.in_generator, !ctx.in_async)
    }

    /// Parses an identifier name: any word, reserved or not, such as the
    /// `catch` of `promise.catch`.
    pub fn parse_ident_name(&mut self) -> (r: Result<IdentName, Error>)
        requires
            old(self).wf(),
        ensures
            final(self).wf(),
            view_of(r) == old(self)@.parse_ident_name().0,
            final(self)@ == old(self)@.parse_ident_name().1,
    {
        let in_type = self.ctx().in_type;
        let (span, sym) = match self.cur() {
            None => {
                return Err(self.eof_error());
            },
            Some(t) => match &t.token {
                Token::Word(word) => (t.span, word.text()),
                Token::JSXName { name } => {
                    if !in_type {
                        return Err(Error { span: t.span, kind: SyntaxError::ExpectedIdent });
                    }
                    (t.span, name.clone())
                },
                _ => {
                    return Err(Error { span: t.span, kind: SyntaxError::ExpectedIdent });
                },
            },
        };
        self.bump();
        Ok(IdentName { span: Span::new(span.lo, span.hi), sym })
    }

    /// Whether the current token is the `#` sigil.
    pub fn is_hash(&self) -> (b: bool)
        requires
            self.wf(),
        ensures
            b == self@.is_hash(),
    {
        match self.cur() {
            Some(t) => match &t.token {
                Token::Hash => true,
                _ => false,
            },
            None => false,
        }
    }

    /// Parses a private name. The current token must be the `#` sigil.
    ///
    /// Private names have a namespace of their own, so every word may
    /// follow the sigil and none is flagged for strict mode.
    pub fn parse_private_name(&mut self) -> (r: Result<PrivateName, Error>)
        requires
            old(self).wf(),
            old(self)@.is_hash(),
        ensures
            final(self).wf(),
            view_of(r) == old(self)@.parse_private_name().0,
            final(self)@ == old(self)@.parse_private_name().1,
    {
        let start = self.cur_pos();
        self.bump();
        let hash_end = self.last_pos();
        if self.cur_pos() != hash_end {
            return Err(
                Error { span: self.span(start), kind: SyntaxError::SpaceBetweenHashAndIdent },
            );
        }
        match self.parse_ident_name() {
            Ok(id) => Ok(PrivateName { span: self.span(start), name: id.sym }),
            Err(e) => Err(e),
        }
    }

    /// Parses a class member's name, private or not.
    pub fn parse_maybe_private_name(&mut self) -> (r: Result<
        Either<PrivateName, IdentName>,
        Error,
    >)
        requires
            old(self).wf(),
        ensures
            final(self).wf(),
            view_of_either(r) == old(self)@.parse_maybe_private_name().0,
            final(self)@ == old(self)@.parse_maybe_private_name().1,
    {
        if self.is_hash() {
            match self.parse_private_name() {
                Ok(private) => Ok(Either::Left(private)),
                Err(e) => Err(e),
            }
        } else {
            match self.parse_ident_name() {
                Ok(plain) => Ok(Either::Right(plain)),
                Err(e) => Err(e),
            }
        }
    }

    /// Parses the name of an export or import: a string literal or any word.
    pub fn parse_module_export_name(&mut self) -> (r: Result<ModuleExportName, Error>)
        requires
            old(self).wf(),
        ensures
            final(self).wf(),
            view_of(r) == old(self)@.parse_module_export_name().0,
            final(self)@ == old(self)@.parse_module_export_name().1,
    {
        match self.cur() {
            Some(TokenAndSpan { token: Token::Str { value, raw }, span }) => {
                let lit = Str {
                    span: Span::new(span.lo, span.hi),
                    value: value.clone(),
                    raw: Some(raw.clone()),
                };
                self.bump();
                Ok(ModuleExportName::Str(lit))
            },
            Some(TokenAndSpan { token: Token::Word(_), .. }) => match self.parse_ident_name() {
                Ok(name) => Ok(ModuleExportName::Ident(name.into_ident())),
                Err(e) => Err(e),
            },
            _ => Err(
                Error {
                    span: self.cur_span(),
                    kind: SyntaxError::Unexpected { expected: "identifier or string" },
                },
            ),
        }
    }
}

/// No production changes the tokens, the context or the syntax, moves the
/// cursor back, or touches a diagnostic already recorded: what a nested
/// parse sees of the context is what its caller left, and the caller finds
/// it again afterwards.
pub proof fn lemma_productions_continue(v: ParserView, incl_yield: bool, incl_await: bool)
    requires
        v.wf(),
    ensures
        v.continues_to(v.parse_ident(incl_yield, incl_await).1),
        v.continues_to(v.parse_ident_ref().1),
        v.continues_to(v.parse_ident_name().1),
        v.is_hash() ==> v.continues_to(v.parse_private_name().1),
        v.continues_to(v.parse_maybe_private_name().1),
        v.continues_to(v.parse_module_export_name().1),
{
}

/// Only [`Parser::parse_ident`] records diagnostics. The name productions
/// record none, whatever word they read: reserved words are names like any
/// other in a name position, and strict mode has no say there.
pub proof fn lemma_names_record_nothing(v: ParserView)
    requires
        v.wf(),
    ensures
        v.parse_ident_name().1.errors == v.errors,
        v.parse_ident_name().1.strict_mode_errors == v.strict_mode_errors,
        v.parse_maybe_private_name().1.errors == v.errors,
        v.parse_maybe_private_name().1.strict_mode_errors == v.strict_mode_errors,
        v.parse_module_export_name().1.errors == v.errors,
        v.parse_module_export_name().1.strict_mode_errors == v.strict_mode_errors,
{
}

/// An identifier name and a module export name take exactly one token
/// when they succeed and none when they fail.
pub proof fn lemma_names_consume_on_success(v: ParserView)
    requires
        v.wf(),
    ensures
        v.parse_ident_name().0 is Ok ==> v.parse_ident_name().1 == v.bump(),
        v.parse_ident_name().0 is Err ==> v.parse_ident_name().1 == v,
        v.parse_module_export_name().0 is Ok ==> v.parse_module_export_name().1 == v.bump(),
        v.parse_module_export_name().0 is Err ==> v.parse_module_export_name().1 == v,
{
}

/// When an identifier is parsed from a word that strict mode restricts,
/// exactly one deferred diagnostic is recorded, at the word, holding the
/// word as it is written; from any other word, none.
pub proof fn lemma_parse_ident_flags_restricted_words(
    v: ParserView,
    incl_yield: bool,
    incl_await: bool,
)
    requires
        v.wf(),
        v.cur() matches Some(t) && t.token is Word,
    ensures
        ({
            let t = v.cur()->0;
            let word = t.token->Word_0;
            let next = v.parse_ident(incl_yield, incl_await).1;
            &&& next.pos == v.pos + 1
            &&& restricted_in_strict(word) ==> next.strict_mode_errors
                == v.strict_mode_errors.push(
                ErrorView {
                    span: t.span,
                    kind: SyntaxErrorView::InvalidIdentInStrict(word.spelling()),
                },
            )
            &&& !restricted_in_strict(word) ==> next.strict_mode_errors == v.strict_mode_errors
        }),
{
}

/// If the token behind `#` does not start where the sigil ends, the private
/// name fails fatally, at the sigil, and the token behind it is not
/// consumed.
pub proof fn lemma_private_name_admits_no_gap(v: ParserView)
    requires
        v.wf(),
        v.is_hash(),
        v.pos + 1 < v.tokens.len(),
        v.tokens[v.pos + 1].span.lo != v.tokens[v.pos].span.hi,
    ensures
        ({
            let hash = v.tokens[v.pos].span;
            v.parse_private_name() == (
                Err::<PrivateNameView, ErrorView>(
                    ErrorView {
                        span: Span::between(hash.lo, hash.hi),
                        kind: SyntaxErrorView::SpaceBetweenHashAndIdent,
                    },
                ),
                v.bump(),
            )
        }),
{
}

/// Any word that starts where `#` ends makes a private name under the
/// word's own spelling, from the sigil to the end of the word. Reserved
/// words are no exception, and nothing is recorded: strict mode has no say
/// in the namespace of private names.
pub proof fn lemma_private_name_takes_any_word(v: ParserView)
    requires
        v.wf(),
        v.is_hash(),
        v.pos + 1 < v.tokens.len(),
        v.tokens[v.pos + 1].token is Word,
        v.tokens[v.pos + 1].span.lo == v.tokens[v.pos].span.hi,
    ensures
        ({
            let hash = v.tokens[v.pos].span;
            let name = v.tokens[v.pos + 1];
            v.parse_private_name() == (
                Ok::<PrivateNameView, ErrorView>(
                    PrivateNameView {
                        span: Span::between(hash.lo, name.span.hi),
                        name: name.token->Word_0.spelling(),
                    },
                ),
                ParserView { pos: v.pos + 2, ..v },
            )
        }),
{
}

} // verus!
