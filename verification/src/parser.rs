//! The parser's state: its tokens, its context and its diagnostics.

use crate::context::{Context, Syntax};
use crate::error::{Error, ErrorView, SyntaxError, SyntaxErrorView};
use crate::span::Span;
use crate::token::TokenAndSpan;
use vstd::prelude::*;

verus! {

/// A parser over a run of tokens.
///
/// It holds the tokens with a cursor on the current one, the context and
/// syntax that the productions read, and the diagnostics recorded so far:
/// those that stand whatever follows, and those deferred until it is known
/// whether the code is strict.
pub struct Parser {
    tokens: Vec<TokenAndSpan>,
    pos: usize,
    ctx: Context,
    syntax: Syntax,
    errors: Vec<Error>,
    strict_mode_errors: Vec<Error>,
}

/// The state of a [`Parser`], as the contracts speak of it.
pub struct ParserView {
    /// All tokens of the input, consumed or not.
    pub tokens: Seq<TokenAndSpan>,
    /// How many tokens have been consumed: the index of the current one.
    pub pos: int,
    pub ctx: Context,
    pub syntax: Syntax,
    /// Recorded diagnostics that did not stop the parse.
    pub errors: Seq<ErrorView>,
    /// Recorded diagnostics that count only in strict code.
    pub strict_mode_errors: Seq<ErrorView>,
}

impl ParserView {
    /// A parser that has consumed nothing and recorded nothing.
    pub open spec fn start(tokens: Seq<TokenAndSpan>, ctx: Context, syntax: Syntax) -> ParserView {
        ParserView {
            tokens,
            pos: 0,
            ctx,
            syntax,
            errors: Seq::empty(),
            strict_mode_errors: Seq::empty(),
        }
    }

    /// The cursor is on a token or just behind the last one.
    pub open spec fn wf(self) -> bool {
        0 <= self.pos <= self.tokens.len()
    }

    /// The current token; `None` at the end of the input.
    pub open spec fn cur(self) -> Option<TokenAndSpan> {
        if 0 <= self.pos < self.tokens.len() {
            Some(self.tokens[self.pos])
        } else {
            None
        }
    }

    /// The span of the token consumed last; empty at offset 0 before the
    /// first.
    pub open spec fn prev_span(self) -> Span {
        if 0 < self.pos <= self.tokens.len() {
            self.tokens[self.pos - 1].span
        } else {
            Span::empty_at(0)
        }
    }

    /// Where the token consumed last ends.
    pub open spec fn last_pos(self) -> u32 {
        self.prev_span().hi
    }

    /// The span of the current token; at the end of the input, that of the
    /// last one.
    pub open spec fn cur_span(self) -> Span {
        match self.cur() {
            Some(t) => t.span,
            None => self.prev_span(),
        }
    }

    /// Where the current token starts; at the end of the input, where the
    /// last one ends.
    pub open spec fn cur_pos(self) -> u32 {
        match self.cur() {
            Some(t) => t.span.lo,
            None => self.last_pos(),
        }
    }

    /// The span from `start` to the end of the token consumed last.
    pub open spec fn span_from(self, start: u32) -> Span {
        Span::between(start, self.last_pos())
    }

    /// The state after the current token is consumed.
    pub open spec fn bump(self) -> ParserView {
        ParserView { pos: self.pos + 1, ..self }
    }

    /// The state after `e` is recorded.
    pub open spec fn emit_err(self, e: ErrorView) -> ParserView {
        ParserView { errors: self.errors.push(e), ..self }
    }

    /// The state after `e` is recorded for strict code only.
    pub open spec fn emit_strict_mode_err(self, e: ErrorView) -> ParserView {
        ParserView { strict_mode_errors: self.strict_mode_errors.push(e), ..self }
    }

    /// The fatal diagnostic for input that ends too early.
    pub open spec fn eof_error(self) -> ErrorView {
        ErrorView { span: Span::empty_at(self.last_pos()), kind: SyntaxErrorView::Eof }
    }

    /// The fatal diagnostic `kind` at the current token.
    pub open spec fn error_here(self, kind: SyntaxErrorView) -> ErrorView {
        ErrorView { span: self.cur_span(), kind }
    }

    /// The diagnostics that stand once it is known whether the code is
    /// strict: the recorded ones, followed in strict code by the deferred
    /// ones.
    pub open spec fn raised(self, strict: bool) -> Seq<ErrorView> {
        if strict {
            self.errors + self.strict_mode_errors
        } else {
            self.errors
        }
    }

    /// Whether `next` is a state that parsing can reach from this one: over
    /// the same tokens, under the same context and syntax, with the cursor
    /// no further back and every diagnostic recorded so far still in place.
    pub open spec fn continues_to(self, next: ParserView) -> bool {
        &&& next.wf()
        &&& next.tokens == self.tokens
        &&& next.ctx == self.ctx
        &&& next.syntax == self.syntax
        &&& self.pos <= next.pos
        &&& self.errors.is_prefix_of(next.errors)
        &&& self.strict_mode_errors.is_prefix_of(next.strict_mode_errors)
    }
}

/// The diagnostics of `errors`, in order, as the contracts speak of them.
pub open spec fn views_of(errors: Seq<Error>) -> Seq<ErrorView> {
    Seq::new(errors.len(), |i: int| errors[i]@)
}

impl View for Parser {
    type V = ParserView;

    closed spec fn view(&self) -> ParserView {
        ParserView {
            tokens: self.tokens@,
            pos: self.pos as int,
            ctx: self.ctx,
            syntax: self.syntax,
            errors: views_of(self.errors@),
            strict_mode_errors: views_of(self.strict_mode_errors@),
        }
    }
}

impl Parser {
    /// Whether the parser's state is valid. Every parser made by
    /// [`Parser::new`] is, and every operation keeps it so.
    pub open spec fn wf(&self) -> bool {
        self@.wf()
    }

    /// A parser at the start of `tokens`.
    pub fn new(tokens: Vec<TokenAndSpan>, ctx: Context, syntax: Syntax) -> (p: Parser)
        ensures
            p.wf(),
            p@ == ParserView::start(tokens@, ctx, syntax),
    {
        let p = Parser {
            tokens,
            pos: 0,
            ctx,
            syntax,
            errors: Vec::new(),
            strict_mode_errors: Vec::new(),
        };
        assert(p@.errors =~= Seq::empty());
        assert(p@.strict_mode_errors =~= Seq::empty());
        p
    }

    /// The context that the productions read.
    pub fn ctx(&self) -> (ctx: Context)
        ensures
            ctx == self@.ctx,
    {
        self.ctx
    }

    /// Replaces the context. A caller that enters a nested construct keeps
    /// the old context and sets it again on the way out.
    pub fn set_ctx(&mut self, ctx: Context)
        requires
            old(self).wf(),
        ensures
            final(self).wf(),
            final(self)@ == (ParserView { ctx, ..old(self)@ }),
    {
        self.ctx = ctx;
    }

    /// The syntax that the productions read.
    pub fn syntax(&self) -> (syntax: Syntax)
        ensures
            syntax == self@.syntax,
    {
        self.syntax
    }

    /// The diagnostics recorded so far that did not stop the parse.
    pub fn errors(&self) -> (errors: &Vec<Error>)
        ensures
            views_of(errors@) == self@.errors,
    {
        &self.errors
    }

    /// The diagnostics recorded so far that count only in strict code.
    pub fn strict_mode_errors(&self) -> (errors: &Vec<Error>)
        ensures
            views_of(errors@) == self@.strict_mode_errors,
    {
        &self.strict_mode_errors
    }

    /// Ends the parse, now that it is known whether the code is strict.
    /// Returns the recorded diagnostics, followed in strict code by the
    /// deferred ones; in sloppy code those are dropped.
    pub fn finish(self, strict: bool) -> (raised: Vec<Error>)
        ensures
            views_of(raised@) == self@.raised(strict),
    {
        let mut raised = self.errors;
        if strict {
            let mut deferred = self.strict_mode_errors;
            raised.append(&mut deferred);
        }
        assert(views_of(raised@) =~= self@.raised(strict));
        raised
    }

    /// The current token; `None` at the end of the input.
    pub fn cur(&self) -> (t: Option<&TokenAndSpan>)
        requires
            self.wf(),
        ensures
            (t is Some) == (self@.cur() is Some),
            t matches Some(tok) ==> self@.cur() == Some(*tok),
    {
        if self.pos < self.tokens.len() {
            Some(&self.tokens[self.pos])
        } else {
            None
        }
    }

    /// Consumes the current token.
    pub(crate) fn bump(&mut self)
        requires
            old(self).wf(),
            old(self)@.cur() is Some,
        ensures
            final(self).wf(),
            final(self)@ == old(self)@.bump(),
    {
        assert(self.pos < self.tokens.len());
        self.pos = self.pos + 1;
    }

    /// The span of the token consumed last.
    pub(crate) fn prev_span(&self) -> (s: Span)
        requires
            self.wf(),
        ensures
            s == self@.prev_span(),
    {
        if self.pos > 0 {
            self.tokens[self.pos - 1].span
        } else {
            Span::new(0, 0)
        }
    }

    /// Where the token consumed last ends.
    pub(crate) fn last_pos(&self) -> (at: u32)
        requires
            self.wf(),
        ensures
            at == self@.last_pos(),
    {
        self.prev_span().hi
    }

    /// The span of the current token.
    pub(crate) fn cur_span(&self) -> (s: Span)
        requires
            self.wf(),
        ensures
            s == self@.cur_span(),
    {
        match self.cur() {
            Some(t) => t.span,
            None => self.prev_span(),
        }
    }

    /// Where the current token starts.
    pub(crate) fn cur_pos(&self) -> (at: u32)
        requires
            self.wf(),
        ensures
            at == self@.cur_pos(),
    {
        match self.cur() {
            Some(t) => t.span.lo,
            None => self.last_pos(),
        }
    }

    /// The span from `start` to the end of the token consumed last.
    pub(crate) fn span(&self, start: u32) -> (s: Span)
        requires
            self.wf(),
        ensures
            s == self@.span_from(start),
    {
        Span::new(start, self.last_pos())
    }

    /// Records a diagnostic that does not stop the parse.
    pub(crate) fn emit_err(&mut self, span: Span, kind: SyntaxError)
        requires
            old(self).wf(),
        ensures
            final(self).wf(),
            final(self)@ == old(self)@.emit_err(ErrorView { span, kind: kind@ }),
    {
        self.errors.push(Error { span, kind });
        assert(self@.errors =~= old(self)@.errors.push(ErrorView { span, kind: kind@ }));
    }

    /// Records a diagnostic that counts only if the code is strict.
    pub(crate) fn emit_strict_mode_err(&mut self, span: Span, kind: SyntaxError)
        requires
            old(self).wf(),
        ensures
            final(self).wf(),
            final(self)@ == old(self)@.emit_strict_mode_err(ErrorView { span, kind: kind@ }),
    {
        self.strict_mode_errors.push(Error { span, kind });
        assert(self@.strict_mode_errors =~= old(self)@.strict_mode_errors.push(
            ErrorView { span, kind: kind@ },
        ));
    }

    /// The fatal diagnostic for input that ends too early.
    pub(crate) fn eof_error(&self) -> (e: Error)
        requires
            self.wf(),
        ensures
            e@ == self@.eof_error(),
    {
        let at = self.last_pos();
        Error { span: Span::new(at, at), kind: SyntaxError::Eof }
    }
}

} // verus!
