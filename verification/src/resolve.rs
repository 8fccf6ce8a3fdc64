//! The decision whether a word may stand as an identifier.
//!
//! The decision takes two passes over the same word. The first looks for
//! words that strict mode reserves and never rejects anything: whether the
//! code is strict may only be known later, so its diagnostic is deferred.
//! The second accepts the word as a name or rejects it for good.

use crate::context::{Context, Syntax};
use crate::error::{view_of, view_of_option, SyntaxError, SyntaxErrorView};
use crate::token::{same_text, Word};
use swc_ecma_lexer::token::Keyword;
use vstd::prelude::*;

verus! {

/// What resolving one word gives: the diagnostics to record, and the name or
/// the fatal diagnostic.
#[derive(Debug, PartialEq, Eq)]
pub struct Resolution {
    /// The diagnostic that holds only if the code turns out to be strict.
    pub strict_mode: Option<SyntaxError>,
    /// A diagnostic that is reported although the word is accepted.
    pub semantic: Option<SyntaxError>,
    /// The accepted name, or the reason why the word is no identifier here.
    pub outcome: Result<String, SyntaxError>,
}

/// A [`Resolution`] with its texts as sequences of characters.
pub struct ResolutionView {
    pub strict_mode: Option<SyntaxErrorView>,
    pub semantic: Option<SyntaxErrorView>,
    pub outcome: Result<Seq<char>, SyntaxErrorView>,
}

impl View for Resolution {
    type V = ResolutionView;

    open spec fn view(&self) -> ResolutionView {
        ResolutionView {
            strict_mode: view_of_option(self.strict_mode),
            semantic: view_of_option(self.semantic),
            outcome: view_of(self.outcome),
        }
    }
}

/// The words that are identifiers to the lexer and reserved in strict mode.
pub open spec fn strict_mode_reserved(text: Seq<char>) -> bool {
    ||| text == "enum"@
    ||| text == "static"@
    ||| text == "implements"@
    ||| text == "interface"@
    ||| text == "package"@
    ||| text == "private"@
    ||| text == "protected"@
    ||| text == "public"@
}

/// Whether strict mode forbids the word as an identifier: the keywords
/// `yield` and `let`, and the identifiers of [`strict_mode_reserved`].
pub open spec fn restricted_in_strict(word: Word) -> bool {
    match word {
        Word::Keyword(Keyword::Yield) => true,
        Word::Keyword(Keyword::Let) => true,
        Word::Ident(name) => strict_mode_reserved(name@),
        _ => false,
    }
}

/// First pass: the deferred diagnostic for a word that strict mode forbids.
/// It carries the word as it is written.
pub open spec fn strict_mode_diagnostic(word: Word) -> Option<SyntaxErrorView> {
    if restricted_in_strict(word) {
        Some(SyntaxErrorView::InvalidIdentInStrict(word.spelling()))
    } else {
        None
    }
}

/// What becomes of the keyword `await`. Ambient declarations come first:
/// they have no runtime body, so `await` is a plain name there, whatever
/// else holds.
pub open spec fn await_acceptance(ctx: Context, allow_await: bool) -> Result<
    Seq<char>,
    SyntaxErrorView,
> {
    if ctx.in_declare {
        Ok("await"@)
    } else if ctx.in_static_block {
        Err(SyntaxErrorView::ExpectedIdent)
    } else if ctx.module || ctx.in_async {
        Err(SyntaxErrorView::InvalidIdentInAsync)
    } else if allow_await {
        Ok("await"@)
    } else {
        Err(SyntaxErrorView::ExpectedIdent)
    }
}

/// Second pass: the name that the word resolves to, or the fatal diagnostic.
pub open spec fn acceptance(
    word: Word,
    ctx: Context,
    syntax: Syntax,
    allow_yield: bool,
    allow_await: bool,
) -> Result<Seq<char>, SyntaxErrorView> {
    match word {
        Word::Keyword(Keyword::Await) => await_acceptance(ctx, allow_await),
        Word::Keyword(Keyword::This) => if syntax.is_typescript() {
            Ok("this"@)
        } else {
            Err(SyntaxErrorView::ExpectedIdent)
        },
        Word::Keyword(Keyword::Let) => Ok("let"@),
        Word::Keyword(Keyword::Yield) => if allow_yield {
            Ok("yield"@)
        } else {
            Err(SyntaxErrorView::ExpectedIdent)
        },
        Word::Ident(name) => Ok(name@),
        _ => Err(SyntaxErrorView::ExpectedIdent),
    }
}

/// Whether the word is the identifier `arguments` inside a class field
/// initializer, where it has nothing to refer to.
pub open spec fn names_arguments_in_class_field(word: Word, ctx: Context) -> bool {
    &&& ctx.in_class_field
    &&& word matches Word::Ident(name)
    &&& name@ == "arguments"@
}

/// The diagnostic that is reported beside an accepted word.
pub open spec fn semantic_diagnostic(word: Word, ctx: Context) -> Option<SyntaxErrorView> {
    if names_arguments_in_class_field(word, ctx) {
        Some(SyntaxErrorView::ArgumentsInClassField)
    } else {
        None
    }
}

/// Both passes on one word.
pub open spec fn resolution(
    word: Word,
    ctx: Context,
    syntax: Syntax,
    allow_yield: bool,
    allow_await: bool,
) -> ResolutionView {
    ResolutionView {
        strict_mode: strict_mode_diagnostic(word),
        semantic: semantic_diagnostic(word, ctx),
        outcome: acceptance(word, ctx, syntax, allow_yield, allow_await),
    }
}

/// Whether `text` is one of the identifiers that strict mode reserves.
fn is_strict_mode_reserved(text: &str) -> (reserved: bool)
    ensures
        reserved == strict_mode_reserved(text@),
{
    same_text(text, "enum") || same_text(text, "static") || same_text(text, "implements")
        || same_text(text, "interface") || same_text(text, "package") || same_text(text, "private")
        || same_text(text, "protected") || same_text(text, "public")
}

/// First pass: looks for a word that strict mode forbids.
fn check_strict_mode(word: &Word) -> (flagged: Option<SyntaxError>)
    ensures
        view_of_option(flagged) == strict_mode_diagnostic(*word),
{
    let restricted = match word {
        Word::Keyword(Keyword::Yield) => true,
        Word::Keyword(Keyword::Let) => true,
        Word::Ident(name) => is_strict_mode_reserved(name.as_str()),
        _ => false,
    };
    if restricted {
        Some(SyntaxError::InvalidIdentInStrict(word.text()))
    } else {
        None
    }
}

/// Second pass for the keyword `await`.
fn accept_await(ctx: Context, allow_await: bool) -> (r: Result<String, SyntaxError>)
    ensures
        view_of(r) == await_acceptance(ctx, allow_await),
{
    if ctx.in_declare {
        Ok("await".to_owned())
    } else if ctx.in_static_block {
        Err(SyntaxError::ExpectedIdent)
    } else if ctx.module || ctx.in_async {
        Err(SyntaxError::InvalidIdentInAsync)
    } else if allow_await {
        Ok("await".to_owned())
    } else {
        Err(SyntaxError::ExpectedIdent)
    }
}

/// Second pass: accepts the word as a name or rejects it for good.
fn accept(
    word: &Word,
    ctx: Context,
    syntax: Syntax,
    allow_yield: bool,
    allow_await: bool,
) -> (r: Result<String, SyntaxError>)
    ensures
        view_of(r) == acceptance(*word, ctx, syntax, allow_yield, allow_await),
{
    match word {
        Word::Keyword(Keyword::Await) => accept_await(ctx, allow_await),
        Word::Keyword(Keyword::This) => if syntax.typescript() {
            Ok("this".to_owned())
        } else {
            Err(SyntaxError::ExpectedIdent)
        },
        Word::Keyword(Keyword::Let) => Ok("let".to_owned()),
        Word::Keyword(Keyword::Yield) => if allow_yield {
            Ok("yield".to_owned())
        } else {
            Err(SyntaxError::ExpectedIdent)
        },
        Word::Ident(name) => Ok(name.clone()),
        _ => Err(SyntaxError::ExpectedIdent),
    }
}

/// Looks for the identifier `arguments` inside a class field initializer.
fn check_semantics(word: &Word, ctx: Context) -> (reported: Option<SyntaxError>)
    ensures
        view_of_option(reported) == semantic_diagnostic(*word, ctx),
{
    let named = match word {
        Word::Ident(name) => ctx.in_class_field && same_text(name.as_str(), "arguments"),
        _ => false,
    };
    if named {
        Some(SyntaxError::ArgumentsInClassField)
    } else {
        None
    }
}

/// Decides whether `word` may stand as an identifier in context `ctx`.
///
/// `allow_yield` and `allow_await` say whether the production being parsed
/// takes `yield` and `await` as names. They are not the context's
/// `in_generator` and `in_async`: a production may refuse `yield` although
/// no generator surrounds it.
///
/// The decision is total. Its diagnostics come without a place: the caller
/// knows where the word stands.
pub fn resolve(
    word: &Word,
    ctx: Context,
    syntax: Syntax,
    allow_yield: bool,
    allow_await: bool,
) -> (r: Resolution)
    ensures
        r@ == resolution(*word, ctx, syntax, allow_yield, allow_await),
{
    Resolution {
        strict_mode: check_strict_mode(word),
        semantic: check_semantics(word, ctx),
        outcome: accept(word, ctx, syntax, allow_yield, allow_await),
    }
}

/// Whether two words are the same token: of one kind and spelled alike.
pub open spec fn same_word(a: Word, b: Word) -> bool {
    match (a, b) {
        (Word::Keyword(x), Word::Keyword(y)) => x == y,
        (Word::Null, Word::Null) => true,
        (Word::True, Word::True) => true,
        (Word::False, Word::False) => true,
        (Word::Ident(x), Word::Ident(y)) => x@ == y@,
        _ => false,
    }
}

/// Resolution is total: whatever the word, the context and the flags, it
/// ends either in a name or in one fatal diagnostic, never in both and
/// never in neither. Beside that it records at most one deferred and at most
/// one semantic diagnostic, and the semantic one only with a name.
pub proof fn lemma_resolution_is_total(
    word: Word,
    ctx: Context,
    syntax: Syntax,
    allow_yield: bool,
    allow_await: bool,
)
    ensures
        ({
            let r = resolution(word, ctx, syntax, allow_yield, allow_await);
            &&& (r.outcome is Ok) != (r.outcome is Err)
            &&& r.semantic is Some ==> r.outcome is Ok
        }),
{
}

/// Resolution is a function of its inputs: the same token under the same
/// context and flags gives the same name or fatal diagnostic and the same
/// recorded diagnostics, however often it is asked.
pub proof fn lemma_resolution_is_deterministic(
    first: Word,
    second: Word,
    ctx: Context,
    syntax: Syntax,
    allow_yield: bool,
    allow_await: bool,
)
    requires
        same_word(first, second),
    ensures
        resolution(first, ctx, syntax, allow_yield, allow_await) == resolution(
            second,
            ctx,
            syntax,
            allow_yield,
            allow_await,
        ),
{
}

/// Inside an ambient declaration `await` is the name `await`, whatever the
/// goal, the surrounding function and the flags.
pub proof fn lemma_await_in_declare(
    ctx: Context,
    syntax: Syntax,
    allow_yield: bool,
    allow_await: bool,
)
    requires
        ctx.in_declare,
    ensures
        resolution(Word::Keyword(Keyword::Await), ctx, syntax, allow_yield, allow_await)
            == (ResolutionView { strict_mode: None, semantic: None, outcome: Ok("await"@) }),
{
}

/// Inside a static block, and outside ambient declarations, `await` is
/// fatal as an identifier even where the production allows it.
pub proof fn lemma_await_in_static_block(
    ctx: Context,
    syntax: Syntax,
    allow_yield: bool,
    allow_await: bool,
)
    requires
        ctx.in_static_block,
        !ctx.in_declare,
    ensures
        resolution(Word::Keyword(Keyword::Await), ctx, syntax, allow_yield, allow_await)
            == (ResolutionView {
            strict_mode: None,
            semantic: None,
            outcome: Err(SyntaxErrorView::ExpectedIdent),
        }),
{
}

/// In a module or an async body, outside ambient declarations and static
/// blocks, `await` is reserved: fatal even where the production allows it.
pub proof fn lemma_await_in_module_or_async(
    ctx: Context,
    syntax: Syntax,
    allow_yield: bool,
    allow_await: bool,
)
    requires
        ctx.module || ctx.in_async,
        !ctx.in_declare,
        !ctx.in_static_block,
    ensures
        resolution(Word::Keyword(Keyword::Await), ctx, syntax, allow_yield, allow_await)
            == (ResolutionView {
            strict_mode: None,
            semantic: None,
            outcome: Err(SyntaxErrorView::InvalidIdentInAsync),
        }),
{
}

/// Where no rule of the context decides about `await`, the production's
/// flag does: `await` is the name `await` if and only if it is allowed.
pub proof fn lemma_await_follows_flag(
    ctx: Context,
    syntax: Syntax,
    allow_yield: bool,
    allow_await: bool,
)
    requires
        !ctx.in_declare,
        !ctx.in_static_block,
        !ctx.module,
        !ctx.in_async,
    ensures
        ({
            let r = resolution(
                Word::Keyword(Keyword::Await),
                ctx,
                syntax,
                allow_yield,
                allow_await,
            );
            &&& r.outcome is Ok <==> allow_await
            &&& allow_await ==> r.outcome == Ok::<Seq<char>, SyntaxErrorView>("await"@)
            &&& !allow_await ==> r.outcome == Err::<Seq<char>, SyntaxErrorView>(
                SyntaxErrorView::ExpectedIdent,
            )
        }),
{
}

/// `yield` is the name `yield` if and only if the production allows it; no
/// context decides about it.
pub proof fn lemma_yield_follows_flag(
    ctx: Context,
    syntax: Syntax,
    allow_yield: bool,
    allow_await: bool,
)
    ensures
        ({
            let r = resolution(
                Word::Keyword(Keyword::Yield),
                ctx,
                syntax,
                allow_yield,
                allow_await,
            );
            &&& r.outcome is Ok <==> allow_yield
            &&& allow_yield ==> r.outcome == Ok::<Seq<char>, SyntaxErrorView>("yield"@)
            &&& !allow_yield ==> r.outcome == Err::<Seq<char>, SyntaxErrorView>(
                SyntaxErrorView::ExpectedIdent,
            )
        }),
{
}

/// The keywords `yield` and `let` and the identifiers `enum`, `static`,
/// `implements`, `interface`, `package`, `private`, `protected` and `public`
/// are restricted in strict mode.
pub proof fn lemma_restricted_words(word: Word)
    requires
        ({
            ||| word == Word::Keyword(Keyword::Yield)
            ||| word == Word::Keyword(Keyword::Let)
            ||| word matches Word::Ident(name) && ({
                ||| name@ == "enum"@
                ||| name@ == "static"@
                ||| name@ == "implements"@
                ||| name@ == "interface"@
                ||| name@ == "package"@
                ||| name@ == "private"@
                ||| name@ == "protected"@
                ||| name@ == "public"@
            })
        }),
    ensures
        restricted_in_strict(word),
{
}

/// A word that strict mode restricts is flagged with exactly one deferred
/// diagnostic, which holds the word as it is written, whether or not the
/// word is then accepted. Of these words only `yield` can be rejected, where
/// the production does not allow it; every other one resolves to its own
/// text. A word that strict mode does not restrict is not flagged.
pub proof fn lemma_strict_mode_words_are_flagged(
    word: Word,
    ctx: Context,
    syntax: Syntax,
    allow_yield: bool,
    allow_await: bool,
)
    ensures
        ({
            let r = resolution(word, ctx, syntax, allow_yield, allow_await);
            &&& restricted_in_strict(word) ==> r.strict_mode == Some(
                SyntaxErrorView::InvalidIdentInStrict(word.spelling()),
            )
            &&& !restricted_in_strict(word) ==> r.strict_mode is None
            &&& restricted_in_strict(word) && (word != Word::Keyword(Keyword::Yield)
                || allow_yield) ==> r.outcome == Ok::<Seq<char>, SyntaxErrorView>(
                word.spelling(),
            )
        }),
{
}

/// The identifier `arguments` always resolves to `arguments`. Inside a
/// class field initializer exactly one diagnostic comes with it, which does
/// not stop the parse; outside there is none.
pub proof fn lemma_arguments_in_class_field(
    word: Word,
    ctx: Context,
    syntax: Syntax,
    allow_yield: bool,
    allow_await: bool,
)
    requires
        word matches Word::Ident(name) && name@ == "arguments"@,
    ensures
        ({
            let r = resolution(word, ctx, syntax, allow_yield, allow_await);
            &&& r.outcome == Ok::<Seq<char>, SyntaxErrorView>("arguments"@)
            &&& r.strict_mode is None
            &&& ctx.in_class_field ==> r.semantic == Some(SyntaxErrorView::ArgumentsInClassField)
            &&& !ctx.in_class_field ==> r.semantic is None
        }),
{
    reveal_strlit("arguments");
    reveal_strlit("enum");
    reveal_strlit("static");
    reveal_strlit("implements");
    reveal_strlit("interface");
    reveal_strlit("package");
    reveal_strlit("private");
    reveal_strlit("protected");
    reveal_strlit("public");
    assert("arguments"@[0] == 'a');
    assert("interface"@[0] == 'i');
    assert("protected"@[0] == 'p');
}

/// No word but the identifier `arguments` inside a class field initializer
/// brings a semantic diagnostic.
pub proof fn lemma_only_arguments_is_reported(
    word: Word,
    ctx: Context,
    syntax: Syntax,
    allow_yield: bool,
    allow_await: bool,
)
    requires
        !names_arguments_in_class_field(word, ctx),
    ensures
        resolution(word, ctx, syntax, allow_yield, allow_await).semantic is None,
{
}

} // verus!
