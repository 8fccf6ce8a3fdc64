use ecma_ident::{
    Context, Error, Ident, IdentName, ModuleExportName, Parser, PrivateName, Span, Str, Syntax,
    SyntaxError, Token, TokenAndSpan, Word,
};
use either::Either;
use swc_ecma_lexer::token::Keyword;

fn at(token: Token, lo: u32, hi: u32) -> TokenAndSpan {
    TokenAndSpan { token, span: Span { lo, hi } }
}

fn word(text: &str) -> Token {
    Token::Word(Word::Ident(text.to_string()))
}

fn keyword(k: Keyword) -> Token {
    Token::Word(Word::Keyword(k))
}

fn script(tokens: Vec<TokenAndSpan>) -> Parser {
    Parser::new(tokens, Context::empty(), Syntax::Es)
}

fn strict_error(word: &str, lo: u32, hi: u32) -> Error {
    Error { span: Span { lo, hi }, kind: SyntaxError::InvalidIdentInStrict(word.to_string()) }
}

#[test]
fn private_name_directly_after_hash() {
    let mut p = script(vec![at(Token::Hash, 4, 5), at(word("foo"), 5, 8), at(Token::Other, 9, 10)]);
    assert!(p.is_hash());
    let name = p.parse_private_name();
    assert_eq!(name, Ok(PrivateName { span: Span { lo: 4, hi: 8 }, name: "foo".to_string() }));
    assert_eq!(p.cur(), Some(&at(Token::Other, 9, 10)));
    assert!(p.errors().is_empty());
    assert!(p.strict_mode_errors().is_empty());
}

#[test]
fn private_name_with_a_gap_fails_before_the_name() {
    let mut p = script(vec![at(Token::Hash, 0, 1), at(word("foo"), 2, 5)]);
    let name = p.parse_private_name();
    assert_eq!(
        name,
        Err(Error { span: Span { lo: 0, hi: 1 }, kind: SyntaxError::SpaceBetweenHashAndIdent })
    );
    assert_eq!(p.cur(), Some(&at(word("foo"), 2, 5)));
    assert!(p.errors().is_empty());
    assert!(p.strict_mode_errors().is_empty());
}

#[test]
fn private_name_may_be_a_reserved_word() {
    let mut p = script(vec![at(Token::Hash, 0, 1), at(keyword(Keyword::Yield), 1, 6)]);
    let name = p.parse_private_name();
    assert_eq!(name, Ok(PrivateName { span: Span { lo: 0, hi: 6 }, name: "yield".to_string() }));
    assert_eq!(p.cur(), None);
    assert!(p.errors().is_empty());
    assert!(p.strict_mode_errors().is_empty());
}

#[test]
fn private_name_at_the_end_of_input() {
    let mut p = script(vec![at(Token::Hash, 3, 4)]);
    let name = p.parse_private_name();
    assert_eq!(name, Err(Error { span: Span { lo: 4, hi: 4 }, kind: SyntaxError::Eof }));
    assert_eq!(p.cur(), None);
}

#[test]
fn private_name_needs_a_name_behind_the_hash() {
    let mut p = script(vec![at(Token::Hash, 0, 1), at(Token::Hash, 1, 2)]);
    let name = p.parse_private_name();
    assert_eq!(name, Err(Error { span: Span { lo: 1, hi: 2 }, kind: SyntaxError::ExpectedIdent }));
    assert_eq!(p.cur(), Some(&at(Token::Hash, 1, 2)));
}

#[test]
fn maybe_private_name_goes_by_the_hash() {
    let mut p = script(vec![
        at(Token::Hash, 0, 1),
        at(word("x"), 1, 2),
        at(keyword(Keyword::Catch), 3, 8),
        at(Token::Other, 8, 9),
    ]);
    assert_eq!(
        p.parse_maybe_private_name(),
        Ok(Either::Left(PrivateName { span: Span { lo: 0, hi: 2 }, name: "x".to_string() }))
    );
    assert_eq!(
        p.parse_maybe_private_name(),
        Ok(Either::Right(IdentName { span: Span { lo: 3, hi: 8 }, sym: "catch".to_string() }))
    );
    assert_eq!(
        p.parse_maybe_private_name(),
        Err(Error { span: Span { lo: 8, hi: 9 }, kind: SyntaxError::ExpectedIdent })
    );
    assert_eq!(p.cur(), Some(&at(Token::Other, 8, 9)));
}

#[test]
fn ident_name_spells_every_word() {
    let words = [
        (Word::Null, "null"),
        (Word::True, "true"),
        (Word::False, "false"),
        (Word::Ident("static".to_string()), "static"),
        (Word::Ident("naïve".to_string()), "naïve"),
        (Word::Keyword(Keyword::Await), "await"),
        (Word::Keyword(Keyword::Break), "break"),
        (Word::Keyword(Keyword::Case), "case"),
        (Word::Keyword(Keyword::Catch), "catch"),
        (Word::Keyword(Keyword::Continue), "continue"),
        (Word::Keyword(Keyword::Debugger), "debugger"),
        (Word::Keyword(Keyword::Default_), "default"),
        (Word::Keyword(Keyword::Do), "do"),
        (Word::Keyword(Keyword::Else), "else"),
        (Word::Keyword(Keyword::Finally), "finally"),
        (Word::Keyword(Keyword::For), "for"),
        (Word::Keyword(Keyword::Function), "function"),
        (Word::Keyword(Keyword::If), "if"),
        (Word::Keyword(Keyword::Return), "return"),
        (Word::Keyword(Keyword::Switch), "switch"),
        (Word::Keyword(Keyword::Throw), "throw"),
        (Word::Keyword(Keyword::Try), "try"),
        (Word::Keyword(Keyword::Var), "var"),
        (Word::Keyword(Keyword::Let), "let"),
        (Word::Keyword(Keyword::Const), "const"),
        (Word::Keyword(Keyword::While), "while"),
        (Word::Keyword(Keyword::With), "with"),
        (Word::Keyword(Keyword::New), "new"),
        (Word::Keyword(Keyword::This), "this"),
        (Word::Keyword(Keyword::Super), "super"),
        (Word::Keyword(Keyword::Class), "class"),
        (Word::Keyword(Keyword::Extends), "extends"),
        (Word::Keyword(Keyword::Export), "export"),
        (Word::Keyword(Keyword::Import), "import"),
        (Word::Keyword(Keyword::Yield), "yield"),
        (Word::Keyword(Keyword::In), "in"),
        (Word::Keyword(Keyword::InstanceOf), "instanceof"),
        (Word::Keyword(Keyword::TypeOf), "typeof"),
        (Word::Keyword(Keyword::Void), "void"),
        (Word::Keyword(Keyword::Delete), "delete"),
    ];
    for (w, text) in words {
        assert_eq!(w.text(), text);
        let mut p = Parser::new(
            vec![at(Token::Word(w), 10, 20)],
            Context { module: true, in_async: true, in_generator: true, ..Context::empty() },
            Syntax::Es,
        );
        let name = p.parse_ident_name();
        assert_eq!(name, Ok(IdentName { span: Span { lo: 10, hi: 20 }, sym: text.to_string() }));
        assert_eq!(p.cur(), None);
        assert!(p.errors().is_empty());
        assert!(p.strict_mode_errors().is_empty());
    }
}

#[test]
fn ident_name_takes_a_jsx_name_inside_a_type_only() {
    let tokens = vec![at(Token::JSXName { name: "my-tag".to_string() }, 0, 6)];
    let mut p = script(tokens.clone());
    let name = p.parse_ident_name();
    assert_eq!(name, Err(Error { span: Span { lo: 0, hi: 6 }, kind: SyntaxError::ExpectedIdent }));
    assert_eq!(p.cur(), Some(&tokens[0]));

    let mut p = Parser::new(tokens, Context { in_type: true, ..Context::empty() }, Syntax::Typescript);
    let name = p.parse_ident_name();
    assert_eq!(name, Ok(IdentName { span: Span { lo: 0, hi: 6 }, sym: "my-tag".to_string() }));
    assert_eq!(p.cur(), None);
}

#[test]
fn ident_name_rejects_what_is_no_word() {
    for token in [
        Token::Hash,
        Token::Other,
        Token::Str { value: "a".to_string(), raw: "'a'".to_string() },
    ] {
        let mut p = script(vec![at(word("a"), 0, 1), at(token.clone(), 2, 5)]);
        assert!(p.parse_ident_name().is_ok());
        let name = p.parse_ident_name();
        assert_eq!(
            name,
            Err(Error { span: Span { lo: 2, hi: 5 }, kind: SyntaxError::ExpectedIdent })
        );
        assert_eq!(p.cur(), Some(&at(token, 2, 5)));
    }
}

#[test]
fn end_of_input_is_reported_where_the_last_token_ends() {
    let mut p = script(vec![]);
    let eof_at_start = Error { span: Span { lo: 0, hi: 0 }, kind: SyntaxError::Eof };
    assert_eq!(p.parse_ident_name(), Err(eof_at_start.clone()));
    assert_eq!(p.parse_ident(true, true), Err(eof_at_start.clone()));
    assert_eq!(p.parse_ident_ref(), Err(eof_at_start.clone()));
    assert_eq!(p.parse_label_ident(), Err(eof_at_start.clone()));
    assert_eq!(p.parse_maybe_private_name(), Err(eof_at_start));
    assert!(!p.is_hash());

    let mut p = script(vec![at(word("a"), 7, 8)]);
    assert!(p.parse_ident(true, true).is_ok());
    let eof = Error { span: Span { lo: 8, hi: 8 }, kind: SyntaxError::Eof };
    assert_eq!(p.parse_ident(true, true), Err(eof.clone()));
    assert_eq!(p.parse_ident_name(), Err(eof));
    assert_eq!(
        p.parse_module_export_name(),
        Err(Error {
            span: Span { lo: 7, hi: 8 },
            kind: SyntaxError::Unexpected { expected: "identifier or string" },
        })
    );
}

#[test]
fn module_export_name_from_a_string_literal() {
    let mut p = script(vec![
        at(Token::Str { value: "x".to_string(), raw: "\"x\"".to_string() }, 7, 10),
        at(Token::Other, 10, 11),
    ]);
    let name = p.parse_module_export_name();
    assert_eq!(
        name,
        Ok(ModuleExportName::Str(Str {
            span: Span { lo: 7, hi: 10 },
            value: "x".to_string(),
            raw: Some("\"x\"".to_string()),
        }))
    );
    assert_eq!(p.cur(), Some(&at(Token::Other, 10, 11)));
}

#[test]
fn module_export_name_from_a_reserved_word() {
    let mut p = Parser::new(
        vec![at(keyword(Keyword::Default_), 0, 7)],
        Context { module: true, ..Context::empty() },
        Syntax::Es,
    );
    let name = p.parse_module_export_name();
    assert_eq!(
        name,
        Ok(ModuleExportName::Ident(Ident {
            span: Span { lo: 0, hi: 7 },
            sym: "default".to_string()
        }))
    );
    assert_eq!(p.cur(), None);
    assert!(p.strict_mode_errors().is_empty());
}

#[test]
fn module_export_name_from_a_number_is_fatal() {
    let number = at(Token::Other, 3, 5);
    let mut p = script(vec![number.clone()]);
    let name = p.parse_module_export_name();
    assert_eq!(
        name,
        Err(Error {
            span: Span { lo: 3, hi: 5 },
            kind: SyntaxError::Unexpected { expected: "identifier or string" },
        })
    );
    assert_eq!(p.cur(), Some(&number));
    for token in [Token::Hash, Token::JSXName { name: "a".to_string() }] {
        let mut p = script(vec![at(token, 0, 1)]);
        assert!(p.parse_module_export_name().is_err());
    }
}

#[test]
fn ident_from_a_plain_word() {
    let mut p = script(vec![at(word("foo"), 2, 5), at(Token::Other, 5, 6)]);
    assert_eq!(p.parse_ident(false, false), Ok(Ident { span: Span { lo: 2, hi: 5 }, sym: "foo".to_string() }));
    assert_eq!(p.cur(), Some(&at(Token::Other, 5, 6)));
    assert_eq!(
        p.parse_ident(true, true),
        Err(Error { span: Span { lo: 5, hi: 6 }, kind: SyntaxError::ExpectedIdent })
    );
    assert_eq!(p.cur(), Some(&at(Token::Other, 5, 6)));
    assert!(p.errors().is_empty());
    assert!(p.strict_mode_errors().is_empty());
}

#[test]
fn ident_consumes_a_rejected_word() {
    let mut p = Parser::new(
        vec![at(keyword(Keyword::Await), 0, 5), at(Token::Word(Word::Null), 6, 10), at(word("a"), 11, 12)],
        Context { module: true, ..Context::empty() },
        Syntax::Es,
    );
    assert_eq!(
        p.parse_ident(true, true),
        Err(Error { span: Span { lo: 0, hi: 5 }, kind: SyntaxError::InvalidIdentInAsync })
    );
    assert_eq!(
        p.parse_ident(true, true),
        Err(Error { span: Span { lo: 6, hi: 10 }, kind: SyntaxError::ExpectedIdent })
    );
    assert_eq!(p.parse_ident(true, true), Ok(Ident { span: Span { lo: 11, hi: 12 }, sym: "a".to_string() }));
    assert!(p.errors().is_empty());
    assert!(p.strict_mode_errors().is_empty());
}

#[test]
fn ident_records_strict_mode_words_even_when_accepted() {
    let mut p = script(vec![
        at(keyword(Keyword::Let), 0, 3),
        at(word("static"), 4, 10),
        at(keyword(Keyword::Yield), 11, 16),
        at(word("enum"), 17, 21),
        at(word("plain"), 22, 27),
    ]);
    assert_eq!(p.parse_ident(true, true), Ok(Ident { span: Span { lo: 0, hi: 3 }, sym: "let".to_string() }));
    assert_eq!(
        p.parse_ident(true, true),
        Ok(Ident { span: Span { lo: 4, hi: 10 }, sym: "static".to_string() })
    );
    assert_eq!(
        p.parse_ident(false, true),
        Err(Error { span: Span { lo: 11, hi: 16 }, kind: SyntaxError::ExpectedIdent })
    );
    assert_eq!(
        p.parse_ident(false, false),
        Ok(Ident { span: Span { lo: 17, hi: 21 }, sym: "enum".to_string() })
    );
    assert!(p.parse_ident(false, false).is_ok());
    assert!(p.errors().is_empty());
    assert_eq!(
        p.strict_mode_errors(),
        &vec![
            strict_error("let", 0, 3),
            strict_error("static", 4, 10),
            strict_error("yield", 11, 16),
            strict_error("enum", 17, 21),
        ]
    );
}

#[test]
fn ident_reports_arguments_in_a_class_field() {
    let tokens = vec![at(word("arguments"), 1, 10), at(word("arguments"), 11, 20)];
    let mut p = Parser::new(tokens, Context { in_class_field: true, ..Context::empty() }, Syntax::Es);
    assert_eq!(
        p.parse_ident(true, true),
        Ok(Ident { span: Span { lo: 1, hi: 10 }, sym: "arguments".to_string() })
    );
    assert_eq!(
        p.errors(),
        &vec![Error { span: Span { lo: 1, hi: 10 }, kind: SyntaxError::ArgumentsInClassField }]
    );
    let field = p.ctx();
    p.set_ctx(Context { in_class_field: false, ..field });
    assert!(p.parse_ident(true, true).is_ok());
    assert_eq!(p.errors().len(), 1);
    assert!(p.strict_mode_errors().is_empty());
    p.set_ctx(field);
    assert_eq!(p.ctx(), field);
}

#[test]
fn ident_ref_takes_yield_and_await_outside_generators_and_async() {
    let tokens = vec![at(keyword(Keyword::Yield), 0, 5), at(keyword(Keyword::Await), 6, 11)];
    let mut p = script(tokens.clone());
    assert_eq!(p.parse_ident_ref(), Ok(Ident { span: Span { lo: 0, hi: 5 }, sym: "yield".to_string() }));
    assert_eq!(
        p.parse_label_ident(),
        Ok(Ident { span: Span { lo: 6, hi: 11 }, sym: "await".to_string() })
    );

    let inside = Context { in_generator: true, in_async: true, ..Context::empty() };
    let mut p = Parser::new(tokens.clone(), inside, Syntax::Es);
    assert_eq!(
        p.parse_ident_ref(),
        Err(Error { span: Span { lo: 0, hi: 5 }, kind: SyntaxError::ExpectedIdent })
    );
    assert_eq!(
        p.parse_ident_ref(),
        Err(Error { span: Span { lo: 6, hi: 11 }, kind: SyntaxError::InvalidIdentInAsync })
    );
    assert_eq!(p.strict_mode_errors(), &vec![strict_error("yield", 0, 5)]);

    let mut p = Parser::new(tokens, inside, Syntax::Es);
    assert!(p.parse_label_ident().is_err());
    assert!(p.parse_label_ident().is_err());
    assert_eq!(p.cur(), None);
}

#[test]
fn this_is_an_identifier_in_typescript() {
    let tokens = vec![at(keyword(Keyword::This), 0, 4)];
    let mut p = Parser::new(tokens.clone(), Context::empty(), Syntax::Typescript);
    assert_eq!(p.syntax(), Syntax::Typescript);
    assert_eq!(p.parse_ident_ref(), Ok(Ident { span: Span { lo: 0, hi: 4 }, sym: "this".to_string() }));
    let mut p = script(tokens);
    assert_eq!(
        p.parse_ident_ref(),
        Err(Error { span: Span { lo: 0, hi: 4 }, kind: SyntaxError::ExpectedIdent })
    );
}

#[test]
fn spans_are_put_in_order() {
    assert_eq!(Span::new(3, 9), Span { lo: 3, hi: 9 });
    assert_eq!(Span::new(9, 3), Span { lo: 3, hi: 9 });
    assert_eq!(Span::new(4, 4), Span { lo: 4, hi: 4 });
    let mut p = script(vec![at(word("a"), 9, 3)]);
    assert_eq!(p.parse_ident_name(), Ok(IdentName { span: Span { lo: 3, hi: 9 }, sym: "a".to_string() }));
}

#[test]
fn deferred_diagnostics_are_raised_in_strict_code_only() {
    let tokens = vec![at(word("arguments"), 0, 9), at(keyword(Keyword::Let), 10, 13)];
    let ctx = Context { in_class_field: true, ..Context::empty() };
    let arguments = Error { span: Span { lo: 0, hi: 9 }, kind: SyntaxError::ArgumentsInClassField };

    let mut p = Parser::new(tokens.clone(), ctx, Syntax::Es);
    assert!(p.parse_ident_ref().is_ok());
    assert!(p.parse_ident_ref().is_ok());
    assert_eq!(p.finish(false), vec![arguments.clone()]);

    let mut p = Parser::new(tokens, ctx, Syntax::Es);
    assert!(p.parse_ident_ref().is_ok());
    assert!(p.parse_ident_ref().is_ok());
    assert_eq!(p.finish(true), vec![arguments, strict_error("let", 10, 13)]);
}

#[test]
fn parsing_the_same_input_twice_gives_the_same() {
    let tokens = vec![
        at(word("public"), 0, 6),
        at(keyword(Keyword::Await), 7, 12),
        at(word("arguments"), 13, 22),
    ];
    let ctx = Context { in_class_field: true, in_async: true, ..Context::empty() };
    let mut first = Parser::new(tokens.clone(), ctx, Syntax::Es);
    let mut second = Parser::new(tokens, ctx, Syntax::Es);
    for _ in 0..4 {
        assert_eq!(first.parse_ident(true, true), second.parse_ident(true, true));
        assert_eq!(first.cur(), second.cur());
    }
    assert_eq!(first.errors(), second.errors());
    assert_eq!(first.strict_mode_errors(), second.strict_mode_errors());
}
