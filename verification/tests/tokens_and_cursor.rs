use rtl_parser::{
    parse_tokens, tokenize, Delimiter, ErrorKind, JitMeta, Rattle, RtlBody, RtlConstExpr, RtlDecl,
    RtlDeclValue, RtlDef, RtlExpr, RtlFn, RtlFnArg, RtlGen, RtlImport, RtlPub, RtlStatic,
    RtlStruct, RtlStructField, RtlVarExpr, SyntaxError, Token, TokenCursor, TokenKind,
};

fn word(s: &str) -> Token {
    Token::Ident(s.to_string())
}

fn punct(ch: char) -> Token {
    Token::Punct(ch, false)
}

fn joint(ch: char) -> Token {
    Token::Punct(ch, true)
}

fn literal(s: &str) -> Token {
    Token::Literal(s.to_string())
}

fn parens(inner: Vec<Token>) -> Token {
    Token::Group(Delimiter::Parenthesis, inner)
}

fn braces(inner: Vec<Token>) -> Token {
    Token::Group(Delimiter::Brace, inner)
}

fn tokens_of(source: &str) -> Vec<Token> {
    tokenize(source).unwrap()
}

fn failure(kind: ErrorKind, expected: Vec<TokenKind>, position: Vec<usize>) -> SyntaxError {
    SyntaxError { kind, expected, position }
}

#[test]
fn tokenize_words_and_path_separator() {
    assert_eq!(
        tokenize("import a::b;"),
        Some(vec![word("import"), word("a"), joint(':'), punct(':'), word("b"), punct(';')])
    );
}

#[test]
fn tokenize_marks_punctuation_that_is_followed_at_once() {
    assert_eq!(tokenize(": :"), Some(vec![punct(':'), punct(':')]));
    assert_eq!(tokenize("=="), Some(vec![joint('='), punct('=')]));
    assert_eq!(tokenize("= ="), Some(vec![punct('='), punct('=')]));
    assert_eq!(tokenize(";a"), Some(vec![punct(';'), word("a")]));
}

#[test]
fn tokenize_nests_groups() {
    assert_eq!(
        tokenize("f Name(Int x) Unit { g(1); [y] }"),
        Some(vec![
            word("f"),
            word("Name"),
            parens(vec![word("Int"), word("x")]),
            word("Unit"),
            braces(vec![
                word("g"),
                parens(vec![literal("1")]),
                punct(';'),
                Token::Group(Delimiter::Bracket, vec![word("y")]),
            ]),
        ])
    );
}

#[test]
fn tokenize_keeps_literals_as_written() {
    assert_eq!(
        tokenize("\"two words\" 1.5 0x1f 'c' 7u8"),
        Some(vec![
            literal("\"two words\""),
            literal("1.5"),
            literal("0x1f"),
            literal("'c'"),
            literal("7u8"),
        ])
    );
}

#[test]
fn tokenize_keeps_raw_identifiers_as_written() {
    assert_eq!(tokenize("r#struct x"), Some(vec![word("r#struct"), word("x")]));
}

#[test]
fn tokenize_drops_space_and_comments() {
    assert_eq!(tokenize(""), Some(vec![]));
    assert_eq!(tokenize(" \n\t// note\n/* more */ "), Some(vec![]));
    assert_eq!(tokenize("a /* b */ c // d"), Some(vec![word("a"), word("c")]));
}

#[test]
fn tokenize_rejects_what_is_no_token_sequence() {
    assert_eq!(tokenize("("), None);
    assert_eq!(tokenize(")"), None);
    assert_eq!(tokenize("{ ( }"), None);
    assert_eq!(tokenize("\"open"), None);
    assert_eq!(tokenize("a \\ b"), None);
}

#[test]
fn cursor_starts_at_the_first_token() {
    let tokens = tokens_of("struct P { }");
    let cursor = TokenCursor::new(&tokens);
    assert_eq!(cursor.position(), 0);
    assert!(!cursor.is_empty());
    assert!(cursor.peek(TokenKind::Struct));
    assert!(!cursor.peek(TokenKind::Ident));
    assert!(!cursor.peek(TokenKind::Braces));
}

#[test]
fn cursor_over_nothing_is_empty() {
    let tokens: Vec<Token> = Vec::new();
    let mut cursor = TokenCursor::new(&tokens);
    assert!(cursor.is_empty());
    assert_eq!(cursor.position(), 0);
    assert!(!cursor.peek(TokenKind::Semi));
    assert_eq!(
        cursor.expect(TokenKind::Semi),
        Err(failure(ErrorKind::UnexpectedEndOfInput, vec![TokenKind::Semi], vec![0]))
    );
    assert_eq!(
        cursor.name(),
        Err(failure(ErrorKind::UnexpectedEndOfInput, vec![TokenKind::Ident], vec![0]))
    );
    assert!(cursor.enter(TokenKind::Braces).is_err());
    assert!(!cursor.skip_optional(TokenKind::Semi));
    assert_eq!(cursor.position(), 0);
}

#[test]
fn cursor_peeks_every_kind() {
    let source = "f const var static struct def gen import as for mut pub name ; , = :: ( ) { }";
    let tokens = tokens_of(source);
    let kinds = [
        TokenKind::F,
        TokenKind::Const,
        TokenKind::Var,
        TokenKind::Static,
        TokenKind::Struct,
        TokenKind::Def,
        TokenKind::Gen,
        TokenKind::Import,
        TokenKind::As,
        TokenKind::For,
        TokenKind::Mut,
        TokenKind::Pub,
        TokenKind::Ident,
        TokenKind::Semi,
        TokenKind::Comma,
        TokenKind::Equals,
        TokenKind::PathSep,
        TokenKind::Parens,
        TokenKind::Braces,
    ];
    let names = [TokenKind::F, TokenKind::Var, TokenKind::Def, TokenKind::Gen, TokenKind::Import];
    let mut cursor = TokenCursor::new(&tokens);
    for kind in kinds {
        for other in kinds {
            let both = other == TokenKind::Ident && names.contains(&kind);
            assert_eq!(cursor.peek(other), other == kind || both, "{:?} at {:?}", other, kind);
        }
        assert_eq!(cursor.expect(kind), Ok(()));
    }
    assert!(cursor.is_empty());
    assert_eq!(cursor.position(), tokens.len());
    assert_eq!(tokens.len(), 20);
}

#[test]
fn cursor_expect_moves_on_success_and_stays_on_failure() {
    let tokens = tokens_of("import a");
    let mut cursor = TokenCursor::new(&tokens);
    assert_eq!(
        cursor.expect(TokenKind::As),
        Err(failure(ErrorKind::UnexpectedToken, vec![TokenKind::As], vec![0]))
    );
    assert_eq!(cursor.position(), 0);
    assert_eq!(cursor.expect(TokenKind::Import), Ok(()));
    assert_eq!(cursor.position(), 1);
    assert_eq!(cursor.name(), Ok("a".to_string()));
    assert_eq!(cursor.position(), 2);
    assert!(cursor.is_empty());
}

#[test]
fn cursor_path_separator_takes_two_tokens_that_stand_together() {
    let tokens = tokens_of(":: : :");
    let mut cursor = TokenCursor::new(&tokens);
    assert!(cursor.skip_optional(TokenKind::PathSep));
    assert_eq!(cursor.position(), 2);
    assert!(!cursor.peek(TokenKind::PathSep));
    assert!(!cursor.skip_optional(TokenKind::PathSep));
    assert_eq!(cursor.position(), 2);
    let lone = vec![joint(':')];
    assert!(!TokenCursor::new(&lone).peek(TokenKind::PathSep));
    let apart = vec![joint(':'), word("a"), punct(':')];
    assert!(!TokenCursor::new(&apart).peek(TokenKind::PathSep));
}

#[test]
fn cursor_fork_moves_alone() {
    let tokens = tokens_of("a b c");
    let mut cursor = TokenCursor::new(&tokens);
    assert_eq!(cursor.name(), Ok("a".to_string()));
    let mut probe = cursor.fork();
    assert_eq!(probe.position(), 1);
    assert_eq!(probe.name(), Ok("b".to_string()));
    assert_eq!(probe.name(), Ok("c".to_string()));
    assert!(probe.is_empty());
    assert_eq!(cursor.position(), 1);
    assert_eq!(cursor.name(), Ok("b".to_string()));
}

#[test]
fn cursor_enters_a_group_and_moves_over_it() {
    let tokens = tokens_of("( a , b ) c");
    let mut cursor = TokenCursor::new(&tokens);
    assert_eq!(
        cursor.fork().enter(TokenKind::Braces).err(),
        Some(failure(ErrorKind::UnexpectedToken, vec![TokenKind::Braces], vec![0]))
    );
    assert_eq!(
        cursor.fork().enter(TokenKind::Ident).err(),
        Some(failure(ErrorKind::UnexpectedToken, vec![TokenKind::Ident], vec![0]))
    );
    let mut inside = cursor.enter(TokenKind::Parens).unwrap();
    assert_eq!(cursor.position(), 1);
    assert_eq!(inside.position(), 0);
    assert_eq!(inside.name(), Ok("a".to_string()));
    assert_eq!(inside.expect(TokenKind::Comma), Ok(()));
    assert_eq!(inside.name(), Ok("b".to_string()));
    assert!(inside.is_empty());
    assert_eq!(
        inside.expect(TokenKind::Comma),
        Err(failure(ErrorKind::UnexpectedEndOfInput, vec![TokenKind::Comma], vec![3]))
    );
    assert_eq!(cursor.name(), Ok("c".to_string()));
}

#[test]
fn cursor_error_names_what_was_expected_where() {
    let tokens = tokens_of("a b");
    let mut cursor = TokenCursor::new(&tokens);
    cursor.name().unwrap();
    assert_eq!(
        cursor.error(vec![TokenKind::Semi, TokenKind::Comma]),
        failure(ErrorKind::UnexpectedToken, vec![TokenKind::Semi, TokenKind::Comma], vec![1])
    );
    cursor.name().unwrap();
    assert_eq!(
        cursor.error(vec![TokenKind::Semi]),
        failure(ErrorKind::UnexpectedEndOfInput, vec![TokenKind::Semi], vec![2])
    );
}

#[test]
fn error_positions_nest_from_the_outside_in() {
    let inner = SyntaxError::at(ErrorKind::MalformedList, TokenKind::Comma.alone(), 4);
    assert_eq!(inner, failure(ErrorKind::MalformedList, vec![TokenKind::Comma], vec![4]));
    let outer = inner.nested(2).nested(7);
    assert_eq!(outer, failure(ErrorKind::MalformedList, vec![TokenKind::Comma], vec![7, 2, 4]));
}

#[test]
fn function_with_terminator_ends_behind_the_terminator() {
    let tokens = tokens_of("f Name(Int x, Int y) Int; f Next() Unit");
    let mut cursor = TokenCursor::new(&tokens);
    assert_eq!(
        RtlFn::parse(&mut cursor),
        Ok(RtlFn {
            name: "Name".to_string(),
            args: vec![
                RtlFnArg { ty: "Int".to_string(), name: "x".to_string() },
                RtlFnArg { ty: "Int".to_string(), name: "y".to_string() },
            ],
            ret: "Int".to_string(),
            body: RtlBody,
        })
    );
    assert_eq!(cursor.position(), 5);
    assert!(cursor.peek(TokenKind::F));
}

#[test]
fn function_with_block_ends_before_the_block() {
    let tokens = tokens_of("f Name() Unit { a b c }");
    let mut cursor = TokenCursor::new(&tokens);
    assert_eq!(
        RtlFn::parse(&mut cursor),
        Ok(RtlFn {
            name: "Name".to_string(),
            args: vec![],
            ret: "Unit".to_string(),
            body: RtlBody,
        })
    );
    assert_eq!(cursor.position(), 4);
    assert!(!cursor.is_empty());
    assert!(cursor.peek(TokenKind::Braces));
}

#[test]
fn failed_function_leaves_the_cursor_where_it_was() {
    let tokens = tokens_of("struct A { } f Name(Int x Int y) Int;");
    let mut cursor = TokenCursor::new(&tokens);
    RtlStruct::parse(&mut cursor).unwrap();
    assert_eq!(cursor.position(), 3);
    assert_eq!(
        RtlFn::parse(&mut cursor),
        Err(failure(ErrorKind::MalformedList, vec![TokenKind::Comma], vec![5, 2]))
    );
    assert_eq!(cursor.position(), 3);
}

#[test]
fn hooks_read_nothing() {
    let nothing: Vec<Token> = Vec::new();
    assert_eq!(RtlBody::parse(&mut TokenCursor::new(&nothing)), Ok(RtlBody));
    assert_eq!(RtlExpr::parse(&mut TokenCursor::new(&nothing)), Ok(RtlExpr));
    let tokens = tokens_of("{ body } 1 + 2 ;");
    let mut cursor = TokenCursor::new(&tokens);
    assert_eq!(RtlBody::parse(&mut cursor), Ok(RtlBody));
    assert_eq!(cursor.position(), 0);
    assert_eq!(RtlExpr::parse(&mut cursor), Ok(RtlExpr));
    assert_eq!(cursor.position(), 0);
}

#[test]
fn argument_and_field_are_a_type_and_a_name() {
    let tokens = tokens_of("Int x Str");
    let mut cursor = TokenCursor::new(&tokens);
    assert_eq!(
        RtlFnArg::parse(&mut cursor.fork()),
        Ok(RtlFnArg { ty: "Int".to_string(), name: "x".to_string() })
    );
    assert_eq!(
        RtlStructField::parse(&mut cursor),
        Ok(RtlStructField { ty: "Int".to_string(), name: "x".to_string() })
    );
    assert_eq!(cursor.position(), 2);
    assert_eq!(
        RtlFnArg::parse(&mut cursor),
        Err(failure(ErrorKind::UnexpectedEndOfInput, vec![TokenKind::Ident], vec![3]))
    );
    assert_eq!(cursor.position(), 2);
}

#[test]
fn each_production_reads_from_a_cursor() {
    let tokens = tokens_of(
        "import a; const Int X = ; var Int mut v = ; static Int s = ; struct P { } def S { } gen",
    );
    let mut cursor = TokenCursor::new(&tokens);
    assert_eq!(
        RtlImport::parse(&mut cursor),
        Ok(RtlImport { path: vec!["a".to_string()], alias: None })
    );
    assert_eq!(cursor.position(), 3);
    assert_eq!(
        RtlConstExpr::parse(&mut cursor),
        Ok(RtlConstExpr { name: "X".to_string(), ty: "Int".to_string(), data: RtlExpr })
    );
    assert_eq!(cursor.position(), 8);
    assert_eq!(
        RtlVarExpr::parse(&mut cursor),
        Ok(RtlVarExpr {
            name: "v".to_string(),
            ty: "Int".to_string(),
            is_mut: true,
            data: RtlExpr,
        })
    );
    assert_eq!(cursor.position(), 14);
    assert_eq!(
        RtlStatic::parse(&mut cursor),
        Ok(RtlStatic {
            name: "s".to_string(),
            ty: "Int".to_string(),
            is_mut: false,
            data: RtlExpr,
        })
    );
    assert_eq!(cursor.position(), 19);
    assert_eq!(
        RtlDecl::parse(&mut cursor),
        Ok(RtlDecl {
            value: RtlDeclValue::RtlStruct(RtlStruct { name: "P".to_string(), fields: vec![] }),
        })
    );
    assert_eq!(cursor.position(), 22);
    assert_eq!(
        RtlDef::parse(&mut cursor),
        Ok(RtlDef { struct_name: "S".to_string(), defs: vec![], def_for: None })
    );
    assert_eq!(cursor.position(), 25);
    assert_eq!(RtlGen::parse(&mut cursor), Ok(RtlGen { methods: vec![] }));
    assert_eq!(cursor.position(), 26);
    assert!(cursor.is_empty());
}

#[test]
fn wrong_keyword_fails_each_production() {
    let tokens = tokens_of("struct P { }");
    let mut cursor = TokenCursor::new(&tokens);
    let at_start = |kind: TokenKind| failure(ErrorKind::UnexpectedToken, vec![kind], vec![0]);
    assert_eq!(RtlImport::parse(&mut cursor), Err(at_start(TokenKind::Import)));
    assert_eq!(RtlFn::parse(&mut cursor), Err(at_start(TokenKind::F)));
    assert_eq!(RtlConstExpr::parse(&mut cursor), Err(at_start(TokenKind::Const)));
    assert_eq!(RtlVarExpr::parse(&mut cursor), Err(at_start(TokenKind::Var)));
    assert_eq!(RtlStatic::parse(&mut cursor), Err(at_start(TokenKind::Static)));
    assert_eq!(RtlDef::parse(&mut cursor), Err(at_start(TokenKind::Def)));
    assert_eq!(RtlGen::parse(&mut cursor), Err(at_start(TokenKind::Gen)));
    assert_eq!(RtlPub::parse(&mut cursor), Err(at_start(TokenKind::Pub)));
    assert_eq!(cursor.position(), 0);
    assert!(RtlStruct::parse(&mut cursor).is_ok());
}

#[test]
fn export_marker_is_the_word_pub() {
    let tokens = tokens_of("pub x");
    let mut cursor = TokenCursor::new(&tokens);
    assert_eq!(RtlPub::parse(&mut cursor), Ok(RtlPub));
    assert_eq!(cursor.position(), 1);
    assert_eq!(
        RtlPub::parse(&mut cursor),
        Err(failure(ErrorKind::UnexpectedToken, vec![TokenKind::Pub], vec![1]))
    );
}

#[test]
fn program_reads_from_where_the_cursor_stands() {
    let tokens = tokens_of("junk import a; struct P { }");
    let mut cursor = TokenCursor::new(&tokens);
    cursor.name().unwrap();
    let program = Rattle::parse(&mut cursor).unwrap();
    assert_eq!(program.imports.len(), 1);
    assert_eq!(program.decls.len(), 1);
    assert!(program.public.is_empty());
    assert!(cursor.is_empty());
}

#[test]
fn parse_tokens_reads_tokens_built_by_hand() {
    let tokens = vec![
        word("import"),
        word("a"),
        joint(':'),
        joint(':'),
        word("b"),
        joint(';'),
        word("struct"),
        word("P"),
        braces(vec![word("Int"), word("x"), joint(',')]),
    ];
    let program = parse_tokens(&tokens).unwrap();
    assert_eq!(
        program.imports,
        vec![RtlImport { path: vec!["a".to_string(), "b".to_string()], alias: None }]
    );
    assert_eq!(
        program.decls,
        vec![RtlDecl {
            value: RtlDeclValue::RtlStruct(RtlStruct {
                name: "P".to_string(),
                fields: vec![RtlStructField { ty: "Int".to_string(), name: "x".to_string() }],
            }),
        }]
    );
}

#[test]
fn colons_that_stand_apart_are_no_path_separator() {
    let tokens = vec![word("import"), word("a"), punct(':'), punct(':'), word("b"), punct(';')];
    assert_eq!(
        parse_tokens(&tokens),
        Err(failure(
            ErrorKind::UnexpectedToken,
            vec![TokenKind::As, TokenKind::Semi, TokenKind::PathSep, TokenKind::Ident],
            vec![2],
        ))
    );
}

#[test]
fn groups_in_other_brackets_are_unexpected() {
    let invisible = vec![word("struct"), word("P"), Token::Group(Delimiter::Invisible, vec![])];
    assert_eq!(
        parse_tokens(&invisible),
        Err(failure(ErrorKind::UnexpectedToken, vec![TokenKind::Braces], vec![2]))
    );
    let bracket = vec![word("f"), word("G"), Token::Group(Delimiter::Bracket, vec![])];
    assert_eq!(
        parse_tokens(&bracket),
        Err(failure(ErrorKind::UnexpectedToken, vec![TokenKind::Parens], vec![2]))
    );
}

#[test]
fn words_that_are_no_single_word_are_no_names() {
    for text in ["", "two words", "1abc", "a-b", "struct", "_"] {
        let tokens = vec![word("struct"), word(text), braces(vec![])];
        assert_eq!(
            parse_tokens(&tokens),
            Err(failure(ErrorKind::UnexpectedToken, vec![TokenKind::Ident], vec![1])),
            "{:?}",
            text
        );
    }
    for text in ["a", "_a", "A1", "r#fn", "gen"] {
        let tokens = vec![word("struct"), word(text), braces(vec![])];
        assert!(parse_tokens(&tokens).is_ok(), "{:?}", text);
    }
}

#[test]
fn metadata_records_mutability() {
    assert!(JitMeta::new(true).is_mut);
    assert!(!JitMeta::new(false).is_mut);
    assert_eq!(JitMeta::new(true), JitMeta { is_mut: true });
}
