use wat_types::{
    Error, Expected, FunctionType, GlobalType, Id, Index, Keyword, Limits, MemoryType,
    NameAnnotation, Parser, Span, TableElemType, TableType, Token, Type, TypeUse, ValType,
};

/// Splits a line of the text format into tokens. An annotation
/// `(@name "x")` becomes one token.
fn lex(text: &str) -> Vec<Token<'_>> {
    let bytes = text.as_bytes();
    let mut out = Vec::new();
    let mut i: usize = 0;
    while i < bytes.len() {
        if bytes[i] == b' ' {
            i += 1;
        } else if text[i..].starts_with("(@name \"") {
            let start: usize = i + 8;
            let end: usize = start + text[start..].find('"').unwrap();
            out.push(Token::Name(&text[start..end]));
            i = end + 2;
        } else if bytes[i] == b'(' {
            out.push(Token::LParen);
            i += 1;
        } else if bytes[i] == b')' {
            out.push(Token::RParen);
            i += 1;
        } else if bytes[i] == b'"' {
            let start: usize = i + 1;
            let end: usize = start + text[start..].find('"').unwrap();
            out.push(Token::Str(&text[start..end]));
            i = end + 1;
        } else {
            let start: usize = i;
            while i < bytes.len() && bytes[i] != b' ' && bytes[i] != b'(' && bytes[i] != b')' {
                i += 1;
            }
            let word = &text[start..i];
            if let Some(name) = word.strip_prefix('$') {
                out.push(Token::Id(name));
            } else if let Ok(v) = word.parse::<i128>() {
                out.push(Token::Integer(v));
            } else if word.as_bytes()[0].is_ascii_lowercase() {
                out.push(Token::Keyword(word));
            } else {
                out.push(Token::Reserved(word));
            }
        }
    }
    out
}

fn unexpected(expected: Vec<Expected>, offset: usize) -> Error {
    Error::Unexpected { expected, span: Span { offset } }
}

fn value_keywords() -> Vec<Expected> {
    vec![
        Expected::Keyword(Keyword::I32),
        Expected::Keyword(Keyword::I64),
        Expected::Keyword(Keyword::F32),
        Expected::Keyword(Keyword::F64),
        Expected::Keyword(Keyword::Anyref),
        Expected::Keyword(Keyword::Funcref),
        Expected::Keyword(Keyword::Nullref),
        Expected::Keyword(Keyword::V128),
    ]
}

fn val_type(text: &str) -> Result<(ValType, usize), Error> {
    let tokens = lex(text);
    ValType::parse(Parser::new(&tokens)).map(|(v, rest)| (v, rest.cur_span().offset))
}

fn signature<'a>(
    tokens: &'a [Token<'a>],
    allow_names: bool,
) -> Result<(FunctionType<'a>, usize), Error> {
    let mut ty = FunctionType { params: Vec::new(), results: Vec::new() };
    let rest = ty.finish_parse(allow_names, Parser::new(tokens))?;
    Ok((ty, rest.cur_span().offset))
}

#[test]
fn lexer_of_the_tests_splits_as_expected() {
    assert_eq!(
        lex("(param $x (@name \"y\") i32) 7 -1 \"s\" 1.5"),
        vec![
            Token::LParen,
            Token::Keyword("param"),
            Token::Id("x"),
            Token::Name("y"),
            Token::Keyword("i32"),
            Token::RParen,
            Token::Integer(7),
            Token::Integer(-1),
            Token::Str("s"),
            Token::Reserved("1.5"),
        ]
    );
}

#[test]
fn each_value_keyword_gives_its_type() {
    assert_eq!(val_type("i32"), Ok((ValType::I32, 1)));
    assert_eq!(val_type("i64"), Ok((ValType::I64, 1)));
    assert_eq!(val_type("f32"), Ok((ValType::F32, 1)));
    assert_eq!(val_type("f64"), Ok((ValType::F64, 1)));
    assert_eq!(val_type("anyref"), Ok((ValType::Anyref, 1)));
    assert_eq!(val_type("funcref"), Ok((ValType::Funcref, 1)));
    assert_eq!(val_type("v128"), Ok((ValType::V128, 1)));
    assert_eq!(val_type("nullref"), Ok((ValType::Nullref, 1)));
}

#[test]
fn value_type_consumes_one_token_only() {
    assert_eq!(val_type("i64 i32"), Ok((ValType::I64, 1)));
}

#[test]
fn other_tokens_are_no_value_type() {
    assert_eq!(val_type("i16"), Err(unexpected(value_keywords(), 0)));
    assert_eq!(val_type("I32"), Err(unexpected(value_keywords(), 0)));
    assert_eq!(val_type("mut"), Err(unexpected(value_keywords(), 0)));
    assert_eq!(val_type("$i32"), Err(unexpected(value_keywords(), 0)));
    assert_eq!(val_type("32"), Err(unexpected(value_keywords(), 0)));
    assert_eq!(val_type("\"i32\""), Err(unexpected(value_keywords(), 0)));
    assert_eq!(val_type("(i32)"), Err(unexpected(value_keywords(), 0)));
    assert_eq!(val_type(")"), Err(unexpected(value_keywords(), 0)));
    assert_eq!(val_type(""), Err(unexpected(value_keywords(), 0)));
}

#[test]
fn funcref_and_anyfunc_are_the_function_reference() {
    assert_eq!(val_type("funcref"), Ok((ValType::Funcref, 1)));
    assert_eq!(val_type("anyfunc"), Ok((ValType::Funcref, 1)));
    for text in ["funcref", "anyfunc"] {
        let tokens = lex(text);
        let (elem, rest) = TableElemType::parse(Parser::new(&tokens)).unwrap();
        assert_eq!(elem, TableElemType::Funcref);
        assert_eq!(rest.cur_span(), Span { offset: 1 });
        assert!(TableElemType::peek(Parser::new(&tokens)));
    }
}

#[test]
fn table_element_types() {
    let tokens = lex("anyref nullref i32");
    let p = Parser::new(&tokens);
    let (first, p) = TableElemType::parse(p).unwrap();
    assert_eq!(first, TableElemType::Anyref);
    assert!(TableElemType::peek(p));
    let (second, p) = TableElemType::parse(p).unwrap();
    assert_eq!(second, TableElemType::Nullref);
    assert!(!TableElemType::peek(p));
    assert_eq!(
        TableElemType::parse(p).map(|(v, _)| v),
        Err(unexpected(
            vec![
                Expected::Keyword(Keyword::Funcref),
                Expected::Keyword(Keyword::Anyref),
                Expected::Keyword(Keyword::Nullref),
            ],
            2
        ))
    );
    assert_eq!(TableElemType::display(), "table element type");
}

#[test]
fn global_type_bare_is_immutable() {
    let tokens = lex("i32");
    let (g, rest) = GlobalType::parse(Parser::new(&tokens)).unwrap();
    assert_eq!(g, GlobalType { ty: ValType::I32, mutable: false });
    assert_eq!(rest.cur_span().offset, 1);
}

#[test]
fn global_type_in_mut_group_is_mutable() {
    let tokens = lex("(mut i32)");
    let (g, rest) = GlobalType::parse(Parser::new(&tokens)).unwrap();
    assert_eq!(g, GlobalType { ty: ValType::I32, mutable: true });
    assert_eq!(rest.cur_span().offset, 4);
    assert!(rest.peek().is_none());
}

#[test]
fn global_type_errors() {
    let tokens = lex("(mut i32 i64)");
    assert_eq!(
        GlobalType::parse(Parser::new(&tokens)).map(|(g, _)| g),
        Err(unexpected(vec![Expected::RParen], 3))
    );
    let tokens = lex("(mut)");
    assert_eq!(
        GlobalType::parse(Parser::new(&tokens)).map(|(g, _)| g),
        Err(unexpected(value_keywords(), 2))
    );
    let tokens = lex("(i32)");
    assert_eq!(
        GlobalType::parse(Parser::new(&tokens)).map(|(g, _)| g),
        Err(unexpected(value_keywords(), 0))
    );
    let tokens = lex("mut i32");
    assert_eq!(
        GlobalType::parse(Parser::new(&tokens)).map(|(g, _)| g),
        Err(unexpected(value_keywords(), 0))
    );
}

#[test]
fn limits_minimum_alone() {
    let tokens = lex("1");
    let (l, rest) = Limits::parse(Parser::new(&tokens)).unwrap();
    assert_eq!(l, Limits { min: 1, max: None });
    assert_eq!(rest.cur_span().offset, 1);
}

#[test]
fn limits_minimum_and_maximum() {
    let tokens = lex("1 2");
    let (l, rest) = Limits::parse(Parser::new(&tokens)).unwrap();
    assert_eq!(l, Limits { min: 1, max: Some(2) });
    assert_eq!(rest.cur_span().offset, 2);
}

#[test]
fn limits_take_two_numbers_at_most() {
    let tokens = lex("0 4294967295 7");
    let (l, rest) = Limits::parse(Parser::new(&tokens)).unwrap();
    assert_eq!(l, Limits { min: 0, max: Some(4294967295) });
    assert_eq!(rest.cur_span().offset, 2);
}

#[test]
fn limits_maximum_must_fit_in_32_bits() {
    let tokens = lex("1 4294967296");
    let (l, rest) = Limits::parse(Parser::new(&tokens)).unwrap();
    assert_eq!(l, Limits { min: 1, max: None });
    assert_eq!(rest.cur_span().offset, 1);
    let tokens = lex("1 -1");
    let (l, rest) = Limits::parse(Parser::new(&tokens)).unwrap();
    assert_eq!(l, Limits { min: 1, max: None });
    assert_eq!(rest.cur_span().offset, 1);
}

#[test]
fn limits_need_a_minimum() {
    for text in ["", "funcref", "4294967296", "-1", "(1)", "$1"] {
        let tokens = lex(text);
        assert_eq!(
            Limits::parse(Parser::new(&tokens)).map(|(l, _)| l),
            Err(unexpected(vec![Expected::U32], 0))
        );
    }
}

#[test]
fn table_type_limits_then_element() {
    let tokens = lex("1 2 funcref");
    let (t, rest) = TableType::parse(Parser::new(&tokens)).unwrap();
    assert_eq!(
        t,
        TableType { limits: Limits { min: 1, max: Some(2) }, elem: TableElemType::Funcref }
    );
    assert_eq!(rest.cur_span().offset, 3);
    let tokens = lex("0 anyfunc");
    let (t, _) = TableType::parse(Parser::new(&tokens)).unwrap();
    assert_eq!(t, TableType { limits: Limits { min: 0, max: None }, elem: TableElemType::Funcref });
}

#[test]
fn table_type_errors() {
    let tokens = lex("1 2 3 funcref");
    assert_eq!(
        TableType::parse(Parser::new(&tokens)).map(|(t, _)| t),
        Err(unexpected(
            vec![
                Expected::Keyword(Keyword::Funcref),
                Expected::Keyword(Keyword::Anyref),
                Expected::Keyword(Keyword::Nullref),
            ],
            2
        ))
    );
    let tokens = lex("funcref");
    assert_eq!(
        TableType::parse(Parser::new(&tokens)).map(|(t, _)| t),
        Err(unexpected(vec![Expected::U32], 0))
    );
}

#[test]
fn memory_type_with_and_without_shared() {
    let tokens = lex("1");
    let (m, rest) = MemoryType::parse(Parser::new(&tokens)).unwrap();
    assert_eq!(m, MemoryType { limits: Limits { min: 1, max: None }, shared: false });
    assert_eq!(rest.cur_span().offset, 1);
    let tokens = lex("1 2 shared");
    let (m, rest) = MemoryType::parse(Parser::new(&tokens)).unwrap();
    assert_eq!(m, MemoryType { limits: Limits { min: 1, max: Some(2) }, shared: true });
    assert_eq!(rest.cur_span().offset, 3);
    let tokens = lex("1 2 i32");
    let (m, rest) = MemoryType::parse(Parser::new(&tokens)).unwrap();
    assert_eq!(m, MemoryType { limits: Limits { min: 1, max: Some(2) }, shared: false });
    assert_eq!(rest.cur_span().offset, 2);
    let tokens = lex("shared");
    assert_eq!(
        MemoryType::parse(Parser::new(&tokens)).map(|(m, _)| m),
        Err(unexpected(vec![Expected::U32], 0))
    );
}

#[test]
fn function_type_from_mixed_groups() {
    let tokens = lex("(param i32 i32) (param $x f32) (result i32)");
    let (ty, end) = signature(&tokens, true).unwrap();
    assert_eq!(
        ty.params,
        vec![
            (None, None, ValType::I32),
            (None, None, ValType::I32),
            (Some(Id { name: "x" }), None, ValType::F32),
        ]
    );
    assert_eq!(ty.results, vec![ValType::I32]);
    assert_eq!(end, tokens.len());
}

#[test]
fn function_type_behind_its_keyword() {
    let tokens = lex("func (param i32 i32) (param $x f32) (result i32) (local i32)");
    let (ty, rest) = FunctionType::parse(Parser::new(&tokens)).unwrap();
    assert_eq!(ty.params.len(), 3);
    assert_eq!(ty.params[2], (Some(Id { name: "x" }), None, ValType::F32));
    assert_eq!(ty.results, vec![ValType::I32]);
    assert_eq!(rest.cur_span().offset, 15);
    assert_eq!(rest.peek(), Some(Token::LParen));
    let tokens = lex("(param i32)");
    assert_eq!(
        FunctionType::parse(Parser::new(&tokens)).map(|(t, _)| t),
        Err(unexpected(vec![Expected::Keyword(Keyword::Func)], 0))
    );
}

#[test]
fn param_after_result_is_an_order_violation() {
    let tokens = lex("(result i32) (param i32)");
    assert_eq!(
        signature(&tokens, true),
        Err(Error::ParamAfterResult { span: Span { offset: 5 } })
    );
    assert_eq!(
        signature(&tokens, false),
        Err(Error::ParamAfterResult { span: Span { offset: 5 } })
    );
}

#[test]
fn empty_groups_change_nothing() {
    let tokens = lex("(param) (result) (param i32) (param) (result i64) (result)");
    let (ty, end) = signature(&tokens, true).unwrap();
    assert_eq!(ty.params, vec![(None, None, ValType::I32)]);
    assert_eq!(ty.results, vec![ValType::I64]);
    assert_eq!(end, tokens.len());
    let tokens = lex("(result i64) (param)");
    assert_eq!(
        signature(&tokens, true),
        Err(Error::ParamAfterResult { span: Span { offset: 5 } })
    );
}

#[test]
fn named_group_binds_exactly_one_type() {
    let tokens = lex("(param $x i32 i32)");
    assert_eq!(signature(&tokens, true), Err(unexpected(vec![Expected::RParen], 4)));
    let tokens = lex("(param (@name \"x\") i32 i32)");
    assert_eq!(signature(&tokens, true), Err(unexpected(vec![Expected::RParen], 4)));
    let tokens = lex("(param $x)");
    assert_eq!(signature(&tokens, true), Err(unexpected(value_keywords(), 3)));
}

#[test]
fn named_parameters_keep_identifier_and_display_name() {
    let tokens = lex("(param $a (@name \"first\") i64) (param (@name \"second\") f64) (param $c v128)");
    let (ty, end) = signature(&tokens, true).unwrap();
    assert_eq!(
        ty.params,
        vec![
            (Some(Id { name: "a" }), Some(NameAnnotation { name: "first" }), ValType::I64),
            (None, Some(NameAnnotation { name: "second" }), ValType::F64),
            (Some(Id { name: "c" }), None, ValType::V128),
        ]
    );
    assert!(ty.results.is_empty());
    assert_eq!(end, tokens.len());
}

#[test]
fn names_where_none_are_allowed_fail_as_a_value_type() {
    let tokens = lex("(param $x i32)");
    assert_eq!(signature(&tokens, false), Err(unexpected(value_keywords(), 2)));
    let tokens = lex("(param (@name \"x\") i32)");
    assert_eq!(signature(&tokens, false), Err(unexpected(value_keywords(), 2)));
    let tokens = lex("(param i32 i64) (result f32 f64)");
    let (ty, _) = signature(&tokens, false).unwrap();
    assert_eq!(ty.params, vec![(None, None, ValType::I32), (None, None, ValType::I64)]);
    assert_eq!(ty.results, vec![ValType::F32, ValType::F64]);
}

#[test]
fn results_take_no_names() {
    let tokens = lex("(result $x i32)");
    assert_eq!(signature(&tokens, true), Err(unexpected(value_keywords(), 2)));
}

#[test]
fn signature_ends_at_the_first_other_thing() {
    let tokens = lex("(param i32) (local i32) (result i32)");
    let (ty, end) = signature(&tokens, true).unwrap();
    assert_eq!(ty.params, vec![(None, None, ValType::I32)]);
    assert!(ty.results.is_empty());
    assert_eq!(end, 4);
    let tokens = lex("param i32");
    let (ty, end) = signature(&tokens, true).unwrap();
    assert!(ty.params.is_empty() && ty.results.is_empty());
    assert_eq!(end, 0);
    let tokens = lex("(param i32");
    assert_eq!(signature(&tokens, true), Err(unexpected(vec![Expected::RParen], 3)));
}

#[test]
fn finish_parse_adds_to_what_is_there() {
    let tokens = lex("(param i64) (result f32)");
    let mut ty = FunctionType {
        params: vec![(Some(Id { name: "p" }), None, ValType::I32)],
        results: Vec::new(),
    };
    let rest = ty.finish_parse(true, Parser::new(&tokens)).unwrap();
    assert_eq!(rest.cur_span().offset, 8);
    assert_eq!(
        ty.params,
        vec![(Some(Id { name: "p" }), None, ValType::I32), (None, None, ValType::I64)]
    );
    assert_eq!(ty.results, vec![ValType::F32]);
}

#[test]
fn finish_parse_leaves_the_type_alone_on_error() {
    let tokens = lex("(param i64) (result f32) (param i32)");
    let before = FunctionType { params: Vec::new(), results: vec![ValType::I32] };
    let mut ty = before.clone();
    assert_eq!(
        ty.finish_parse(true, Parser::new(&tokens)).map(|p| p.cur_span()),
        Err(Error::ParamAfterResult { span: Span { offset: 1 } })
    );
    assert_eq!(ty, before);
    let mut ty = FunctionType { params: Vec::new(), results: Vec::new() };
    assert_eq!(
        ty.finish_parse(true, Parser::new(&tokens)).map(|p| p.cur_span()),
        Err(Error::ParamAfterResult { span: Span { offset: 9 } })
    );
    assert_eq!(ty, FunctionType { params: Vec::new(), results: Vec::new() });
}

#[test]
fn type_declaration() {
    let tokens = lex("type $sig (func (param i32) (result i64))");
    let (ty, rest) = Type::parse(Parser::new(&tokens)).unwrap();
    assert_eq!(ty.id, Some(Id { name: "sig" }));
    assert_eq!(ty.func.params, vec![(None, None, ValType::I32)]);
    assert_eq!(ty.func.results, vec![ValType::I64]);
    assert_eq!(rest.cur_span().offset, tokens.len());
    let tokens = lex("type (func)");
    let (ty, rest) = Type::parse(Parser::new(&tokens)).unwrap();
    assert_eq!(ty.id, None);
    assert!(ty.func.params.is_empty() && ty.func.results.is_empty());
    assert_eq!(rest.cur_span().offset, 4);
}

#[test]
fn type_declaration_errors() {
    let cases = [
        ("func", unexpected(vec![Expected::Keyword(Keyword::Type)], 0)),
        ("type $t func", unexpected(vec![Expected::LParen], 2)),
        ("type (param i32)", unexpected(vec![Expected::Keyword(Keyword::Func)], 2)),
        ("type (func (param i32) i32)", unexpected(vec![Expected::RParen], 7)),
        ("type (func (result i32) (param i32))", Error::ParamAfterResult { span: Span { offset: 8 } }),
    ];
    for (text, error) in cases {
        let tokens = lex(text);
        assert_eq!(Type::parse(Parser::new(&tokens)).map(|(t, _)| t), Err(error));
    }
}

#[test]
fn type_use_by_reference_alone() {
    let tokens = lex("(type 3)");
    let (ty, rest) = TypeUse::parse(Parser::new(&tokens)).unwrap();
    assert_eq!(ty.index, Some(Index::Num(3)));
    assert_eq!(ty.index_span, Some(Span { offset: 2 }));
    assert!(ty.ty.params.is_empty());
    assert!(ty.ty.results.is_empty());
    assert_eq!(rest.cur_span().offset, 4);
}

#[test]
fn type_use_by_inline_signature_alone() {
    let tokens = lex("(param f32)");
    let (ty, rest) = TypeUse::parse(Parser::new(&tokens)).unwrap();
    assert_eq!(ty.index, None);
    assert_eq!(ty.index_span, None);
    assert_eq!(ty.ty.params, vec![(None, None, ValType::F32)]);
    assert!(ty.ty.results.is_empty());
    assert_eq!(rest.cur_span().offset, 4);
}

#[test]
fn type_use_with_both_and_with_neither() {
    let tokens = lex("(type $t) (param $x i32) (result i32) i32.const");
    let (ty, rest) = TypeUse::parse(Parser::new(&tokens)).unwrap();
    assert_eq!(ty.index, Some(Index::Id(Id { name: "t" })));
    assert_eq!(ty.index_span, Some(Span { offset: 2 }));
    assert_eq!(ty.ty.params, vec![(Some(Id { name: "x" }), None, ValType::I32)]);
    assert_eq!(ty.ty.results, vec![ValType::I32]);
    assert_eq!(rest.cur_span().offset, 13);
    let tokens = lex("i32.const 0");
    let (ty, rest) = TypeUse::parse(Parser::new(&tokens)).unwrap();
    assert_eq!(
        ty,
        TypeUse {
            index_span: None,
            index: None,
            ty: FunctionType { params: Vec::new(), results: Vec::new() },
        }
    );
    assert_eq!(rest.cur_span().offset, 0);
    let tokens = lex("");
    assert!(TypeUse::parse(Parser::new(&tokens)).is_ok());
}

#[test]
fn type_use_without_names() {
    let tokens = lex("(type 0) (param i32 i64) (result f32)");
    let (ty, rest) = TypeUse::parse_no_names(Parser::new(&tokens)).unwrap();
    assert_eq!(ty.index, Some(Index::Num(0)));
    assert_eq!(ty.ty.params, vec![(None, None, ValType::I32), (None, None, ValType::I64)]);
    assert_eq!(ty.ty.results, vec![ValType::F32]);
    assert_eq!(rest.cur_span().offset, tokens.len());
    let tokens = lex("(param $x i32)");
    assert_eq!(
        TypeUse::parse_no_names(Parser::new(&tokens)).map(|(t, _)| t),
        Err(unexpected(value_keywords(), 2))
    );
    assert!(TypeUse::parse(Parser::new(&tokens)).is_ok());
    assert!(TypeUse::parse_allow_names(Parser::new(&tokens), true).is_ok());
    assert!(TypeUse::parse_allow_names(Parser::new(&tokens), false).is_err());
}

#[test]
fn type_use_errors() {
    let cases = [
        ("(type)", unexpected(vec![Expected::Id, Expected::U32], 2)),
        ("(type i32)", unexpected(vec![Expected::Id, Expected::U32], 2)),
        ("(type 4294967296)", unexpected(vec![Expected::Id, Expected::U32], 2)),
        ("(type 1 2)", unexpected(vec![Expected::RParen], 3)),
        ("(type 1", unexpected(vec![Expected::RParen], 3)),
        ("(type 1) (result i32) (param i32)", Error::ParamAfterResult { span: Span { offset: 9 } }),
    ];
    for (text, error) in cases {
        let tokens = lex(text);
        assert_eq!(TypeUse::parse(Parser::new(&tokens)).map(|(t, _)| t), Err(error));
    }
}

#[test]
fn anyfunc_reads_as_funcref_at_every_place() {
    let pairs = [
        ("(param anyfunc i32) (param $f anyfunc) (result anyfunc)",
         "(param funcref i32) (param $f funcref) (result funcref)"),
        ("(param anyfunc funcref) (result i32 anyfunc) (param i32)",
         "(param funcref anyfunc) (result i32 funcref) (param i32)"),
        ("(param anyfunc $f)", "(param funcref $f)"),
    ];
    for (older, newer) in pairs {
        let a = lex(older);
        let b = lex(newer);
        for allow_names in [true, false] {
            assert_eq!(signature(&a, allow_names), signature(&b, allow_names));
        }
        assert_eq!(
            TypeUse::parse(Parser::new(&a)).map(|(t, rest)| (t, rest.cur_span())),
            TypeUse::parse(Parser::new(&b)).map(|(t, rest)| (t, rest.cur_span()))
        );
    }
    let a = lex("(mut anyfunc)");
    let b = lex("(mut funcref)");
    assert_eq!(
        GlobalType::parse(Parser::new(&a)).map(|(g, rest)| (g, rest.cur_span())),
        GlobalType::parse(Parser::new(&b)).map(|(g, rest)| (g, rest.cur_span()))
    );
    assert_eq!(
        GlobalType::parse(Parser::new(&a)).map(|(g, _)| g),
        Ok(GlobalType { ty: ValType::Funcref, mutable: true })
    );
    let a = lex("type $t (func (param anyfunc))");
    let b = lex("type $t (func (param funcref))");
    assert_eq!(
        Type::parse(Parser::new(&a)).map(|(t, rest)| (t, rest.cur_span())),
        Type::parse(Parser::new(&b)).map(|(t, rest)| (t, rest.cur_span()))
    );
}

#[test]
fn errors_point_at_or_behind_the_start() {
    let texts = [
        "(param i32",
        "(param $x i32 i32)",
        "(result i32) (param i32)",
        "(param i32) (result $x)",
        "(param (@name \"n\"))",
        "(type 1) (param mut)",
    ];
    for text in texts {
        let tokens = lex(text);
        for start in 0..tokens.len() {
            let rest = &tokens[start..];
            if let Err(e) = TypeUse::parse(Parser::new(rest)) {
                assert!(e.span().offset <= rest.len());
            }
            if let Ok((_, end)) = TypeUse::parse(Parser::new(rest)) {
                assert!(end.cur_span().offset <= rest.len());
                assert_eq!(end.remaining(), rest.len() - end.cur_span().offset);
            }
        }
    }
}
