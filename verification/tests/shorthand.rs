use wat_types::{
    Error, FunctionType, Id, NameAnnotation, Parser, Span, Token, TypeUse, ValType,
};

fn kw(text: &str) -> Token<'_> {
    Token::Keyword(text)
}

fn parse<'a>(tokens: &'a [Token<'a>], allow_names: bool) -> Result<FunctionType<'a>, Error> {
    let mut ty = FunctionType { params: Vec::new(), results: Vec::new() };
    let rest = ty.finish_parse(allow_names, Parser::new(tokens))?;
    assert_eq!(rest.cur_span(), Span { offset: tokens.len() });
    Ok(ty)
}

fn anon(ty: ValType) -> (Option<Id<'static>>, Option<NameAnnotation<'static>>, ValType) {
    (None, None, ty)
}

#[test]
fn empty_signature_has_no_tokens() {
    let ty = FunctionType { params: Vec::new(), results: Vec::new() };
    assert_eq!(ty.to_tokens(), Vec::new());
    assert_eq!(parse(&ty.to_tokens(), true), Ok(ty));
}

#[test]
fn anonymous_parameters_share_one_group() {
    let ty = FunctionType {
        params: vec![anon(ValType::I32), anon(ValType::I64), anon(ValType::F32)],
        results: Vec::new(),
    };
    assert_eq!(
        ty.to_tokens(),
        vec![Token::LParen, kw("param"), kw("i32"), kw("i64"), kw("f32"), Token::RParen]
    );
}

#[test]
fn named_parameters_stand_alone() {
    let ty = FunctionType {
        params: vec![
            (Some(Id { name: "a" }), None, ValType::I32),
            (Some(Id { name: "b" }), Some(NameAnnotation { name: "second" }), ValType::I64),
            (None, Some(NameAnnotation { name: "third" }), ValType::V128),
        ],
        results: Vec::new(),
    };
    assert_eq!(
        ty.to_tokens(),
        vec![
            Token::LParen,
            kw("param"),
            Token::Id("a"),
            kw("i32"),
            Token::RParen,
            Token::LParen,
            kw("param"),
            Token::Id("b"),
            Token::Name("second"),
            kw("i64"),
            Token::RParen,
            Token::LParen,
            kw("param"),
            Token::Name("third"),
            kw("v128"),
            Token::RParen,
        ]
    );
}

#[test]
fn results_share_one_group() {
    let ty = FunctionType {
        params: Vec::new(),
        results: vec![ValType::Funcref, ValType::Nullref, ValType::Anyref, ValType::F64],
    };
    assert_eq!(
        ty.to_tokens(),
        vec![
            Token::LParen,
            kw("result"),
            kw("funcref"),
            kw("nullref"),
            kw("anyref"),
            kw("f64"),
            Token::RParen,
        ]
    );
}

#[test]
fn runs_of_anonymous_parameters_end_at_named_ones() {
    let ty = FunctionType {
        params: vec![
            anon(ValType::I32),
            anon(ValType::I32),
            (Some(Id { name: "x" }), None, ValType::F32),
            anon(ValType::I64),
            (Some(Id { name: "y" }), None, ValType::F64),
            (Some(Id { name: "z" }), None, ValType::F64),
            anon(ValType::V128),
            anon(ValType::V128),
            anon(ValType::V128),
        ],
        results: vec![ValType::I32],
    };
    let tokens = ty.to_tokens();
    assert_eq!(
        tokens,
        vec![
            Token::LParen,
            kw("param"),
            kw("i32"),
            kw("i32"),
            Token::RParen,
            Token::LParen,
            kw("param"),
            Token::Id("x"),
            kw("f32"),
            Token::RParen,
            Token::LParen,
            kw("param"),
            kw("i64"),
            Token::RParen,
            Token::LParen,
            kw("param"),
            Token::Id("y"),
            kw("f64"),
            Token::RParen,
            Token::LParen,
            kw("param"),
            Token::Id("z"),
            kw("f64"),
            Token::RParen,
            Token::LParen,
            kw("param"),
            kw("v128"),
            kw("v128"),
            kw("v128"),
            Token::RParen,
            Token::LParen,
            kw("result"),
            kw("i32"),
            Token::RParen,
        ]
    );
    assert_eq!(parse(&tokens, true), Ok(ty));
}

#[test]
fn written_and_parsed_again_is_the_same_signature() {
    let tokens = vec![
        Token::LParen,
        kw("param"),
        kw("i32"),
        Token::RParen,
        Token::LParen,
        kw("param"),
        Token::RParen,
        Token::LParen,
        kw("param"),
        kw("anyfunc"),
        kw("i64"),
        Token::RParen,
        Token::LParen,
        kw("param"),
        Token::Id("x"),
        kw("f32"),
        Token::RParen,
        Token::LParen,
        kw("param"),
        Token::Name("shown"),
        kw("f64"),
        Token::RParen,
        Token::LParen,
        kw("result"),
        kw("i32"),
        Token::RParen,
        Token::LParen,
        kw("result"),
        Token::RParen,
        Token::LParen,
        kw("result"),
        kw("i64"),
        kw("nullref"),
        Token::RParen,
    ];
    let first = parse(&tokens, true).unwrap();
    assert_eq!(
        first.params,
        vec![
            anon(ValType::I32),
            anon(ValType::Funcref),
            anon(ValType::I64),
            (Some(Id { name: "x" }), None, ValType::F32),
            (None, Some(NameAnnotation { name: "shown" }), ValType::F64),
        ]
    );
    assert_eq!(first.results, vec![ValType::I32, ValType::I64, ValType::Nullref]);
    let written = first.to_tokens();
    assert_eq!(
        written,
        vec![
            Token::LParen,
            kw("param"),
            kw("i32"),
            kw("funcref"),
            kw("i64"),
            Token::RParen,
            Token::LParen,
            kw("param"),
            Token::Id("x"),
            kw("f32"),
            Token::RParen,
            Token::LParen,
            kw("param"),
            Token::Name("shown"),
            kw("f64"),
            Token::RParen,
            Token::LParen,
            kw("result"),
            kw("i32"),
            kw("i64"),
            kw("nullref"),
            Token::RParen,
        ]
    );
    let second = parse(&written, true).unwrap();
    assert_eq!(second, first);
    assert_eq!(second.to_tokens(), written);
}

#[test]
fn shorthand_without_names_parses_where_no_names_are_allowed() {
    let ty = FunctionType {
        params: vec![anon(ValType::I32), anon(ValType::F64)],
        results: vec![ValType::I64],
    };
    let tokens = ty.to_tokens();
    assert_eq!(parse(&tokens, false), Ok(ty.clone()));
    assert_eq!(parse(&tokens, true), Ok(ty));
    let named = FunctionType {
        params: vec![(Some(Id { name: "x" }), None, ValType::I32)],
        results: Vec::new(),
    };
    assert!(parse(&named.to_tokens(), false).is_err());
    assert_eq!(parse(&named.to_tokens(), true), Ok(named));
}

#[test]
fn shorthand_is_read_as_an_inline_type_use() {
    let ty = FunctionType {
        params: vec![anon(ValType::I32), (Some(Id { name: "x" }), None, ValType::I32)],
        results: vec![ValType::I32],
    };
    let tokens = ty.to_tokens();
    let (type_use, rest) = TypeUse::parse(Parser::new(&tokens)).unwrap();
    assert_eq!(type_use.index, None);
    assert_eq!(type_use.ty, ty);
    assert_eq!(rest.remaining(), 0);
}
