//! Tokens, as a lexer hands them over, and the keywords of the type grammar.

use vstd::prelude::*;

verus! {

/// A place in the token stream: the number of tokens in front of it.
#[derive(Debug, Clone, Copy, PartialEq, Eq, Structural)]
pub struct Span {
    pub offset: usize,
}

impl View for Span {
    type V = nat;

    open spec fn view(&self) -> nat {
        self.offset as nat
    }
}

/// One token of the text format.
#[derive(Debug, Clone, Copy, PartialEq, Eq)]
pub enum Token<'a> {
    /// `(`
    LParen,
    /// `)`
    RParen,
    /// A bare word such as `param` or `i32`, with its text.
    Keyword(&'a str),
    /// A symbolic identifier such as `$x`, with its name (`x`).
    Id(&'a str),
    /// An integer literal, with its value.
    Integer(i128),
    /// A display-name annotation such as `(@name "x")`, with the name (`x`).
    Name(&'a str),
    /// A string literal, with its contents.
    Str(&'a str),
    /// Any other word (a float literal, a reserved word), with its text.
    Reserved(&'a str),
}

/// What a [`Token`] stands for.
pub enum TokenView {
    LParen,
    RParen,
    Keyword(Seq<char>),
    Id(Seq<char>),
    Integer(int),
    Name(Seq<char>),
    Str(Seq<char>),
    Reserved(Seq<char>),
}

impl<'a> View for Token<'a> {
    type V = TokenView;

    open spec fn view(&self) -> TokenView {
        match *self {
            Token::LParen => TokenView::LParen,
            Token::RParen => TokenView::RParen,
            Token::Keyword(s) => TokenView::Keyword(s@),
            Token::Id(s) => TokenView::Id(s@),
            Token::Integer(v) => TokenView::Integer(v as int),
            Token::Name(s) => TokenView::Name(s@),
            Token::Str(s) => TokenView::Str(s@),
            Token::Reserved(s) => TokenView::Reserved(s@),
        }
    }
}

/// The keywords that the type grammar knows.
#[derive(Debug, Clone, Copy, PartialEq, Eq, Structural)]
pub enum Keyword {
    I32,
    I64,
    F32,
    F64,
    Anyref,
    Funcref,
    Anyfunc,
    Nullref,
    V128,
    Mut,
    Shared,
    Param,
    Result,
    Func,
    Type,
}

impl Keyword {
    /// The keyword as it is written.
    pub open spec fn text(self) -> Seq<char> {
        match self {
            Keyword::I32 => "i32"@,
            Keyword::I64 => "i64"@,
            Keyword::F32 => "f32"@,
            Keyword::F64 => "f64"@,
            Keyword::Anyref => "anyref"@,
            Keyword::Funcref => "funcref"@,
            Keyword::Anyfunc => "anyfunc"@,
            Keyword::Nullref => "nullref"@,
            Keyword::V128 => "v128"@,
            Keyword::Mut => "mut"@,
            Keyword::Shared => "shared"@,
            Keyword::Param => "param"@,
            Keyword::Result => "result"@,
            Keyword::Func => "func"@,
            Keyword::Type => "type"@,
        }
    }

    /// The keyword as it is written.
    pub fn as_str(self) -> (s: &'static str)
        ensures
            s@ == self.text(),
    {
        match self {
            Keyword::I32 => "i32",
            Keyword::I64 => "i64",
            Keyword::F32 => "f32",
            Keyword::F64 => "f64",
            Keyword::Anyref => "anyref",
            Keyword::Funcref => "funcref",
            Keyword::Anyfunc => "anyfunc",
            Keyword::Nullref => "nullref",
            Keyword::V128 => "v128",
            Keyword::Mut => "mut",
            Keyword::Shared => "shared",
            Keyword::Param => "param",
            Keyword::Result => "result",
            Keyword::Func => "func",
            Keyword::Type => "type",
        }
    }

    /// No two keywords are written alike.
    pub proof fn lemma_text_injective(a: Keyword, b: Keyword)
        ensures
            a.text() == b.text() <==> a == b,
    {
        reveal_strlit("i32");
        reveal_strlit("i64");
        reveal_strlit("f32");
        reveal_strlit("f64");
        reveal_strlit("anyref");
        reveal_strlit("funcref");
        reveal_strlit("anyfunc");
        reveal_strlit("nullref");
        reveal_strlit("v128");
        reveal_strlit("mut");
        reveal_strlit("shared");
        reveal_strlit("param");
        reveal_strlit("result");
        reveal_strlit("func");
        reveal_strlit("type");
        assert("i32"@.len() == 3 && "i32"@[0] == 'i' && "i32"@[1] == '3');
        assert("i64"@.len() == 3 && "i64"@[0] == 'i' && "i64"@[1] == '6');
        assert("f32"@.len() == 3 && "f32"@[0] == 'f' && "f32"@[1] == '3');
        assert("f64"@.len() == 3 && "f64"@[0] == 'f' && "f64"@[1] == '6');
        assert("anyref"@.len() == 6 && "anyref"@[0] == 'a' && "anyref"@[1] == 'n');
        assert("funcref"@.len() == 7 && "funcref"@[0] == 'f' && "funcref"@[1] == 'u');
        assert("anyfunc"@.len() == 7 && "anyfunc"@[0] == 'a' && "anyfunc"@[1] == 'n');
        assert("nullref"@.len() == 7 && "nullref"@[0] == 'n' && "nullref"@[1] == 'u');
        assert("v128"@.len() == 4 && "v128"@[0] == 'v' && "v128"@[1] == '1');
        assert("mut"@.len() == 3 && "mut"@[0] == 'm' && "mut"@[1] == 'u');
        assert("shared"@.len() == 6 && "shared"@[0] == 's' && "shared"@[1] == 'h');
        assert("param"@.len() == 5 && "param"@[0] == 'p' && "param"@[1] == 'a');
        assert("result"@.len() == 6 && "result"@[0] == 'r' && "result"@[1] == 'e');
        assert("func"@.len() == 4 && "func"@[0] == 'f' && "func"@[1] == 'u');
        assert("type"@.len() == 4 && "type"@[0] == 't' && "type"@[1] == 'y');
    }
}

} // verus!
