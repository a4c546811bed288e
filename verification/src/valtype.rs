//! Value types and table element types: one keyword each.

use crate::cursor::Cursor;
use crate::error::{Error, ErrorView, Expected};
use crate::parser::{parsed, Parser};
use crate::token::{Keyword, TokenView};
use vstd::prelude::*;

verus! {

/// The type of a single value: of a parameter, a result, a global.
#[derive(Debug, PartialEq, Eq, Hash, Copy, Clone, Structural)]
pub enum ValType {
    I32,
    I64,
    F32,
    F64,
    Anyref,
    Funcref,
    V128,
    Nullref,
}

impl View for ValType {
    type V = ValType;

    open spec fn view(&self) -> ValType {
        *self
    }
}

impl ValType {
    /// The keyword that names the type.
    pub open spec fn keyword(self) -> Keyword {
        match self {
            ValType::I32 => Keyword::I32,
            ValType::I64 => Keyword::I64,
            ValType::F32 => Keyword::F32,
            ValType::F64 => Keyword::F64,
            ValType::Anyref => Keyword::Anyref,
            ValType::Funcref => Keyword::Funcref,
            ValType::V128 => Keyword::V128,
            ValType::Nullref => Keyword::Nullref,
        }
    }

    /// The type that a keyword's text names, if it names one: each type by
    /// its own keyword, and the function reference also by the older
    /// `anyfunc`.
    pub open spec fn named(text: Seq<char>) -> Option<ValType> {
        if text == Keyword::I32.text() {
            Some(ValType::I32)
        } else if text == Keyword::I64.text() {
            Some(ValType::I64)
        } else if text == Keyword::F32.text() {
            Some(ValType::F32)
        } else if text == Keyword::F64.text() {
            Some(ValType::F64)
        } else if text == Keyword::Anyref.text() {
            Some(ValType::Anyref)
        } else if text == Keyword::Funcref.text() || text == Keyword::Anyfunc.text() {
            Some(ValType::Funcref)
        } else if text == Keyword::Nullref.text() {
            Some(ValType::Nullref)
        } else if text == Keyword::V128.text() {
            Some(ValType::V128)
        } else {
            None
        }
    }

    /// The alternatives that the error lists: the eight keywords, without
    /// the older one.
    pub open spec fn alternatives() -> Seq<Expected> {
        seq![
            Expected::Keyword(Keyword::I32),
            Expected::Keyword(Keyword::I64),
            Expected::Keyword(Keyword::F32),
            Expected::Keyword(Keyword::F64),
            Expected::Keyword(Keyword::Anyref),
            Expected::Keyword(Keyword::Funcref),
            Expected::Keyword(Keyword::Nullref),
            Expected::Keyword(Keyword::V128),
        ]
    }

    /// A value type is one keyword that names one.
    pub open spec fn spec_parse(c: Cursor) -> Result<(ValType, Cursor), ErrorView> {
        match c.peek() {
            Some(TokenView::Keyword(text)) if Self::named(text) is Some => Ok(
                (Self::named(text)->0, c.advance()),
            ),
            _ => Err(c.unexpected(Self::alternatives())),
        }
    }

    /// Parses a value type.
    pub fn parse<'a>(parser: Parser<'a>) -> (r: Result<(ValType, Parser<'a>), Error>)
        ensures
            parsed(r) == Self::spec_parse(parser@),
    {
        proof {
            Self::lemma_named_keyword();
        }
        if parser.peek_keyword(Keyword::Anyfunc) {
            let rest = parser.keyword(Keyword::Anyfunc)?;
            return Ok((ValType::Funcref, rest));
        }
        let mut l = parser.lookahead1();
        if l.peek_keyword(Keyword::I32) {
            let rest = parser.keyword(Keyword::I32)?;
            Ok((ValType::I32, rest))
        } else if l.peek_keyword(Keyword::I64) {
            let rest = parser.keyword(Keyword::I64)?;
            Ok((ValType::I64, rest))
        } else if l.peek_keyword(Keyword::F32) {
            let rest = parser.keyword(Keyword::F32)?;
            Ok((ValType::F32, rest))
        } else if l.peek_keyword(Keyword::F64) {
            let rest = parser.keyword(Keyword::F64)?;
            Ok((ValType::F64, rest))
        } else if l.peek_keyword(Keyword::Anyref) {
            let rest = parser.keyword(Keyword::Anyref)?;
            Ok((ValType::Anyref, rest))
        } else if l.peek_keyword(Keyword::Funcref) {
            let rest = parser.keyword(Keyword::Funcref)?;
            Ok((ValType::Funcref, rest))
        } else if l.peek_keyword(Keyword::Nullref) {
            let rest = parser.keyword(Keyword::Nullref)?;
            Ok((ValType::Nullref, rest))
        } else if l.peek_keyword(Keyword::V128) {
            let rest = parser.keyword(Keyword::V128)?;
            Ok((ValType::V128, rest))
        } else {
            assert(l.attempts() =~= Self::alternatives());
            Err(l.error())
        }
    }

    /// Each type is named by its own keyword, the function reference also by
    /// `anyfunc`, and no other text names a type.
    pub proof fn lemma_named_keyword()
        ensures
            forall|v: ValType| #[trigger] Self::named(v.keyword().text()) == Some(v),
            Self::named(Keyword::Anyfunc.text()) == Some(ValType::Funcref),
            forall|text: Seq<char>| #[trigger]
                Self::named(text) matches Some(v) ==> text == v.keyword().text() || (v
                    == ValType::Funcref && text == Keyword::Anyfunc.text()),
    {
        assert(Self::named(Keyword::Anyfunc.text()) == Some(ValType::Funcref)) by {
            let k = Keyword::Anyfunc;
            Keyword::lemma_text_injective(Keyword::I32, k);
            Keyword::lemma_text_injective(Keyword::I64, k);
            Keyword::lemma_text_injective(Keyword::F32, k);
            Keyword::lemma_text_injective(Keyword::F64, k);
            Keyword::lemma_text_injective(Keyword::Anyref, k);
        }
        assert forall|v: ValType| #[trigger] Self::named(v.keyword().text()) == Some(v) by {
            let k = v.keyword();
            Keyword::lemma_text_injective(Keyword::I32, k);
            Keyword::lemma_text_injective(Keyword::I64, k);
            Keyword::lemma_text_injective(Keyword::F32, k);
            Keyword::lemma_text_injective(Keyword::F64, k);
            Keyword::lemma_text_injective(Keyword::Anyref, k);
            Keyword::lemma_text_injective(Keyword::Funcref, k);
            Keyword::lemma_text_injective(Keyword::Anyfunc, k);
            Keyword::lemma_text_injective(Keyword::Nullref, k);
            Keyword::lemma_text_injective(Keyword::V128, k);
        }
    }

    /// Each of the eight keywords, alone, parses as the type that it names,
    /// and so does `anyfunc` as the function reference; the parse consumes
    /// that one token. Before any other token, and at the end of the input,
    /// the parse fails.
    pub proof fn lemma_parse_one_keyword(c: Cursor)
        ensures
            forall|v: ValType| #[trigger]
                c.at_keyword(v.keyword()) ==> Self::spec_parse(c) == Ok::<_, ErrorView>(
                    (v, c.advance()),
                ),
            c.at_keyword(Keyword::Anyfunc) ==> Self::spec_parse(c) == Ok::<_, ErrorView>(
                (ValType::Funcref, c.advance()),
            ),
            Self::spec_parse(c) matches Ok((v, rest)) ==> rest == c.advance() && (c.at_keyword(
                v.keyword(),
            ) || (v == ValType::Funcref && c.at_keyword(Keyword::Anyfunc))),
            Self::spec_parse(c) matches Err(e) ==> e == c.unexpected(Self::alternatives()),
    {
        Self::lemma_named_keyword();
    }
}

} // verus!
