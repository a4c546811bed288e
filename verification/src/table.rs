//! Table element types and table types.

use crate::cursor::Cursor;
use crate::error::{Error, ErrorView, Expected};
use crate::limits::Limits;
use crate::parser::{parsed, Parser};
use crate::token::{Keyword, TokenView};
use crate::valtype::ValType;
use vstd::prelude::*;

verus! {

/// What the elements of a table are.
#[derive(Copy, Clone, Debug, PartialEq, Eq, Structural)]
pub enum TableElemType {
    /// References to functions.
    Funcref,
    /// References to any value.
    Anyref,
    /// Null references.
    Nullref,
}

impl View for TableElemType {
    type V = TableElemType;

    open spec fn view(&self) -> TableElemType {
        *self
    }
}

impl TableElemType {
    /// The keyword that names the element type.
    pub open spec fn keyword(self) -> Keyword {
        match self {
            TableElemType::Funcref => Keyword::Funcref,
            TableElemType::Anyref => Keyword::Anyref,
            TableElemType::Nullref => Keyword::Nullref,
        }
    }

    /// The element type that a keyword's text names, if it names one: each
    /// by its own keyword, and the function reference also by the older
    /// `anyfunc`.
    pub open spec fn named(text: Seq<char>) -> Option<TableElemType> {
        if text == Keyword::Funcref.text() || text == Keyword::Anyfunc.text() {
            Some(TableElemType::Funcref)
        } else if text == Keyword::Anyref.text() {
            Some(TableElemType::Anyref)
        } else if text == Keyword::Nullref.text() {
            Some(TableElemType::Nullref)
        } else {
            None
        }
    }

    /// The alternatives that the error lists: the three keywords, without
    /// the older one.
    pub open spec fn alternatives() -> Seq<Expected> {
        seq![
            Expected::Keyword(Keyword::Funcref),
            Expected::Keyword(Keyword::Anyref),
            Expected::Keyword(Keyword::Nullref),
        ]
    }

    /// A table element type is one keyword that names one.
    pub open spec fn spec_parse(c: Cursor) -> Result<(TableElemType, Cursor), ErrorView> {
        match c.peek() {
            Some(TokenView::Keyword(text)) if Self::named(text) is Some => Ok(
                (Self::named(text)->0, c.advance()),
            ),
            _ => Err(c.unexpected(Self::alternatives())),
        }
    }

    /// Parses a table element type.
    pub fn parse<'a>(parser: Parser<'a>) -> (r: Result<(TableElemType, Parser<'a>), Error>)
        ensures
            parsed(r) == Self::spec_parse(parser@),
    {
        proof {
            Self::lemma_named_keyword();
        }
        if parser.peek_keyword(Keyword::Anyfunc) {
            let rest = parser.keyword(Keyword::Anyfunc)?;
            return Ok((TableElemType::Funcref, rest));
        }
        let mut l = parser.lookahead1();
        if l.peek_keyword(Keyword::Funcref) {
            let rest = parser.keyword(Keyword::Funcref)?;
            Ok((TableElemType::Funcref, rest))
        } else if l.peek_keyword(Keyword::Anyref) {
            let rest = parser.keyword(Keyword::Anyref)?;
            Ok((TableElemType::Anyref, rest))
        } else if l.peek_keyword(Keyword::Nullref) {
            let rest = parser.keyword(Keyword::Nullref)?;
            Ok((TableElemType::Nullref, rest))
        } else {
            assert(l.attempts() =~= Self::alternatives());
            Err(l.error())
        }
    }

    /// Whether a table element type begins here: whether `parse` would
    /// succeed.
    pub fn peek<'a>(parser: Parser<'a>) -> (r: bool)
        ensures
            r == Self::spec_parse(parser@) is Ok,
    {
        proof {
            Self::lemma_named_keyword();
        }
        parser.peek_keyword(Keyword::Funcref) || parser.peek_keyword(Keyword::Anyref)
            || parser.peek_keyword(Keyword::Nullref) || parser.peek_keyword(Keyword::Anyfunc)
    }

    /// What a table element type is called in a message.
    pub fn display() -> (s: &'static str)
        ensures
            s@ == "table element type"@,
    {
        "table element type"
    }

    /// `funcref` and the older `anyfunc` both stand for the function
    /// reference, as a value type and as a table element type; either is
    /// consumed as one token.
    pub proof fn lemma_function_reference(c: Cursor)
        requires
            c.at_keyword(Keyword::Funcref) || c.at_keyword(Keyword::Anyfunc),
        ensures
            ValType::spec_parse(c) == Ok::<_, ErrorView>((ValType::Funcref, c.advance())),
            Self::spec_parse(c) == Ok::<_, ErrorView>((TableElemType::Funcref, c.advance())),
    {
        ValType::lemma_named_keyword();
        Self::lemma_named_keyword();
    }

    /// Each element type is named by its own keyword, the function reference
    /// also by `anyfunc`, and no other text names an element type.
    pub proof fn lemma_named_keyword()
        ensures
            forall|v: TableElemType| #[trigger] Self::named(v.keyword().text()) == Some(v),
            Self::named(Keyword::Anyfunc.text()) == Some(TableElemType::Funcref),
            forall|text: Seq<char>| #[trigger]
                Self::named(text) matches Some(v) ==> text == v.keyword().text() || (v
                    == TableElemType::Funcref && text == Keyword::Anyfunc.text()),
    {
        assert forall|v: TableElemType| #[trigger] Self::named(v.keyword().text()) == Some(v) by {
            let k = v.keyword();
            Keyword::lemma_text_injective(Keyword::Funcref, k);
            Keyword::lemma_text_injective(Keyword::Anyfunc, k);
            Keyword::lemma_text_injective(Keyword::Anyref, k);
        }
    }
}

/// The type of a table.
#[derive(Copy, Clone, Debug, PartialEq, Eq)]
pub struct TableType {
    /// The limits on the number of elements.
    pub limits: Limits,
    /// The type of the elements.
    pub elem: TableElemType,
}

impl View for TableType {
    type V = TableType;

    open spec fn view(&self) -> TableType {
        *self
    }
}

impl TableType {
    /// A table type is limits and then an element type.
    pub open spec fn spec_parse(c: Cursor) -> Result<(TableType, Cursor), ErrorView> {
        match Limits::spec_parse(c) {
            Err(e) => Err(e),
            Ok((limits, c1)) => match TableElemType::spec_parse(c1) {
                Err(e) => Err(e),
                Ok((elem, c2)) => Ok((TableType { limits, elem }, c2)),
            },
        }
    }

    /// Parses a table type.
    pub fn parse<'a>(parser: Parser<'a>) -> (r: Result<(TableType, Parser<'a>), Error>)
        ensures
            parsed(r) == Self::spec_parse(parser@),
    {
        let (limits, q1) = Limits::parse(parser)?;
        let (elem, q2) = TableElemType::parse(q1)?;
        Ok((TableType { limits, elem }, q2))
    }
}

} // verus!
