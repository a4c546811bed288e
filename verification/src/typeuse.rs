//! The use of a type: by reference, by a signature written in place, or both.

use crate::cursor::Cursor;
use crate::error::{Error, ErrorView};
use crate::func::{params_view, FunctionType, FunctionTypeView};
use crate::ident::{option_view, Index, IndexView};
use crate::parser::{parsed, Parser};
use crate::token::{Keyword, Span};
use vstd::prelude::*;

verus! {

/// What a type use stands for.
pub struct TypeUseView {
    pub index_span: Option<nat>,
    pub index: Option<IndexView>,
    pub ty: FunctionTypeView,
}

/// A reference to a type of the module, a signature written in place, or
/// both. Whether the two agree is for a later pass to say.
#[derive(Clone, Debug, PartialEq, Eq)]
pub struct TypeUse<'a> {
    /// Where the reference stands, if there is one.
    pub index_span: Option<Span>,
    /// The type that is referred to, if a reference was written.
    pub index: Option<Index<'a>>,
    /// The signature written in place; empty if none was written.
    pub ty: FunctionType<'a>,
}

impl<'a> View for TypeUse<'a> {
    type V = TypeUseView;

    open spec fn view(&self) -> TypeUseView {
        TypeUseView {
            index_span: option_view(self.index_span),
            index: option_view(self.index),
            ty: self.ty@,
        }
    }
}

impl TypeUseView {
    /// The signature written in place behind an optional reference.
    pub open spec fn inline(
        index_span: Option<nat>,
        index: Option<IndexView>,
        allow_names: bool,
        c: Cursor,
    ) -> Result<(TypeUseView, Cursor), ErrorView> {
        match FunctionTypeView::empty().finish_parse(allow_names, c) {
            Err(e) => Err(e),
            Ok((ty, rest)) => Ok((TypeUseView { index_span, index, ty }, rest)),
        }
    }

    /// A type use: a group `(type r)` with a reference `r`, if the input
    /// begins with one, and then the parameter and result groups that
    /// follow, if any. The span is the place of the reference.
    pub open spec fn parse_allow_names(c: Cursor, allow_names: bool) -> Result<
        (TypeUseView, Cursor),
        ErrorView,
    > {
        if c.at_group(Keyword::Type) {
            let at = c.advance().advance();
            match at.index() {
                Err(e) => Err(e),
                Ok((index, c1)) => match c1.close_group() {
                    Err(e) => Err(e),
                    Ok(c2) => Self::inline(Some(at.pos), Some(index), allow_names, c2),
                },
            }
        } else {
            Self::inline(None, None, allow_names, c)
        }
    }
}

/// Where neither a reference nor a parameter or result group stands, the
/// type use is the empty one and nothing is consumed.
pub proof fn lemma_type_use_absent(c: Cursor, allow_names: bool)
    requires
        !c.at_group(Keyword::Type),
        !c.at_group(Keyword::Param),
        !c.at_group(Keyword::Result),
    ensures
        TypeUseView::parse_allow_names(c, allow_names) == Ok::<_, ErrorView>(
            (TypeUseView { index_span: None, index: None, ty: FunctionTypeView::empty() }, c),
        ),
{
}

impl<'a> TypeUse<'a> {
    /// Parses a type use in whose parameter groups no names are allowed.
    pub fn parse_no_names(parser: Parser<'a>) -> (r: Result<(TypeUse<'a>, Parser<'a>), Error>)
        ensures
            parsed(r) == TypeUseView::parse_allow_names(parser@, false),
    {
        TypeUse::parse_allow_names(parser, false)
    }

    /// Parses a type use; `allow_names` says whether its parameter groups may
    /// give names.
    pub fn parse_allow_names(parser: Parser<'a>, allow_names: bool) -> (r: Result<
        (TypeUse<'a>, Parser<'a>),
        Error,
    >)
        ensures
            parsed(r) == TypeUseView::parse_allow_names(parser@, allow_names),
            r matches Ok((t, _)) ==> (t.index is Some <==> parser@.at_group(Keyword::Type)) && (
            t.index_span is Some <==> t.index is Some),
    {
        let mut p = parser;
        let mut index_span: Option<Span> = None;
        let mut index: Option<Index<'a>> = None;
        if parser.peek2_keyword(Keyword::Type) {
            let q1 = parser.open_group()?;
            let q2 = q1.keyword(Keyword::Type)?;
            let span = q2.cur_span();
            let (idx, q3) = Index::parse(q2)?;
            let q4 = q3.close_group()?;
            index_span = Some(span);
            index = Some(idx);
            p = q4;
        }
        let mut ty = FunctionType { params: Vec::new(), results: Vec::new() };
        assert(ty@ == FunctionTypeView::empty()) by {
            assert(params_view(ty.params@) =~= Seq::empty());
        }
        if p.peek2_keyword(Keyword::Param) || p.peek2_keyword(Keyword::Result) {
            p = ty.finish_parse(allow_names, p)?;
        }
        Ok((TypeUse { index_span, index, ty }, p))
    }

    /// Parses a type use in whose parameter groups names are allowed.
    pub fn parse(parser: Parser<'a>) -> (r: Result<(TypeUse<'a>, Parser<'a>), Error>)
        ensures
            parsed(r) == TypeUseView::parse_allow_names(parser@, true),
    {
        TypeUse::parse_allow_names(parser, true)
    }
}

} // verus!
