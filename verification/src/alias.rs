//! `anyfunc`, the older way to write `funcref`: proof that the two can stand
//! for each other at every place of the input.

use crate::cursor::Cursor;
use crate::error::ErrorView;
use crate::func::{
    lemma_param_group_reaches, lemma_val_types_reaches, spec_param_group, spec_val_types,
    FunctionTypeView, TypeView,
};
use crate::global::GlobalType;
use crate::limits::{Limits, MemoryType};
use crate::table::{TableElemType, TableType};
use crate::token::{Keyword, TokenView};
use crate::typeuse::TypeUseView;
use crate::valtype::ValType;
use vstd::prelude::*;

verus! {

/// The token with `funcref` in place of `anyfunc`.
pub open spec fn canonical_token(t: TokenView) -> TokenView {
    if t == TokenView::Keyword(Keyword::Anyfunc.text()) {
        TokenView::Keyword(Keyword::Funcref.text())
    } else {
        t
    }
}

/// The tokens with `funcref` in place of each `anyfunc`.
pub open spec fn canonical_tokens(ts: Seq<TokenView>) -> Seq<TokenView> {
    Seq::new(ts.len(), |i: int| canonical_token(ts[i]))
}

/// The cursor at the same place in the tokens with `funcref` in place of
/// each `anyfunc`.
pub open spec fn canonical(c: Cursor) -> Cursor {
    Cursor { tokens: canonical_tokens(c.tokens), pos: c.pos }
}

/// The outcome of a rule that only consumes, its cursor made canonical.
pub open spec fn canonical_moved(r: Result<Cursor, ErrorView>) -> Result<Cursor, ErrorView> {
    match r {
        Ok(c) => Ok(canonical(c)),
        Err(e) => Err(e),
    }
}

/// The outcome of a rule that yields a value, its cursor made canonical.
pub open spec fn canonical_parsed<T>(r: Result<(T, Cursor), ErrorView>) -> Result<
    (T, Cursor),
    ErrorView,
> {
    match r {
        Ok((v, c)) => Ok((v, canonical(c))),
        Err(e) => Err(e),
    }
}

/// What the cursor's own operations see is the same on the canonical
/// tokens, but for the one keyword.
pub proof fn lemma_canonical_cursor(c: Cursor)
    ensures
        canonical(c).peek() == (match c.peek() {
            Some(t) => Some(canonical_token(t)),
            None => None,
        }),
        canonical(c).advance() == canonical(c.advance()),
        canonical(c).remaining() == c.remaining(),
        canonical(c).is_empty() == c.is_empty(),
        forall|kw: Keyword|
            kw != Keyword::Funcref && kw != Keyword::Anyfunc ==> #[trigger] canonical(
                c,
            ).at_keyword(kw) == c.at_keyword(kw),
        forall|kw: Keyword|
            kw != Keyword::Funcref && kw != Keyword::Anyfunc ==> #[trigger] canonical(c).keyword(
                kw,
            ) == canonical_moved(c.keyword(kw)),
        canonical(c).open_group() == canonical_moved(c.open_group()),
        canonical(c).close_group() == canonical_moved(c.close_group()),
        canonical(c).number() == canonical_parsed(c.number()),
        canonical(c).index() == canonical_parsed(c.index()),
        canonical(c).optional_id() == (c.optional_id().0, canonical(c.optional_id().1)),
        canonical(c).optional_name() == (c.optional_name().0, canonical(c.optional_name().1)),
{
    assert forall|kw: Keyword| kw != Keyword::Funcref && kw != Keyword::Anyfunc implies (
    #[trigger] canonical(c).at_keyword(kw)) == c.at_keyword(kw) by {
        Keyword::lemma_text_injective(kw, Keyword::Funcref);
        Keyword::lemma_text_injective(kw, Keyword::Anyfunc);
    }
}

/// The same for the lookahead of two tokens.
pub proof fn lemma_canonical_group(c: Cursor, kw: Keyword)
    requires
        kw != Keyword::Funcref && kw != Keyword::Anyfunc,
    ensures
        canonical(c).at_group(kw) == c.at_group(kw),
        canonical(c).advance().advance() == canonical(c.advance().advance()),
{
    lemma_canonical_cursor(c);
    lemma_canonical_cursor(c.advance());
}

/// A value type and a table element type are the same on the canonical
/// tokens.
pub proof fn lemma_canonical_val_type(c: Cursor)
    ensures
        ValType::spec_parse(canonical(c)) == canonical_parsed(ValType::spec_parse(c)),
        TableElemType::spec_parse(canonical(c)) == canonical_parsed(TableElemType::spec_parse(c)),
{
    lemma_canonical_cursor(c);
    ValType::lemma_named_keyword();
    assert(ValType::named(ValType::Funcref.keyword().text()) == Some(ValType::Funcref));
}

/// Limits, and the types built on them and on value types, are the same on
/// the canonical tokens.
pub proof fn lemma_canonical_declarations(c: Cursor)
    ensures
        Limits::spec_parse(canonical(c)) == canonical_parsed(Limits::spec_parse(c)),
        MemoryType::spec_parse(canonical(c)) == canonical_parsed(MemoryType::spec_parse(c)),
        TableType::spec_parse(canonical(c)) == canonical_parsed(TableType::spec_parse(c)),
        GlobalType::spec_parse(canonical(c)) == canonical_parsed(GlobalType::spec_parse(c)),
{
    lemma_canonical_cursor(c);
    assert(Limits::spec_parse(canonical(c)) == canonical_parsed(Limits::spec_parse(c))) by {
        if let Ok((_, c1)) = c.number() {
            lemma_canonical_cursor(c1);
        }
    }
    if let Ok((_, c1)) = Limits::spec_parse(c) {
        lemma_canonical_cursor(c1);
        lemma_canonical_val_type(c1);
    }
    assert(GlobalType::spec_parse(canonical(c)) == canonical_parsed(GlobalType::spec_parse(c)))
        by {
        lemma_canonical_group(c, Keyword::Mut);
        lemma_canonical_val_type(c);
        let body = c.advance().advance();
        lemma_canonical_val_type(body);
        if let Ok((_, c1)) = ValType::spec_parse(body) {
            lemma_canonical_cursor(c1);
        }
    }
}

/// The types of a group are the same on the canonical tokens.
pub proof fn lemma_canonical_val_types(c: Cursor, acc: Seq<ValType>)
    ensures
        spec_val_types(canonical(c), acc) == canonical_parsed(spec_val_types(c, acc)),
    decreases c.remaining(),
{
    lemma_canonical_cursor(c);
    lemma_canonical_val_type(c);
    if !c.is_empty() {
        if let Ok((ty, _)) = ValType::spec_parse(c) {
            lemma_canonical_val_types(c.advance(), acc.push(ty));
        }
    }
}

/// A parameter group is the same on the canonical tokens.
pub proof fn lemma_canonical_param_group(c: Cursor, allow_names: bool)
    ensures
        spec_param_group(canonical(c), allow_names) == canonical_parsed(
            spec_param_group(c, allow_names),
        ),
{
    lemma_canonical_cursor(c);
    if !c.is_empty() {
        let c1 = if allow_names {
            c.optional_id().1
        } else {
            c
        };
        lemma_canonical_cursor(c1);
        let c2 = if allow_names {
            c1.optional_name().1
        } else {
            c1
        };
        lemma_canonical_val_type(c2);
        if let Ok((ty, c3)) = ValType::spec_parse(c2) {
            lemma_canonical_val_types(c3, seq![ty]);
        }
    }
}

/// A signature is the same on the canonical tokens.
pub proof fn lemma_canonical_signature(acc: FunctionTypeView, allow_names: bool, c: Cursor)
    ensures
        acc.finish_parse(allow_names, canonical(c)) == canonical_parsed(
            acc.finish_parse(allow_names, c),
        ),
    decreases c.remaining(),
{
    lemma_canonical_cursor(c);
    lemma_canonical_group(c, Keyword::Param);
    lemma_canonical_group(c, Keyword::Result);
    let body = c.advance().advance();
    if c.at_group(Keyword::Param) {
        if acc.results.len() == 0 {
            lemma_canonical_param_group(body, allow_names);
            if let Ok((group, c1)) = spec_param_group(body, allow_names) {
                lemma_canonical_cursor(c1);
                if let Ok(c2) = c1.close_group() {
                    lemma_param_group_reaches(body, allow_names);
                    lemma_canonical_signature(
                        FunctionTypeView { params: acc.params + group, results: acc.results },
                        allow_names,
                        c2,
                    );
                }
            }
        }
    } else if c.at_group(Keyword::Result) {
        lemma_canonical_val_types(body, Seq::empty());
        if let Ok((group, c1)) = spec_val_types(body, Seq::empty()) {
            lemma_canonical_cursor(c1);
            if let Ok(c2) = c1.close_group() {
                lemma_val_types_reaches(body, Seq::empty());
                lemma_canonical_signature(
                    FunctionTypeView { params: acc.params, results: acc.results + group },
                    allow_names,
                    c2,
                );
            }
        }
    }
}

/// A function type, a type declaration and a type use are the same on the
/// canonical tokens.
pub proof fn lemma_canonical_types(c: Cursor, allow_names: bool)
    ensures
        FunctionTypeView::parse(canonical(c)) == canonical_parsed(FunctionTypeView::parse(c)),
        TypeView::parse(canonical(c)) == canonical_parsed(TypeView::parse(c)),
        TypeUseView::parse_allow_names(canonical(c), allow_names) == canonical_parsed(
            TypeUseView::parse_allow_names(c, allow_names),
        ),
{
    lemma_canonical_cursor(c);
    assert(FunctionTypeView::parse(canonical(c)) == canonical_parsed(FunctionTypeView::parse(c)))
        by {
        lemma_canonical_signature(FunctionTypeView::empty(), true, c.advance());
    }
    assert(TypeView::parse(canonical(c)) == canonical_parsed(TypeView::parse(c))) by {
        let c1 = c.advance();
        lemma_canonical_cursor(c1);
        let c2 = c1.optional_id().1;
        lemma_canonical_cursor(c2);
        let c3 = c2.advance();
        lemma_canonical_cursor(c3);
        lemma_canonical_signature(FunctionTypeView::empty(), true, c3.advance());
        if let Ok((_, c4)) = FunctionTypeView::parse(c3) {
            lemma_canonical_cursor(c4);
        }
    }
    assert(TypeUseView::parse_allow_names(canonical(c), allow_names) == canonical_parsed(
        TypeUseView::parse_allow_names(c, allow_names),
    )) by {
        lemma_canonical_group(c, Keyword::Type);
        lemma_canonical_signature(FunctionTypeView::empty(), allow_names, c);
        let at = c.advance().advance();
        lemma_canonical_cursor(at);
        if let Ok((_, c1)) = at.index() {
            lemma_canonical_cursor(c1);
            if let Ok(c2) = c1.close_group() {
                lemma_canonical_signature(FunctionTypeView::empty(), allow_names, c2);
            }
        }
    }
}

/// `funcref` and `anyfunc` are accepted alike wherever one of them is: two
/// inputs that differ only in which of the two is written, at any number of
/// places, give under every rule the same value or the same error, and end
/// at the same place.
pub proof fn lemma_alias_everywhere(a: Cursor, b: Cursor, allow_names: bool, acc: FunctionTypeView)
    requires
        canonical(a) == canonical(b),
    ensures
        canonical_parsed(ValType::spec_parse(a)) == canonical_parsed(ValType::spec_parse(b)),
        canonical_parsed(TableElemType::spec_parse(a)) == canonical_parsed(
            TableElemType::spec_parse(b),
        ),
        canonical_parsed(GlobalType::spec_parse(a)) == canonical_parsed(GlobalType::spec_parse(b)),
        canonical_parsed(Limits::spec_parse(a)) == canonical_parsed(Limits::spec_parse(b)),
        canonical_parsed(TableType::spec_parse(a)) == canonical_parsed(TableType::spec_parse(b)),
        canonical_parsed(MemoryType::spec_parse(a)) == canonical_parsed(MemoryType::spec_parse(b)),
        canonical_parsed(acc.finish_parse(allow_names, a)) == canonical_parsed(
            acc.finish_parse(allow_names, b),
        ),
        canonical_parsed(FunctionTypeView::parse(a)) == canonical_parsed(
            FunctionTypeView::parse(b),
        ),
        canonical_parsed(TypeView::parse(a)) == canonical_parsed(TypeView::parse(b)),
        canonical_parsed(TypeUseView::parse_allow_names(a, allow_names)) == canonical_parsed(
            TypeUseView::parse_allow_names(b, allow_names),
        ),
{
    lemma_canonical_val_type(a);
    lemma_canonical_val_type(b);
    lemma_canonical_declarations(a);
    lemma_canonical_declarations(b);
    lemma_canonical_signature(acc, allow_names, a);
    lemma_canonical_signature(acc, allow_names, b);
    lemma_canonical_types(a, allow_names);
    lemma_canonical_types(b, allow_names);
}

} // verus!
