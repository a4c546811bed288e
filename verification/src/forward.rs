//! Proof that every rule reads forward only: from where it starts, a rule
//! ends further on in the same tokens, or fails at a place not in front of
//! its start.

use crate::cursor::Cursor;
use crate::error::ErrorView;
use crate::func::{spec_param_group, spec_val_types, FunctionTypeView, TypeView};
use crate::global::GlobalType;
use crate::limits::{Limits, MemoryType};
use crate::table::{TableElemType, TableType};
use crate::token::Keyword;
use crate::typeuse::TypeUseView;
use crate::valtype::ValType;
use vstd::prelude::*;

verus! {

/// The outcome `r` of a rule that started at `c` lies forward of `c`: a
/// success ends in the same tokens and not in front of `c`, and an error
/// points at a place not in front of `c`.
pub open spec fn forward<T>(c: Cursor, r: Result<(T, Cursor), ErrorView>) -> bool {
    match r {
        Ok((_, end)) => c.reaches(end),
        Err(e) => c.pos <= e.at(),
    }
}

/// The types of a group lie forward.
pub proof fn lemma_val_types_forward(c: Cursor, acc: Seq<ValType>)
    ensures
        forward(c, spec_val_types(c, acc)),
    decreases c.remaining(),
{
    if !c.is_empty() {
        if let Ok((ty, _)) = ValType::spec_parse(c) {
            lemma_val_types_forward(c.advance(), acc.push(ty));
        }
    }
}

/// A parameter group lies forward.
pub proof fn lemma_param_group_forward(c: Cursor, allow_names: bool)
    ensures
        forward(c, spec_param_group(c, allow_names)),
{
    if !c.is_empty() {
        let c1 = if allow_names {
            c.optional_id().1
        } else {
            c
        };
        let c2 = if allow_names {
            c1.optional_name().1
        } else {
            c1
        };
        if let Ok((ty, c3)) = ValType::spec_parse(c2) {
            lemma_val_types_forward(c3, seq![ty]);
        }
    }
}

/// A signature lies forward.
pub proof fn lemma_signature_forward(acc: FunctionTypeView, allow_names: bool, c: Cursor)
    ensures
        forward(c, acc.finish_parse(allow_names, c)),
    decreases c.remaining(),
{
    let body = c.advance().advance();
    if c.at_group(Keyword::Param) {
        if acc.results.len() == 0 {
            lemma_param_group_forward(body, allow_names);
            if let Ok((group, c1)) = spec_param_group(body, allow_names) {
                if let Ok(c2) = c1.close_group() {
                    lemma_signature_forward(
                        FunctionTypeView { params: acc.params + group, results: acc.results },
                        allow_names,
                        c2,
                    );
                }
            }
        }
    } else if c.at_group(Keyword::Result) {
        lemma_val_types_forward(body, Seq::empty());
        if let Ok((group, c1)) = spec_val_types(body, Seq::empty()) {
            if let Ok(c2) = c1.close_group() {
                lemma_signature_forward(
                    FunctionTypeView { params: acc.params, results: acc.results + group },
                    allow_names,
                    c2,
                );
            }
        }
    }
}

/// Every rule reads forward only. Tokens are consumed from left to right:
/// no rule ends in front of where it started, none leaves the tokens
/// changed, and no error points in front of the start.
pub proof fn lemma_forward_only(c: Cursor, allow_names: bool, acc: FunctionTypeView)
    ensures
        forward(c, ValType::spec_parse(c)),
        forward(c, TableElemType::spec_parse(c)),
        forward(c, GlobalType::spec_parse(c)),
        forward(c, Limits::spec_parse(c)),
        forward(c, TableType::spec_parse(c)),
        forward(c, MemoryType::spec_parse(c)),
        forward(c, c.number()),
        forward(c, c.index()),
        forward(c, acc.finish_parse(allow_names, c)),
        forward(c, FunctionTypeView::parse(c)),
        forward(c, TypeView::parse(c)),
        forward(c, TypeUseView::parse_allow_names(c, allow_names)),
{
    lemma_signature_forward(acc, allow_names, c);
    lemma_signature_forward(FunctionTypeView::empty(), true, c.advance());
    assert(forward(c, TypeView::parse(c))) by {
        let c2 = c.advance().optional_id().1;
        lemma_signature_forward(FunctionTypeView::empty(), true, c2.advance().advance());
    }
    assert(forward(c, TypeUseView::parse_allow_names(c, allow_names))) by {
        lemma_signature_forward(FunctionTypeView::empty(), allow_names, c);
        if let Ok((_, c1)) = c.advance().advance().index() {
            if let Ok(c2) = c1.close_group() {
                lemma_signature_forward(FunctionTypeView::empty(), allow_names, c2);
            }
        }
    }
}

} // verus!
