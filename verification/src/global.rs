//! The type of a global.

use crate::cursor::Cursor;
use crate::error::{Error, ErrorView};
use crate::parser::{parsed, Parser};
use crate::token::Keyword;
use crate::valtype::ValType;
use vstd::prelude::*;

verus! {

/// The type of a global: what it holds, and whether it can be assigned to.
#[derive(Copy, Clone, Debug, PartialEq, Eq, Structural)]
pub struct GlobalType {
    /// The type of the value.
    pub ty: ValType,
    /// Whether the global is mutable.
    pub mutable: bool,
}

impl View for GlobalType {
    type V = GlobalType;

    open spec fn view(&self) -> GlobalType {
        *self
    }
}

impl GlobalType {
    /// A global type is `(mut t)`, which is mutable, or a bare value type
    /// `t`, which is not.
    pub open spec fn spec_parse(c: Cursor) -> Result<(GlobalType, Cursor), ErrorView> {
        if c.at_group(Keyword::Mut) {
            match ValType::spec_parse(c.advance().advance()) {
                Err(e) => Err(e),
                Ok((ty, c1)) => match c1.close_group() {
                    Err(e) => Err(e),
                    Ok(c2) => Ok((GlobalType { ty, mutable: true }, c2)),
                },
            }
        } else {
            match ValType::spec_parse(c) {
                Err(e) => Err(e),
                Ok((ty, c1)) => Ok((GlobalType { ty, mutable: false }, c1)),
            }
        }
    }

    /// Parses a global type. The result is mutable exactly where the input
    /// begins with `(mut`.
    pub fn parse<'a>(parser: Parser<'a>) -> (r: Result<(GlobalType, Parser<'a>), Error>)
        ensures
            parsed(r) == Self::spec_parse(parser@),
            r matches Ok((g, _)) ==> g.mutable == parser@.at_group(Keyword::Mut),
    {
        if parser.peek2_keyword(Keyword::Mut) {
            let q1 = parser.open_group()?;
            let q2 = q1.keyword(Keyword::Mut)?;
            let (ty, q3) = ValType::parse(q2)?;
            let q4 = q3.close_group()?;
            Ok((GlobalType { ty, mutable: true }, q4))
        } else {
            let (ty, q1) = ValType::parse(parser)?;
            Ok((GlobalType { ty, mutable: false }, q1))
        }
    }
}

} // verus!
