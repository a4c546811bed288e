//! Limits, and the memory type built on them.

use crate::cursor::Cursor;
use crate::error::{Error, ErrorView};
use crate::parser::{parsed, Parser};
use crate::token::Keyword;
use vstd::prelude::*;

verus! {

/// The least size of a table or memory, and the greatest if one is given.
#[derive(Copy, Clone, Debug, PartialEq, Eq)]
pub struct Limits {
    /// The least number of units.
    pub min: u32,
    /// The greatest number of units, if there is a bound.
    pub max: Option<u32>,
}

impl View for Limits {
    type V = Limits;

    open spec fn view(&self) -> Limits {
        *self
    }
}

impl Limits {
    /// Limits are one number, the minimum, and a maximum if the very next
    /// token is a number too.
    pub open spec fn spec_parse(c: Cursor) -> Result<(Limits, Cursor), ErrorView> {
        match c.number() {
            Err(e) => Err(e),
            Ok((min, c1)) => match c1.number() {
                Ok((max, c2)) => Ok((Limits { min, max: Some(max) }, c2)),
                Err(_) => Ok((Limits { min, max: None }, c1)),
            },
        }
    }

    /// Parses limits.
    pub fn parse<'a>(parser: Parser<'a>) -> (r: Result<(Limits, Parser<'a>), Error>)
        ensures
            parsed(r) == Self::spec_parse(parser@),
    {
        let (min, q1) = parser.number()?;
        if q1.peek_u32() {
            let (max, q2) = q1.number()?;
            Ok((Limits { min, max: Some(max) }, q2))
        } else {
            Ok((Limits { min, max: None }, q1))
        }
    }
}

/// The type of a memory.
#[derive(Copy, Clone, Debug, PartialEq, Eq)]
pub struct MemoryType {
    /// The limits on the memory's size in pages.
    pub limits: Limits,
    /// Whether the memory is shared between threads.
    pub shared: bool,
}

impl View for MemoryType {
    type V = MemoryType;

    open spec fn view(&self) -> MemoryType {
        *self
    }
}

impl MemoryType {
    /// A memory type is limits, and `shared` if that keyword follows.
    pub open spec fn spec_parse(c: Cursor) -> Result<(MemoryType, Cursor), ErrorView> {
        match Limits::spec_parse(c) {
            Err(e) => Err(e),
            Ok((limits, c1)) => if c1.at_keyword(Keyword::Shared) {
                Ok((MemoryType { limits, shared: true }, c1.advance()))
            } else {
                Ok((MemoryType { limits, shared: false }, c1))
            },
        }
    }

    /// Parses a memory type.
    pub fn parse<'a>(parser: Parser<'a>) -> (r: Result<(MemoryType, Parser<'a>), Error>)
        ensures
            parsed(r) == Self::spec_parse(parser@),
    {
        let (limits, q1) = Limits::parse(parser)?;
        if q1.peek_keyword(Keyword::Shared) {
            let q2 = q1.keyword(Keyword::Shared)?;
            Ok((MemoryType { limits, shared: true }, q2))
        } else {
            Ok((MemoryType { limits, shared: false }, q1))
        }
    }
}

} // verus!
