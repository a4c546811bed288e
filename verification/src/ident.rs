//! Names and references that a later pass resolves.

use crate::cursor::Cursor;
use crate::error::{Error, ErrorView, Expected};
use crate::parser::{parsed, Parser};
use vstd::prelude::*;

verus! {

/// A symbolic identifier, such as `$x`.
#[derive(Debug, Clone, Copy, PartialEq, Eq)]
pub struct Id<'a> {
    /// The identifier without its `$`.
    pub name: &'a str,
}

impl<'a> View for Id<'a> {
    type V = Seq<char>;

    open spec fn view(&self) -> Seq<char> {
        self.name@
    }
}

/// A display name given by an annotation, such as `(@name "x")`.
#[derive(Debug, Clone, Copy, PartialEq, Eq)]
pub struct NameAnnotation<'a> {
    /// The name to display.
    pub name: &'a str,
}

impl<'a> View for NameAnnotation<'a> {
    type V = Seq<char>;

    open spec fn view(&self) -> Seq<char> {
        self.name@
    }
}

/// A reference to an item of a module, by number or by name.
#[derive(Debug, Clone, Copy, PartialEq, Eq)]
pub enum Index<'a> {
    /// The item's position in its index space.
    Num(u32),
    /// The identifier that the item was declared with.
    Id(Id<'a>),
}

/// What an [`Index`] stands for.
pub enum IndexView {
    Num(u32),
    Id(Seq<char>),
}

impl<'a> View for Index<'a> {
    type V = IndexView;

    open spec fn view(&self) -> IndexView {
        match *self {
            Index::Num(n) => IndexView::Num(n),
            Index::Id(id) => IndexView::Id(id@),
        }
    }
}

impl<'a> Index<'a> {
    /// Parses a reference: an identifier, or else a number that fits in 32
    /// bits unsigned.
    pub fn parse(parser: Parser<'a>) -> (r: Result<(Index<'a>, Parser<'a>), Error>)
        ensures
            parsed(r) == parser@.index(),
    {
        let mut l = parser.lookahead1();
        if l.peek_id() {
            match parser.id() {
                (Some(id), rest) => Ok((Index::Id(id), rest)),
                (None, _) => Err(l.error()),
            }
        } else if l.peek_u32() {
            let (n, rest) = parser.number()?;
            Ok((Index::Num(n), rest))
        } else {
            assert(l.attempts() =~= seq![Expected::Id, Expected::U32]);
            Err(l.error())
        }
    }
}

/// The view of an optional value.
pub open spec fn option_view<T: View>(o: Option<T>) -> Option<T::V> {
    match o {
        Some(v) => Some(v@),
        None => None,
    }
}

} // verus!
