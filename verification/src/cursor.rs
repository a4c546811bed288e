//! The mathematical model of a parser: a token sequence and a place in it.

use crate::error::{ErrorView, Expected};
use crate::ident::IndexView;
use crate::token::{Keyword, TokenView};
use vstd::prelude::*;

verus! {

/// A token sequence and the number of tokens already consumed.
pub struct Cursor {
    pub tokens: Seq<TokenView>,
    pub pos: nat,
}

impl Cursor {
    /// The cursor in front of the first token.
    pub open spec fn start(tokens: Seq<TokenView>) -> Cursor {
        Cursor { tokens, pos: 0 }
    }

    /// The cursor is not behind the end of its tokens.
    pub open spec fn well_formed(self) -> bool {
        self.pos <= self.tokens.len()
    }

    /// The number of tokens not yet consumed.
    pub open spec fn remaining(self) -> nat {
        if self.pos <= self.tokens.len() {
            (self.tokens.len() - self.pos) as nat
        } else {
            0
        }
    }

    /// The next token, if there is one.
    pub open spec fn peek(self) -> Option<TokenView> {
        if self.pos < self.tokens.len() {
            Some(self.tokens[self.pos as int])
        } else {
            None
        }
    }

    /// The cursor one token further.
    pub open spec fn advance(self) -> Cursor {
        Cursor { tokens: self.tokens, pos: self.pos + 1 }
    }

    /// Nothing is left in the current group: the next token closes it, or the
    /// input ends.
    pub open spec fn is_empty(self) -> bool {
        self.peek() is None || self.peek() == Some(TokenView::RParen)
    }

    /// The next token is the keyword `kw`.
    pub open spec fn at_keyword(self, kw: Keyword) -> bool {
        self.peek() == Some(TokenView::Keyword(kw.text()))
    }

    /// The next token opens a group, and the token behind it is the keyword
    /// `kw`.
    pub open spec fn at_group(self, kw: Keyword) -> bool {
        self.peek() == Some(TokenView::LParen) && self.advance().at_keyword(kw)
    }

    /// The next token is an integer literal that fits in 32 bits unsigned.
    pub open spec fn at_u32(self) -> bool {
        self.peek() matches Some(TokenView::Integer(v)) && 0 <= v <= u32::MAX
    }

    /// The next token is a symbolic identifier.
    pub open spec fn at_id(self) -> bool {
        self.peek() matches Some(TokenView::Id(_))
    }

    /// The next token is a display-name annotation.
    pub open spec fn at_name(self) -> bool {
        self.peek() matches Some(TokenView::Name(_))
    }

    /// The error for a next token that is none of `expected`.
    pub open spec fn unexpected(self, expected: Seq<Expected>) -> ErrorView {
        ErrorView::Unexpected { expected, at: self.pos }
    }

    /// Consumes the keyword `kw`.
    pub open spec fn keyword(self, kw: Keyword) -> Result<Cursor, ErrorView> {
        if self.at_keyword(kw) {
            Ok(self.advance())
        } else {
            Err(self.unexpected(seq![Expected::Keyword(kw)]))
        }
    }

    /// Consumes `(`.
    pub open spec fn open_group(self) -> Result<Cursor, ErrorView> {
        if self.peek() == Some(TokenView::LParen) {
            Ok(self.advance())
        } else {
            Err(self.unexpected(seq![Expected::LParen]))
        }
    }

    /// Consumes `)`.
    pub open spec fn close_group(self) -> Result<Cursor, ErrorView> {
        if self.peek() == Some(TokenView::RParen) {
            Ok(self.advance())
        } else {
            Err(self.unexpected(seq![Expected::RParen]))
        }
    }

    /// Consumes an integer literal that fits in 32 bits unsigned.
    pub open spec fn number(self) -> Result<(u32, Cursor), ErrorView> {
        match self.peek() {
            Some(TokenView::Integer(v)) if 0 <= v <= u32::MAX => Ok((v as u32, self.advance())),
            _ => Err(self.unexpected(seq![Expected::U32])),
        }
    }

    /// Consumes a symbolic identifier, if one is next.
    pub open spec fn optional_id(self) -> (Option<Seq<char>>, Cursor) {
        match self.peek() {
            Some(TokenView::Id(name)) => (Some(name), self.advance()),
            _ => (None, self),
        }
    }

    /// Consumes a display-name annotation, if one is next.
    pub open spec fn optional_name(self) -> (Option<Seq<char>>, Cursor) {
        match self.peek() {
            Some(TokenView::Name(name)) => (Some(name), self.advance()),
            _ => (None, self),
        }
    }

    /// Consumes a reference: an identifier, or else a number.
    pub open spec fn index(self) -> Result<(IndexView, Cursor), ErrorView> {
        match self.peek() {
            Some(TokenView::Id(name)) => Ok((IndexView::Id(name), self.advance())),
            Some(TokenView::Integer(v)) if 0 <= v <= u32::MAX => Ok(
                (IndexView::Num(v as u32), self.advance()),
            ),
            _ => Err(self.unexpected(seq![Expected::Id, Expected::U32])),
        }
    }

    /// The cursor `n` tokens further.
    pub open spec fn skip(self, n: nat) -> Cursor {
        Cursor { tokens: self.tokens, pos: self.pos + n }
    }

    /// The tokens not yet consumed.
    pub open spec fn rest(self) -> Seq<TokenView>
        recommends
            self.well_formed(),
    {
        self.tokens.skip(self.pos as int)
    }

    /// `later` is this cursor after zero or more tokens were consumed.
    pub open spec fn reaches(self, later: Cursor) -> bool {
        later.tokens == self.tokens && self.pos <= later.pos
    }
}

/// A cursor whose rest begins with the token `t` has `t` next, and behind it
/// the rest without `t`.
pub proof fn lemma_rest_step(c: Cursor, t: TokenView, r: Seq<TokenView>)
    requires
        c.well_formed(),
        c.rest() =~= seq![t] + r,
    ensures
        c.peek() == Some(t),
        c.advance().well_formed(),
        c.advance().rest() == r,
        c.advance() == c.skip(1),
{
    assert(c.rest().len() == 1 + r.len());
    assert(c.rest()[0] == t);
    assert forall|i: int| 0 <= i < r.len() implies c.advance().rest()[i] == r[i] by {
        assert(c.rest()[i + 1] == r[i]);
    }
    assert(c.advance().rest() =~= r);
}

} // verus!
