//! The parser: a forward-only place in a slice of tokens.
//!
//! A [`Parser`] is a small value that is copied freely. Consuming a token
//! gives a new parser and leaves the old one as it was, so a rule that fails
//! has consumed nothing.

use crate::cursor::Cursor;
use crate::error::{Error, ErrorView, Expected};
use crate::ident::{option_view, Id, NameAnnotation};
use crate::text::str_eq;
use crate::token::{Keyword, Span, Token, TokenView};
use vstd::prelude::*;

verus! {

/// What a sequence of tokens stands for.
pub open spec fn tokens_view<'a>(tokens: Seq<Token<'a>>) -> Seq<TokenView> {
    tokens.map_values(|t: Token<'a>| t@)
}

/// A place in a slice of tokens.
#[derive(Debug, Clone, Copy)]
pub struct Parser<'a> {
    tokens: &'a [Token<'a>],
    pos: usize,
}

impl<'a> View for Parser<'a> {
    type V = Cursor;

    closed spec fn view(&self) -> Cursor {
        Cursor { tokens: tokens_view(self.tokens@), pos: self.pos as nat }
    }
}

/// What the result of a rule that yields a value stands for.
pub open spec fn parsed<'a, T: View>(r: Result<(T, Parser<'a>), Error>) -> Result<
    (T::V, Cursor),
    ErrorView,
> {
    match r {
        Ok((v, p)) => Ok((v@, p@)),
        Err(e) => Err(e@),
    }
}

/// What the result of a rule that only consumes stands for.
pub open spec fn moved<'a>(r: Result<Parser<'a>, Error>) -> Result<Cursor, ErrorView> {
    match r {
        Ok(p) => Ok(p@),
        Err(e) => Err(e@),
    }
}

impl<'a> Parser<'a> {
    #[verifier::type_invariant]
    closed spec fn in_bounds(self) -> bool {
        self.pos <= self.tokens@.len()
    }

    /// A parser in front of the first of `tokens`.
    pub fn new(tokens: &'a [Token<'a>]) -> (p: Parser<'a>)
        ensures
            p@ == Cursor::start(tokens_view(tokens@)),
    {
        Parser { tokens, pos: 0 }
    }

    /// The next token, if there is one. Nothing is consumed.
    pub fn peek(self) -> (t: Option<Token<'a>>)
        ensures
            option_view(t) == self@.peek(),
    {
        if self.pos < self.tokens.len() {
            Some(self.tokens[self.pos])
        } else {
            None
        }
    }

    /// The place of the next token.
    pub fn cur_span(self) -> (s: Span)
        ensures
            s@ == self@.pos,
    {
        Span { offset: self.pos }
    }

    /// The number of tokens not yet consumed. A parser is never behind the
    /// end of its tokens.
    pub fn remaining(self) -> (n: usize)
        ensures
            n == self@.remaining(),
            self@.well_formed(),
    {
        proof {
            use_type_invariant(&self);
            assert(tokens_view(self.tokens@).len() == self.tokens@.len());
        }
        self.tokens.len() - self.pos
    }

    /// Whether nothing is left in the current group.
    pub fn is_empty(self) -> (r: bool)
        ensures
            r == self@.is_empty(),
    {
        match self.peek() {
            None => true,
            Some(Token::RParen) => true,
            Some(_) => false,
        }
    }

    /// Whether the next token is the keyword `kw`.
    pub fn peek_keyword(self, kw: Keyword) -> (r: bool)
        ensures
            r == self@.at_keyword(kw),
    {
        match self.peek() {
            Some(Token::Keyword(s)) => str_eq(s, kw.as_str()),
            _ => false,
        }
    }

    /// Whether the next token opens a group that begins with the keyword `kw`.
    pub fn peek2_keyword(self, kw: Keyword) -> (r: bool)
        ensures
            r == self@.at_group(kw),
    {
        match self.peek() {
            Some(Token::LParen) => self.bump().peek_keyword(kw),
            _ => false,
        }
    }

    /// Whether the next token is an integer literal that fits in 32 bits
    /// unsigned.
    pub fn peek_u32(self) -> (r: bool)
        ensures
            r == self@.at_u32(),
    {
        match self.peek() {
            Some(Token::Integer(v)) => 0 <= v && v <= 0xffff_ffff,
            _ => false,
        }
    }

    /// Whether the next token is a symbolic identifier.
    pub fn peek_id(self) -> (r: bool)
        ensures
            r == self@.at_id(),
    {
        match self.peek() {
            Some(Token::Id(_)) => true,
            _ => false,
        }
    }

    /// The parser behind the next token.
    fn bump(self) -> (p: Parser<'a>)
        requires
            self@.peek() is Some,
        ensures
            p@ == self@.advance(),
    {
        let len = self.tokens.len();
        assert(self.pos < len) by {
            assert(tokens_view(self.tokens@).len() == self.tokens@.len());
        }
        Parser { tokens: self.tokens, pos: self.pos + 1 }
    }

    /// The error for a next token that is none of `expected`.
    pub fn unexpected(self, expected: Vec<Expected>) -> (e: Error)
        ensures
            e@ == self@.unexpected(expected@),
    {
        Error::Unexpected { expected, span: self.cur_span() }
    }

    /// The error for a next token that is not the one thing expected.
    fn expected(self, what: Expected) -> (e: Error)
        ensures
            e@ == self@.unexpected(seq![what]),
    {
        let expected = vec![what];
        assert(expected@ =~= seq![what]);
        self.unexpected(expected)
    }

    /// Consumes the keyword `kw`.
    pub fn keyword(self, kw: Keyword) -> (r: Result<Parser<'a>, Error>)
        ensures
            moved(r) == self@.keyword(kw),
    {
        if self.peek_keyword(kw) {
            Ok(self.bump())
        } else {
            Err(self.expected(Expected::Keyword(kw)))
        }
    }

    /// Consumes `(`.
    pub fn open_group(self) -> (r: Result<Parser<'a>, Error>)
        ensures
            moved(r) == self@.open_group(),
    {
        match self.peek() {
            Some(Token::LParen) => Ok(self.bump()),
            _ => Err(self.expected(Expected::LParen)),
        }
    }

    /// Consumes `)`.
    pub fn close_group(self) -> (r: Result<Parser<'a>, Error>)
        ensures
            moved(r) == self@.close_group(),
    {
        match self.peek() {
            Some(Token::RParen) => Ok(self.bump()),
            _ => Err(self.expected(Expected::RParen)),
        }
    }

    /// Consumes an integer literal that fits in 32 bits unsigned.
    pub fn number(self) -> (r: Result<(u32, Parser<'a>), Error>)
        ensures
            match r {
                Ok((v, p)) => self@.number() == Ok::<_, ErrorView>((v, p@)),
                Err(e) => self@.number() == Err::<(u32, Cursor), _>(e@),
            },
    {
        match self.peek() {
            Some(Token::Integer(v)) => {
                if 0 <= v && v <= 0xffff_ffff {
                    Ok((v as u32, self.bump()))
                } else {
                    Err(self.expected(Expected::U32))
                }
            },
            _ => Err(self.expected(Expected::U32)),
        }
    }

    /// Consumes a symbolic identifier, if one is next.
    pub fn id(self) -> (r: (Option<Id<'a>>, Parser<'a>))
        ensures
            (option_view(r.0), r.1@) == self@.optional_id(),
    {
        match self.peek() {
            Some(Token::Id(name)) => (Some(Id { name }), self.bump()),
            _ => (None, self),
        }
    }

    /// Consumes a display-name annotation, if one is next.
    pub fn name(self) -> (r: (Option<NameAnnotation<'a>>, Parser<'a>))
        ensures
            (option_view(r.0), r.1@) == self@.optional_name(),
    {
        match self.peek() {
            Some(Token::Name(name)) => (Some(NameAnnotation { name }), self.bump()),
            _ => (None, self),
        }
    }

    /// Starts a choice among several alternatives at this place.
    pub fn lookahead1(self) -> (l: Lookahead<'a>)
        ensures
            l.cursor() == self@,
            l.attempts() == Seq::<Expected>::empty(),
    {
        Lookahead { parser: self, attempts: Vec::new() }
    }
}

/// A choice among several alternatives at one place, which remembers what
/// was tried so that the error can list it.
#[derive(Debug, Clone)]
pub struct Lookahead<'a> {
    parser: Parser<'a>,
    attempts: Vec<Expected>,
}

impl<'a> Lookahead<'a> {
    /// The place of the choice.
    pub closed spec fn cursor(&self) -> Cursor {
        self.parser@
    }

    /// The alternatives tried so far, in the order of the tries.
    pub closed spec fn attempts(&self) -> Seq<Expected> {
        self.attempts@
    }

    /// Whether the next token is the keyword `kw`, which is now among the
    /// alternatives tried.
    pub fn peek_keyword(&mut self, kw: Keyword) -> (r: bool)
        ensures
            r == old(self).cursor().at_keyword(kw),
            final(self).cursor() == old(self).cursor(),
            final(self).attempts() == old(self).attempts().push(Expected::Keyword(kw)),
    {
        self.attempts.push(Expected::Keyword(kw));
        self.parser.peek_keyword(kw)
    }

    /// Whether the next token is a symbolic identifier, which is now among
    /// the alternatives tried.
    pub fn peek_id(&mut self) -> (r: bool)
        ensures
            r == old(self).cursor().at_id(),
            final(self).cursor() == old(self).cursor(),
            final(self).attempts() == old(self).attempts().push(Expected::Id),
    {
        self.attempts.push(Expected::Id);
        self.parser.peek_id()
    }

    /// Whether the next token is an integer literal that fits in 32 bits
    /// unsigned, which is now among the alternatives tried.
    pub fn peek_u32(&mut self) -> (r: bool)
        ensures
            r == old(self).cursor().at_u32(),
            final(self).cursor() == old(self).cursor(),
            final(self).attempts() == old(self).attempts().push(Expected::U32),
    {
        self.attempts.push(Expected::U32);
        self.parser.peek_u32()
    }

    /// The error that lists every alternative tried.
    pub fn error(self) -> (e: Error)
        ensures
            e@ == self.cursor().unexpected(self.attempts()),
    {
        self.parser.unexpected(self.attempts)
    }
}

} // verus!
