//! The two ways in which the type grammar rejects its input.

use crate::token::{Keyword, Span};
use vstd::prelude::*;
use vstd::string::StringExecFns;

verus! {

/// A grammar element that a rule was ready to accept at a decision point.
#[derive(Debug, Clone, Copy, PartialEq, Eq, Structural)]
pub enum Expected {
    /// `(`
    LParen,
    /// `)`
    RParen,
    /// The given keyword.
    Keyword(Keyword),
    /// An integer literal between 0 and 2^32 - 1.
    U32,
    /// A symbolic identifier.
    Id,
}

impl Expected {
    /// How the alternative is called in a message: a token between
    /// backquotes, or the kind of token in words.
    pub open spec fn description(self) -> Seq<char> {
        match self {
            Expected::LParen => "`(`"@,
            Expected::RParen => "`)`"@,
            Expected::Keyword(kw) => "`"@ + kw.text() + "`"@,
            Expected::U32 => "an unsigned 32-bit integer"@,
            Expected::Id => "an identifier"@,
        }
    }

    /// How the alternative is called in a message.
    pub fn describe(self) -> (s: String)
        ensures
            s@ == self.description(),
    {
        match self {
            Expected::LParen => String::from_str("`(`"),
            Expected::RParen => String::from_str("`)`"),
            Expected::Keyword(kw) => {
                let mut s = String::from_str("`");
                s.append(kw.as_str());
                s.append("`");
                s
            },
            Expected::U32 => String::from_str("an unsigned 32-bit integer"),
            Expected::Id => String::from_str("an identifier"),
        }
    }
}

/// The descriptions of the alternatives, in their order, with a comma and a
/// space between two of them.
pub open spec fn joined(expected: Seq<Expected>) -> Seq<char>
    decreases expected.len(),
{
    if expected.len() == 0 {
        Seq::empty()
    } else if expected.len() == 1 {
        expected[0].description()
    } else {
        joined(expected.drop_last()) + ", "@ + expected.last().description()
    }
}

/// Why a parse failed, and where.
#[derive(Debug, Clone, PartialEq, Eq)]
pub enum Error {
    /// The token at `span` (or the end of the input there) is none of the
    /// alternatives in `expected`.
    Unexpected { expected: Vec<Expected>, span: Span },
    /// The parameter group whose keyword stands at `span` follows a result.
    ParamAfterResult { span: Span },
}

/// What an [`Error`] stands for.
pub enum ErrorView {
    Unexpected { expected: Seq<Expected>, at: nat },
    ParamAfterResult { at: nat },
}

impl View for Error {
    type V = ErrorView;

    open spec fn view(&self) -> ErrorView {
        match *self {
            Error::Unexpected { expected, span } => ErrorView::Unexpected {
                expected: expected@,
                at: span@,
            },
            Error::ParamAfterResult { span } => ErrorView::ParamAfterResult { at: span@ },
        }
    }
}

impl ErrorView {
    /// The error in words, without its place.
    pub open spec fn message(self) -> Seq<char> {
        match self {
            ErrorView::Unexpected { expected, .. } => if expected.len() == 0 {
                "unexpected token"@
            } else {
                "unexpected token, expected one of: "@ + joined(expected)
            },
            ErrorView::ParamAfterResult { .. } => "parameters must precede results"@,
        }
    }

    /// The place that the error points at.
    pub open spec fn at(self) -> nat {
        match self {
            ErrorView::Unexpected { at, .. } => at,
            ErrorView::ParamAfterResult { at } => at,
        }
    }
}

impl Error {
    /// The error in words, without its place: what was expected, each
    /// alternative once in the order of the tries, or that a parameter
    /// follows a result.
    pub fn message(&self) -> (s: String)
        ensures
            s@ == self@.message(),
    {
        match self {
            Error::ParamAfterResult { .. } => String::from_str("parameters must precede results"),
            Error::Unexpected { expected, .. } => {
                if expected.len() == 0 {
                    return String::from_str("unexpected token");
                }
                let mut s = String::from_str("unexpected token, expected one of: ");
                let ghost head = s@;
                let mut i: usize = 0;
                assert(s@ =~= head + joined(expected@.take(0)));
                while i < expected.len()
                    invariant
                        i <= expected.len(),
                        s@ == head + joined(expected@.take(i as int)),
                    decreases expected.len() - i,
                {
                    if i > 0 {
                        s.append(", ");
                    }
                    let d = expected[i].describe();
                    s.append(d.as_str());
                    i += 1;
                    proof {
                        let now = expected@.take(i as int);
                        assert(now.drop_last() =~= expected@.take(i - 1));
                        assert(now.last() == expected@[i - 1]);
                        assert(s@ =~= head + joined(now));
                    }
                }
                assert(expected@.take(i as int) =~= expected@);
                s
            },
        }
    }

    /// The place that the error points at.
    pub fn span(&self) -> (s: Span)
        ensures
            s@ == self@.at(),
    {
        match self {
            Error::Unexpected { span, .. } => *span,
            Error::ParamAfterResult { span } => *span,
        }
    }
}

} // verus!
