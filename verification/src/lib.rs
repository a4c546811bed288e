//! The type grammar of the WebAssembly text format, parsed from a token
//! stream into unresolved type descriptions.
//!
//! Every grammar rule is a pure function from a [`Parser`] to either a value
//! and the parser just behind it, or an [`Error`]. What each rule accepts is
//! stated by a specification function over a [`Cursor`], the mathematical
//! model of a parser, and each parsing function is proved to compute exactly
//! that.
//!
//! Beside the rules stand proofs about the grammar as a whole: that the
//! shorthand form of a signature parses back to the signature (`shorthand`),
//! that `anyfunc` can be written for `funcref` at every place (`alias`), and
//! that every rule reads forward only (`forward`).

pub mod alias;
pub mod cursor;
pub mod error;
pub mod forward;
pub mod func;
pub mod global;
pub mod ident;
pub mod limits;
pub mod parser;
pub mod shorthand;
pub mod table;
pub mod text;
pub mod token;
pub mod typeuse;
pub mod valtype;

pub use cursor::Cursor;
pub use error::{Error, ErrorView, Expected};
pub use func::{FunctionType, FunctionTypeView, ParamView, Type, TypeView};
pub use global::GlobalType;
pub use ident::{Id, Index, IndexView, NameAnnotation};
pub use limits::{Limits, MemoryType};
pub use parser::{Lookahead, Parser};
pub use table::{TableElemType, TableType};
pub use token::{Keyword, Span, Token, TokenView};
pub use typeuse::{TypeUse, TypeUseView};
pub use valtype::ValType;
