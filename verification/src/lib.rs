//! A small dependently-flavoured calculus: a bidirectional type checker
//! joined to a normalisation-by-evaluation evaluator.
//!
//! Terms ([`Expr`]) are evaluated to semantic values ([`Value`]), which may
//! be stuck on a free variable ([`Neutral`]); values are quoted back to terms,
//! and two values are equal exactly when their quotations are the same term.
//! Every executable function is specified against the mathematical model in
//! [`model`], the parser against the grammar in [`grammar`], and what holds
//! of the judgments is proved in [`laws`].
use vstd::prelude::*;

pub mod context;
pub mod display;
pub mod error;
pub mod expr;
pub mod grammar;
pub mod laws;
pub mod lexer;
pub mod model;
pub mod parser;
pub mod session;
pub mod text;
pub mod typing;
pub mod value;

pub use context::{Context, Env};
pub use error::{ParseError, TypeError};
pub use expr::Expr;
pub use session::Failure;
pub use value::{Neutral, Value};

verus! {

/// Integer literals of the calculus.
pub type Int = i64;

/// Variable names.
pub type Name = String;

/// Universe levels.
pub type Level = u8;

/// A type is a value.
pub type Type = Value;

/// The largest universe level; no universe lies above it.
pub const MAX_LEVEL: Level = 255;

} // verus!
