//! A minimal expression-evaluation core for a small Lisp-like language:
//! a closed set of expression kinds (empty list, number, identifier, pair,
//! lambda), a persistent lexical-environment chain, and the evaluation and
//! application operations that tie the two together.

pub mod environment;
pub mod expr;
pub mod laws;
pub mod model;
pub mod numeral;

pub use environment::Environment;
pub use expr::{Cons, Empty, EvalError, Expr, Expression, Identifier, Lambda, Number};
