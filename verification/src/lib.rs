//! A small evaluator for a propositional logic language with phase
//! annotations: expressions reduce to a ternary truth value paired with a
//! phase tag recording the provenance and certainty of the result.

pub mod ast;
pub mod eval;
pub mod laws;
pub mod mem;
pub mod phase;
pub mod value;

pub use crate::ast::Expr;
pub use crate::eval::Evaluator;
pub use crate::phase::Phase;
pub use crate::value::V;
