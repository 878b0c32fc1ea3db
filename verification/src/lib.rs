//! A tree-walking interpreter for a small Lisp-family expression language.
//!
//! The crate is organised as the language itself is: `ast` holds the
//! expression data model (atoms, cons lists, closures, macros, special
//! forms and native functions) together with its mathematical view;
//! `env` holds the lexically linked binding frames; `prelude` builds the
//! base frame; `eval` holds the evaluator and its specification; `read`
//! turns program text into an expression tree; `laws` states and proves
//! the general laws of evaluation.

pub mod ast;
pub mod env;
pub mod eval;
pub mod laws;
pub mod prelude;
pub mod read;

pub use ast::Expression;
