//! An interpreter for a small Lisp-like expression language: parenthesized
//! s-expressions over integers, booleans and immutable cons lists, with
//! multi-way conditionals, user-defined recursive functions, and a textual
//! module-include preprocessor.
//!
//! The pipeline is tokenizer, recursive-descent parser, and a two-phase
//! interpretation: registration of the top-level definitions, then
//! evaluation against an explicit runtime environment. Each stage carries a
//! contract that pins its result to a mathematical specification of the
//! grammar and the big-step semantics, and the laws module states the
//! properties that hold across stages.

pub mod ast;
pub mod env;
pub mod error;
pub mod eval;
pub mod laws;
pub mod lexer;
pub mod parser;
pub mod parser_spec;
pub mod preprocess;
pub mod program;
pub mod semantics;
pub mod spec_ast;
pub mod value;
