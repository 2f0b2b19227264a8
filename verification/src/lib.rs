//! A minimal scripting language front end: a recursive-descent parser over a
//! token stream and a tree-walking evaluator with a single flat environment.
//!
//! The parser turns tokens into a `Program` (a sequence of statements holding
//! expression trees); the evaluator walks the statements in order against a
//! mutable variable environment, collecting the lines that the print built-in
//! emits. Every function is specified against a mathematical model: a ghost
//! mirror of the syntax tree, a `Map` view of the environment, and pure
//! recursive evaluation functions.

pub mod ast;
pub mod executor;
pub mod laws;
pub mod numtext;
pub mod parser;
pub mod token;
pub mod value;
