//! A verified interpreter for a small Logo dialect.
//!
//! The crate covers the two central pieces of the language pipeline: the
//! syntax analyzer, which turns a stream of classified tokens into a typed
//! abstract syntax tree while enforcing the dialect's shape rules, and the
//! tree-walking evaluator, which executes that tree against mutable turtle
//! and variable state.  Drawing is delegated to a `Canvas` implementation
//! supplied by the caller; numeric values are IEEE single precision numbers
//! carried as bit patterns and computed through a software floating point
//! library behind narrow trusted wrappers.

pub mod errors;
pub mod strutil;
pub mod tokens;
pub mod single;
pub mod ast;
pub mod parser;
pub mod value;
pub mod table;
pub mod interp;
pub mod laws;
