//! Front end of the Blink rule language: source text to a versioned
//! intermediate representation.
//!
//! The pipeline is linear: [`lexer::tokenize`] turns text into tokens,
//! [`parser::parse`] builds the syntax tree, [`analyzer::analyze`] resolves
//! names and types, and [`ir::generate`] lowers the typed tree. Each stage is
//! a verified function whose contract equates its result with a
//! specification function over the mathematical value of its input.

pub mod text;
pub mod options;
pub mod lexer;
pub mod parser;
pub mod analyzer;
pub mod ir;
pub mod compile;

pub use crate::compile::{compile, compile_with_path, compile_with_sources, CompileError};
pub use crate::options::CompilerOptions;
