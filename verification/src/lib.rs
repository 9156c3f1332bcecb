//! Front end of a compiler for a structured, Pascal-like control language:
//! an expression parser over a token cursor, and the global index of
//! variables and types that code generation consults.

pub mod artifacts;
pub mod ast;
pub mod index;
pub mod lexer;
pub mod parser;
