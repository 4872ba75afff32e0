//! A front end for a small declarative configuration language: a verified
//! parser from source text to a typed syntax tree, and a verified renderer
//! from the tree back to canonical source text.

pub mod numeral;
pub mod position;
pub mod errors;
pub mod operators;
pub mod model;
pub mod ast;
pub mod render;
pub mod debug;
pub mod grammar;
pub mod parser;
pub mod laws;
pub mod lsp;
