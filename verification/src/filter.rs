//! The filter expression engine: a small query language over task records.
//!
//! A filter such as `status = 'open' AND due < today` is scanned into tokens,
//! parsed into an expression tree and evaluated against records one by one.

pub mod ast;
pub mod engine;
pub mod eval;
pub mod laws;
pub mod lexer;
pub mod parser;
pub mod printer;
pub mod roundtrip;
pub mod scanning;
pub mod token;
pub mod words;
