//! Command-line companion for the Things 3 task manager: a filter expression
//! engine over task records, and the scripts that drive the application.

pub mod cli;
pub mod date;
pub mod error;
pub mod filter;
pub mod text;
pub mod things;
