//! The command line: its arguments, and what each command decides.

pub mod args;
pub mod commands;
