//! The task manager's data, and the client that drives it.

pub mod client;
pub mod javascript;
pub mod jxa;
pub mod template;
pub mod types;
