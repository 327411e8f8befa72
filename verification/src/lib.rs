//! Supervision of named server processes: configuration, status and process
//! tables, the start/stop protocol and its retry policy.

pub mod commands;
pub mod services;
pub mod table;
pub mod text;
pub mod types;
