//! The data that the services exchange.

pub mod config;
pub mod errors;
