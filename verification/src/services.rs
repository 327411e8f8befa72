//! The services: retry policy, process supervision, known secrets.

pub mod config_loader;
pub mod keyring_service;
pub mod mcp_manager;
pub mod protocol;
pub mod retry;
pub mod tables;
