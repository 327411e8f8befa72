//! What the commands of the application compute, once the outside world has
//! been read.

pub mod health;
pub mod mcp;
pub mod secrets;
