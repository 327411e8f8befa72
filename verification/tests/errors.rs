use mcp_supervisor::types::errors::AppError;

#[test]
fn message_of_store_failures() {
    assert_eq!(AppError::Keyring("locked".to_string()).to_string(), "Keyring error: locked");
    assert_eq!(AppError::Io("disk full".to_string()).to_string(), "IO error: disk full");
    assert_eq!(AppError::Database("busy".to_string()).to_string(), "Database error: busy");
}

#[test]
fn message_of_config_not_found() {
    let e = AppError::ConfigNotFound { name: "fs".to_string() };
    assert_eq!(e.to_string(), "Not found: MCP server 'fs' not found");
}

#[test]
fn message_of_not_running() {
    let e = AppError::NotRunning { name: "fs".to_string() };
    assert_eq!(e.to_string(), "Not found: MCP server 'fs' is not running");
}

#[test]
fn message_of_spawn_failure() {
    let e = AppError::SpawnFailure { message: "No such file or directory".to_string() };
    assert_eq!(
        e.to_string(),
        "Process error: Failed to spawn process: No such file or directory"
    );
}

#[test]
fn message_of_retry_exhausted() {
    let e = AppError::RetryExhausted {
        name: "fs".to_string(),
        attempts: 3,
        last_error: "Process error: Failed to spawn process: denied".to_string(),
    };
    assert_eq!(
        e.to_string(),
        "Process error: Failed to start MCP server 'fs' after 3 attempts: Process error: Failed to spawn process: denied"
    );
}

#[test]
fn message_of_retry_timeout() {
    let e = AppError::RetryTimeout { name: "fs".to_string() };
    assert_eq!(e.to_string(), "Process error: Backoff timeout starting MCP server 'fs'");
}

#[test]
fn message_of_kill_failure() {
    let e = AppError::KillFailure { name: "fs".to_string(), message: "no such process".to_string() };
    assert_eq!(e.to_string(), "Process error: Failed to kill process: no such process");
}

#[test]
fn clone_keeps_kind_and_fields() {
    let e = AppError::RetryExhausted {
        name: "fs".to_string(),
        attempts: 3,
        last_error: "x".to_string(),
    };
    assert_eq!(e.clone(), e);
    let k = AppError::KillFailure { name: "a".to_string(), message: "b".to_string() };
    assert_eq!(k.clone(), k);
    assert_ne!(AppError::Io("a".to_string()), AppError::Keyring("a".to_string()));
}
