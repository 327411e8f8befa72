use mcp_supervisor::services::mcp_manager::StartDecision;
use mcp_supervisor::services::protocol::{
    begin_start, begin_stop, finish_start, finish_stop, list_servers, stop_all,
};
use mcp_supervisor::services::tables::{ProcessTable, StatusTable};
use mcp_supervisor::table::Table;
use mcp_supervisor::types::config::{McpConfig, McpServerConfig, McpServerStatus};
use mcp_supervisor::types::errors::AppError;

fn one_server(name: &str) -> McpConfig {
    let mut servers = Table::new();
    servers.insert(
        name.to_string(),
        McpServerConfig { command: "echo".to_string(), args: vec!["hi".to_string()], env: Table::new() },
    );
    McpConfig { mcp_servers: servers }
}

#[test]
fn start_steps_work_on_separate_tables() {
    let config = one_server("fs");
    let mut statuses = StatusTable::new();
    let mut processes: ProcessTable<u32> = ProcessTable::new();
    let overrides = Table::new();
    assert!(matches!(
        begin_start(&config, &mut statuses, "fs", &overrides),
        Ok(StartDecision::Launch(_))
    ));
    assert_eq!(statuses.get_status("fs"), McpServerStatus::Starting);
    assert_eq!(processes.len(), 0);
    assert_eq!(finish_start(&config, &mut processes, &mut statuses, "fs", Ok(3)), Ok(()));
    assert_eq!(statuses.get_status("fs"), McpServerStatus::Running);
    assert_eq!(processes.get_process("fs").map(|p| (p.handle, p.retry_count)), Some((3, 0)));
    assert!(matches!(
        begin_start(&config, &mut statuses, "fs", &overrides),
        Ok(StartDecision::AlreadyRunning)
    ));
}

#[test]
fn unknown_name_changes_neither_table() {
    let config = one_server("fs");
    let mut statuses = StatusTable::new();
    let mut processes: ProcessTable<u32> = ProcessTable::new();
    let overrides = Table::new();
    match begin_start(&config, &mut statuses, "nope", &overrides) {
        Err(e) => assert_eq!(e, AppError::ConfigNotFound { name: "nope".to_string() }),
        other => panic!("unexpected: {:?}", other),
    }
    assert_eq!(
        finish_start(&config, &mut processes, &mut statuses, "nope", Ok(1)),
        Err(AppError::ConfigNotFound { name: "nope".to_string() })
    );
    assert_eq!(processes.len(), 0);
    assert_eq!(list_servers(&config, &statuses).get("fs"), Some(&McpServerStatus::Stopped));
    assert_eq!(list_servers(&config, &statuses).len(), 1);
}

#[test]
fn failed_launch_is_recorded_and_nothing_is_tracked() {
    let config = one_server("fs");
    let mut statuses = StatusTable::new();
    let mut processes: ProcessTable<u32> = ProcessTable::new();
    let overrides = Table::new();
    assert!(begin_start(&config, &mut statuses, "fs", &overrides).is_ok());
    let failure = AppError::RetryExhausted {
        name: "fs".to_string(),
        attempts: 3,
        last_error: "x".to_string(),
    };
    assert_eq!(
        finish_start(&config, &mut processes, &mut statuses, "fs", Err(failure.clone())),
        Err(failure)
    );
    assert_eq!(
        statuses.get_status("fs"),
        McpServerStatus::Failed(
            "Process error: Failed to start MCP server 'fs' after 3 attempts: x".to_string()
        )
    );
    assert!(processes.get_process("fs").is_none());
}

#[test]
fn stop_steps_work_on_separate_tables() {
    let config = one_server("fs");
    let mut statuses = StatusTable::new();
    let mut processes: ProcessTable<u32> = ProcessTable::new();
    assert_eq!(finish_start(&config, &mut processes, &mut statuses, "fs", Ok(9)), Ok(()));
    assert_eq!(begin_stop(&mut processes, "fs").map(|p| p.handle), Ok(9));
    assert_eq!(statuses.get_status("fs"), McpServerStatus::Running);
    assert_eq!(finish_stop(&mut statuses, "fs", Ok(())), Ok(()));
    assert_eq!(statuses.get_status("fs"), McpServerStatus::Stopped);
    assert_eq!(
        begin_stop(&mut processes, "fs").map(|p| p.handle),
        Err(AppError::NotRunning { name: "fs".to_string() })
    );
    assert_eq!(
        finish_stop(&mut statuses, "fs", Err("busy".to_string())),
        Err(AppError::KillFailure { name: "fs".to_string(), message: "busy".to_string() })
    );
    assert_eq!(
        statuses.get_status("fs"),
        McpServerStatus::Failed("Process error: Failed to kill process: busy".to_string())
    );
}

#[test]
fn stop_all_drains_the_process_table() {
    let config = one_server("fs");
    let mut statuses = StatusTable::new();
    let mut processes: ProcessTable<u32> = ProcessTable::new();
    assert_eq!(finish_start(&config, &mut processes, &mut statuses, "fs", Ok(9)), Ok(()));
    statuses.set_status("other", McpServerStatus::Starting);
    let drained = stop_all(&mut processes, &mut statuses);
    assert_eq!(drained.len(), 1);
    assert_eq!(drained[0].0, "fs");
    assert_eq!(drained[0].1.handle, 9);
    assert_eq!(processes.len(), 0);
    assert_eq!(statuses.get_status("fs"), McpServerStatus::Stopped);
    assert_eq!(statuses.get_status("other"), McpServerStatus::Starting);
}
