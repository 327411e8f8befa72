use mcp_supervisor::services::config_loader::{config_file_name, default_config_path};
use mcp_supervisor::services::mcp_manager::{McpManager, StartDecision};
use mcp_supervisor::table::Table;
use mcp_supervisor::types::config::{
    copy_env, copy_texts, merged_env, overlay, McpConfig, McpServerConfig, McpServerStatus,
};
use std::path::Path;

fn env_of(pairs: &[(&str, &str)]) -> Table<String> {
    let mut env = Table::new();
    for (k, v) in pairs {
        env.insert(k.to_string(), v.to_string());
    }
    env
}

#[test]
fn override_wins_and_other_keys_are_united() {
    let base = env_of(&[("A", "1")]);
    let overrides = env_of(&[("A", "2"), ("B", "3")]);
    let merged = merged_env(&base, &overrides);
    assert_eq!(merged.len(), 2);
    assert_eq!(merged.get("A"), Some(&"2".to_string()));
    assert_eq!(merged.get("B"), Some(&"3".to_string()));
    assert_eq!(base.get("A"), Some(&"1".to_string()));
}

#[test]
fn merge_with_nothing_keeps_the_base() {
    let base = env_of(&[("A", "1"), ("C", "x")]);
    let merged = merged_env(&base, &Table::new());
    assert_eq!(merged.len(), 2);
    assert_eq!(merged.get("A"), Some(&"1".to_string()));
    assert_eq!(merged.get("C"), Some(&"x".to_string()));
    let only_overrides = merged_env(&Table::new(), &base);
    assert_eq!(only_overrides.len(), 2);
    assert_eq!(only_overrides.get("C"), Some(&"x".to_string()));
}

#[test]
fn overlay_writes_into_the_given_environment() {
    let mut env = env_of(&[("A", "1"), ("B", "2")]);
    overlay(&mut env, &env_of(&[("B", "20"), ("C", "30")]));
    assert_eq!(env.len(), 3);
    assert_eq!(env.get("A"), Some(&"1".to_string()));
    assert_eq!(env.get("B"), Some(&"20".to_string()));
    assert_eq!(env.get("C"), Some(&"30".to_string()));
}

#[test]
fn copies_hold_the_same_texts() {
    let items = vec!["a".to_string(), "".to_string(), "c d".to_string()];
    assert_eq!(copy_texts(&items), items);
    let env = env_of(&[("K", "v")]);
    let copy = copy_env(&env);
    assert_eq!(copy.len(), 1);
    assert_eq!(copy.get("K"), Some(&"v".to_string()));
}

#[test]
fn launch_gets_the_merged_environment() {
    let mut servers = Table::new();
    servers.insert(
        "fs".to_string(),
        McpServerConfig {
            command: "echo".to_string(),
            args: vec!["hi".to_string()],
            env: env_of(&[("A", "1")]),
        },
    );
    let mut manager: McpManager<u32> = McpManager::new(McpConfig { mcp_servers: servers });
    let overrides = env_of(&[("A", "2"), ("B", "3")]);
    match manager.begin_start("fs", &overrides) {
        Ok(StartDecision::Launch(spec)) => {
            assert_eq!(spec.env.len(), 2);
            assert_eq!(spec.env.get("A"), Some(&"2".to_string()));
            assert_eq!(spec.env.get("B"), Some(&"3".to_string()));
        }
        other => panic!("unexpected: {:?}", other),
    }
}

#[test]
fn default_config_has_no_servers() {
    let config = McpConfig::default();
    assert_eq!(config.mcp_servers.len(), 0);
}

#[test]
fn clones_keep_what_they_hold() {
    let server = McpServerConfig {
        command: "node".to_string(),
        args: vec!["server.js".to_string()],
        env: env_of(&[("PORT", "1")]),
    };
    let copy = server.clone();
    assert_eq!(copy.command, "node");
    assert_eq!(copy.args, vec!["server.js".to_string()]);
    assert_eq!(copy.env.get("PORT"), Some(&"1".to_string()));
    let failed = McpServerStatus::Failed("why".to_string());
    assert_eq!(failed.clone(), failed);
    assert!(McpServerStatus::Running.is_running());
    assert!(!failed.is_running());
    assert!(!McpServerStatus::Starting.is_running());
    assert!(!McpServerStatus::Stopped.is_running());
}

#[test]
fn config_file_is_in_the_data_directory() {
    assert_eq!(config_file_name(), "mcp_config.json");
    let path = default_config_path(Path::new("/data/app"));
    assert_eq!(path, Path::new("/data/app").join("mcp_config.json"));
    assert_eq!(path.file_name().and_then(|n| n.to_str()), Some("mcp_config.json"));
    assert_eq!(path.parent(), Some(Path::new("/data/app")));
}
