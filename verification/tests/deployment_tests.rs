use autonomy_core::deployment::{
    contains_sub, AgentMonitor, AuthMethod, DeploymentClient, ServerConfig, ServerRole,
};

fn create_mock_server_config() -> ServerConfig {
    ServerConfig {
        name: "test-server".to_string(),
        ip: "127.0.0.1".to_string(),
        port: 22,
        user: "testuser".to_string(),
        ssh_key_path: Some("~/.ssh/id_rsa".to_string()),
        password: None,
        auth_method: AuthMethod::Key,
        remote_deploy_path: "/tmp/aurelia_test".to_string(),
        role: ServerRole::Primary,
    }
}

#[test]
fn test_server_config_creation() {
    let server = create_mock_server_config();
    assert_eq!(server.name, "test-server");
    assert_eq!(server.ip, "127.0.0.1");
    assert!(matches!(server.role, ServerRole::Primary));
}

#[test]
fn test_deployment_client_creation() {
    let server = create_mock_server_config();
    let _client = DeploymentClient::new(server);
    // Client created successfully
}

#[test]
fn test_monitor_creation() {
    let server = create_mock_server_config();
    let _monitor = AgentMonitor::new(server);
    // Monitor created successfully
}

#[test]
fn with_key_and_with_password_set_the_auth_method() {
    let keyed = ServerConfig::with_key(
        "a".to_string(),
        "10.0.0.1".to_string(),
        22,
        "u".to_string(),
        "/k".to_string(),
        "/srv".to_string(),
        ServerRole::Replica,
    );
    assert_eq!(keyed.auth_method, AuthMethod::Key);
    assert_eq!(keyed.ssh_key_path.as_deref(), Some("/k"));
    assert!(keyed.password.is_none());

    let pw = ServerConfig::with_password(
        "b".to_string(),
        "10.0.0.2".to_string(),
        2222,
        "u".to_string(),
        "sesame".to_string(),
        "/srv".to_string(),
        ServerRole::Monitor,
    );
    assert_eq!(pw.auth_method, AuthMethod::Password);
    assert_eq!(pw.password.as_deref(), Some("sesame"));
    assert!(pw.ssh_key_path.is_none());
}

#[test]
fn remote_commands_embed_the_deploy_path() {
    let client = DeploymentClient::new(create_mock_server_config());
    assert_eq!(
        client.stop_command(),
        "cd /tmp/aurelia_test && if [ -f aurelia.pid ]; then kill $(cat aurelia.pid); rm aurelia.pid; fi"
    );
    assert_eq!(client.cleanup_command(), "rm -rf /tmp/aurelia_test");
    assert_eq!(client.start_command(), "cd /tmp/aurelia_test && ./start_agent.sh");
}

#[test]
fn substring_search_finds_markers() {
    assert!(contains_sub("status: RUNNING today", "RUNNING"));
    assert!(!contains_sub("status: STOPPED", "RUNNING"));
    assert!(contains_sub("anything", ""));
    assert!(DeploymentClient::connection_test_passed(
        "echo: Connection test successful\n"
    ));
    assert!(AgentMonitor::interpret_process_status("RUNNING\n"));
    assert!(!AgentMonitor::interpret_process_status("NO_PID\n"));
    assert!(AgentMonitor::interpret_replica_deployment("EXISTS"));
}

#[test]
fn log_activity_needs_a_level_tag() {
    let active = vec![
        "noise".to_string(),
        "2024 [WARN] something odd".to_string(),
    ];
    let quiet = vec!["noise".to_string(), "more noise".to_string()];
    assert!(AgentMonitor::has_log_activity(&active));
    assert!(!AgentMonitor::has_log_activity(&quiet));
}

#[test]
fn counter_output_parses_trimmed_decimal() {
    assert_eq!(AgentMonitor::parse_count("  42\n"), 42);
    assert_eq!(AgentMonitor::parse_count("0"), 0);
    assert_eq!(AgentMonitor::parse_count(""), 0);
    assert_eq!(AgentMonitor::parse_count("  \n "), 0);
    assert_eq!(AgentMonitor::parse_count("12a"), 0);
    assert_eq!(AgentMonitor::parse_count("18446744073709551615"), u64::MAX);
    assert_eq!(AgentMonitor::parse_count("18446744073709551616"), 0);
    assert_eq!(AgentMonitor::parse_count("000987"), 987);
}
