use autonomy_core::server_config::{
    default_auth_method, AuthMethod, DefaultSettings, DeploymentStrategy, ServerConfig, SshConfig,
    TargetServer,
};

fn empty_config() -> ServerConfig {
    ServerConfig {
        target_servers: vec![],
        default_settings: DefaultSettings {
            port: 22,
            username: "ubuntu".to_string(),
            ssh_key_path: "~/.ssh/id_rsa".to_string(),
            remote_path: "/home/ubuntu".to_string(),
            max_retries: 3,
            retry_delay_seconds: 60,
            connection_timeout_seconds: 30,
            deployment_timeout_seconds: 300,
        },
        deployment_strategy: DeploymentStrategy {
            strategy_type: "progressive".to_string(),
            parallel_deployments: 2,
            delay_between_deployments_seconds: 30,
            health_check_after_deployment: true,
            rollback_on_failure: true,
        },
        ssh_config: SshConfig {
            strict_host_key_checking: false,
            compression: true,
            keepalive_interval_seconds: 60,
        },
    }
}

#[test]
fn test_server_management() {
    let mut config = empty_config();

    let server = TargetServer::new(
        "test-1".to_string(),
        "Test Server".to_string(),
        "192.168.1.100".to_string(),
        "test".to_string(),
    );
    config.add_server(server).unwrap();

    assert_eq!(config.target_servers.len(), 1);

    config
        .update_server("test-1", |mut s| {
            s.priority = 5;
            s
        })
        .unwrap();
    assert_eq!(config.get_server_by_id("test-1").unwrap().priority, 5);

    config.set_server_enabled("test-1", false).unwrap();
    assert_eq!(config.get_enabled_servers().len(), 0);

    config.remove_server("test-1").unwrap();
    assert_eq!(config.target_servers.len(), 0);
}

#[test]
fn test_add_server_duplicate_id_rejected() {
    let mut config = empty_config();
    let a = TargetServer::new(
        "dup".to_string(),
        "A".to_string(),
        "10.0.0.1".to_string(),
        "u".to_string(),
    );
    let b = TargetServer::new(
        "dup".to_string(),
        "B".to_string(),
        "10.0.0.2".to_string(),
        "u".to_string(),
    );
    config.add_server(a).unwrap();
    let err = config.add_server(b).unwrap_err();
    assert_eq!(err, "a server with this id already exists");
    assert_eq!(config.target_servers.len(), 1);
}

#[test]
fn test_remove_missing_server_rejected() {
    let mut config = empty_config();
    let err = config.remove_server("ghost").unwrap_err();
    assert_eq!(err, "no server with this id");
}

#[test]
fn test_update_missing_server_rejected() {
    let mut config = empty_config();
    let err = config.update_server("ghost", |s| s).unwrap_err();
    assert_eq!(err, "no server with this id");
    let err = config.set_server_enabled("ghost", true).unwrap_err();
    assert_eq!(err, "no server with this id");
}

#[test]
fn test_servers_by_priority_sorted() {
    let mut config = empty_config();
    for (id, prio) in [("s1", 30u32), ("s2", 10), ("s3", 20)] {
        let mut s = TargetServer::new(
            id.to_string(),
            id.to_string(),
            "10.0.0.9".to_string(),
            "u".to_string(),
        );
        s.priority = prio;
        config.add_server(s).unwrap();
    }
    let sorted = config.get_servers_by_priority();
    let prios: Vec<u32> = sorted.iter().map(|s| s.priority).collect();
    assert_eq!(prios, vec![10, 20, 30]);
}

#[test]
fn test_servers_by_tag() {
    let mut config = empty_config();
    let mut tagged = TargetServer::new(
        "t1".to_string(),
        "t1".to_string(),
        "10.0.0.3".to_string(),
        "u".to_string(),
    );
    tagged.tags = vec!["edge".to_string()];
    let plain = TargetServer::new(
        "t2".to_string(),
        "t2".to_string(),
        "10.0.0.4".to_string(),
        "u".to_string(),
    );
    config.add_server(tagged).unwrap();
    config.add_server(plain).unwrap();
    let found = config.get_servers_by_tag("edge");
    assert_eq!(found.len(), 1);
    assert_eq!(found[0].id, "t1");
}

#[test]
fn test_password_round_trip() {
    let server = TargetServer::new_with_password(
        "p1".to_string(),
        "p1".to_string(),
        "10.0.0.5".to_string(),
        "u".to_string(),
        "hunter2 pass".to_string(),
    );
    assert_eq!(server.auth_method, AuthMethod::Password);
    assert_eq!(server.get_password().unwrap(), "hunter2 pass");
}

#[test]
fn test_default_auth_method_is_key() {
    assert_eq!(default_auth_method(), AuthMethod::Key);
}

#[test]
fn test_expand_ssh_key_path_with_home() {
    let home = "/home/alice".to_string();
    let expanded =
        autonomy_core::server_config::expand_ssh_key_path_with("~/.ssh/id_rsa", Some(&home));
    assert_eq!(expanded, "/home/alice/.ssh/id_rsa");
    let untouched =
        autonomy_core::server_config::expand_ssh_key_path_with("/etc/key", Some(&home));
    assert_eq!(untouched, "/etc/key");
    let no_home = autonomy_core::server_config::expand_ssh_key_path_with("~/.ssh/id_rsa", None);
    assert_eq!(no_home, "~/.ssh/id_rsa");
}

#[test]
fn test_to_deployment_info_carries_coordinates() {
    let server = TargetServer::new(
        "d1".to_string(),
        "d1".to_string(),
        "10.0.0.6".to_string(),
        "deploy".to_string(),
    );
    let info = server.to_deployment_info();
    assert_eq!(info.ip, "10.0.0.6");
    assert_eq!(info.remote_user, "deploy");
    assert_eq!(info.remote_path, "/home/ubuntu/aurelia");
}
