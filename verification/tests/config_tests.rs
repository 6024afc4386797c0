use matrix_mcp_server_r2::auth::MatrixAuthContext;
use matrix_mcp_server_r2::config::Config;
use matrix_mcp_server_r2::error::AppError;

fn vars(pairs: &[(&str, &str)]) -> Vec<(String, String)> {
    pairs.iter().map(|(k, v)| (k.to_string(), v.to_string())).collect()
}

#[test]
fn config_validates_homeserver_url() {
    let env = vars(&[
        ("MATRIX_HOMESERVER_URL", "not-a-url"),
        ("MATRIX_ACCESS_TOKEN", "test-token"),
        ("MATRIX_USER_ID", "@bot:example.com"),
    ]);
    let config = Config::from_env(&env).unwrap();
    let result = config.validate();
    assert!(result.is_err(), "Expected validation to fail for bad URL");
}

#[test]
fn config_validates_user_id_format() {
    let env = vars(&[
        ("MATRIX_HOMESERVER_URL", "https://matrix.example.com"),
        ("MATRIX_ACCESS_TOKEN", "test-token"),
        ("MATRIX_USER_ID", "bad-user-id"),
    ]);
    let config = Config::from_env(&env).unwrap();
    let result = config.validate();
    assert!(result.is_err(), "Expected validation to fail for bad user ID");
}

#[test]
fn config_valid_settings_pass() {
    let env = vars(&[
        ("MATRIX_HOMESERVER_URL", "https://matrix.example.com"),
        ("MATRIX_ACCESS_TOKEN", "test-token"),
        ("MATRIX_USER_ID", "@bot:example.com"),
        ("PORT", "3000"),
    ]);
    let config = Config::from_env(&env).unwrap();
    let result = config.validate();
    assert!(result.is_ok(), "Expected validation to pass: {:?}", result.err());
    assert_eq!(config.port, 3000);
    assert_eq!(config.matrix_user_id, "@bot:example.com");
}

fn required() -> Vec<(String, String)> {
    vars(&[
        ("MATRIX_HOMESERVER_URL", "https://matrix.example.com"),
        ("MATRIX_ACCESS_TOKEN", "test-token"),
        ("MATRIX_USER_ID", "@bot:example.com"),
    ])
}

#[test]
fn missing_homeserver_is_reported_first() {
    let err = Config::from_env(&vec![]).unwrap_err();
    match err {
        AppError::Config(m) => assert_eq!(m, "MATRIX_HOMESERVER_URL environment variable is required"),
        other => panic!("unexpected error {:?}", other),
    }
}

#[test]
fn missing_token_is_reported() {
    let env = vars(&[("MATRIX_HOMESERVER_URL", "https://h"), ("MATRIX_USER_ID", "@a:b")]);
    match Config::from_env(&env).unwrap_err() {
        AppError::Config(m) => assert_eq!(m, "MATRIX_ACCESS_TOKEN environment variable is required"),
        other => panic!("unexpected error {:?}", other),
    }
}

#[test]
fn missing_user_id_is_reported() {
    let env = vars(&[("MATRIX_HOMESERVER_URL", "https://h"), ("MATRIX_ACCESS_TOKEN", "t")]);
    match Config::from_env(&env).unwrap_err() {
        AppError::Config(m) => assert_eq!(m, "MATRIX_USER_ID environment variable is required"),
        other => panic!("unexpected error {:?}", other),
    }
}

#[test]
fn port_defaults_to_3000() {
    let config = Config::from_env(&required()).unwrap();
    assert_eq!(config.port, 3000);
}

#[test]
fn port_variable_wins_over_mcp_port() {
    let mut env = required();
    env.push(("MCP_PORT".to_string(), "9000".to_string()));
    env.push(("PORT".to_string(), "8080".to_string()));
    assert_eq!(Config::from_env(&env).unwrap().port, 8080);
}

#[test]
fn mcp_port_used_without_port() {
    let mut env = required();
    env.push(("MCP_PORT".to_string(), "9000".to_string()));
    assert_eq!(Config::from_env(&env).unwrap().port, 9000);
}

#[test]
fn unreadable_port_falls_back() {
    let mut env = required();
    env.push(("PORT".to_string(), "70000".to_string()));
    env.push(("MCP_PORT".to_string(), "9000".to_string()));
    assert_eq!(Config::from_env(&env).unwrap().port, 3000);
    let mut env = required();
    env.push(("PORT".to_string(), "+81".to_string()));
    assert_eq!(Config::from_env(&env).unwrap().port, 81);
}

#[test]
fn flags_and_optional_settings() {
    let mut env = required();
    for (k, v) in [
        ("ENABLE_OAUTH", "true"),
        ("ENABLE_HTTPS", "1"),
        ("E2EE_ENABLED", "1"),
        ("DEBUG", "true"),
        ("CORS_ALLOWED_ORIGINS", "https://a.example"),
    ] {
        env.push((k.to_string(), v.to_string()));
    }
    let c = Config::from_env(&env).unwrap();
    assert!(c.enable_oauth);
    assert!(!c.enable_https);
    assert!(!c.enable_token_exchange);
    assert!(c.e2ee_enabled);
    assert!(c.debug);
    assert_eq!(c.cors_allowed_origins.as_deref(), Some("https://a.example"));
    assert_eq!(c.matrix_domain, None);
}

#[test]
fn validation_messages() {
    let mut env = required();
    env[0].1 = "ftp://x".to_string();
    match Config::from_env(&env).unwrap().validate().unwrap_err() {
        AppError::Config(m) => assert_eq!(m, "MATRIX_HOMESERVER_URL must start with http:// or https://"),
        other => panic!("unexpected error {:?}", other),
    }
    let mut env = required();
    env[2].1 = "@nodomain".to_string();
    match Config::from_env(&env).unwrap().validate().unwrap_err() {
        AppError::Config(m) => assert_eq!(m, "MATRIX_USER_ID must be in format @user:domain.com"),
        other => panic!("unexpected error {:?}", other),
    }
    let mut env = required();
    env[0].1 = "http://localhost:8008".to_string();
    assert!(Config::from_env(&env).unwrap().validate().is_ok());
}

#[test]
fn auth_context_copies_settings() {
    let c = Config::from_env(&required()).unwrap();
    let a = MatrixAuthContext::from_config(
        &c.matrix_user_id,
        &c.matrix_homeserver_url,
        &c.matrix_access_token,
    );
    assert_eq!(a.user_id, "@bot:example.com");
    assert_eq!(a.homeserver_url, "https://matrix.example.com");
    assert_eq!(a.access_token, "test-token");
}

#[test]
fn error_texts() {
    assert_eq!(AppError::Config("x".to_string()).message(), "Configuration error: x");
    assert_eq!(AppError::InvalidParameter("y".to_string()).message(), "Invalid parameter: y");
    assert_eq!(AppError::RateLimited.message(), "Rate limited");
}

#[test]
fn skip_matrix_init_flag() {
    assert!(!Config::from_env(&required()).unwrap().skip_matrix_init);
    let mut env = required();
    env.push(("SKIP_MATRIX_INIT".to_string(), "true".to_string()));
    assert!(Config::from_env(&env).unwrap().skip_matrix_init);
    let mut env = required();
    env.push(("SKIP_MATRIX_INIT".to_string(), "1".to_string()));
    assert!(!Config::from_env(&env).unwrap().skip_matrix_init);
}
