use nodectl::config::{
    database_url, validate_config, validate_network_mode, AuthConfig, Config, ConfigError,
    DBConfig, Network,
};

fn config(token: &str, user: &str) -> Config {
    Config {
        auth: AuthConfig { token: token.to_string() },
        database: DBConfig { user: user.to_string(), ..DBConfig::default() },
        app_path: "/opt/nodectl".to_string(),
        ..Config::default()
    }
}

#[test]
fn defaults_are_filled_in() {
    let mut cfg = config("supersecret", "node");
    assert_eq!(validate_config(&mut cfg), Ok(()));
    assert_eq!(cfg.app_port, "9924");
    assert_eq!(cfg.database.host, "127.0.0.1");
    assert_eq!(cfg.database.port, 5432);
    assert_eq!(cfg.database.database, "nodectl");
    assert_eq!(cfg.paths.servers, "/opt/nodectl/servers");
}

#[test]
fn given_values_are_kept() {
    let mut cfg = config("supersecret", "node");
    cfg.app_port = "8080".to_string();
    cfg.database.host = "db".to_string();
    cfg.database.port = 6543;
    cfg.database.database = "games".to_string();
    cfg.paths.servers = "/data".to_string();
    assert_eq!(validate_config(&mut cfg), Ok(()));
    assert_eq!(cfg.app_port, "8080");
    assert_eq!(cfg.database.host, "db");
    assert_eq!(cfg.database.port, 6543);
    assert_eq!(cfg.database.database, "games");
    assert_eq!(cfg.paths.servers, "/data");
}

#[test]
fn validation_is_stable() {
    let mut cfg = config("supersecret", "node");
    assert_eq!(validate_config(&mut cfg), Ok(()));
    let once = cfg.clone();
    assert_eq!(validate_config(&mut cfg), Ok(()));
    assert_eq!(cfg, once);
}

#[test]
fn missing_token_is_refused_after_port_default() {
    let mut cfg = config("", "node");
    assert_eq!(validate_config(&mut cfg), Err(ConfigError::MissingToken));
    assert_eq!(cfg.app_port, "9924");
    assert_eq!(cfg.database.host, "");
    assert_eq!(ConfigError::MissingToken.message(), "Missing auth.token in config.toml.");
}

#[test]
fn short_token_is_refused_by_byte_length() {
    let mut cfg = config("1234567", "node");
    assert_eq!(validate_config(&mut cfg), Err(ConfigError::ShortToken));
    assert_eq!(
        ConfigError::ShortToken.message(),
        "Config field auth.token must be at least 8 characters long."
    );
    let mut cfg = config("ééé", "node");
    assert_eq!(validate_config(&mut cfg), Err(ConfigError::ShortToken));
    let mut cfg = config("éééé", "node");
    assert_eq!(validate_config(&mut cfg), Ok(()));
}

#[test]
fn missing_user_is_refused_after_host_default() {
    let mut cfg = config("supersecret", "");
    assert_eq!(validate_config(&mut cfg), Err(ConfigError::MissingDatabaseUser));
    assert_eq!(cfg.database.host, "127.0.0.1");
    assert_eq!(cfg.database.port, 5432);
    assert_eq!(cfg.database.database, "");
    assert_eq!(cfg.paths.servers, "");
    assert_eq!(ConfigError::MissingDatabaseUser.message(), "Config field database.user is required.");
}

#[test]
fn network_names_with_spaces_are_refused() {
    let net = |s: &str| Network { docker_network_mode: s.to_string() };
    assert_eq!(validate_network_mode(&net("")), Ok(()));
    assert_eq!(validate_network_mode(&net("bridge")), Ok(()));
    assert_eq!(validate_network_mode(&net("host")), Ok(()));
    assert_eq!(validate_network_mode(&net("none")), Ok(()));
    assert_eq!(validate_network_mode(&net("games_net")), Ok(()));
    assert_eq!(validate_network_mode(&net("my net")), Err(ConfigError::InvalidNetworkMode));
    assert_eq!(ConfigError::InvalidNetworkMode.message(), "Invalid docker_network_mode.");
}

#[test]
fn database_url_has_every_part() {
    let mut cfg = config("supersecret", "node");
    cfg.database.password = "pw".to_string();
    validate_config(&mut cfg).unwrap();
    assert_eq!(database_url(&cfg), "postgres://node:pw@127.0.0.1:5432/nodectl");
}
