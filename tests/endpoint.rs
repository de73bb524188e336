use macrond::endpoint::{config_path, login_url, receiver_url, session_query};
use macrond::message::{auth_message, credentials};
use macrond::registry::{MacronError, ServerConfig};

#[test]
fn login_endpoint() {
    assert_eq!(login_url("macron.example.org"), "https://macron.example.org/v2/login");
}

#[test]
fn receiver_endpoint() {
    assert_eq!(receiver_url("macron.example.org"), "wss://macron.example.org/v2/receiver");
}

#[test]
fn token_query() {
    assert_eq!(session_query("t0k3n"), "session_token=t0k3n");
    assert_eq!(session_query(""), "session_token=");
}

#[test]
fn config_path_from_variable() {
    assert_eq!(
        config_path(Some("/etc/macron.toml".to_string()), Some("/home/u".to_string())),
        Ok("/etc/macron.toml".to_string())
    );
}

#[test]
fn config_path_under_home() {
    assert_eq!(
        config_path(None, Some("/home/u".to_string())),
        Ok("/home/u/.config/macron/config.toml".to_string())
    );
}

#[test]
fn config_path_missing() {
    assert_eq!(config_path(None, None), Err(MacronError::ConfigMissing));
}

#[test]
fn credentials_from_server_config() {
    let server = ServerConfig {
        url: "example.org".to_string(),
        email: "me@example.org".to_string(),
        password: "hunter2".to_string(),
    };
    let c = credentials(&server);
    assert_eq!(c.email, "me@example.org");
    assert_eq!(c.password, "hunter2");
}

#[test]
fn auth_message_shape() {
    let m = auth_message();
    assert_eq!(m.message_type, "auth");
    assert_eq!(m.receiver_name, "rust");
}
