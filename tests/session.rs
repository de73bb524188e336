use macrond::dispatch::Action;
use macrond::message::InboundMessage;
use macrond::registry::{MacronConfig, MacronError, MacronFunction, ServerConfig};
use macrond::session::{Event, Session, SessionState, AUTH_REJECTED_EXIT, FATAL_EXIT};

fn config() -> MacronConfig {
    MacronConfig {
        server: ServerConfig {
            url: "example.org".to_string(),
            email: "me@example.org".to_string(),
            password: "hunter2".to_string(),
        },
        functions: vec![MacronFunction {
            id: 1,
            name: "ls".to_string(),
            description: "list files".to_string(),
            command: "/bin/ls".to_string(),
        }],
    }
}

fn received(message_type: &str, id: Option<usize>) -> Event {
    Event::Received(InboundMessage {
        message_type: message_type.to_string(),
        client_id: None,
        error: None,
        id,
    })
}

fn authenticated_session(config: &MacronConfig) -> Session {
    let mut s = Session::new();
    s.step(&Event::Connected, config);
    s.step(&received("auth_success", None), config);
    assert!(matches!(s.state, SessionState::Authenticated));
    s
}

#[test]
fn connecting_sends_auth_message() {
    let config = config();
    let mut s = Session::new();
    assert!(matches!(s.state, SessionState::Disconnected));
    match s.step(&Event::Connected, &config) {
        Action::Send(m) => {
            assert_eq!(m.message_type, "auth");
            assert_eq!(m.receiver_name, "rust");
            assert_eq!(m.client_id, None);
            assert_eq!(m.password, None);
            assert!(m.functions.is_none());
        }
        _ => panic!("connecting should send auth"),
    }
    assert!(matches!(s.state, SessionState::Authenticating));
}

#[test]
fn exec_before_authentication_runs_nothing() {
    let config = config();
    let mut s = Session::new();
    assert!(matches!(s.step(&received("exec", Some(0)), &config), Action::Wait));
    s.step(&Event::Connected, &config);
    assert!(matches!(s.step(&received("exec", Some(0)), &config), Action::Exit(AUTH_REJECTED_EXIT)));
    assert!(matches!(s.state, SessionState::Closed(MacronError::AuthRejected)));
    assert!(matches!(s.step(&received("exec", Some(0)), &config), Action::Wait));
}

#[test]
fn exec_after_authentication_runs() {
    let config = config();
    let mut s = authenticated_session(&config);
    match s.step(&received("exec", Some(0)), &config) {
        Action::Run(command) => assert_eq!(command, "/bin/ls"),
        _ => panic!("exec should run once authenticated"),
    }
    assert!(matches!(s.state, SessionState::Authenticated));
}

#[test]
fn unknown_message_leaves_session_unchanged() {
    let config = config();
    let mut s = authenticated_session(&config);
    assert!(matches!(s.step(&received("ping", Some(0)), &config), Action::Wait));
    assert!(matches!(s.state, SessionState::Authenticated));
    assert_eq!(config.functions.len(), 1);
}

#[test]
fn transport_failure_during_authentication_is_rejection() {
    let config = config();
    let mut s = Session::new();
    s.step(&Event::Connected, &config);
    assert!(matches!(s.step(&Event::TransportFailed, &config), Action::Exit(AUTH_REJECTED_EXIT)));
}

#[test]
fn malformed_frame_ends_session() {
    let config = config();
    let mut s = authenticated_session(&config);
    assert!(matches!(s.step(&Event::Malformed, &config), Action::Exit(FATAL_EXIT)));
    assert!(matches!(s.state, SessionState::Closed(MacronError::MalformedMessage)));
}

#[test]
fn transport_failure_ends_session() {
    let config = config();
    let mut s = authenticated_session(&config);
    assert!(matches!(s.step(&Event::TransportFailed, &config), Action::Exit(FATAL_EXIT)));
    assert!(matches!(s.state, SessionState::Closed(MacronError::TransportFailure)));
}

#[test]
fn connection_failure_before_connecting() {
    let config = config();
    let mut s = Session::new();
    assert!(matches!(s.step(&Event::TransportFailed, &config), Action::Exit(FATAL_EXIT)));
    assert!(matches!(s.state, SessionState::Closed(MacronError::TransportFailure)));
}

#[test]
fn launch_failure_is_reported_and_session_goes_on() {
    let config = config();
    let mut s = authenticated_session(&config);
    assert!(matches!(s.step(&Event::LaunchFailed, &config), Action::Report(MacronError::LaunchFailure)));
    assert!(matches!(s.state, SessionState::Authenticated));
}

#[test]
fn not_found_is_reported_and_session_goes_on() {
    let config = config();
    let mut s = authenticated_session(&config);
    assert!(matches!(
        s.step(&received("exec", Some(1)), &config),
        Action::Report(MacronError::FunctionNotFound)
    ));
    assert!(matches!(s.state, SessionState::Authenticated));
}

#[test]
fn exit_codes() {
    assert_eq!(AUTH_REJECTED_EXIT, 2);
    assert_eq!(FATAL_EXIT, 1);
}
