use term_bridge::config::{Config, ConfigError};
use term_bridge::conn::{conn_step, ConnAction, ConnEvent, ConnState};
use term_bridge::launch::build_launch_plan;
use term_bridge::queue::{read_chunk, TransferQueue};
use term_bridge::{READ_CHUNK_SIZE, TRANSFER_QUEUE_CAPACITY};

#[test]
fn config_fills_in_the_defaults() {
    let config = Config::from_values(
        Some("user".to_string()),
        Some("secret".to_string()),
        None,
        None,
        None,
    )
    .unwrap();
    assert_eq!(config.port, 3000);
    assert_eq!(config.username, "user");
    assert_eq!(config.password, "secret");
    assert_eq!(config.shell, "/bin/sh");
    assert_eq!(config.session, "main");
}

#[test]
fn config_requires_username() {
    let r = Config::from_values(None, Some("secret".to_string()), None, None, None);
    assert_eq!(r.err(), Some(ConfigError::MissingUsername));
}

#[test]
fn config_requires_password() {
    let r = Config::from_values(Some("user".to_string()), None, None, None, None);
    assert_eq!(r.err(), Some(ConfigError::MissingPassword));
}

#[test]
fn config_rejects_bad_port() {
    for port in ["abc", "", "70000", "-1"] {
        let r = Config::from_values(
            Some("user".to_string()),
            Some("secret".to_string()),
            Some(port.to_string()),
            None,
            None,
        );
        assert_eq!(r.err(), Some(ConfigError::InvalidPort));
    }
}

#[test]
fn config_takes_explicit_values() {
    let config = Config::from_values(
        Some("user".to_string()),
        Some("secret".to_string()),
        Some("8080".to_string()),
        Some("/bin/bash".to_string()),
        Some("work".to_string()),
    )
    .unwrap();
    assert_eq!(config.port, 8080);
    assert_eq!(config.shell, "/bin/bash");
    assert_eq!(config.session, "work");
}

#[test]
fn config_error_messages_name_the_setting() {
    assert_eq!(
        ConfigError::MissingUsername.message(),
        "TERM_USERNAME environment variable is required"
    );
    assert_eq!(
        ConfigError::MissingPassword.message(),
        "TERM_PASSWORD environment variable is required"
    );
    assert_eq!(
        ConfigError::InvalidPort.message(),
        "TERM_PORT must be a valid port number"
    );
}

#[test]
fn launch_plan_builds_the_attach_or_create_command() {
    let plan = build_launch_plan("main", "/bin/bash");
    assert_eq!(plan.program, "sh");
    assert_eq!(
        plan.args,
        vec![
            "-c".to_string(),
            "tmux has-session -t main 2>/dev/null || tmux new-session -d -s main; \
             exec tmux attach -t main"
                .to_string(),
        ]
    );
    assert_eq!(
        plan.env,
        vec![
            ("TERM".to_string(), "xterm-256color".to_string()),
            ("SHELL".to_string(), "/bin/bash".to_string()),
        ]
    );
}

#[test]
fn launch_plan_uses_the_configured_session_name() {
    let plan = build_launch_plan("work", "/bin/sh");
    assert_eq!(
        plan.args[1],
        "tmux has-session -t work 2>/dev/null || tmux new-session -d -s work; \
         exec tmux attach -t work"
    );
}

#[test]
fn transfer_queue_is_first_in_first_out() {
    let mut q = TransferQueue::new();
    assert!(q.push(vec![1]).is_none());
    assert!(q.push(vec![2, 2]).is_none());
    assert!(q.push(vec![3]).is_none());
    assert_eq!(q.pop(), Some(vec![1]));
    assert_eq!(q.pop(), Some(vec![2, 2]));
    assert_eq!(q.pop(), Some(vec![3]));
    assert_eq!(q.pop(), None);
}

#[test]
fn transfer_queue_refuses_chunks_only_at_capacity() {
    let mut q = TransferQueue::new();
    for i in 0..TRANSFER_QUEUE_CAPACITY {
        assert!(q.push(vec![i as u8]).is_none());
    }
    assert_eq!(q.len(), TRANSFER_QUEUE_CAPACITY);
    let refused = q.push(vec![200]);
    assert_eq!(refused, Some(vec![200]));
    assert_eq!(q.len(), TRANSFER_QUEUE_CAPACITY);
    assert_eq!(q.pop(), Some(vec![0]));
    assert!(q.push(vec![200]).is_none());
    for i in 1..TRANSFER_QUEUE_CAPACITY {
        assert_eq!(q.pop(), Some(vec![i as u8]));
    }
    assert_eq!(q.pop(), Some(vec![200]));
    assert_eq!(q.pop(), None);
}

#[test]
fn read_chunk_takes_the_filled_prefix() {
    let buf = [10u8, 20, 30, 40];
    assert_eq!(read_chunk(&buf, 2), vec![10, 20]);
    assert_eq!(read_chunk(&buf, 0), Vec::<u8>::new());
    assert_eq!(read_chunk(&buf, 4), vec![10, 20, 30, 40]);
    assert!(READ_CHUNK_SIZE > 0);
}

#[test]
fn connection_walks_the_happy_path() {
    assert_eq!(
        conn_step(ConnState::Connecting, ConnEvent::UpgradeAccepted),
        Some((ConnState::Authenticating, ConnAction::Proceed))
    );
    assert_eq!(
        conn_step(ConnState::Authenticating, ConnEvent::CredentialsAccepted),
        Some((ConnState::Launching, ConnAction::Proceed))
    );
    assert_eq!(
        conn_step(ConnState::Launching, ConnEvent::LaunchSucceeded),
        Some((ConnState::Relaying, ConnAction::StartRelay))
    );
}

#[test]
fn rejected_credentials_close_without_a_terminal() {
    assert_eq!(
        conn_step(ConnState::Authenticating, ConnEvent::CredentialsRejected),
        Some((ConnState::Closed, ConnAction::RejectUnauthorized))
    );
}

#[test]
fn failed_launch_reports_and_closes() {
    assert_eq!(
        conn_step(ConnState::Launching, ConnEvent::LaunchFailed),
        Some((ConnState::Closed, ConnAction::ReportErrorAndClose))
    );
}

#[test]
fn peer_disconnect_cancels_the_forwarder_in_one_step() {
    assert_eq!(
        conn_step(ConnState::Relaying, ConnEvent::PathTerminated),
        Some((ConnState::Closing, ConnAction::CancelForwarder))
    );
    assert_eq!(
        conn_step(ConnState::Closing, ConnEvent::TeardownComplete),
        Some((ConnState::Closed, ConnAction::ReleaseLocalResources))
    );
}

#[test]
fn closed_is_terminal_and_stray_events_do_nothing() {
    let events = [
        ConnEvent::UpgradeAccepted,
        ConnEvent::CredentialsAccepted,
        ConnEvent::CredentialsRejected,
        ConnEvent::LaunchSucceeded,
        ConnEvent::LaunchFailed,
        ConnEvent::PathTerminated,
        ConnEvent::TeardownComplete,
    ];
    for e in events {
        assert_eq!(conn_step(ConnState::Closed, e), None);
    }
    assert_eq!(conn_step(ConnState::Relaying, ConnEvent::UpgradeAccepted), None);
    assert_eq!(conn_step(ConnState::Connecting, ConnEvent::PathTerminated), None);
}
