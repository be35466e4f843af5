use ws_relay::auth::{find_user, AuthState, TokenQuery};
use ws_relay::config::{Config, LoggingConfig, ServerConfig, User};
use ws_relay::relay::{idle_deadline, relay_outcome, RelayEnd, RelayError};
use ws_relay::session::{step, AuthMessage, Reply, SessionAction, SessionError, SessionEvent, SessionState};
use ws_relay::store::ConfigStore;

fn user(name: &str, token: &str) -> User {
    User { name: name.to_string(), token: token.to_string() }
}

fn config_with(users: Vec<User>) -> Config {
    Config { server: ServerConfig::with_defaults(), logging: LoggingConfig::default(), users }
}

fn hello(token: &str, target: &str) -> SessionEvent {
    SessionEvent::AuthReceived(AuthMessage { token: token.to_string(), target: target.to_string() })
}

#[test]
fn valid_token_dials_then_reports_connected() {
    let c = config_with(vec![user("alice", "tok-1")]);
    let (s, a) = step(SessionState::AwaitingAuth, hello("tok-1", "ws://example/target"), &c);
    match &a {
        SessionAction::Dial { target, insecure_skip_verify } => {
            assert_eq!(target, "ws://example/target");
            assert!(!insecure_skip_verify);
        }
        other => panic!("unexpected {:?}", other),
    }
    match &s {
        SessionState::Authenticated { user, target } => {
            assert_eq!(user.name, "alice");
            assert_eq!(target, "ws://example/target");
        }
        other => panic!("unexpected {:?}", other),
    }
    let (s, a) = step(s, SessionEvent::DialSucceeded, &c);
    assert!(matches!(s, SessionState::Relaying { .. }));
    match a {
        SessionAction::StartRelay { reply, idle_deadline_secs } => {
            assert_eq!(reply.text(), "{\"status\":\"已连接\"}");
            assert_eq!(idle_deadline_secs, Some(600));
        }
        other => panic!("unexpected {:?}", other),
    }
}

#[test]
fn wrong_token_gets_one_error_frame_and_no_dial() {
    let c = config_with(vec![user("alice", "tok-1")]);
    let (s, a) = step(SessionState::AwaitingAuth, hello("wrong", "ws://x"), &c);
    assert!(s.is_closed());
    match a {
        SessionAction::Reject { reply } => assert_eq!(reply.text(), "{\"error\":\"认证失败\"}"),
        other => panic!("unexpected {:?}", other),
    }
}

#[test]
fn silent_client_times_out_without_a_frame() {
    let c = config_with(vec![user("alice", "tok-1")]);
    let (s, a) = step(SessionState::AwaitingAuth, SessionEvent::AuthTimedOut, &c);
    assert!(s.is_closed());
    assert!(matches!(a, SessionAction::End { outcome: Err(SessionError::AuthTimeout) }));
}

#[test]
fn refused_dial_reports_cause_and_closes() {
    let c = config_with(vec![user("alice", "tok-1")]);
    let (s, _) = step(SessionState::AwaitingAuth, hello("tok-1", "ws://127.0.0.1:9"), &c);
    let (s, a) = step(s, SessionEvent::DialFailed { cause: "Connection refused".to_string() }, &c);
    assert!(s.is_closed());
    match a {
        SessionAction::Reject { reply } => {
            assert_eq!(reply.text(), "{\"error\":\"连接失败: Connection refused\"}")
        }
        other => panic!("unexpected {:?}", other),
    }
}

#[test]
fn other_handshake_failures_end_without_frame() {
    let c = config_with(vec![user("alice", "tok-1")]);
    let (_, a) = step(SessionState::AwaitingAuth, SessionEvent::AuthMalformed, &c);
    assert!(matches!(a, SessionAction::End { outcome: Err(SessionError::Malformed) }));
    let (_, a) = step(SessionState::AwaitingAuth, SessionEvent::AuthStreamEnded, &c);
    assert!(matches!(a, SessionAction::End { outcome: Err(SessionError::NoAuthMessage) }));
    let (_, a) = step(
        SessionState::AwaitingAuth,
        SessionEvent::AuthStreamFailed { cause: "reset".to_string() },
        &c,
    );
    match a {
        SessionAction::End { outcome: Err(SessionError::Transport { cause }) } => assert_eq!(cause, "reset"),
        other => panic!("unexpected {:?}", other),
    }
}

#[test]
fn out_of_order_event_closes() {
    let c = config_with(vec![user("alice", "tok-1")]);
    let (s, a) = step(SessionState::AwaitingAuth, SessionEvent::DialSucceeded, &c);
    assert!(s.is_closed());
    assert!(matches!(a, SessionAction::End { outcome: Err(SessionError::OutOfOrder) }));
    let (_, a) = step(SessionState::Closed, SessionEvent::AuthTimedOut, &c);
    assert!(matches!(a, SessionAction::End { outcome: Err(SessionError::OutOfOrder) }));
}

#[test]
fn skip_verify_setting_reaches_the_dial() {
    let mut c = config_with(vec![user("alice", "tok-1")]);
    c.server.insecure_skip_verify = true;
    let (_, a) = step(SessionState::AwaitingAuth, hello("tok-1", "wss://t"), &c);
    assert!(matches!(a, SessionAction::Dial { insecure_skip_verify: true, .. }));
}

#[test]
fn idle_timeout_zero_arms_no_watchdog() {
    assert_eq!(idle_deadline(0), None);
    assert_eq!(idle_deadline(5), Some(5));
    let mut c = config_with(vec![user("alice", "tok-1")]);
    c.server.idle_timeout_secs = 0;
    let (s, _) = step(SessionState::AwaitingAuth, hello("tok-1", "ws://t"), &c);
    let (_, a) = step(s, SessionEvent::DialSucceeded, &c);
    assert!(matches!(a, SessionAction::StartRelay { idle_deadline_secs: None, .. }));
}

#[test]
fn idle_expiry_is_a_clean_end() {
    assert!(relay_outcome(RelayEnd::IdleTimeout).is_ok());
    assert!(relay_outcome(RelayEnd::Closed).is_ok());
    match relay_outcome(RelayEnd::Failed { cause: "broken pipe".to_string() }) {
        Err(RelayError::Forward { cause }) => assert_eq!(cause, "broken pipe"),
        other => panic!("unexpected {:?}", other),
    }
    let c = config_with(vec![user("alice", "tok-1")]);
    let relaying = SessionState::Relaying { user: user("alice", "tok-1"), target: "ws://t".to_string() };
    let (s, a) = step(relaying, SessionEvent::RelayEnded(RelayEnd::IdleTimeout), &c);
    assert!(s.is_closed());
    assert!(matches!(a, SessionAction::End { outcome: Ok(()) }));
}

#[test]
fn relay_failure_surfaces_as_session_error() {
    let c = config_with(vec![user("alice", "tok-1")]);
    let relaying = SessionState::Relaying { user: user("alice", "tok-1"), target: "ws://t".to_string() };
    let (_, a) = step(relaying, SessionEvent::RelayEnded(RelayEnd::Failed { cause: "e".to_string() }), &c);
    assert!(matches!(a, SessionAction::End { outcome: Err(SessionError::Relay(_)) }));
}

#[test]
fn reload_does_not_touch_relaying_session_and_governs_new_ones() {
    let mut store = ConfigStore::new(config_with(vec![user("alice", "tok-1")])).unwrap();
    let (s, _) = step(SessionState::AwaitingAuth, hello("tok-1", "ws://t"), store.current());
    let (relaying, _) = step(s, SessionEvent::DialSucceeded, store.current());
    assert_eq!(store.reload(config_with(vec![user("bob", "tok-2")])).unwrap(), 1);
    match &relaying {
        SessionState::Relaying { user, target } => {
            assert_eq!(user.name, "alice");
            assert_eq!(target, "ws://t");
        }
        other => panic!("unexpected {:?}", other),
    }
    let (_, a) = step(relaying, SessionEvent::RelayEnded(RelayEnd::Closed), store.current());
    assert!(matches!(a, SessionAction::End { outcome: Ok(()) }));
    let (_, a) = step(SessionState::AwaitingAuth, hello("tok-1", "ws://t"), store.current());
    assert!(matches!(a, SessionAction::Reject { reply: Reply::AuthFailed }));
    let (_, a) = step(SessionState::AwaitingAuth, hello("tok-2", "ws://t"), store.current());
    assert!(matches!(a, SessionAction::Dial { .. }));
}

#[test]
fn find_user_returns_first_holder() {
    let users = vec![user("alice", "a"), user("bob", "b")];
    assert_eq!(find_user(&users, &"b".to_string()).unwrap().name, "bob");
    assert!(find_user(&users, &"c".to_string()).is_none());
}

#[test]
fn token_table_prefers_header() {
    let users = vec![user("alice", "a")];
    let state = AuthState::new(&users);
    assert!(state.contains(&"a".to_string()));
    assert!(!state.contains(&"b".to_string()));
    let good = "a".to_string();
    let bad = "b".to_string();
    let q_good = TokenQuery { token: Some("a".to_string()) };
    let q_none = TokenQuery::default();
    assert!(state.admits(Some(&good), &q_none));
    assert!(!state.admits(Some(&bad), &q_good));
    assert!(state.admits(None, &q_good));
    assert!(!state.admits(None, &q_none));
}

#[test]
fn dial_failure_cause_is_escaped() {
    let reply = Reply::DialFailed { cause: "bad \"url\"\\x\n".to_string() };
    assert_eq!(reply.text(), "{\"error\":\"连接失败: bad \\\"url\\\"\\\\x \"}");
}

#[test]
fn escape_json_keeps_plain_text() {
    assert_eq!(ws_relay::session::escape_json("IO error: 连接被拒绝"), "IO error: 连接被拒绝");
    assert_eq!(ws_relay::session::escape_json(""), "");
    assert_eq!(ws_relay::session::escape_json("\t"), " ");
}
