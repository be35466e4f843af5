//! The per-connection session machine. After the WebSocket upgrade a session
//! waits for one handshake message, authenticates its token against the current
//! configuration, dials the target it names, reports success and relays until
//! either side ends. Every step takes the event that the connection produced
//! and returns the next state and the action to carry out; no network work is
//! asked for before a token has been accepted.
use vstd::prelude::*;
use crate::auth::{find_user, holder_of, is_first_holder, token_known};
use crate::config::{users_valid, Config, User};
use crate::relay::{deadline_of, idle_deadline, outcome_of, relay_outcome, RelayEnd, RelayError};
use crate::store::reloaded;

verus! {

/// The first message of a session: the bearer token and the target URL.
#[derive(Debug, Clone)]
pub struct AuthMessage {
    pub token: String,
    pub target: String,
}

/// Where a session stands.
#[derive(Debug, Clone)]
pub enum SessionState {
    /// Upgraded, waiting for the handshake message.
    AwaitingAuth,
    /// The token was accepted; the target is being dialled.
    Authenticated { user: User, target: String },
    /// Frames flow between client and target.
    Relaying { user: User, target: String },
    /// Terminal.
    Closed,
}

/// What the connection produced while the session waited.
#[derive(Debug, Clone)]
pub enum SessionEvent {
    /// A handshake message arrived and was parsed.
    AuthReceived(AuthMessage),
    /// A message arrived that is not a handshake message.
    AuthMalformed,
    /// No message arrived within the handshake timeout.
    AuthTimedOut,
    /// The client stream ended before any message.
    AuthStreamEnded,
    /// Reading the handshake message failed at the transport level.
    AuthStreamFailed { cause: String },
    /// The target accepted the WebSocket handshake.
    DialSucceeded,
    /// Dialling the target failed.
    DialFailed { cause: String },
    /// The relay ended.
    RelayEnded(RelayEnd),
}

/// A JSON frame sent to the client.
#[derive(Debug, Clone)]
pub enum Reply {
    AuthFailed,
    DialFailed { cause: String },
    Connected,
}

/// Why a session ended through the error path.
#[derive(Debug, Clone)]
pub enum SessionError {
    AuthTimeout,
    NoAuthMessage,
    Transport { cause: String },
    Malformed,
    Relay(RelayError),
    /// An event that the current state does not expect.
    OutOfOrder,
}

/// What the connection task carries out next.
#[derive(Debug)]
pub enum SessionAction {
    /// Open a WebSocket connection to `target`, skipping certificate checks
    /// when `insecure_skip_verify` is set.
    Dial { target: String, insecure_skip_verify: bool },
    /// Send `reply`, then relay under the watchdog bound (none when `None`).
    StartRelay { reply: Reply, idle_deadline_secs: Option<u64> },
    /// Send `reply`, then end the session without error.
    Reject { reply: Reply },
    /// End the session without sending a frame.
    End { outcome: Result<(), SessionError> },
}

/// A character as it appears inside a JSON string literal: quotes and
/// backslashes are escaped, control characters become a space.
pub open spec fn escape_char(c: char) -> Seq<char> {
    if c == '"' {
        "\\\""@
    } else if c == '\\' {
        "\\\\"@
    } else if (c as u32) < 32 {
        " "@
    } else {
        seq![c]
    }
}

/// A text made safe to stand inside a JSON string literal.
pub open spec fn json_escaped(s: Seq<char>) -> Seq<char>
    decreases s.len(),
{
    if s.len() == 0 {
        Seq::empty()
    } else {
        json_escaped(s.drop_last()) + escape_char(s.last())
    }
}

/// The text of a reply frame.
pub open spec fn reply_text(reply: Reply) -> Seq<char> {
    match reply {
        Reply::AuthFailed => "{\"error\":\"认证失败\"}"@,
        Reply::Connected => "{\"status\":\"已连接\"}"@,
        Reply::DialFailed { cause } => "{\"error\":\"连接失败: "@ + json_escaped(cause@) + "\"}"@,
    }
}

/// The step rule: next state and action for `event` in `state`, with `config`
/// the configuration snapshot current at the moment of the step.
pub open spec fn next(state: SessionState, event: SessionEvent, config: Config) -> (SessionState, SessionAction) {
    match (state, event) {
        (SessionState::AwaitingAuth, SessionEvent::AuthReceived(m)) => match holder_of(config.users@, m.token@) {
            Some(user) => (
                SessionState::Authenticated { user, target: m.target },
                SessionAction::Dial { target: m.target, insecure_skip_verify: config.server.insecure_skip_verify },
            ),
            None => (SessionState::Closed, SessionAction::Reject { reply: Reply::AuthFailed }),
        },
        (SessionState::AwaitingAuth, SessionEvent::AuthMalformed) => (
            SessionState::Closed,
            SessionAction::End { outcome: Err(SessionError::Malformed) },
        ),
        (SessionState::AwaitingAuth, SessionEvent::AuthTimedOut) => (
            SessionState::Closed,
            SessionAction::End { outcome: Err(SessionError::AuthTimeout) },
        ),
        (SessionState::AwaitingAuth, SessionEvent::AuthStreamEnded) => (
            SessionState::Closed,
            SessionAction::End { outcome: Err(SessionError::NoAuthMessage) },
        ),
        (SessionState::AwaitingAuth, SessionEvent::AuthStreamFailed { cause }) => (
            SessionState::Closed,
            SessionAction::End { outcome: Err(SessionError::Transport { cause }) },
        ),
        (SessionState::Authenticated { user, target }, SessionEvent::DialSucceeded) => (
            SessionState::Relaying { user, target },
            SessionAction::StartRelay {
                reply: Reply::Connected,
                idle_deadline_secs: deadline_of(config.server.idle_timeout_secs),
            },
        ),
        (SessionState::Authenticated { .. }, SessionEvent::DialFailed { cause }) => (
            SessionState::Closed,
            SessionAction::Reject { reply: Reply::DialFailed { cause } },
        ),
        (SessionState::Relaying { .. }, SessionEvent::RelayEnded(end)) => (
            SessionState::Closed,
            SessionAction::End {
                outcome: match outcome_of(end) {
                    Ok(()) => Ok(()),
                    Err(e) => Err(SessionError::Relay(e)),
                },
            },
        ),
        _ => (SessionState::Closed, SessionAction::End { outcome: Err(SessionError::OutOfOrder) }),
    }
}

/// `s` escaped for use inside a JSON string literal.
pub fn escape_json(s: &str) -> (r: String)
    ensures
        r@ == json_escaped(s@),
{
    let n = s.unicode_len();
    let mut out = String::new();
    let mut i: usize = 0;
    while i < n
        invariant
            n == s@.len(),
            i <= n,
            out@ == json_escaped(s@.subrange(0, i as int)),
        decreases n - i,
    {
        let c = s.get_char(i);
        proof {
            let next = s@.subrange(0, i + 1);
            assert(next.drop_last() =~= s@.subrange(0, i as int));
            assert(next.last() == c);
        }
        if c == '"' {
            out.append("\\\"");
        } else if c == '\\' {
            out.append("\\\\");
        } else if (c as u32) < 32 {
            out.append(" ");
        } else {
            let piece = s.substring_char(i, i + 1);
            proof {
                assert(piece@ =~= seq![c]);
            }
            out.append(piece);
        }
        i = i + 1;
    }
    proof {
        assert(s@.subrange(0, n as int) =~= s@);
    }
    out
}

impl Reply {
    /// The JSON text of the frame.
    pub fn text(&self) -> (r: String)
        ensures
            r@ == reply_text(*self),
    {
        match self {
            Reply::AuthFailed => String::from_str("{\"error\":\"认证失败\"}"),
            Reply::Connected => String::from_str("{\"status\":\"已连接\"}"),
            Reply::DialFailed { cause } => {
                let head = String::from_str("{\"error\":\"连接失败: ");
                let with_cause = head.concat(escape_json(cause.as_str()).as_str());
                with_cause.concat("\"}")
            },
        }
    }
}

impl SessionState {
    /// Whether the session has ended.
    pub fn is_closed(&self) -> (r: bool)
        ensures
            r == (*self is Closed),
    {
        matches!(self, SessionState::Closed)
    }
}

/// Advances a session by one event.
pub fn step(state: SessionState, event: SessionEvent, config: &Config) -> (r: (SessionState, SessionAction))
    ensures
        r == next(state, event, *config),
{
    match (state, event) {
        (SessionState::AwaitingAuth, SessionEvent::AuthReceived(m)) => match find_user(&config.users, &m.token) {
            Some(user) => {
                let target = m.target.clone();
                (
                    SessionState::Authenticated { user, target },
                    SessionAction::Dial { target: m.target, insecure_skip_verify: config.server.insecure_skip_verify },
                )
            },
            None => (SessionState::Closed, SessionAction::Reject { reply: Reply::AuthFailed }),
        },
        (SessionState::AwaitingAuth, SessionEvent::AuthMalformed) => (
            SessionState::Closed,
            SessionAction::End { outcome: Err(SessionError::Malformed) },
        ),
        (SessionState::AwaitingAuth, SessionEvent::AuthTimedOut) => (
            SessionState::Closed,
            SessionAction::End { outcome: Err(SessionError::AuthTimeout) },
        ),
        (SessionState::AwaitingAuth, SessionEvent::AuthStreamEnded) => (
            SessionState::Closed,
            SessionAction::End { outcome: Err(SessionError::NoAuthMessage) },
        ),
        (SessionState::AwaitingAuth, SessionEvent::AuthStreamFailed { cause }) => (
            SessionState::Closed,
            SessionAction::End { outcome: Err(SessionError::Transport { cause }) },
        ),
        (SessionState::Authenticated { user, target }, SessionEvent::DialSucceeded) => (
            SessionState::Relaying { user, target },
            SessionAction::StartRelay {
                reply: Reply::Connected,
                idle_deadline_secs: idle_deadline(config.server.idle_timeout_secs),
            },
        ),
        (SessionState::Authenticated { .. }, SessionEvent::DialFailed { cause }) => (
            SessionState::Closed,
            SessionAction::Reject { reply: Reply::DialFailed { cause } },
        ),
        (SessionState::Relaying { .. }, SessionEvent::RelayEnded(end)) => {
            let outcome = match relay_outcome(end) {
                Ok(()) => Ok(()),
                Err(e) => Err(SessionError::Relay(e)),
            };
            (SessionState::Closed, SessionAction::End { outcome })
        },
        _ => (SessionState::Closed, SessionAction::End { outcome: Err(SessionError::OutOfOrder) }),
    }
}

/// Some user holding `token` comes first among the holders.
proof fn first_holder_exists(users: Seq<User>, token: Seq<char>, i: int)
    requires
        0 <= i < users.len(),
        users[i].token@ == token,
    ensures
        exists|f: int| is_first_holder(users, token, f),
    decreases i,
{
    if exists|m: int| 0 <= m < i && #[trigger] users[m].token@ == token {
        let m = choose|m: int| 0 <= m < i && #[trigger] users[m].token@ == token;
        first_holder_exists(users, token, m);
    } else {
        assert(is_first_holder(users, token, i));
    }
}

/// A handshake presents a token that the configuration knows exactly when a
/// user is found for it.
proof fn holder_found_iff_known(users: Seq<User>, token: Seq<char>)
    ensures
        holder_of(users, token) is Some <==> token_known(users, token),
{
    if token_known(users, token) {
        let i = choose|i: int| 0 <= i < users.len() && #[trigger] users[i].token@ == token;
        first_holder_exists(users, token, i);
    }
}

/// A handshake whose token no configured user holds ends the session with the
/// authentication-failure frame, and no dial is asked for.
pub proof fn unknown_token_never_dials(m: AuthMessage, config: Config)
    requires
        !token_known(config.users@, m.token@),
    ensures
        next(SessionState::AwaitingAuth, SessionEvent::AuthReceived(m), config) == (
            SessionState::Closed,
            SessionAction::Reject { reply: Reply::AuthFailed },
        ),
{
    holder_found_iff_known(config.users@, m.token@);
}

/// A handshake with a known token leads to a dial of exactly the target that
/// the handshake names, and the session carries the holder of the token.
pub proof fn known_token_dials_named_target(m: AuthMessage, config: Config)
    requires
        token_known(config.users@, m.token@),
    ensures
        next(SessionState::AwaitingAuth, SessionEvent::AuthReceived(m), config) matches (
            SessionState::Authenticated { user, target },
            SessionAction::Dial { target: dialled, insecure_skip_verify },
        ) && dialled == m.target && target == m.target && user.token@ == m.token@
            && insecure_skip_verify == config.server.insecure_skip_verify,
{
    holder_found_iff_known(config.users@, m.token@);
}

/// A session that is relaying takes every further step the same way under any
/// configuration, so a reload cannot disturb it.
pub proof fn relaying_ignores_configuration(
    user: User,
    target: String,
    event: SessionEvent,
    before: Config,
    after: Config,
)
    ensures
        next(SessionState::Relaying { user, target }, event, before) == next(
            SessionState::Relaying { user, target },
            event,
            after,
        ),
{
}

/// After a successful reload, a session that starts its handshake is accepted
/// exactly when the new user table holds its token.
pub proof fn reload_governs_new_sessions(previous: Config, candidate: Config, m: AuthMessage)
    requires
        users_valid(candidate.users@),
    ensures
        next(SessionState::AwaitingAuth, SessionEvent::AuthReceived(m), reloaded(previous, candidate)).1
            is Dial <==> token_known(candidate.users@, m.token@),
{
    holder_found_iff_known(candidate.users@, m.token@);
}

/// With a positive idle timeout, a relay starts with the watchdog armed at
/// exactly that many seconds, and a relay that the watchdog ends closes the
/// session cleanly, not with an error.
pub proof fn idle_timeout_ends_relay_cleanly(user: User, target: String, config: Config)
    requires
        config.server.idle_timeout_secs > 0,
    ensures
        next(SessionState::Authenticated { user, target }, SessionEvent::DialSucceeded, config).1
            matches SessionAction::StartRelay { idle_deadline_secs: Some(n), .. } && n
            == config.server.idle_timeout_secs,
        next(SessionState::Relaying { user, target }, SessionEvent::RelayEnded(RelayEnd::IdleTimeout), config)
            == (SessionState::Closed, SessionAction::End { outcome: Ok(()) }),
{
}

/// With the idle timeout set to zero a relay starts with no watchdog, so
/// inactivity alone never ends it.
pub proof fn zero_idle_timeout_arms_no_watchdog(user: User, target: String, config: Config)
    requires
        config.server.idle_timeout_secs == 0,
    ensures
        next(SessionState::Authenticated { user, target }, SessionEvent::DialSucceeded, config).1
            matches SessionAction::StartRelay { idle_deadline_secs: None, .. },
{
}

} // verus!
