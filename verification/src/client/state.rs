//! The session state shown to the user, and how signaling messages move it.

use vstd::prelude::*;
use vstd::string::*;

use crate::protocol::messages::Message;
use crate::text::{owned, str_eq};

verus! {

/// Snapshot of the session for the user interface.
#[derive(Debug, PartialEq, Eq)]
pub enum SessionState {
    /// No connection.
    Idle,
    /// Connection or handshake under way.
    Connecting,
    /// Host waiting for a peer (code on display).
    Hosting {
        /// 6-digit code.
        code: String,
        /// Session identifier.
        session_id: String,
    },
    /// Session established.
    InSession {
        /// Local role (`"host"` or `"guest"`).
        role: String,
        /// Session identifier.
        session_id: String,
        /// Code (host only).
        code: Option<String>,
        /// A remote peer is present.
        peer_connected: bool,
    },
    /// Terminal error (the user may go back home).
    Error {
        /// Human-readable message.
        message: String,
    },
}

/// [`SessionState`] with its texts as character sequences.
pub enum SessionStateModel {
    /// No connection.
    Idle,
    /// Connection or handshake under way.
    Connecting,
    /// Host waiting for a peer.
    Hosting { code: Seq<char>, session_id: Seq<char> },
    /// Session established.
    InSession {
        role: Seq<char>,
        session_id: Seq<char>,
        code: Option<Seq<char>>,
        peer_connected: bool,
    },
    /// Terminal error.
    Error { message: Seq<char> },
}

/// The character view of an optional text.
pub open spec fn opt_text(o: Option<String>) -> Option<Seq<char>> {
    match o {
        Some(s) => Some(s@),
        None => None,
    }
}

impl View for SessionState {
    type V = SessionStateModel;

    open spec fn view(&self) -> SessionStateModel {
        match self {
            SessionState::Idle => SessionStateModel::Idle,
            SessionState::Connecting => SessionStateModel::Connecting,
            SessionState::Hosting { code, session_id } => SessionStateModel::Hosting {
                code: code@,
                session_id: session_id@,
            },
            SessionState::InSession { role, session_id, code, peer_connected } =>
                SessionStateModel::InSession {
                role: role@,
                session_id: session_id@,
                code: opt_text(*code),
                peer_connected: *peer_connected,
            },
            SessionState::Error { message } => SessionStateModel::Error { message: message@ },
        }
    }
}

/// Role text of the host.
pub open spec fn host_role() -> Seq<char> {
    "host"@
}

/// Role text of the guest.
pub open spec fn guest_role() -> Seq<char> {
    "guest"@
}

/// Message of the error state after `SessionExpired`.
pub open spec fn expired_text() -> Seq<char> {
    "session expirée"@
}

/// Prefix of the error state after `JoinRejected`.
pub open spec fn refused_prefix() -> Seq<char> {
    "connexion refusée: "@
}

/// The state after a signaling message: `PeerJoined` promotes a waiting host
/// (or marks the peer present in a session), `PeerLeft` clears the peer flag,
/// `SessionExpired`, `Error` and `JoinRejected` end in an error state, and any
/// other combination leaves the state unchanged.
pub open spec fn signal_outcome(s: SessionStateModel, m: Message) -> SessionStateModel {
    match (s, m) {
        (SessionStateModel::Hosting { code, session_id }, Message::PeerJoined { .. }) =>
            SessionStateModel::InSession {
            role: host_role(),
            session_id,
            code: Some(code),
            peer_connected: true,
        },
        (SessionStateModel::InSession { role, session_id, code, .. }, Message::PeerJoined { .. }) =>
            SessionStateModel::InSession { role, session_id, code, peer_connected: true },
        (SessionStateModel::InSession { role, session_id, code, .. }, Message::PeerLeft { .. }) =>
            SessionStateModel::InSession { role, session_id, code, peer_connected: false },
        (_, Message::SessionExpired) => SessionStateModel::Error { message: expired_text() },
        (_, Message::Error { message, .. }) => SessionStateModel::Error { message: message@ },
        (_, Message::JoinRejected { reason }) => SessionStateModel::Error {
            message: refused_prefix() + reason@,
        },
        (other, _) => other,
    }
}

/// A host in session with its peer present.
pub open spec fn streams_as_host(s: SessionStateModel) -> bool {
    s matches SessionStateModel::InSession { role, peer_connected, .. } && peer_connected && role
        == host_role()
}

/// In session with the peer present, whatever the role.
pub open spec fn peer_present(s: SessionStateModel) -> bool {
    s matches SessionStateModel::InSession { peer_connected, .. } && peer_connected
}

/// The same optional text.
fn same_opt_text(a: &Option<String>, b: &Option<String>) -> (r: bool)
    ensures
        r == (opt_text(*a) == opt_text(*b)),
{
    match (a, b) {
        (Some(x), Some(y)) => str_eq(x.as_str(), y.as_str()),
        (None, None) => true,
        _ => false,
    }
}

fn clone_opt_text(a: &Option<String>) -> (r: Option<String>)
    ensures
        opt_text(r) == opt_text(*a),
{
    match a {
        Some(s) => Some(s.clone()),
        None => None,
    }
}

impl Clone for SessionState {
    fn clone(&self) -> (r: Self)
        ensures
            r@ == self@,
    {
        match self {
            SessionState::Idle => SessionState::Idle,
            SessionState::Connecting => SessionState::Connecting,
            SessionState::Hosting { code, session_id } => SessionState::Hosting {
                code: code.clone(),
                session_id: session_id.clone(),
            },
            SessionState::InSession { role, session_id, code, peer_connected } =>
                SessionState::InSession {
                role: role.clone(),
                session_id: session_id.clone(),
                code: clone_opt_text(code),
                peer_connected: *peer_connected,
            },
            SessionState::Error { message } => SessionState::Error { message: message.clone() },
        }
    }
}

impl SessionState {
    /// Whether two snapshots show the same thing.
    pub fn same_as(&self, other: &Self) -> (r: bool)
        ensures
            r == (self@ == other@),
    {
        match (self, other) {
            (SessionState::Idle, SessionState::Idle) => true,
            (SessionState::Connecting, SessionState::Connecting) => true,
            (
                SessionState::Hosting { code: c1, session_id: s1 },
                SessionState::Hosting { code: c2, session_id: s2 },
            ) => str_eq(c1.as_str(), c2.as_str()) && str_eq(s1.as_str(), s2.as_str()),
            (
                SessionState::InSession { role: r1, session_id: s1, code: c1, peer_connected: p1 },
                SessionState::InSession { role: r2, session_id: s2, code: c2, peer_connected: p2 },
            ) => *p1 == *p2 && str_eq(r1.as_str(), r2.as_str()) && str_eq(s1.as_str(), s2.as_str())
                && same_opt_text(c1, c2),
            (SessionState::Error { message: m1 }, SessionState::Error { message: m2 }) => str_eq(
                m1.as_str(),
                m2.as_str(),
            ),
            _ => false,
        }
    }
}

/// Whether `role` is the host's role text.
fn is_host_role(role: &String) -> (r: bool)
    ensures
        r == (role@ == host_role()),
{
    str_eq(role.as_str(), "host")
}

/// Applies an incoming signaling message to the displayed state.
pub fn apply_signal(state: SessionState, message: &Message) -> (r: SessionState)
    ensures
        r@ == signal_outcome(state@, *message),
{
    match (state, message) {
        (SessionState::Hosting { code, session_id }, Message::PeerJoined { .. }) => {
            SessionState::InSession {
                role: owned("host"),
                session_id,
                code: Some(code),
                peer_connected: true,
            }
        },
        (SessionState::InSession { role, session_id, code, .. }, Message::PeerJoined { .. }) => {
            SessionState::InSession { role, session_id, code, peer_connected: true }
        },
        (SessionState::InSession { role, session_id, code, .. }, Message::PeerLeft { .. }) => {
            SessionState::InSession { role, session_id, code, peer_connected: false }
        },
        (_, Message::SessionExpired) => SessionState::Error { message: owned("session expirée") },
        (_, Message::Error { message, .. }) => SessionState::Error { message: message.clone() },
        (_, Message::JoinRejected { reason }) => SessionState::Error {
            message: owned("connexion refusée: ").concat(reason.as_str()),
        },
        (other, _) => other,
    }
}

/// Whether the host's screen should be captured and its input injected: a
/// host in session with its peer present.
pub fn host_should_stream(state: &SessionState) -> (r: bool)
    ensures
        r == streams_as_host(state@),
{
    match state {
        SessionState::InSession { role, peer_connected, .. } => *peer_connected && is_host_role(
            role,
        ),
        _ => false,
    }
}

/// Whether the host needs the desktop overlay that shows the remote cursor.
pub fn host_needs_overlay(state: &SessionState) -> (r: bool)
    ensures
        r == streams_as_host(state@),
{
    match state {
        SessionState::InSession { role, peer_connected, .. } => *peer_connected && is_host_role(
            role,
        ),
        _ => false,
    }
}

/// Whether a remote peer is present.
pub fn peer_connected(state: &SessionState) -> (r: bool)
    ensures
        r == peer_present(state@),
{
    match state {
        SessionState::InSession { peer_connected, .. } => *peer_connected,
        _ => false,
    }
}

/// Messages that are not signaling (`PeerJoined`, `PeerLeft`, `SessionExpired`,
/// `Error`, `JoinRejected`) leave the displayed state as it is.
pub proof fn lemma_non_signal_keeps_state(s: SessionStateModel, m: Message)
    requires
        !(m is PeerJoined || m is PeerLeft || m is SessionExpired || m is Error
            || m is JoinRejected),
    ensures
        signal_outcome(s, m) == s,
{
}

/// `SessionExpired`, `Error` and `JoinRejected` end any state in an error.
pub proof fn lemma_terminal_signals_end_in_error(s: SessionStateModel, m: Message)
    requires
        m is SessionExpired || m is Error || m is JoinRejected,
    ensures
        signal_outcome(s, m) is Error,
        !peer_present(signal_outcome(s, m)),
        !streams_as_host(signal_outcome(s, m)),
{
}

/// A waiting host whose peer joins starts streaming; after `PeerLeft` no peer
/// is present and nobody streams.
pub proof fn lemma_peer_presence(s: SessionStateModel, m: Message)
    ensures
        (s is Hosting && m is PeerJoined) ==> streams_as_host(signal_outcome(s, m)),
        (s is InSession && m is PeerJoined) ==> peer_present(signal_outcome(s, m)),
        m is PeerLeft ==> !peer_present(signal_outcome(s, m)),
        m is PeerLeft ==> !streams_as_host(signal_outcome(s, m)),
{
}

/// A peer message applied twice gives what it gave once, and it never changes
/// the session identifier, the role or the code of a session.
pub proof fn lemma_peer_messages_idempotent(s: SessionStateModel, m: Message)
    requires
        m is PeerJoined || m is PeerLeft,
    ensures
        signal_outcome(signal_outcome(s, m), m) == signal_outcome(s, m),
        s matches SessionStateModel::InSession { role, session_id, code, .. } ==> (signal_outcome(
            s,
            m,
        ) matches SessionStateModel::InSession { role: r2, session_id: s2, code: c2, .. } && r2
            == role && s2 == session_id && c2 == code),
{
}

} // verus!
