//! What the client sends when it opens a session, and how it reads the relay's
//! answer; the texts shown for capture and input failures.

use vstd::prelude::*;
use vstd::string::*;

use crate::capture::error::{capture_describes, CaptureError};
use crate::client::error::SessionError;
use crate::client::state::{guest_role, SessionState, SessionStateModel};
use crate::input::error::{input_error_text, InputError};
use crate::protocol::error::describes;
use crate::protocol::ids::{bad_code_prefix, uuid_text, PeerId, SessionCode, SessionId};
use crate::protocol::messages::{message_debug, Message, Role, PROTOCOL_VERSION};
use crate::text::owned;

verus! {

/// The messages a host sends after connecting: its `Hello`, then the request
/// for a session.
pub fn host_opening() -> (r: Vec<Message>)
    ensures
        r@ == seq![
            Message::Hello { protocol_version: PROTOCOL_VERSION, role: Role::Host },
            Message::CreateSession,
        ],
{
    vec![Message::Hello { protocol_version: PROTOCOL_VERSION, role: Role::Host }, Message::CreateSession]
}

/// The messages a guest sends after connecting: its `Hello`, then the join
/// request for `code`.
pub fn guest_opening(code: SessionCode) -> (r: Vec<Message>)
    ensures
        r@ == seq![
            Message::Hello { protocol_version: PROTOCOL_VERSION, role: Role::Guest },
            Message::JoinSession { code },
        ],
{
    vec![
        Message::Hello { protocol_version: PROTOCOL_VERSION, role: Role::Guest },
        Message::JoinSession { code },
    ]
}

/// Prefix of the error on an unexpected answer to `CreateSession`.
pub open spec fn unexpected_created() -> Seq<char> {
    "attendu SessionCreated, reçu "@
}

/// Prefix of the error on an unexpected answer to `JoinSession`.
pub open spec fn unexpected_accepted() -> Seq<char> {
    "attendu JoinAccepted, reçu "@
}

/// Prefix of the error on a refused join.
pub open spec fn refused_text(reason: Seq<char>) -> Seq<char> {
    "connexion refusée: "@ + reason
}

/// Reads the relay's answer to `CreateSession`: the new session, the relay's
/// error message, or a protocol error naming what came instead (its text
/// after the prefix is the `Debug` form of the message).
pub fn host_reply(created: Message) -> (r: Result<(SessionId, SessionCode), SessionError>)
    ensures
        created matches Message::SessionCreated { session_id, code } ==> (r matches Ok((i, c))
            && i == session_id && c@ == code@),
        created matches Message::Error { message, .. } ==> r == Err::<
            (SessionId, SessionCode),
            SessionError,
        >(SessionError::Protocol(message)),
        !(created is SessionCreated || created is Error) ==> (r matches Err(
            SessionError::Protocol(s),
        ) && unexpected_created().is_prefix_of(s@)),
{
    match created {
        Message::SessionCreated { session_id, code } => Ok((session_id, code)),
        Message::Error { message, .. } => Err(SessionError::Protocol(message)),
        other => {
            let head = owned("attendu SessionCreated, reçu ");
            let text = head.concat(message_debug(&other).as_str());
            assert(unexpected_created().is_prefix_of(text@)) by {
                assert(text@.subrange(0, head@.len() as int) =~= head@);
            }
            Err(SessionError::Protocol(text))
        },
    }
}

/// The state shown while a host waits for its peer.
pub fn hosting_state(session_id: SessionId, code: &SessionCode) -> (r: SessionState)
    ensures
        r@ == (SessionStateModel::Hosting { code: code@, session_id: uuid_text(session_id.0) }),
{
    SessionState::Hosting { code: owned(code.as_str()), session_id: session_id.to_string() }
}

/// Parses the code a guest typed; a malformed code is an `InvalidCode` error
/// carrying the description of the parse error.
pub fn guest_code(raw: &str) -> (r: Result<SessionCode, SessionError>)
    ensures
        r is Ok <==> crate::protocol::ids::is_session_code_text(raw@),
        r matches Ok(c) ==> c@ == raw@,
        r matches Err(e) ==> (e matches SessionError::InvalidCode(s) && ("invalid identifier: "@
            + bad_code_prefix()).is_prefix_of(s@)),
{
    match SessionCode::parse(raw) {
        Ok(c) => Ok(c),
        Err(e) => {
            let t = e.to_string();
            assert(("invalid identifier: "@ + bad_code_prefix()).is_prefix_of(t@)) by {
                let s = e->InvalidIdentifier_0;
                let p = "invalid identifier: "@ + bad_code_prefix();
                assert(t@ == "invalid identifier: "@ + s@);
                assert(bad_code_prefix().is_prefix_of(s@));
                assert forall|k: int| 0 <= k < p.len() implies t@[k] == p[k] by {
                    if k >= "invalid identifier: "@.len() {
                        assert(s@[k - "invalid identifier: "@.len()] == bad_code_prefix()[k
                            - "invalid identifier: "@.len()]);
                    }
                }
                assert(t@.subrange(0, p.len() as int) =~= p);
            }
            Err(SessionError::InvalidCode(t))
        },
    }
}

/// Reads the relay's answer to `JoinSession`: the joined session and the
/// guest's identifier, a refusal, the relay's error message, or a protocol
/// error naming what came instead.
pub fn guest_reply(response: Message) -> (r: Result<(SessionId, PeerId), SessionError>)
    ensures
        response matches Message::JoinAccepted { session_id, peer_id, .. } ==> r == Ok::<
            (SessionId, PeerId),
            SessionError,
        >((session_id, peer_id)),
        response matches Message::JoinRejected { reason } ==> (r matches Err(
            SessionError::Protocol(s),
        ) && s@ == refused_text(reason@)),
        response matches Message::Error { message, .. } ==> r == Err::<
            (SessionId, PeerId),
            SessionError,
        >(SessionError::Protocol(message)),
        !(response is JoinAccepted || response is JoinRejected || response is Error) ==> (r matches Err(
            SessionError::Protocol(s),
        ) && unexpected_accepted().is_prefix_of(s@)),
{
    match response {
        Message::JoinAccepted { session_id, peer_id, .. } => Ok((session_id, peer_id)),
        Message::JoinRejected { reason } => Err(
            SessionError::Protocol(owned("connexion refusée: ").concat(reason.as_str())),
        ),
        Message::Error { message, .. } => Err(SessionError::Protocol(message)),
        other => {
            let head = owned("attendu JoinAccepted, reçu ");
            let text = head.concat(message_debug(&other).as_str());
            assert(unexpected_accepted().is_prefix_of(text@)) by {
                assert(text@.subrange(0, head@.len() as int) =~= head@);
            }
            Err(SessionError::Protocol(text))
        },
    }
}

/// The state of a guest that joined, its peer (the host) present.
pub fn guest_state(session_id: SessionId) -> (r: SessionState)
    ensures
        r@ == (SessionStateModel::InSession {
            role: guest_role(),
            session_id: uuid_text(session_id.0),
            code: None,
            peer_connected: true,
        }),
{
    SessionState::InSession {
        role: owned("guest"),
        session_id: session_id.to_string(),
        code: None,
        peer_connected: true,
    }
}

/// Prefix of the texts of capture failures without a text of their own.
pub open spec fn capture_prefix() -> Seq<char> {
    "capture: "@
}

/// The text shown for a capture failure.
pub open spec fn capture_failure_text(e: CaptureError, t: Seq<char>) -> bool {
    match e {
        CaptureError::PermissionDenied => t
            == "permission Screen Recording refusée — activez-la dans Réglages système"@,
        CaptureError::NoDisplays => t == "aucun écran détecté"@,
        CaptureError::UnsupportedPlatform => t == "capture d’écran non supportée sur cette plateforme"@,
        _ => capture_prefix().is_prefix_of(t) && capture_describes(
            e,
            t.skip(capture_prefix().len() as int),
        ),
    }
}

/// The text shown to the user for a capture failure.
pub fn map_capture_error(err: CaptureError) -> (r: String)
    ensures
        capture_failure_text(err, r@),
{
    match err {
        CaptureError::PermissionDenied => owned(
            "permission Screen Recording refusée — activez-la dans Réglages système",
        ),
        CaptureError::NoDisplays => owned("aucun écran détecté"),
        CaptureError::UnsupportedPlatform => owned(
            "capture d’écran non supportée sur cette plateforme",
        ),
        other => {
            let head = owned("capture: ");
            let d = other.to_string();
            let r = head.concat(d.as_str());
            assert(capture_prefix().is_prefix_of(r@) && r@.skip(head@.len() as int) =~= d@) by {
                assert(r@.subrange(0, head@.len() as int) =~= head@);
            }
            r
        },
    }
}

/// The text shown for an input failure.
pub open spec fn input_failure_text(e: InputError) -> Seq<char> {
    match e {
        InputError::PermissionDenied =>
            "permission Accessibilité refusée — activez-la dans Réglages système pour Teleportal"@,
        InputError::UnsupportedPlatform => "injection d’input non supportée sur cette plateforme"@,
        _ => "input: "@ + input_error_text(e),
    }
}

/// The text shown to the user for an input failure.
pub fn map_input_error(err: InputError) -> (r: String)
    ensures
        r@ == input_failure_text(err),
{
    match err {
        InputError::PermissionDenied => owned(
            "permission Accessibilité refusée — activez-la dans Réglages système pour Teleportal",
        ),
        InputError::UnsupportedPlatform => owned(
            "injection d’input non supportée sur cette plateforme",
        ),
        other => owned("input: ").concat(other.to_string().as_str()),
    }
}

} // verus!
