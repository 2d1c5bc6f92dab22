//! The checks the user interface's commands make before they reach the
//! session loop.

use vstd::prelude::*;
use vstd::string::*;

use crate::client::error::SessionError;
use crate::client::state::{SessionState, SessionStateModel};
use crate::protocol::error::describes;
use crate::protocol::messages::Message;
use crate::protocol::validate::{coords_in_range, coords_ok, validate_message, validation_result_matches};
use crate::text::owned;

verus! {

/// Remote-control input: mouse moves, buttons, scrolls and keys.
pub open spec fn is_control(m: Message) -> bool {
    m is MouseMove || m is MouseButton || m is MouseScroll || m is KeyEvent
}

/// Whether the message is remote-control input.
pub fn is_control_message(msg: &Message) -> (r: bool)
    ensures
        r == is_control(*msg),
{
    match msg {
        Message::MouseMove { .. } | Message::MouseButton { .. } | Message::MouseScroll { .. }
        | Message::KeyEvent { .. } => true,
        _ => false,
    }
}

/// Error text of a control command that is not remote-control input.
pub open spec fn not_control_text() -> Seq<char> {
    "send_control n’accepte que Mouse*/KeyEvent"@
}

/// Error text of a cursor position outside the unit square.
pub open spec fn cursor_range_text() -> Seq<char> {
    "send_cursor_pos: coords hors [0,1]"@
}

/// Checks a control message from the user interface: it must be
/// remote-control input, and it must pass validation (a validation failure is
/// a protocol error carrying its description).
pub fn check_control(message: &Message) -> (r: Result<(), SessionError>)
    ensures
        !is_control(*message) ==> (r matches Err(SessionError::Protocol(s)) && s@
            == not_control_text()),
        is_control(*message) ==> (r is Ok <==> crate::protocol::validate::message_is_valid(
            *message,
        )),
        is_control(*message) && r is Err ==> (r matches Err(SessionError::Protocol(s)) && exists|
            e: crate::protocol::error::ProtocolError,
        | validation_result_matches(*message, Err(e)) && #[trigger] describes(e, s@)),
{
    if !is_control_message(message) {
        return Err(SessionError::Protocol(owned("send_control n’accepte que Mouse*/KeyEvent")));
    }
    match validate_message(message) {
        Ok(()) => Ok(()),
        Err(e) => {
            let r = SessionError::from_protocol(e);
            proof {
                let s = r->Protocol_0;
                assert(describes(e, s@));
            }
            Err(r)
        },
    }
}

/// Checks a local cursor position (`f32` bit patterns): both coordinates must
/// lie in `[0, 1]`.
pub fn check_cursor_pos(x: u32, y: u32) -> (r: Result<(), SessionError>)
    ensures
        r is Ok <==> coords_ok(x, y),
        r matches Err(e) ==> (e matches SessionError::Protocol(s) && s@ == cursor_range_text()),
{
    if !coords_in_range(x, y) {
        return Err(SessionError::Protocol(owned("send_cursor_pos: coords hors [0,1]")));
    }
    Ok(())
}

/// A state after which the session slot is released: back to idle, or an error.
pub open spec fn releases_slot(s: SessionStateModel) -> bool {
    s is Idle || s is Error
}

/// Whether the session slot is released when the loop reports `state`.
pub fn ends_session(state: &SessionState) -> (r: bool)
    ensures
        r == releases_slot(state@),
{
    match state {
        SessionState::Idle | SessionState::Error { .. } => true,
        _ => false,
    }
}

} // verus!
