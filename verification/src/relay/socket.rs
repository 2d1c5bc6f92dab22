//! Decisions of a relay WebSocket connection: what each incoming frame does
//! to the connection's state and what is sent, and what happens when the
//! connection ends.

use vstd::prelude::*;
use vstd::string::*;

use crate::protocol::error::{describes, ProtocolError};
use crate::protocol::ids::{PeerId, SessionId};
use crate::protocol::messages::Message;
use crate::relay::handler::{handle_message, message_handled, ConnPhase, HandleResult, HandlerOutput};
use crate::relay::rate_limit::{IpKey, RateLimiter};
use crate::relay::session::{other_peer_of, OutboundTx};
use crate::relay::state::{after_detach, SessionRegistry};
use crate::text::owned;

verus! {

/// State of a connection: its phase, and the session peer it last attached
/// as (detached when the connection ends).
#[derive(Debug, Clone, Copy, PartialEq, Eq)]
pub struct SocketState {
    /// Signaling phase.
    pub phase: ConnPhase,
    /// Session and peer the connection attached as, if any.
    pub session_peer: Option<(SessionId, PeerId)>,
}

/// What came in on the connection.
pub enum SocketInput {
    /// A frame that decoded into a valid message.
    Decoded(Message),
    /// A binary frame that could not be decoded or validated.
    Undecodable(ProtocolError),
    /// A close frame.
    CloseFrame,
    /// Any other frame (text, ping, pong).
    OtherFrame,
}

/// What the connection does, in order.
pub enum SocketAction {
    /// Queue the message for another peer, without waiting.
    Relay(OutboundTx, Message),
    /// Send the message on this connection; if it cannot be encoded or sent,
    /// stop at once.
    Reply(Message),
    /// Stop reading once the actions are done.
    Stop,
}

/// A connection before any message: waiting for `Hello`, attached to nothing.
pub open spec fn initial_socket() -> SocketState {
    SocketState { phase: ConnPhase::ExpectHello, session_peer: None }
}

/// The actions of the local outputs `outs`: a reply is sent, a close sends
/// its message (if any) and stops.
pub open spec fn output_actions(outs: Seq<HandlerOutput>) -> Seq<SocketAction>
    decreases outs.len(),
{
    if outs.len() == 0 {
        Seq::empty()
    } else {
        output_actions(outs.drop_last()) + match outs.last() {
            HandlerOutput::Reply(m) => seq![SocketAction::Reply(m)],
            HandlerOutput::Close(Some(m)) => seq![SocketAction::Reply(m), SocketAction::Stop],
            HandlerOutput::Close(None) => seq![SocketAction::Stop],
        }
    }
}

/// The actions of relayed messages: each is queued for its peer.
pub open spec fn relay_actions(relayed: Seq<(OutboundTx, Message)>) -> Seq<SocketAction> {
    relayed.map_values(|p: (OutboundTx, Message)| SocketAction::Relay(p.0, p.1))
}

/// The state after a handled message: its phase, and the session peer when
/// it is attached to a session.
pub open spec fn next_socket(s: SocketState, res: HandleResult) -> SocketState {
    SocketState {
        phase: res.phase,
        session_peer: match res.phase {
            ConnPhase::InSession { session_id, peer_id, .. } => Some((session_id, peer_id)),
            _ => s.session_peer,
        },
    }
}

fn push_all_outputs(actions: &mut Vec<SocketAction>, outs: Vec<HandlerOutput>)
    ensures
        final(actions)@ == old(actions)@ + output_actions(outs@),
{
    let ghost a0 = actions@;
    let ghost o = outs@;
    let mut it = outs;
    let n = it.len();
    let mut i: usize = 0;
    proof {
        assert(o.take(0) =~= Seq::<HandlerOutput>::empty());
    }
    while it.len() > 0
        invariant
            n == o.len(),
            i + it@.len() == o.len(),
            it@ == o.skip(i as int),
            actions@ == a0 + output_actions(o.take(i as int)),
        decreases it@.len(),
    {
        let out = it.remove(0);
        proof {
            assert(out == o[i as int]);
            assert(o.take(i + 1).drop_last() =~= o.take(i as int));
            assert(it@ =~= o.skip(i + 1));
        }
        let ghost before = actions@;
        match out {
            HandlerOutput::Reply(m) => {
                actions.push(SocketAction::Reply(m));
            },
            HandlerOutput::Close(Some(m)) => {
                actions.push(SocketAction::Reply(m));
                actions.push(SocketAction::Stop);
            },
            HandlerOutput::Close(None) => {
                actions.push(SocketAction::Stop);
            },
        }
        proof {
            assert(actions@ =~= a0 + output_actions(o.take(i + 1)));
        }
        i = i + 1;
    }
    proof {
        assert(o.take(i as int) =~= o);
    }
}

/// Handles what came in on a connection in state `state`, from `peer_ip`,
/// answered through `outbound`: a close frame stops, other non-binary frames
/// are ignored, an undecodable frame is answered with an `invalid_frame`
/// error and stops, and a message goes through [`handle_message`], whose
/// relayed messages are queued, then its outputs sent.
pub fn socket_step(
    registry: &mut SessionRegistry,
    limiter: &mut RateLimiter,
    peer_ip: IpKey,
    outbound: OutboundTx,
    state: SocketState,
    input: SocketInput,
) -> (r: (SocketState, Vec<SocketAction>))
    ensures
        input is CloseFrame ==> r.0 == state && r.1@ == seq![SocketAction::Stop],
        input is OtherFrame ==> r.0 == state && r.1@.len() == 0,
        (input is CloseFrame || input is OtherFrame || input is Undecodable) ==> final(registry)@
            == old(registry)@ && *final(limiter) == *old(limiter),
        input matches SocketInput::Undecodable(e) ==> r.0 == state && r.1@.len() == 2
            && r.1@[1] is Stop && (r.1@[0] matches SocketAction::Reply(Message::Error { code, message })
            && code@ == "invalid_frame"@ && describes(e, message@)),
        input matches SocketInput::Decoded(m) ==> exists|res: HandleResult|
            #[trigger] message_handled(
                old(registry)@,
                final(registry)@,
                *old(limiter),
                *final(limiter),
                peer_ip,
                state.phase,
                outbound,
                m,
                res,
            ) && r.0 == next_socket(state, res) && r.1@ == relay_actions(res.relayed@)
                + output_actions(res.outputs@),
{
    match input {
        SocketInput::CloseFrame => {
            let mut v: Vec<SocketAction> = Vec::new();
            v.push(SocketAction::Stop);
            proof {
                assert(v@ =~= seq![SocketAction::Stop]);
            }
            (state, v)
        },
        SocketInput::OtherFrame => (state, Vec::new()),
        SocketInput::Undecodable(e) => {
            let text = e.to_string();
            let mut v: Vec<SocketAction> = Vec::new();
            v.push(SocketAction::Reply(Message::Error { code: owned("invalid_frame"), message: text }));
            v.push(SocketAction::Stop);
            (state, v)
        },
        SocketInput::Decoded(m) => {
            let res = handle_message(registry, limiter, peer_ip, state.phase, outbound, m);
            let ghost res0 = res;
            let next = SocketState {
                phase: res.phase,
                session_peer: match res.phase {
                    ConnPhase::InSession { session_id, peer_id, .. } => Some((session_id, peer_id)),
                    _ => state.session_peer,
                },
            };
            let HandleResult { phase: _, outputs, relayed } = res;
            let mut v: Vec<SocketAction> = Vec::new();
            let ghost rel = relayed@;
            let mut relayed = relayed;
            let nr = relayed.len();
            let mut j: usize = 0;
            proof {
                assert(v@ =~= relay_actions(rel.take(0)));
            }
            while relayed.len() > 0
                invariant
                    nr == rel.len(),
                    j + relayed@.len() == rel.len(),
                    relayed@ == rel.skip(j as int),
                    v@ == relay_actions(rel.take(j as int)),
                decreases relayed@.len(),
            {
                let (o, msg) = relayed.remove(0);
                proof {
                    assert((o, msg) == rel[j as int]);
                    assert(relayed@ =~= rel.skip(j + 1));
                }
                v.push(SocketAction::Relay(o, msg));
                proof {
                    assert(v@ =~= relay_actions(rel.take(j + 1)));
                }
                j = j + 1;
            }
            proof {
                assert(rel.take(j as int) =~= rel);
            }
            push_all_outputs(&mut v, outputs);
            (next, v)
        },
    }
}

/// When the connection ends: a connection attached to a session leaves it,
/// and the other peer, if any, is owed `PeerLeft`.
pub fn socket_closed(registry: &mut SessionRegistry, state: SocketState) -> (r: Option<
    (OutboundTx, Message),
>)
    ensures
        state.session_peer is None ==> r is None && final(registry)@ == old(registry)@,
        state.session_peer matches Some((sid, pid)) ==> (exists|now: u64|
            final(registry)@ == #[trigger] after_detach(old(registry)@, sid, pid, now)) && r == (
        if old(registry)@.contains_key(sid) && other_peer_of(old(registry)@[sid], pid) is Some {
            Some((other_peer_of(old(registry)@[sid], pid).unwrap().outbound, Message::PeerLeft { peer_id: pid }))
        } else {
            None
        }),
{
    match state.session_peer {
        Some((sid, pid)) => registry.detach_peer(sid, pid),
        None => None,
    }
}

} // verus!
