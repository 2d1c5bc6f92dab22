//! Signaling state machine of one relay connection: from its phase and an
//! incoming message to its next phase, the replies on the same connection,
//! and the messages relayed to other peers.

use vstd::prelude::*;
use vstd::string::*;

use crate::protocol::ids::{PeerId, SessionId};
use crate::protocol::messages::{message_debug, Message, Role};
use crate::relay::rate_limit::{attempt_outcome, IpKey, RateLimiter};
use crate::relay::session::{other_peer_of, OutboundTx};
use crate::relay::state::{
    after_detach, hosted_session, join_outcome, registry_wf, slot_of, touched, code_in_use,
    RegistryError, RegistryModel, SessionRegistry,
};
use crate::relay::session::SessionModel;
use crate::text::owned;

verus! {

/// Phase of a connection.
#[derive(Debug, Clone, Copy, PartialEq, Eq, Structural)]
pub enum ConnPhase {
    /// Waiting for `Hello`.
    ExpectHello,
    /// `Hello` received, waiting for Create/Join.
    Negotiating {
        /// Announced role.
        role: Role,
    },
    /// Attached to a session.
    InSession {
        /// Session.
        session_id: SessionId,
        /// Local peer.
        peer_id: PeerId,
        /// Effective role.
        role: Role,
    },
}

/// Local answer on the same connection.
#[derive(Debug)]
pub enum HandlerOutput {
    /// Message to send to the local client.
    Reply(Message),
    /// Close, after sending the message if any.
    Close(Option<Message>),
}

/// Result of handling one message.
#[derive(Debug)]
pub struct HandleResult {
    /// Next phase.
    pub phase: ConnPhase,
    /// Local outputs, in order.
    pub outputs: Vec<HandlerOutput>,
    /// Messages for other peers, with the outbound queue of each.
    pub relayed: Vec<(OutboundTx, Message)>,
}

/// The `Debug` text of a role: its variant's name.
pub open spec fn role_text(r: Role) -> Seq<char> {
    match r {
        Role::Host => "Host"@,
        Role::Guest => "Guest"@,
    }
}

/// The `Debug` text of a role.
fn role_name(r: Role) -> (t: String)
    ensures
        t@ == role_text(r),
{
    match r {
        Role::Host => owned("Host"),
        Role::Guest => owned("Guest"),
    }
}

/// Calls `format!` with `{:?}` on the registry error; the text is not stated.
#[verifier::external_body]
fn registry_error_debug(e: &RegistryError) -> String {
    format!("{e:?}")
}

/// The `Debug` text of a registry error: the variant's name for the errors
/// without data.
fn registry_error_text(e: &RegistryError) -> (t: String)
    ensures
        *e is NotFound ==> t@ == "NotFound"@,
        *e is SessionFull ==> t@ == "SessionFull"@,
        *e is CodeExhausted ==> t@ == "CodeExhausted"@,
{
    match e {
        RegistryError::NotFound => owned("NotFound"),
        RegistryError::SessionFull => owned("SessionFull"),
        RegistryError::CodeExhausted => owned("CodeExhausted"),
        RegistryError::Encode(_) => registry_error_debug(e),
    }
}

/// The text of the `Error` message that the outputs start with (empty if none).
pub open spec fn first_error_text(outputs: Seq<HandlerOutput>) -> Seq<char> {
    if outputs.len() > 0 {
        match outputs[0] {
            HandlerOutput::Close(Some(Message::Error { message, .. })) => message@,
            HandlerOutput::Reply(Message::Error { message, .. }) => message@,
            _ => Seq::empty(),
        }
    } else {
        Seq::empty()
    }
}

/// Text of a refused create or join attempt.
pub open spec fn rate_limited_text() -> Seq<char> {
    "too many create/join attempts"@
}

/// Prefix of the text of a message refused during negotiation by `role`.
pub open spec fn refused_prefix(role: Role) -> Seq<char> {
    "unexpected message for "@ + role_text(role) + ": "@
}

/// `m` is an `Error` message whose code is `code`.
pub open spec fn is_error_coded(m: Message, code: Seq<char>) -> bool {
    m matches Message::Error { code: c, .. } && c@ == code
}

/// The outputs are a single `Close` carrying an `Error` with the given code.
pub open spec fn closes_with(outputs: Seq<HandlerOutput>, code: Seq<char>) -> bool {
    &&& outputs.len() == 1
    &&& outputs[0] matches HandlerOutput::Close(Some(m))
    &&& is_error_coded(m, code)
}

/// The outputs are a single `Reply` carrying `JoinRejected` with the given reason.
pub open spec fn rejects_join(outputs: Seq<HandlerOutput>, reason: Seq<char>) -> bool {
    &&& outputs.len() == 1
    &&& outputs[0] matches HandlerOutput::Reply(Message::JoinRejected { reason: r })
    &&& r@ == reason
}

/// Messages relayed between the peers of a session.
pub open spec fn is_forwardable(m: Message) -> bool {
    ||| m is CursorMove
    ||| m is MouseMove
    ||| m is MouseButton
    ||| m is MouseScroll
    ||| m is KeyEvent
    ||| m is VideoFrame
    ||| m is Heartbeat
}

/// Exec form of [`is_forwardable`].
pub fn forwardable(m: &Message) -> (r: bool)
    ensures
        r == is_forwardable(*m),
{
    match m {
        Message::CursorMove { .. }
        | Message::MouseMove { .. }
        | Message::MouseButton { .. }
        | Message::MouseScroll { .. }
        | Message::KeyEvent { .. }
        | Message::VideoFrame { .. }
        | Message::Heartbeat { .. } => true,
        _ => false,
    }
}

/// The limiter state did not change.
pub open spec fn limiter_kept(old: RateLimiter, new: RateLimiter) -> bool {
    &&& new.limit() == old.limit()
    &&& new.window() == old.window()
    &&& new.attempts() == old.attempts()
}

/// The limiter recorded an attempt from `ip`, with outcome `allowed`.
pub open spec fn limiter_recorded(old: RateLimiter, new: RateLimiter, ip: IpKey, allowed: bool) -> bool {
    &&& new.limit() == old.limit()
    &&& new.window() == old.window()
    &&& if old.limit() == 0 {
        allowed && new.attempts() == old.attempts()
    } else {
        exists|now: u64|
            (allowed, new.attempts()) == #[trigger] attempt_outcome(
                old.attempts(),
                old.limit(),
                old.window(),
                ip,
                now,
            )
    }
}

/// Effect of a message in phase `ExpectHello`.
pub open spec fn hello_step(
    m0: RegistryModel,
    m1: RegistryModel,
    l0: RateLimiter,
    l1: RateLimiter,
    message: Message,
    res: HandleResult,
) -> bool {
    &&& m1 == m0
    &&& limiter_kept(l0, l1)
    &&& res.relayed@.len() == 0
    &&& match message {
        Message::Hello { role, .. } => res.phase == (ConnPhase::Negotiating { role })
            && res.outputs@.len() == 0,
        _ => res.phase == ConnPhase::ExpectHello && closes_with(res.outputs@, "expected_hello"@)
            && "expected Hello, got "@.is_prefix_of(first_error_text(res.outputs@)),
    }
}

/// A message that negotiation does not accept: the connection is closed.
pub open spec fn negotiate_refused(
    m0: RegistryModel,
    m1: RegistryModel,
    l0: RateLimiter,
    l1: RateLimiter,
    role: Role,
    res: HandleResult,
) -> bool {
    &&& m1 == m0
    &&& limiter_kept(l0, l1)
    &&& res.phase == (ConnPhase::Negotiating { role })
    &&& closes_with(res.outputs@, "invalid_negotiate"@)
    &&& refused_prefix(role).is_prefix_of(first_error_text(res.outputs@))
    &&& res.relayed@.len() == 0
}

/// Effect of a message in phase `Negotiating { role }`.
pub open spec fn negotiate_step(
    m0: RegistryModel,
    m1: RegistryModel,
    l0: RateLimiter,
    l1: RateLimiter,
    ip: IpKey,
    role: Role,
    outbound: OutboundTx,
    message: Message,
    res: HandleResult,
) -> bool {
    match message {
        Message::CreateSession => if role == Role::Host {
                exists|allowed: bool|
                    #[trigger] limiter_recorded(l0, l1, ip, allowed) && if !allowed {
                        &&& m1 == m0
                        &&& res.phase == (ConnPhase::Negotiating { role })
                        &&& closes_with(res.outputs@, "rate_limited"@)
                        &&& first_error_text(res.outputs@) == rate_limited_text()
                        &&& res.relayed@.len() == 0
                    } else {
                        &&& res.relayed@.len() == 0
                        &&& res.outputs@.len() == 1
                        &&& m0.len() == 0 ==> res.phase is InSession
                        &&& match res.phase {
                            ConnPhase::InSession { session_id, peer_id, role: r } => {
                                &&& r == Role::Host
                                &&& res.outputs@[0] matches HandlerOutput::Reply(
                                    Message::SessionCreated { session_id: sid, code },
                                )
                                &&& sid == session_id
                                &&& !code_in_use(m0, code@)
                                &&& exists|now: u64|
                                    m1 == m0.insert(
                                        session_id,
                                        #[trigger] hosted_session(session_id, code@, peer_id, outbound, now),
                                    )
                            },
                            ConnPhase::Negotiating { role: r } => {
                                &&& r == role
                                &&& m1 == m0
                                &&& closes_with(res.outputs@, "create_failed"@)
                                &&& first_error_text(res.outputs@) == "CodeExhausted"@
                                &&& exists|cands: Seq<Seq<char>>|
                                    cands.len() == 32 && forall|k: int|
                                        0 <= k < cands.len() ==> code_in_use(m0, #[trigger] cands[k])
                            },
                            _ => false,
                        }
                    }
        } else {
            negotiate_refused(m0, m1, l0, l1, role, res)
        },
        Message::JoinSession { code } => if role == Role::Guest {
                exists|allowed: bool|
                    #[trigger] limiter_recorded(l0, l1, ip, allowed) && if !allowed {
                        &&& m1 == m0
                        &&& res.phase == (ConnPhase::Negotiating { role })
                        &&& closes_with(res.outputs@, "rate_limited"@)
                        &&& first_error_text(res.outputs@) == rate_limited_text()
                        &&& res.relayed@.len() == 0
                    } else {
                        exists|guest_id: PeerId, now: u64|
                            {
                                let (jr, jm) = #[trigger] join_outcome(m0, code@, outbound, guest_id, now);
                                &&& m1 == jm
                                &&& match jr {
                                    Ok((sid, gid, host_id)) => {
                                        &&& res.phase == (ConnPhase::InSession {
                                            session_id: sid,
                                            peer_id: gid,
                                            role: Role::Guest,
                                        })
                                        &&& res.outputs@.len() == 1
                                        &&& res.outputs@[0] matches HandlerOutput::Reply(
                                            Message::JoinAccepted { session_id: s2, peer_id: p2, role: r2 },
                                        )
                                        &&& s2 == sid && p2 == gid && r2 == Role::Guest
                                        &&& res.relayed@.len() == 1
                                        &&& res.relayed@[0].0 == slot_of(m1[sid], host_id).unwrap().outbound
                                        &&& res.relayed@[0].1 == Message::PeerJoined {
                                            peer_id: gid,
                                            role: Role::Guest,
                                        }
                                    },
                                    Err(RegistryError::NotFound) => {
                                        &&& res.phase == (ConnPhase::Negotiating { role })
                                        &&& rejects_join(res.outputs@, "session not found"@)
                                        &&& res.relayed@.len() == 0
                                    },
                                    Err(RegistryError::SessionFull) => {
                                        &&& res.phase == (ConnPhase::Negotiating { role })
                                        &&& rejects_join(res.outputs@, "session full"@)
                                        &&& res.relayed@.len() == 0
                                    },
                                    Err(_) => false,
                                }
                            }
                    }
        } else {
            negotiate_refused(m0, m1, l0, l1, role, res)
        },
        _ => negotiate_refused(m0, m1, l0, l1, role, res),
    }
}

/// Effect of a message in phase `InSession`.
pub open spec fn session_step(
    m0: RegistryModel,
    m1: RegistryModel,
    message: Message,
    session_id: SessionId,
    peer_id: PeerId,
    role: Role,
    res: HandleResult,
) -> bool {
    if message is LeaveSession {
        &&& exists|now: u64| m1 == #[trigger] after_detach(m0, session_id, peer_id, now)
        &&& res.phase == ConnPhase::ExpectHello
        &&& res.outputs@.len() == 1
        &&& res.outputs@[0] matches HandlerOutput::Close(None)
        &&& res.relayed@ == if m0.contains_key(session_id) && other_peer_of(
            m0[session_id],
            peer_id,
        ) is Some {
            seq![
                (
                    other_peer_of(m0[session_id], peer_id).unwrap().outbound,
                    Message::PeerLeft { peer_id },
                ),
            ]
        } else {
            Seq::empty()
        }
    } else if is_forwardable(message) {
        &&& exists|now: u64| m1 == #[trigger] touched(m0, session_id, now)
        &&& res.phase == (ConnPhase::InSession { session_id, peer_id, role })
        &&& res.outputs@.len() == 0
        &&& res.relayed@ == if crate::protocol::validate::message_is_valid(message)
            && m1.contains_key(session_id) && other_peer_of(m1[session_id], peer_id) is Some {
            seq![(other_peer_of(m1[session_id], peer_id).unwrap().outbound, message)]
        } else {
            Seq::empty()
        }
    } else {
        &&& m1 == m0
        &&& res.phase == (ConnPhase::InSession { session_id, peer_id, role })
        &&& res.outputs@.len() == 1
        &&& res.outputs@[0] matches HandlerOutput::Reply(m) && is_error_coded(m, "unexpected"@)
        &&& "message not allowed in session: "@.is_prefix_of(first_error_text(res.outputs@))
        &&& res.relayed@.len() == 0
    }
}

fn close_with_error(code: &str, message: String) -> (r: Vec<HandlerOutput>)
    ensures
        closes_with(r@, code@),
        first_error_text(r@) == message@,
{
    let mut outputs: Vec<HandlerOutput> = Vec::new();
    outputs.push(HandlerOutput::Close(Some(Message::Error { code: owned(code), message })));
    outputs
}

fn handle_hello(message: Message) -> (res: HandleResult)
    ensures
        res.relayed@.len() == 0,
        match message {
            Message::Hello { role, .. } => res.phase == (ConnPhase::Negotiating { role })
                && res.outputs@.len() == 0,
            _ => res.phase == ConnPhase::ExpectHello && closes_with(res.outputs@, "expected_hello"@)
                && "expected Hello, got "@.is_prefix_of(first_error_text(res.outputs@)),
        },
{
    match message {
        Message::Hello { protocol_version: _, role } => HandleResult {
            phase: ConnPhase::Negotiating { role },
            outputs: Vec::new(),
            relayed: Vec::new(),
        },
        other => {
            let head = owned("expected Hello, got ");
            let text = head.concat(message_debug(&other).as_str());
            assert("expected Hello, got "@.is_prefix_of(text@)) by {
                assert(text@.subrange(0, head@.len() as int) =~= head@);
            }
            HandleResult {
                phase: ConnPhase::ExpectHello,
                outputs: close_with_error("expected_hello", text),
                relayed: Vec::new(),
            }
        },
    }
}

fn rate_limited(role: Role) -> (res: HandleResult)
    ensures
        res.phase == (ConnPhase::Negotiating { role }),
        closes_with(res.outputs@, "rate_limited"@),
        first_error_text(res.outputs@) == rate_limited_text(),
        res.relayed@.len() == 0,
{
    HandleResult {
        phase: ConnPhase::Negotiating { role },
        outputs: close_with_error("rate_limited", owned("too many create/join attempts")),
        relayed: Vec::new(),
    }
}

fn refuse_negotiation(role: Role, message: &Message) -> (res: HandleResult)
    ensures
        res.phase == (ConnPhase::Negotiating { role }),
        closes_with(res.outputs@, "invalid_negotiate"@),
        refused_prefix(role).is_prefix_of(first_error_text(res.outputs@)),
        res.relayed@.len() == 0,
{
    let head = owned("unexpected message for ").concat(role_name(role).as_str()).concat(": ");
    let text = head.concat(message_debug(message).as_str());
    assert(refused_prefix(role).is_prefix_of(text@)) by {
        assert(text@.subrange(0, head@.len() as int) =~= head@);
    }
    HandleResult {
        phase: ConnPhase::Negotiating { role },
        outputs: close_with_error("invalid_negotiate", text),
        relayed: Vec::new(),
    }
}

#[verifier::spinoff_prover]
fn handle_negotiate(
    registry: &mut SessionRegistry,
    limiter: &mut RateLimiter,
    peer_ip: IpKey,
    role: Role,
    outbound: OutboundTx,
    message: Message,
) -> (res: HandleResult)
    ensures
        negotiate_step(
            old(registry)@,
            final(registry)@,
            *old(limiter),
            *final(limiter),
            peer_ip,
            role,
            outbound,
            message,
            res,
        ),
{
    let ghost m0 = registry@;
    let ghost msg = message;
    let ghost l0 = *limiter;
    match message {
        Message::CreateSession => {
            if role != Role::Host {
                return refuse_negotiation(role, &Message::CreateSession);
            }
            let allowed = limiter.check_and_record(peer_ip);
            assert(limiter_recorded(l0, *limiter, peer_ip, allowed));
            if !allowed {
                return rate_limited(role);
            }
            match registry.create_session(outbound) {
                Ok((session_id, code, peer_id)) => {
                    let mut outputs: Vec<HandlerOutput> = Vec::new();
                    outputs.push(HandlerOutput::Reply(Message::SessionCreated { session_id, code }));
                    HandleResult {
                        phase: ConnPhase::InSession { session_id, peer_id, role: Role::Host },
                        outputs,
                        relayed: Vec::new(),
                    }
                },
                Err(e) => {
                    let text = registry_error_text(&e);
                    HandleResult {
                        phase: ConnPhase::Negotiating { role },
                        outputs: close_with_error("create_failed", text),
                        relayed: Vec::new(),
                    }
                },
            }
        },
        Message::JoinSession { code } => {
            if role != Role::Guest {
                return refuse_negotiation(role, &Message::JoinSession { code });
            }
            let allowed = limiter.check_and_record(peer_ip);
            assert(limiter_recorded(l0, *limiter, peer_ip, allowed));
            if !allowed {
                return rate_limited(role);
            }
            match registry.join_session(&code, outbound) {
                Ok((session_id, peer_id, host_id)) => {
                    let note = Message::PeerJoined { peer_id, role: Role::Guest };
                    let mut relayed: Vec<(OutboundTx, Message)> = Vec::new();
                    match registry.send_to_peer(session_id, host_id, &note) {
                        Ok(target) => {
                            relayed.push((target, note));
                        },
                        Err(_) => {},
                    }
                    let mut outputs: Vec<HandlerOutput> = Vec::new();
                    outputs.push(
                        HandlerOutput::Reply(
                            Message::JoinAccepted { session_id, peer_id, role: Role::Guest },
                        ),
                    );
                    HandleResult {
                        phase: ConnPhase::InSession { session_id, peer_id, role: Role::Guest },
                        outputs,
                        relayed,
                    }
                },
                Err(RegistryError::NotFound) => {
                    let mut outputs: Vec<HandlerOutput> = Vec::new();
                    outputs.push(
                        HandlerOutput::Reply(
                            Message::JoinRejected { reason: owned("session not found") },
                        ),
                    );
                    HandleResult { phase: ConnPhase::Negotiating { role }, outputs, relayed: Vec::new() }
                },
                Err(RegistryError::SessionFull) => {
                    let mut outputs: Vec<HandlerOutput> = Vec::new();
                    outputs.push(
                        HandlerOutput::Reply(Message::JoinRejected { reason: owned("session full") }),
                    );
                    HandleResult { phase: ConnPhase::Negotiating { role }, outputs, relayed: Vec::new() }
                },
                Err(e) => {
                    let text = registry_error_text(&e);
                    HandleResult {
                        phase: ConnPhase::Negotiating { role },
                        outputs: close_with_error("join_failed", text),
                        relayed: Vec::new(),
                    }
                },
            }
        },
        other => refuse_negotiation(role, &other),
    }
}

#[verifier::spinoff_prover]
fn handle_in_session(
    registry: &mut SessionRegistry,
    session_id: SessionId,
    peer_id: PeerId,
    role: Role,
    message: Message,
) -> (res: HandleResult)
    ensures
        session_step(
            old(registry)@,
            final(registry)@,
            message,
            session_id,
            peer_id,
            role,
            res,
        ),
{
    match message {
        Message::LeaveSession => {
            let other = registry.detach_peer(session_id, peer_id);
            let mut relayed: Vec<(OutboundTx, Message)> = Vec::new();
            match other {
                Some(note) => {
                    relayed.push(note);
                },
                None => {},
            }
            let mut outputs: Vec<HandlerOutput> = Vec::new();
            outputs.push(HandlerOutput::Close(None));
            proof {
                assert(relayed@ =~= if old(registry)@.contains_key(session_id) && other_peer_of(
                    old(registry)@[session_id],
                    peer_id,
                ) is Some {
                    seq![
                        (
                            other_peer_of(old(registry)@[session_id], peer_id).unwrap().outbound,
                            Message::PeerLeft { peer_id },
                        ),
                    ]
                } else {
                    Seq::empty()
                });
            }
            HandleResult { phase: ConnPhase::ExpectHello, outputs, relayed }
        },
        message => {
            if forwardable(&message) {
                registry.touch(session_id);
                let mut relayed: Vec<(OutboundTx, Message)> = Vec::new();
                match registry.forward_to_other(session_id, peer_id, &message) {
                    Ok(target) => {
                        relayed.push((target, message));
                    },
                    Err(_) => {},
                }
                HandleResult {
                    phase: ConnPhase::InSession { session_id, peer_id, role },
                    outputs: Vec::new(),
                    relayed,
                }
            } else {
                let head = owned("message not allowed in session: ");
                let text = head.concat(message_debug(&message).as_str());
                assert("message not allowed in session: "@.is_prefix_of(text@)) by {
                    assert(text@.subrange(0, head@.len() as int) =~= head@);
                }
                let mut outputs: Vec<HandlerOutput> = Vec::new();
                outputs.push(
                    HandlerOutput::Reply(Message::Error { code: owned("unexpected"), message: text }),
                );
                HandleResult {
                    phase: ConnPhase::InSession { session_id, peer_id, role },
                    outputs,
                    relayed: Vec::new(),
                }
            }
        },
    }
}

/// Effect of a message on a connection in `phase`: registry `m0` becomes
/// `m1`, the limiter `l0` becomes `l1`, and `res` is the result.
pub open spec fn message_handled(
    m0: RegistryModel,
    m1: RegistryModel,
    l0: RateLimiter,
    l1: RateLimiter,
    peer_ip: IpKey,
    phase: ConnPhase,
    outbound: OutboundTx,
    message: Message,
    res: HandleResult,
) -> bool {
    match phase {
        ConnPhase::ExpectHello => hello_step(m0, m1, l0, l1, message, res),
        ConnPhase::Negotiating { role } => negotiate_step(
            m0,
            m1,
            l0,
            l1,
            peer_ip,
            role,
            outbound,
            message,
            res,
        ),
        ConnPhase::InSession { session_id, peer_id, role } => limiter_kept(l0, l1) && session_step(
            m0,
            m1,
            message,
            session_id,
            peer_id,
            role,
            res,
        ),
    }
}

/// Handles an incoming message on a connection in `phase`, coming from
/// `peer_ip` and answered through `outbound`.
pub fn handle_message(
    registry: &mut SessionRegistry,
    limiter: &mut RateLimiter,
    peer_ip: IpKey,
    phase: ConnPhase,
    outbound: OutboundTx,
    message: Message,
) -> (res: HandleResult)
    ensures
        message_handled(
            old(registry)@,
            final(registry)@,
            *old(limiter),
            *final(limiter),
            peer_ip,
            phase,
            outbound,
            message,
            res,
        ),
{
    match phase {
        ConnPhase::ExpectHello => handle_hello(message),
        ConnPhase::Negotiating { role } => handle_negotiate(
            registry,
            limiter,
            peer_ip,
            role,
            outbound,
            message,
        ),
        ConnPhase::InSession { session_id, peer_id, role } => handle_in_session(
            registry,
            session_id,
            peer_id,
            role,
            message,
        ),
    }
}

/// The messages that peers of a session exchange through the relay: cursor
/// moves, mouse moves, buttons and scrolls, key events, video frames and
/// heartbeats.
pub open spec fn session_traffic(m: Message) -> bool {
    match m {
        Message::CursorMove { .. } => true,
        Message::MouseMove { .. } => true,
        Message::MouseButton { .. } => true,
        Message::MouseScroll { .. } => true,
        Message::KeyEvent { .. } => true,
        Message::VideoFrame { .. } => true,
        Message::Heartbeat { .. } => true,
        _ => false,
    }
}

/// In a session, session traffic is never answered: the connection stays in
/// its session, the limiter is untouched, no session is added, removed or
/// changes peers, and a valid message goes to the outbound of the other peer
/// when one is attached (to nobody otherwise).
pub proof fn lemma_session_traffic_forwarded(
    m0: RegistryModel,
    m1: RegistryModel,
    l0: RateLimiter,
    l1: RateLimiter,
    peer_ip: IpKey,
    session_id: SessionId,
    peer_id: PeerId,
    role: Role,
    outbound: OutboundTx,
    message: Message,
    res: HandleResult,
)
    requires
        session_traffic(message),
        message_handled(
            m0,
            m1,
            l0,
            l1,
            peer_ip,
            ConnPhase::InSession { session_id, peer_id, role },
            outbound,
            message,
            res,
        ),
    ensures
        res.phase == (ConnPhase::InSession { session_id, peer_id, role }),
        res.outputs@.len() == 0,
        l1.attempts() == l0.attempts() && l1.limit() == l0.limit(),
        m1.dom() == m0.dom(),
        forall|id: SessionId|
            #[trigger] m0.contains_key(id) ==> m1[id].host == m0[id].host && m1[id].guest
                == m0[id].guest && m1[id].code == m0[id].code,
        res.relayed@ == if crate::protocol::validate::message_is_valid(message) && m0.contains_key(session_id) && other_peer_of(
            m0[session_id],
            peer_id,
        ) is Some {
            seq![(other_peer_of(m0[session_id], peer_id).unwrap().outbound, message)]
        } else {
            Seq::<(OutboundTx, Message)>::empty()
        },
{
    let now = choose|now: u64| m1 == #[trigger] touched(m0, session_id, now);
    assert(m1.dom() =~= m0.dom());
}

/// In a session, any message other than session traffic and
/// `LeaveSession` changes nothing, relays nothing and is answered with one
/// `unexpected` error, without closing.
pub proof fn lemma_session_other_refused(
    m0: RegistryModel,
    m1: RegistryModel,
    l0: RateLimiter,
    l1: RateLimiter,
    peer_ip: IpKey,
    session_id: SessionId,
    peer_id: PeerId,
    role: Role,
    outbound: OutboundTx,
    message: Message,
    res: HandleResult,
)
    requires
        !session_traffic(message),
        !(message is LeaveSession),
        message_handled(
            m0,
            m1,
            l0,
            l1,
            peer_ip,
            ConnPhase::InSession { session_id, peer_id, role },
            outbound,
            message,
            res,
        ),
    ensures
        m1 == m0,
        res.phase == (ConnPhase::InSession { session_id, peer_id, role }),
        res.relayed@.len() == 0,
        res.outputs@.len() == 1,
        res.outputs@[0] matches HandlerOutput::Reply(Message::Error { code, .. }) && code@
            == "unexpected"@,
{
}

/// How a connection moves between phases: only `Hello` leaves the first
/// phase, for negotiation in the role it names, and nothing else touches the
/// registry there; a negotiating host enters a session only by creating one
/// and a guest only by joining one, in the role they negotiated; a connection
/// in a session stays in it until `LeaveSession` sends it back to the first
/// phase.
pub proof fn lemma_phase_machine(
    m0: RegistryModel,
    m1: RegistryModel,
    l0: RateLimiter,
    l1: RateLimiter,
    peer_ip: IpKey,
    phase: ConnPhase,
    outbound: OutboundTx,
    message: Message,
    res: HandleResult,
)
    requires
        message_handled(m0, m1, l0, l1, peer_ip, phase, outbound, message, res),
    ensures
        phase is ExpectHello ==> m1 == m0 && !(res.phase is InSession) && (res.phase is Negotiating
            <==> message is Hello),
        phase is ExpectHello ==> (message matches Message::Hello { role, .. } ==> res.phase == (
        ConnPhase::Negotiating { role })),
        phase matches ConnPhase::Negotiating { role } ==> !(res.phase is ExpectHello) && (
        res.phase is Negotiating ==> res.phase == phase),
        phase matches ConnPhase::Negotiating { role } ==> (res.phase matches ConnPhase::InSession {
            role: r,
            ..
        } ==> r == role && (role == Role::Host ==> message is CreateSession) && (role == Role::Guest
            ==> message is JoinSession)),
        phase is InSession ==> (res.phase == phase || (message is LeaveSession && res.phase is ExpectHello)),
{
}

} // verus!
