use teleportal::protocol::ids::{PeerId, SessionCode};
use teleportal::protocol::messages::{Message, Role, PROTOCOL_VERSION};
use teleportal::protocol::error::ProtocolError;
use teleportal::relay::client_addr::{forwarded_first, pick_client_ip};
use teleportal::relay::code::{generate_session_code, session_code_from_number};
use teleportal::relay::handler::{handle_message, ConnPhase, HandlerOutput};
use teleportal::relay::rate_limit::{ipv4_key, RateLimiter};
use teleportal::relay::socket::{socket_closed, socket_step, SocketAction, SocketInput, SocketState};
use teleportal::relay::state::{RegistryError, SessionRegistry};

#[test]
fn codes_are_six_digits() {
    for _ in 0..32 {
        let code = generate_session_code().unwrap();
        assert_eq!(code.as_str().len(), 6);
        assert!(code.as_str().chars().all(|c| c.is_ascii_digit()));
    }
}

#[test]
fn codes_have_variety() {
    let mut set = std::collections::HashSet::new();
    for _ in 0..64 {
        set.insert(generate_session_code().unwrap().as_str().to_owned());
    }
    assert!(set.len() > 1);
}

#[test]
fn code_from_number_pads() {
    assert_eq!(session_code_from_number(42).unwrap().as_str(), "000042");
    assert_eq!(session_code_from_number(999_999).unwrap().as_str(), "999999");
    assert_eq!(session_code_from_number(0).unwrap().as_str(), "000000");
}

#[test]
fn allows_under_limit() {
    let mut lim = RateLimiter::new(3);
    let ip = ipv4_key([127, 0, 0, 1]);
    assert!(lim.check_and_record(ip));
    assert!(lim.check_and_record(ip));
    assert!(lim.check_and_record(ip));
    assert!(!lim.check_and_record(ip));
}

#[test]
fn disabled_when_zero() {
    let mut lim = RateLimiter::new(0);
    let ip = ipv4_key([10, 0, 0, 1]);
    for _ in 0..100 {
        assert!(lim.check_and_record(ip));
    }
}

#[test]
fn isolates_ips() {
    let mut lim = RateLimiter::new(1);
    let a = ipv4_key([1, 1, 1, 1]);
    let b = ipv4_key([2, 2, 2, 2]);
    assert!(lim.check_and_record(a));
    assert!(!lim.check_and_record(a));
    assert!(lim.check_and_record(b));
}

#[test]
fn window_slides() {
    let mut lim = RateLimiter::new(2);
    let ip = ipv4_key([9, 9, 9, 9]);
    assert!(lim.check_and_record_at(ip, 0));
    assert!(lim.check_and_record_at(ip, 30_000));
    assert!(!lim.check_and_record_at(ip, 59_999));
    assert!(lim.check_and_record_at(ip, 60_000));
    assert!(!lim.check_and_record_at(ip, 60_001));
    assert!(lim.check_and_record_at(ip, 90_000));
    assert_eq!(ipv4_key([127, 0, 0, 1]), 0xffff_7f00_0001);
}

#[test]
fn create_and_join() {
    let mut reg = SessionRegistry::new();
    let (sid, code, _hid) = reg.create_session(1).unwrap();
    let (sid2, _gid, _host) = reg.join_session(&code, 2).unwrap();
    assert_eq!(sid, sid2);
    assert_eq!(reg.session_count(), 1);
}

#[test]
fn join_unknown_fails() {
    let mut reg = SessionRegistry::new();
    let code = SessionCode::parse("000000").unwrap();
    assert_eq!(reg.join_session(&code, 1).unwrap_err(), RegistryError::NotFound);
}

#[test]
fn second_guest_rejected() {
    let mut reg = SessionRegistry::new();
    let (_, code, _) = reg.create_session(1).unwrap();
    reg.join_session(&code, 2).unwrap();
    assert_eq!(reg.join_session(&code, 3).unwrap_err(), RegistryError::SessionFull);
}

#[test]
fn expire_stale_removes_session() {
    let mut reg = SessionRegistry::new();
    reg.create_session(1).unwrap();
    let notified = reg.expire_stale_at(1_000_000, 1);
    assert_eq!(reg.session_count(), 0);
    assert!(!notified.is_empty());
}

#[test]
fn detach_notifies_and_destroys() {
    let mut reg = SessionRegistry::new();
    let (sid, code, host) = reg.create_session(11).unwrap();
    let (_, guest, _) = reg.join_session(&code, 22).unwrap();
    let note = reg.detach_peer(sid, guest).expect("host is notified");
    assert_eq!(note.0, 11);
    assert_eq!(note.1, Message::PeerLeft { peer_id: guest });
    assert_eq!(reg.session_count(), 1);
    assert!(reg.detach_peer(sid, host).is_none());
    assert_eq!(reg.session_count(), 0);
}

#[test]
fn forward_and_send() {
    let mut reg = SessionRegistry::new();
    let (sid, code, host) = reg.create_session(11).unwrap();
    let (_, guest, _) = reg.join_session(&code, 22).unwrap();
    let m = Message::Heartbeat { timestamp_ms: 1 };
    assert_eq!(reg.forward_to_other(sid, guest, &m), Ok(11));
    assert_eq!(reg.forward_to_other(sid, host, &m), Ok(22));
    assert_eq!(reg.send_to_peer(sid, guest, &m), Ok(22));
    assert_eq!(reg.send_to_peer(sid, PeerId::from_u128(5), &m), Err(RegistryError::NotFound));
    let bad = Message::KeyEvent {
        key: String::new(),
        pressed: false,
        modifiers: Default::default(),
        timestamp_ms: 0,
    };
    assert!(matches!(reg.forward_to_other(sid, guest, &bad), Err(RegistryError::Encode(_))));
}

#[test]
fn handler_signaling_flow() {
    let mut reg = SessionRegistry::new();
    let mut lim = RateLimiter::new(10);
    let ip = ipv4_key([127, 0, 0, 1]);
    let res = handle_message(
        &mut reg,
        &mut lim,
        ip,
        ConnPhase::ExpectHello,
        1,
        Message::Hello { protocol_version: PROTOCOL_VERSION, role: Role::Host },
    );
    assert_eq!(res.phase, ConnPhase::Negotiating { role: Role::Host });
    assert!(res.outputs.is_empty());
    let res = handle_message(&mut reg, &mut lim, ip, res.phase, 1, Message::CreateSession);
    let code = match &res.outputs[..] {
        [HandlerOutput::Reply(Message::SessionCreated { code, .. })] => code.clone(),
        other => panic!("unexpected {other:?}"),
    };
    assert!(matches!(res.phase, ConnPhase::InSession { role: Role::Host, .. }));
    let res = handle_message(
        &mut reg,
        &mut lim,
        ip,
        ConnPhase::ExpectHello,
        2,
        Message::Hello { protocol_version: PROTOCOL_VERSION, role: Role::Guest },
    );
    let res = handle_message(&mut reg, &mut lim, ip, res.phase, 2, Message::JoinSession { code });
    assert!(matches!(&res.outputs[..], [HandlerOutput::Reply(Message::JoinAccepted { .. })]));
    assert_eq!(res.relayed.len(), 1);
    assert_eq!(res.relayed[0].0, 1);
    assert!(matches!(res.relayed[0].1, Message::PeerJoined { role: Role::Guest, .. }));
}

#[test]
fn handler_rejects_bad_hello() {
    let mut reg = SessionRegistry::new();
    let mut lim = RateLimiter::new(10);
    let res = handle_message(
        &mut reg,
        &mut lim,
        ipv4_key([127, 0, 0, 1]),
        ConnPhase::ExpectHello,
        1,
        Message::CreateSession,
    );
    assert!(matches!(&res.outputs[..], [HandlerOutput::Close(Some(Message::Error { .. }))]));
}

#[test]
fn create_session_with_takes_first_free_code() {
    let mut reg = SessionRegistry::new();
    let a = SessionCode::parse("111111").unwrap();
    let b = SessionCode::parse("222222").unwrap();
    let sid = teleportal::protocol::ids::SessionId::from_u128(1);
    let host = PeerId::from_u128(2);
    let (id, code, h) = reg.create_session_with(&vec![a.clone()], sid, host, 7, 0).unwrap();
    assert_eq!((id, code.as_str(), h), (sid, "111111", host));
    let sid2 = teleportal::protocol::ids::SessionId::from_u128(3);
    let (_, code2, _) = reg.create_session_with(&vec![a.clone(), b.clone()], sid2, host, 8, 0).unwrap();
    assert_eq!(code2.as_str(), "222222");
    let sid3 = teleportal::protocol::ids::SessionId::from_u128(4);
    assert_eq!(
        reg.create_session_with(&vec![a, b], sid3, host, 9, 0).unwrap_err(),
        RegistryError::CodeExhausted
    );
    assert_eq!(reg.session_count(), 2);
}

#[test]
fn rate_limit_refusal_text() {
    let mut reg = SessionRegistry::new();
    let mut lim = RateLimiter::new(1);
    let ip = ipv4_key([127, 0, 0, 1]);
    let phase = ConnPhase::Negotiating { role: Role::Host };
    let first = handle_message(&mut reg, &mut lim, ip, phase, 1, Message::CreateSession);
    assert!(matches!(first.phase, ConnPhase::InSession { .. }));
    let second = handle_message(&mut reg, &mut lim, ip, phase, 2, Message::CreateSession);
    assert_eq!(second.phase, phase);
    match &second.outputs[..] {
        [HandlerOutput::Close(Some(Message::Error { code, message }))] => {
            assert_eq!(code, "rate_limited");
            assert_eq!(message, "too many create/join attempts");
        }
        other => panic!("unexpected {other:?}"),
    }
    assert_eq!(reg.session_count(), 1);
    let refused = handle_message(&mut reg, &mut lim, ip, phase, 3, Message::LeaveSession);
    match &refused.outputs[..] {
        [HandlerOutput::Close(Some(Message::Error { code, message }))] => {
            assert_eq!(code, "invalid_negotiate");
            assert!(message.starts_with("unexpected message for Host: LeaveSession"));
        }
        other => panic!("unexpected {other:?}"),
    }
}

#[test]
fn socket_close_and_other_frames() {
    let mut reg = SessionRegistry::new();
    let mut lim = RateLimiter::new(10);
    let ip = ipv4_key([127, 0, 0, 1]);
    let start = SocketState { phase: ConnPhase::ExpectHello, session_peer: None };
    let (st, acts) = socket_step(&mut reg, &mut lim, ip, 1, start, SocketInput::CloseFrame);
    assert_eq!(st, start);
    assert!(matches!(&acts[..], [SocketAction::Stop]));
    let (st, acts) = socket_step(&mut reg, &mut lim, ip, 1, start, SocketInput::OtherFrame);
    assert_eq!(st, start);
    assert!(acts.is_empty());
    assert_eq!(reg.session_count(), 0);
}

#[test]
fn socket_undecodable_frame_answers_invalid_frame() {
    let mut reg = SessionRegistry::new();
    let mut lim = RateLimiter::new(10);
    let ip = ipv4_key([127, 0, 0, 1]);
    let start = SocketState { phase: ConnPhase::ExpectHello, session_peer: None };
    let err = ProtocolError::FrameTooLarge { size: 70, max: 64 };
    let (st, acts) = socket_step(&mut reg, &mut lim, ip, 1, start, SocketInput::Undecodable(err));
    assert_eq!(st, start);
    match &acts[..] {
        [SocketAction::Reply(Message::Error { code, message }), SocketAction::Stop] => {
            assert_eq!(code, "invalid_frame");
            assert_eq!(message, "frame too large: 70 bytes (max 64)");
        }
        _ => panic!("unexpected actions"),
    }
}

#[test]
fn socket_session_flow_and_close() {
    let mut reg = SessionRegistry::new();
    let mut lim = RateLimiter::new(10);
    let ip = ipv4_key([127, 0, 0, 1]);
    let start = SocketState { phase: ConnPhase::ExpectHello, session_peer: None };
    let hello = Message::Hello { protocol_version: PROTOCOL_VERSION, role: Role::Host };
    let (host, acts) = socket_step(&mut reg, &mut lim, ip, 1, start, SocketInput::Decoded(hello));
    assert_eq!(host.phase, ConnPhase::Negotiating { role: Role::Host });
    assert_eq!(host.session_peer, None);
    assert!(acts.is_empty());
    let (host, acts) =
        socket_step(&mut reg, &mut lim, ip, 1, host, SocketInput::Decoded(Message::CreateSession));
    let code = match &acts[..] {
        [SocketAction::Reply(Message::SessionCreated { code, .. })] => code.clone(),
        _ => panic!("unexpected actions"),
    };
    let (sid, hid) = host.session_peer.expect("attached");
    let hello = Message::Hello { protocol_version: PROTOCOL_VERSION, role: Role::Guest };
    let (guest, _) = socket_step(&mut reg, &mut lim, ip, 2, start, SocketInput::Decoded(hello));
    let (guest, acts) =
        socket_step(&mut reg, &mut lim, ip, 2, guest, SocketInput::Decoded(Message::JoinSession { code }));
    assert!(matches!(&acts[..], [SocketAction::Relay(1, Message::PeerJoined { .. }), SocketAction::Reply(Message::JoinAccepted { .. })]));
    let (gsid, gid) = guest.session_peer.expect("attached");
    assert_eq!(gsid, sid);
    match socket_closed(&mut reg, guest) {
        Some((1, Message::PeerLeft { peer_id })) => assert_eq!(peer_id, gid),
        _ => panic!("host is owed PeerLeft"),
    }
    assert_eq!(reg.session_count(), 1);
    assert!(socket_closed(&mut reg, host).is_none());
    assert_eq!(reg.session_count(), 0);
    assert_ne!(hid, gid);
    assert!(socket_closed(&mut reg, start).is_none());
}

#[test]
fn client_address_choice() {
    assert_eq!(forwarded_first("203.0.113.7, 10.0.0.1, 10.0.0.2"), "203.0.113.7");
    assert_eq!(forwarded_first("198.51.100.1"), "198.51.100.1");
    assert_eq!(forwarded_first(""), "");
    assert_eq!(forwarded_first(",x"), "");
    assert_eq!(pick_client_ip(Some(1), Some(2), 3), 1);
    assert_eq!(pick_client_ip(None, Some(2), 3), 2);
    assert_eq!(pick_client_ip(None, None, 3), 3);
}

#[test]
fn new_sessions_have_version_4_ids() {
    let mut reg = SessionRegistry::new();
    let (sid, code, hid) = reg.create_session(1).unwrap();
    let (_, gid, _) = reg.join_session(&code, 2).unwrap();
    for bits in [sid.as_u128(), hid.as_u128(), gid.as_u128()] {
        assert_eq!((bits >> 76) & 0xF, 4);
        assert_eq!((bits >> 62) & 0x3, 0b10);
    }
    assert_ne!(sid.as_u128(), 0);
}

#[test]
fn limiter_refuses_exactly_when_window_full() {
    let mut lim = RateLimiter::new(2);
    let a = ipv4_key([5, 5, 5, 5]);
    let b = ipv4_key([6, 6, 6, 6]);
    assert!(lim.check_and_record_at(a, 0));
    assert!(lim.check_and_record_at(a, 10));
    assert!(!lim.check_and_record_at(a, 20));
    assert!(!lim.check_and_record_at(a, 59_999));
    assert!(lim.check_and_record_at(b, 20));
    assert!(lim.check_and_record_at(a, 60_000));
    assert!(!lim.check_and_record_at(a, 60_009));
    assert!(lim.check_and_record_at(a, 60_010));
}
