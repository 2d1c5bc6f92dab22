use teleportal::capture::error::CaptureError;
use teleportal::client::commands::{check_control, check_cursor_pos, ends_session, is_control_message};
use teleportal::client::config::{ClientConfig, DEFAULT_RELAY_URL};
use teleportal::client::error::SessionError;
use teleportal::client::handshake::{
    guest_code, guest_opening, guest_reply, guest_state, host_opening, host_reply, hosting_state,
    map_capture_error, map_input_error,
};
use teleportal::client::media::{
    injector_config, primary_display_size, unix_ms_of, unix_now_ms, VideoFrameEvent,
};
use teleportal::client::session_loop::{LoopAction, LoopEvent, SessionLoop};
use teleportal::client::state::{
    apply_signal, host_needs_overlay, host_should_stream, peer_connected, SessionState,
};
use teleportal::cursor::tracker::CursorSync;
use teleportal::cursor::types::SyncConfig;
use teleportal::input::error::InputError;
use teleportal::protocol::ids::{CursorId, PeerId, SessionCode, SessionId};
use teleportal::protocol::messages::{
    KeyModifiers, Message, Role, VideoCodec, PROTOCOL_VERSION,
};
use teleportal::transport::TransportError;

fn in_session(role: &str, code: Option<&str>, peer: bool) -> SessionState {
    SessionState::InSession {
        role: role.into(),
        session_id: "sid".into(),
        code: code.map(|c| c.to_string()),
        peer_connected: peer,
    }
}

#[test]
fn needs_overlay_only_host_with_peer() {
    assert!(!host_needs_overlay(&SessionState::Idle));
    assert!(!host_needs_overlay(&SessionState::Hosting {
        code: "123456".into(),
        session_id: "s".into(),
    }));
    assert!(host_needs_overlay(&SessionState::InSession {
        role: "host".into(),
        session_id: "s".into(),
        code: Some("123456".into()),
        peer_connected: true,
    }));
    assert!(!host_needs_overlay(&SessionState::InSession {
        role: "host".into(),
        session_id: "s".into(),
        code: Some("123456".into()),
        peer_connected: false,
    }));
    assert!(!host_needs_overlay(&SessionState::InSession {
        role: "guest".into(),
        session_id: "s".into(),
        code: None,
        peer_connected: true,
    }));
}

#[test]
fn peer_joined_promotes_hosting() {
    let state = SessionState::Hosting {
        code: "123456".into(),
        session_id: "sid".into(),
    };
    let next = apply_signal(
        state,
        &Message::PeerJoined {
            peer_id: PeerId::new(),
            role: Role::Guest,
        },
    );
    assert_eq!(
        next,
        SessionState::InSession {
            role: "host".into(),
            session_id: "sid".into(),
            code: Some("123456".into()),
            peer_connected: true,
        }
    );
}

#[test]
fn peer_left_clears_flag() {
    let state = SessionState::InSession {
        role: "guest".into(),
        session_id: "sid".into(),
        code: None,
        peer_connected: true,
    };
    let next = apply_signal(
        state,
        &Message::PeerLeft {
            peer_id: PeerId::new(),
        },
    );
    assert!(!matches!(
        next,
        SessionState::InSession {
            peer_connected: true,
            ..
        }
    ));
}

#[test]
fn session_expired_to_error() {
    let state = SessionState::InSession {
        role: "host".into(),
        session_id: "sid".into(),
        code: Some("111222".into()),
        peer_connected: false,
    };
    let next = apply_signal(state, &Message::SessionExpired);
    assert!(matches!(next, SessionState::Error { .. }));
}

#[test]
fn cursor_move_keeps_state() {
    let state = SessionState::InSession {
        role: "host".into(),
        session_id: "sid".into(),
        code: None,
        peer_connected: true,
    };
    let next = apply_signal(
        state.clone(),
        &Message::CursorMove {
            cursor_id: CursorId::new(),
            x: 0.5f32.to_bits(),
            y: 0.5f32.to_bits(),
            timestamp_ms: 1,
        },
    );
    assert_eq!(next, state);
}

#[test]
fn host_should_stream_only_when_peer_connected() {
    assert!(!host_should_stream(&SessionState::Hosting {
        code: "1".into(),
        session_id: "s".into(),
    }));
    assert!(host_should_stream(&SessionState::InSession {
        role: "host".into(),
        session_id: "s".into(),
        code: Some("1".into()),
        peer_connected: true,
    }));
    assert!(!host_should_stream(&SessionState::InSession {
        role: "guest".into(),
        session_id: "s".into(),
        code: None,
        peer_connected: true,
    }));
}

#[test]
fn signal_error_texts() {
    let next = apply_signal(SessionState::Idle, &Message::SessionExpired);
    assert_eq!(next, SessionState::Error { message: "session expirée".into() });
    let next = apply_signal(
        in_session("host", None, true),
        &Message::Error { code: "x".into(), message: "boom".into() },
    );
    assert_eq!(next, SessionState::Error { message: "boom".into() });
    let next = apply_signal(
        SessionState::Connecting,
        &Message::JoinRejected { reason: "full".into() },
    );
    assert_eq!(next, SessionState::Error { message: "connexion refusée: full".into() });
}

#[test]
fn peer_joined_in_session_and_left_on_idle() {
    let next = apply_signal(
        in_session("guest", None, false),
        &Message::PeerJoined { peer_id: PeerId::new(), role: Role::Host },
    );
    assert_eq!(next, in_session("guest", None, true));
    let next = apply_signal(SessionState::Idle, &Message::PeerLeft { peer_id: PeerId::new() });
    assert_eq!(next, SessionState::Idle);
    let next = apply_signal(
        SessionState::Hosting { code: "1".into(), session_id: "s".into() },
        &Message::PeerLeft { peer_id: PeerId::new() },
    );
    assert_eq!(next, SessionState::Hosting { code: "1".into(), session_id: "s".into() });
}

#[test]
fn peer_connected_and_same_as() {
    assert!(peer_connected(&in_session("guest", None, true)));
    assert!(!peer_connected(&in_session("guest", None, false)));
    assert!(!peer_connected(&SessionState::Connecting));
    assert!(in_session("host", Some("1"), true).same_as(&in_session("host", Some("1"), true)));
    assert!(!in_session("host", Some("1"), true).same_as(&in_session("host", Some("2"), true)));
    assert!(!SessionState::Idle.same_as(&SessionState::Connecting));
}

#[test]
fn session_error_texts() {
    assert_eq!(SessionError::Busy.to_string(), "une session est déjà en cours");
    assert_eq!(SessionError::NotConnected.to_string(), "aucune session active");
    assert_eq!(SessionError::Protocol("p".into()).to_string(), "p");
    assert_eq!(SessionError::Transport("t".into()).to_string(), "transport: t");
    assert_eq!(SessionError::InvalidCode("c".into()).to_string(), "code invalide: c");
    assert_eq!(
        SessionError::from_transport(TransportError::Closed),
        SessionError::Transport("connection closed".into())
    );
    assert_eq!(
        SessionError::from_transport(TransportError::Io("x".into())).to_string(),
        "transport: transport I/O: x"
    );
}

#[test]
fn config_from_setting() {
    assert_eq!(ClientConfig::from_setting(None).relay_url, DEFAULT_RELAY_URL);
    assert_eq!(
        ClientConfig::from_setting(Some("ws://127.0.0.1:7800/ws".into())).relay_url,
        "ws://127.0.0.1:7800/ws"
    );
}

#[test]
fn openings() {
    assert_eq!(
        host_opening(),
        vec![
            Message::Hello { protocol_version: PROTOCOL_VERSION, role: Role::Host },
            Message::CreateSession
        ]
    );
    let code = SessionCode::parse("123456").unwrap();
    let opening = guest_opening(code.clone());
    assert_eq!(opening[0], Message::Hello { protocol_version: 1, role: Role::Guest });
    assert_eq!(opening[1], Message::JoinSession { code });
}

#[test]
fn host_reply_cases() {
    let sid = SessionId::from_u128(7);
    let code = SessionCode::parse("654321").unwrap();
    let (id, c) = host_reply(Message::SessionCreated { session_id: sid, code: code.clone() }).unwrap();
    assert_eq!(id, sid);
    assert_eq!(c, code);
    assert_eq!(
        host_reply(Message::Error { code: "e".into(), message: "nope".into() }).unwrap_err(),
        SessionError::Protocol("nope".into())
    );
    match host_reply(Message::LeaveSession).unwrap_err() {
        SessionError::Protocol(s) => assert!(s.starts_with("attendu SessionCreated, reçu ")),
        other => panic!("unexpected {other:?}"),
    }
    let state = hosting_state(sid, &code);
    assert_eq!(
        state,
        SessionState::Hosting {
            code: "654321".into(),
            session_id: "00000000-0000-0000-0000-000000000007".into(),
        }
    );
}

#[test]
fn guest_reply_cases() {
    let sid = SessionId::from_u128(1);
    let pid = PeerId::from_u128(2);
    assert_eq!(
        guest_reply(Message::JoinAccepted { session_id: sid, peer_id: pid, role: Role::Guest }).unwrap(),
        (sid, pid)
    );
    assert_eq!(
        guest_reply(Message::JoinRejected { reason: "session full".into() }).unwrap_err(),
        SessionError::Protocol("connexion refusée: session full".into())
    );
    assert_eq!(
        guest_reply(Message::Error { code: "e".into(), message: "m".into() }).unwrap_err(),
        SessionError::Protocol("m".into())
    );
    match guest_reply(Message::CreateSession).unwrap_err() {
        SessionError::Protocol(s) => assert!(s.starts_with("attendu JoinAccepted, reçu ")),
        other => panic!("unexpected {other:?}"),
    }
    assert_eq!(
        guest_state(sid),
        SessionState::InSession {
            role: "guest".into(),
            session_id: "00000000-0000-0000-0000-000000000001".into(),
            code: None,
            peer_connected: true,
        }
    );
}

#[test]
fn guest_code_parsing() {
    assert_eq!(guest_code("012345").unwrap().as_str(), "012345");
    match guest_code("12a456").unwrap_err() {
        SessionError::InvalidCode(s) => assert!(s.starts_with("invalid identifier: ")),
        other => panic!("unexpected {other:?}"),
    }
    assert!(guest_code("1234567").is_err());
}

#[test]
fn failure_texts() {
    assert_eq!(
        map_capture_error(CaptureError::NoDisplays),
        "aucun écran détecté"
    );
    assert_eq!(
        map_capture_error(CaptureError::PermissionDenied),
        "permission Screen Recording refusée — activez-la dans Réglages système"
    );
    assert_eq!(
        map_capture_error(CaptureError::Native("x".into())),
        "capture: native capture error: x"
    );
    assert_eq!(
        map_input_error(InputError::UnsupportedPlatform),
        "injection d’input non supportée sur cette plateforme"
    );
    assert_eq!(
        map_input_error(InputError::UnknownKey("F99".into())),
        "input: unknown key code: F99"
    );
}

#[test]
fn control_checks() {
    let mv = Message::MouseMove { x: 0.5f32.to_bits(), y: 0.25f32.to_bits(), timestamp_ms: 1 };
    assert!(is_control_message(&mv));
    assert!(check_control(&mv).is_ok());
    assert_eq!(
        check_control(&Message::LeaveSession).unwrap_err(),
        SessionError::Protocol("send_control n’accepte que Mouse*/KeyEvent".into())
    );
    let bad = Message::KeyEvent {
        key: String::new(),
        pressed: true,
        modifiers: KeyModifiers::default(),
        timestamp_ms: 0,
    };
    match check_control(&bad).unwrap_err() {
        SessionError::Protocol(s) => assert!(s.starts_with("validation failed: ")),
        other => panic!("unexpected {other:?}"),
    }
    assert!(check_cursor_pos(0.0f32.to_bits(), 1.0f32.to_bits()).is_ok());
    assert_eq!(
        check_cursor_pos(1.5f32.to_bits(), 0.5f32.to_bits()).unwrap_err(),
        SessionError::Protocol("send_cursor_pos: coords hors [0,1]".into())
    );
    assert!(check_cursor_pos(f32::NAN.to_bits(), 0.5f32.to_bits()).is_err());
    assert!(ends_session(&SessionState::Idle));
    assert!(ends_session(&SessionState::Error { message: "e".into() }));
    assert!(!ends_session(&in_session("host", None, true)));
}

#[test]
fn video_frame_event_base64() {
    let ev = VideoFrameEvent::from_frame(3, 2, 1, 99, &[1, 2, 3]);
    assert_eq!(ev.frame_id, 3);
    assert_eq!(ev.width, 2);
    assert_eq!(ev.height, 1);
    assert_eq!(ev.timestamp_ms, 99);
    assert_eq!(ev.rgba_base64, "AQID");
    assert_eq!(VideoFrameEvent::from_frame(0, 0, 0, 0, &[0xff]).rgba_base64, "/w==");
}

#[test]
fn display_sizes_and_time() {
    assert_eq!(primary_display_size(None), (1920, 1080));
    assert_eq!(primary_display_size(Some((0, 768))), (1, 768));
    let cfg = injector_config(Some((2560, 0)));
    assert_eq!((cfg.display_width, cfg.display_height), (2560, 1));
    let cfg = injector_config(None);
    assert_eq!((cfg.display_width, cfg.display_height), (1920, 1080));
    assert_eq!(unix_ms_of(None), 0);
    assert_eq!(unix_ms_of(Some(5)), 5);
    assert_eq!(unix_ms_of(Some((1u128 << 64) + 3)), 3);
    assert!(unix_now_ms() > 1_600_000_000_000);
}

fn is_finish(a: &LoopAction) -> bool {
    matches!(a, LoopAction::Finish)
}

#[test]
fn session_loop_host_flow() {
    let mut sl = SessionLoop::new(
        Role::Host,
        SessionState::Hosting { code: "123456".into(), session_id: "sid".into() },
        CursorSync::new(SyncConfig::default()),
    );
    assert!(sl.start().is_empty());
    let acts = sl.step(LoopEvent::Incoming {
        message: Message::PeerJoined { peer_id: PeerId::new(), role: Role::Guest },
        now_ms: 10,
    });
    assert_eq!(acts.len(), 2);
    assert!(matches!(&acts[0], LoopAction::Emit(s) if *s == in_session_sid("host", Some("123456"), true)));
    assert!(matches!(acts[1], LoopAction::StartMedia));
    assert!(host_should_stream(sl.state()));
    let click = Message::MouseMove { x: 0, y: 0, timestamp_ms: 1 };
    let acts = sl.step(LoopEvent::Incoming { message: click.clone(), now_ms: 11 });
    assert!(matches!(&acts[..], [LoopAction::Inject(m)] if *m == click));
    let acts = sl.step(LoopEvent::Tick { now_ms: 12, poll_due: true });
    assert!(matches!(&acts[..], [LoopAction::PollHostCursor]));
    let acts = sl.step(LoopEvent::HostCursor { pos: Some((0.5f32.to_bits(), 0.5f32.to_bits())), now_ms: 12 });
    assert!(matches!(&acts[..], [LoopAction::Send(Message::CursorMove { timestamp_ms: 12, .. })]));
    let acts = sl.step(LoopEvent::Incoming {
        message: Message::PeerLeft { peer_id: PeerId::new() },
        now_ms: 20,
    });
    assert_eq!(acts.len(), 2);
    assert!(matches!(acts[1], LoopAction::StopMedia));
    let acts = sl.step(LoopEvent::InjectFailed(InputError::PermissionDenied));
    assert_eq!(acts.len(), 3);
    assert!(matches!(acts[0], LoopAction::StopCapture));
    assert!(is_finish(&acts[2]));
    let acts = sl.step(LoopEvent::RecvFailed(TransportError::Closed));
    assert!(matches!(&acts[1], LoopAction::Emit(SessionState::Error { message }) if message == "connexion perdue: connection closed"));
    let acts = sl.step(LoopEvent::Leave);
    assert_eq!(acts.len(), 5);
    assert!(matches!(&acts[1], LoopAction::Send(Message::LeaveSession)));
    assert!(matches!(&acts[3], LoopAction::Emit(SessionState::Idle)));
}

fn in_session_sid(role: &str, code: Option<&str>, peer: bool) -> SessionState {
    in_session(role, code, peer)
}

#[test]
fn session_loop_guest_flow() {
    let mut sl = SessionLoop::new(
        Role::Guest,
        in_session("guest", None, true),
        CursorSync::new(SyncConfig::default()),
    );
    assert!(sl.start().is_empty());
    let acts = sl.step(LoopEvent::Control(Message::LeaveSession));
    assert!(acts.is_empty());
    let key = Message::KeyEvent {
        key: "KeyA".into(),
        pressed: true,
        modifiers: KeyModifiers::default(),
        timestamp_ms: 3,
    };
    let acts = sl.step(LoopEvent::Control(key.clone()));
    assert!(matches!(&acts[..], [LoopAction::Send(m)] if *m == key));
    let acts = sl.step(LoopEvent::LocalCursor { x: 0.1f32.to_bits(), y: 0.2f32.to_bits(), now_ms: 0 });
    assert_eq!(acts.len(), 1);
    let acts = sl.step(LoopEvent::LocalCursor { x: 0.1f32.to_bits(), y: 0.2f32.to_bits(), now_ms: 10 });
    assert!(acts.is_empty());
    let frame = Message::VideoFrame {
        frame_id: 9,
        timestamp_ms: 5,
        width: 2,
        height: 2,
        codec: VideoCodec::H264,
        data: vec![1, 2],
    };
    let acts = sl.step(LoopEvent::Incoming { message: frame, now_ms: 6 });
    assert!(matches!(&acts[..], [LoopAction::Decode { frame_id: 9, timestamp_ms: 5, data }] if *data == vec![1u8, 2]));
    let h265 = Message::VideoFrame {
        frame_id: 10,
        timestamp_ms: 5,
        width: 2,
        height: 2,
        codec: VideoCodec::H265,
        data: vec![],
    };
    assert!(sl.step(LoopEvent::Incoming { message: h265, now_ms: 6 }).is_empty());
    let remote = CursorId::from_u128(42);
    let acts = sl.step(LoopEvent::Incoming {
        message: Message::CursorMove { cursor_id: remote, x: 0, y: 0, timestamp_ms: 100 },
        now_ms: 100,
    });
    assert!(matches!(&acts[..], [LoopAction::ShowRemoteCursor(id, _)] if *id == remote));
    assert!(sl.step(LoopEvent::MediaFrame(Message::LeaveSession)).is_empty());
    let acts = sl.step(LoopEvent::Incoming { message: Message::SessionExpired, now_ms: 200 });
    assert!(matches!(&acts[..], [LoopAction::Emit(SessionState::Error { .. })]));
}

#[test]
fn peer_messages_are_idempotent() {
    let joined = Message::PeerJoined { peer_id: PeerId::new(), role: Role::Guest };
    let hosting = SessionState::Hosting { code: "123456".into(), session_id: "sid".into() };
    let once = apply_signal(hosting, &joined);
    let twice = apply_signal(once.clone(), &joined);
    assert_eq!(once, twice);
    let left = Message::PeerLeft { peer_id: PeerId::new() };
    let once = apply_signal(twice, &left);
    let again = apply_signal(once.clone(), &left);
    assert_eq!(once, again);
    assert_eq!(once, in_session("host", Some("123456"), false));
}
