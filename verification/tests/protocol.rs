use teleportal::protocol::codec::{decode_frame, encode_message, frame_payload, peek_payload_len};
use teleportal::protocol::error::ProtocolError;
use teleportal::protocol::ids::{CursorId, PeerId, SessionCode, SessionId};
use teleportal::protocol::messages::{Message, Role, VideoCodec, PROTOCOL_VERSION};
use teleportal::protocol::validate::{validate_message, MAX_FRAME_BYTES, MAX_VIDEO_PAYLOAD};

#[test]
fn session_code_accepts_six_digits() {
    let c = SessionCode::parse("012345").unwrap();
    assert_eq!(c.as_str(), "012345");
}

#[test]
fn session_code_rejects_invalid() {
    assert!(SessionCode::parse("12345").is_err());
    assert!(SessionCode::parse("1234567").is_err());
    assert!(SessionCode::parse("12a456").is_err());
}

#[test]
fn decode_rejects_truncated() {
    assert_eq!(decode_frame(&[0, 0]), Err(ProtocolError::TruncatedFrame));
}

#[test]
fn encode_rejects_invalid_hello() {
    let msg = Message::Hello { protocol_version: 0, role: Role::Guest };
    assert!(encode_message(&msg, &[]).is_err());
}

#[test]
fn rejects_bad_protocol_version() {
    let msg = Message::Hello { protocol_version: 99, role: Role::Host };
    assert!(validate_message(&msg).is_err());
}

#[test]
fn rejects_cursor_out_of_range() {
    let msg = Message::CursorMove {
        cursor_id: CursorId::new(),
        x: 1.5f32.to_bits(),
        y: 0.2f32.to_bits(),
        timestamp_ms: 0,
    };
    assert!(validate_message(&msg).is_err());
}

#[test]
fn rejects_h265() {
    let msg = Message::VideoFrame {
        frame_id: 1,
        timestamp_ms: 0,
        width: 1920,
        height: 1080,
        codec: VideoCodec::H265,
        data: vec![0],
    };
    assert!(validate_message(&msg).is_err());
}

#[test]
fn rejects_oversized_video() {
    let msg = Message::VideoFrame {
        frame_id: 1,
        timestamp_ms: 0,
        width: 1920,
        height: 1080,
        codec: VideoCodec::H264,
        data: vec![0; MAX_VIDEO_PAYLOAD + 1],
    };
    assert!(matches!(validate_message(&msg), Err(ProtocolError::FrameTooLarge { .. })));
}

#[test]
fn lib_links_shared_version() {
    let v = teleportal::shared::VERSION;
    assert_eq!(teleportal::protocol::crate_version(), v);
    assert_eq!(teleportal::capture::crate_version(), v);
    assert_eq!(teleportal::cursor::crate_version(), v);
    assert_eq!(teleportal::input::crate_version(), v);
    assert_eq!(teleportal::transport::crate_version(), v);
    assert_eq!(teleportal::updater::crate_version(), v);
}

#[test]
fn validation_accepts_well_formed_messages() {
    let ok = [
        Message::Hello { protocol_version: PROTOCOL_VERSION, role: Role::Host },
        Message::CreateSession,
        Message::JoinSession { code: SessionCode::parse("111222").unwrap() },
        Message::JoinAccepted {
            session_id: SessionId::new(),
            peer_id: PeerId::new(),
            role: Role::Guest,
        },
        Message::CursorMove {
            cursor_id: CursorId::new(),
            x: 0.0f32.to_bits(),
            y: 1.0f32.to_bits(),
            timestamp_ms: 42,
        },
        Message::MouseScroll {
            dx: 0.0f32.to_bits(),
            dy: (-1.0f32).to_bits(),
            x: 0.5f32.to_bits(),
            y: 0.5f32.to_bits(),
            timestamp_ms: 3,
        },
        Message::VideoFrame {
            frame_id: 7,
            timestamp_ms: 100,
            width: 1920,
            height: 1080,
            codec: VideoCodec::H264,
            data: vec![0, 1, 2],
        },
    ];
    for m in ok.iter() {
        assert!(validate_message(m).is_ok(), "{m:?}");
    }
    assert!(validate_message(&Message::JoinRejected { reason: String::new() }).is_err());
    assert!(validate_message(&Message::Error { code: "c".into(), message: String::new() }).is_err());
    assert!(validate_message(&Message::MouseMove {
        x: f32::NAN.to_bits(),
        y: 0,
        timestamp_ms: 0
    })
    .is_err());
    assert!(validate_message(&Message::MouseMove { x: (-0.0f32).to_bits(), y: 0, timestamp_ms: 0 }).is_ok());
    assert!(validate_message(&Message::VideoFrame {
        frame_id: 1,
        timestamp_ms: 0,
        width: 0,
        height: 1080,
        codec: VideoCodec::H264,
        data: vec![],
    })
    .is_err());
}

#[test]
fn validation_error_texts() {
    let e = validate_message(&Message::Hello { protocol_version: 99, role: Role::Host }).unwrap_err();
    assert_eq!(e.to_string(), "validation failed: unsupported protocol_version 99, expected 1");
    assert_eq!(ProtocolError::TruncatedFrame.to_string(), "truncated frame");
    assert_eq!(
        ProtocolError::FrameTooLarge { size: 10, max: 5 }.to_string(),
        "frame too large: 10 bytes (max 5)"
    );
    assert_eq!(ProtocolError::Codec("x".into()).to_string(), "codec error: x");
}

#[test]
fn framing_round_trip() {
    let payload = vec![0x81u8, 0xa5, 0x68, 0x65, 0x6c, 0x6c, 0x6f];
    let msg = Message::Heartbeat { timestamp_ms: 5 };
    let frame = encode_message(&msg, &payload).unwrap();
    assert_eq!(&frame[..4], &[0, 0, 0, 7]);
    assert_eq!(peek_payload_len(&frame), Ok(7));
    assert_eq!(decode_frame(&frame).unwrap(), payload);
    assert_eq!(frame_payload(&[]).unwrap(), vec![0, 0, 0, 0]);
}

#[test]
fn framing_errors() {
    assert_eq!(peek_payload_len(&[0, 0, 1]), Err(ProtocolError::TruncatedFrame));
    let too_big = (MAX_FRAME_BYTES as u32 + 1).to_be_bytes();
    assert_eq!(
        peek_payload_len(&too_big),
        Err(ProtocolError::FrameTooLarge { size: MAX_FRAME_BYTES + 1, max: MAX_FRAME_BYTES })
    );
    assert_eq!(decode_frame(&[0, 0, 0, 3, 1, 2]), Err(ProtocolError::TruncatedFrame));
    assert!(matches!(decode_frame(&[0, 0, 0, 1, 1, 2]), Err(ProtocolError::Validation(_))));
    assert!(matches!(
        frame_payload(&vec![0u8; MAX_FRAME_BYTES + 1]),
        Err(ProtocolError::FrameTooLarge { .. })
    ));
}

#[test]
fn ids_text_and_bits() {
    let s = SessionId::from_u128(0x0123_4567_89ab_cdef_0123_4567_89ab_cdef);
    assert_eq!(s.as_u128(), 0x0123_4567_89ab_cdef_0123_4567_89ab_cdef);
    assert_eq!(s.to_string(), "01234567-89ab-cdef-0123-456789abcdef");
    assert_ne!(PeerId::new(), PeerId::new());
    let a = SessionCode::parse("999999").unwrap();
    let b = SessionCode::parse("999999").unwrap();
    assert!(a.same_as(&b));
    assert!(!a.same_as(&SessionCode::parse("999998").unwrap()));
}

#[test]
fn new_ids_are_version_4() {
    for bits in [SessionId::new().as_u128(), PeerId::new().as_u128(), CursorId::new().as_u128()] {
        assert_eq!((bits >> 76) & 0xf, 4);
        assert_eq!((bits >> 62) & 0x3, 2);
    }
}

#[test]
fn validation_and_parse_texts() {
    let e = validate_message(&Message::KeyEvent {
        key: String::new(),
        pressed: true,
        modifiers: Default::default(),
        timestamp_ms: 0,
    })
    .unwrap_err();
    assert_eq!(e, ProtocolError::Validation("key must not be empty".into()));
    let e = validate_message(&Message::MouseMove { x: 2.0f32.to_bits(), y: 0, timestamp_ms: 0 }).unwrap_err();
    assert_eq!(e, ProtocolError::Validation("coordinates out of range".into()));
    match SessionCode::parse("12a") {
        Err(ProtocolError::InvalidIdentifier(t)) => {
            assert_eq!(t, "session code must be exactly 6 ASCII digits, got \"12a\"")
        }
        other => panic!("unexpected {other:?}"),
    }
}
