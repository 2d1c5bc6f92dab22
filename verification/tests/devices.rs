use bytes::Bytes;
use teleportal::capture::error::CaptureError;
use teleportal::capture::native::{
    acquire_step, contains_text, desktop_size, map_sck, pack_rows, wide_to_string, AcquireResult,
    AcquireStep,
};
use teleportal::capture::stub::{Capturer, PlatformCapturer, UnsupportedCapturer};
use teleportal::capture::types::{CaptureConfig, DisplayId, Frame, PixelFormat};
use teleportal::cursor::throttle::SendThrottle;
use teleportal::cursor::tracker::{CursorSync, PosePlan};
use teleportal::cursor::types::SyncConfig;
use teleportal::input::error::InputError;
use teleportal::input::mapping::{mac_keycode, win_vk};
use teleportal::input::stub::{InputInjector, PlatformInjector, UnsupportedInjector};
use teleportal::input::types::InjectConfig;
use teleportal::protocol::ids::CursorId;
use teleportal::protocol::messages::Message;

#[test]
fn start_fails_on_unsupported_os() {
    let err = UnsupportedCapturer::start(CaptureConfig::default()).unwrap_err();
    assert!(matches!(err, CaptureError::UnsupportedPlatform));
}

#[test]
fn platform_start_unsupported() {
    let err = PlatformCapturer::start(CaptureConfig::default()).unwrap_err();
    assert!(matches!(err, CaptureError::UnsupportedPlatform));
    assert!(matches!(PlatformCapturer::displays(), Err(CaptureError::UnsupportedPlatform)));
}

#[test]
fn default_config_is_valid() {
    let cfg = CaptureConfig::default();
    assert!(cfg.validate().is_ok());
    assert_eq!(cfg.display_index, 0);
    assert_eq!(cfg.max_fps, 30);
    assert_eq!(cfg.frame_timeout_ms(), 33);
}

#[test]
fn rejects_zero_fps() {
    let cfg = CaptureConfig { display_index: 0, max_fps: 0 };
    assert!(matches!(cfg.validate(), Err(CaptureError::InvalidConfig(_))));
}

#[test]
fn frame_timeouts() {
    assert_eq!(CaptureConfig { display_index: 0, max_fps: 60 }.frame_timeout_ms(), 16);
    assert_eq!(CaptureConfig { display_index: 0, max_fps: 1 }.frame_timeout_ms(), 1000);
    assert_eq!(CaptureConfig { display_index: 0, max_fps: 5000 }.frame_timeout_ms(), 1);
}

#[test]
fn frame_well_formed() {
    let width = 2u32;
    let height = 2u32;
    let stride = 8usize;
    let frame = Frame {
        width,
        height,
        stride,
        format: PixelFormat::Bgra8,
        timestamp_ms: 1,
        display_id: DisplayId(0),
        data: Bytes::from(vec![0u8; stride * height as usize]),
    };
    assert!(frame.is_well_formed());
    assert_eq!(frame.expected_min_len(), 16);
    let short = Frame { data: Bytes::from(vec![0u8; 15]), ..frame.clone() };
    assert!(!short.is_well_formed());
    let narrow = Frame { stride: 7, ..frame };
    assert!(!narrow.is_well_formed());
}

#[test]
fn capture_error_texts() {
    assert_eq!(CaptureError::NoDisplays.to_string(), "no displays found");
    assert_eq!(CaptureError::DisplayNotFound(3).to_string(), "display index out of range: 3");
}

#[test]
fn throttles_to_20hz() {
    let cfg = SyncConfig::default();
    let mut t = SendThrottle::new();
    assert!(t.try_send(0, &cfg));
    assert!(!t.try_send(40, &cfg));
    assert!(t.try_send(50, &cfg));
    assert!(!t.try_send(99, &cfg));
    assert!(t.try_send(100, &cfg));
}

#[test]
fn default_interval_20hz() {
    assert_eq!(SyncConfig::default().send_interval_ms(), 50);
}

#[test]
fn push_local_throttles() {
    let mut sync = CursorSync::new(SyncConfig::default());
    assert!(sync.push_local(0.1f32.to_bits(), 0.2f32.to_bits(), 0).is_some());
    assert!(sync.push_local(0.2f32.to_bits(), 0.3f32.to_bits(), 10).is_none());
    assert!(sync.push_local(0.3f32.to_bits(), 0.4f32.to_bits(), 50).is_some());
}

#[test]
fn push_local_clamps() {
    let mut sync = CursorSync::new(SyncConfig::default());
    let id = sync.local_id();
    let m = sync.push_local(1.5f32.to_bits(), (-0.5f32).to_bits(), 7).unwrap();
    assert_eq!(
        m,
        Message::CursorMove { cursor_id: id, x: 1.0f32.to_bits(), y: 0.0f32.to_bits(), timestamp_ms: 7 }
    );
}

#[test]
fn ignores_own_cursor_id() {
    let mut sync = CursorSync::new(SyncConfig::default());
    let id = sync.local_id();
    sync.on_remote(&Message::CursorMove {
        cursor_id: id,
        x: 0.5f32.to_bits(),
        y: 0.5f32.to_bits(),
        timestamp_ms: 1,
    });
    assert!(sync.remote_pose_plan(1).is_none());
}

#[test]
fn pose_plans_between_samples() {
    let mut sync = CursorSync::new(SyncConfig::default());
    let remote = CursorId::new();
    sync.on_remote(&Message::CursorMove { cursor_id: remote, x: 0, y: 0, timestamp_ms: 0 });
    sync.on_remote(&Message::CursorMove {
        cursor_id: remote,
        x: 1.0f32.to_bits(),
        y: 1.0f32.to_bits(),
        timestamp_ms: 100,
    });
    let (id, plan) = sync.remote_pose_plan(50).unwrap();
    assert_eq!(id, remote);
    assert!(matches!(plan, PosePlan::Blend { now: 50, .. }));
    let (_, plan) = sync.remote_pose_plan(1000).unwrap();
    assert!(matches!(plan, PosePlan::Hold(s) if s.timestamp_ms == 100));
    sync.on_remote(&Message::CursorMove { cursor_id: remote, x: 0, y: 0, timestamp_ms: 50 });
    let (_, plan) = sync.remote_pose_plan(100).unwrap();
    assert!(matches!(plan, PosePlan::Blend { last, .. } if last.timestamp_ms == 100));
}

#[test]
fn platform_unsupported() {
    let err = PlatformInjector::start(InjectConfig::default()).unwrap_err();
    assert!(matches!(err, InputError::UnsupportedPlatform));
}

#[test]
fn start_fails() {
    let err = UnsupportedInjector::start(InjectConfig::default()).unwrap_err();
    assert!(matches!(err, InputError::UnsupportedPlatform));
}

#[test]
fn maps_common_codes() {
    assert_eq!(win_vk("KeyA").unwrap().0, 0x41);
    assert_eq!(win_vk("Space").unwrap().0, 0x20);
    assert_eq!(mac_keycode("KeyA").unwrap().0, 0x00);
    assert_eq!(mac_keycode("Space").unwrap().0, 0x31);
    assert!(win_vk("Nope").is_err());
}

#[test]
fn maps_more_codes() {
    assert_eq!(win_vk("Enter").unwrap().0, 0x0D);
    assert_eq!(mac_keycode("Enter").unwrap().0, 0x24);
    assert!(matches!(mac_keycode("Nope"), Err(InputError::UnknownKey(k)) if k == "Nope"));
}

#[test]
fn rejects_zero_dims() {
    assert!(InjectConfig { display_width: 0, display_height: 10 }.validate().is_err());
    assert!(InjectConfig { display_width: 10, display_height: 10 }.validate().is_ok());
}

#[test]
fn native_capture_helpers() {
    assert_eq!(desktop_size(0, 0, 1920, 1080, 1), (1920, 1080));
    assert_eq!(desktop_size(1920, 0, 3840, 1080, 2), (1080, 1920));
    assert_eq!(desktop_size(10, 10, 0, 0, 4), (0, 0));
    let name: Vec<u16> = "DISPLAY1\0junk".encode_utf16().collect();
    assert_eq!(wide_to_string(&name), "DISPLAY1");
    let plain: Vec<u16> = "Écran".encode_utf16().collect();
    assert_eq!(wide_to_string(&plain), "Écran");
    assert!(contains_text("abcdef", "cde"));
    assert!(!contains_text("abc", "abcd"));
    assert!(contains_text("abc", ""));
    assert!(matches!(map_sck("User DENIED access".into()), CaptureError::PermissionDenied));
    assert!(matches!(map_sck("App is Not Authorized".into()), CaptureError::PermissionDenied));
    assert!(matches!(map_sck("stream failed".into()), CaptureError::Native(s) if s == "stream failed"));
}

#[test]
fn pack_rows_and_acquire() {
    let src: Vec<u8> = (0u8..20).collect();
    assert_eq!(pack_rows(&src, 10, 1, 2).unwrap(), vec![0, 1, 2, 3, 10, 11, 12, 13]);
    assert_eq!(pack_rows(&src, 10, 0, 2).unwrap(), Vec::<u8>::new());
    assert!(pack_rows(&src, 10, 0, 0).unwrap().is_empty());
    match pack_rows(&src, 10, 3, 2) {
        Err(CaptureError::Native(t)) => assert_eq!(t, "pixel buffer shorter than expected stride"),
        other => panic!("unexpected {other:?}"),
    }
    assert!(matches!(
        acquire_step(AcquireResult::WaitTimeout, false, 0, 0),
        AcquireStep::NoFrame { release: false }
    ));
    assert!(matches!(
        acquire_step(AcquireResult::Acquired, true, 0, 0),
        AcquireStep::NoFrame { release: true }
    ));
    assert!(matches!(acquire_step(AcquireResult::Acquired, true, 5, 0), AcquireStep::Frame));
    assert!(matches!(
        acquire_step(AcquireResult::AccessLost, true, 5, 1),
        AcquireStep::Fail(CaptureError::AccessLost)
    ));
}

#[test]
fn win_table_relations() {
    for l in b'A'..=b'Z' {
        let code = format!("Key{}", l as char);
        assert_eq!(win_vk(&code).unwrap().0, l as u16);
    }
    for d in 0u16..=9 {
        assert_eq!(win_vk(&format!("Digit{d}")).unwrap().0, 0x30 + d);
        assert_eq!(win_vk(&format!("Numpad{d}")).unwrap().0, 0x30 + d);
    }
    for n in 1u16..=12 {
        assert_eq!(win_vk(&format!("F{n}")).unwrap().0, 0x6F + n);
    }
    for (m, vk) in [("Shift", 0x10), ("Control", 0x11), ("Alt", 0x12), ("Meta", 0x5B)] {
        assert_eq!(win_vk(&format!("{m}Left")).unwrap().0, vk);
        assert_eq!(win_vk(&format!("{m}Right")).unwrap().0, vk);
    }
    assert!(matches!(win_vk("F13"), Err(InputError::UnknownKey(k)) if k == "F13"));
    assert!(matches!(win_vk("keya"), Err(InputError::UnknownKey(k)) if k == "keya"));
}

#[test]
fn mac_table_aliases_and_sides() {
    assert_eq!(mac_keycode("Enter").unwrap().0, mac_keycode("NumpadEnter").unwrap().0);
    assert_eq!(mac_keycode("MetaLeft").unwrap().0, mac_keycode("OSLeft").unwrap().0);
    assert_eq!(mac_keycode("MetaRight").unwrap().0, mac_keycode("OSRight").unwrap().0);
    assert_ne!(mac_keycode("ShiftLeft").unwrap().0, mac_keycode("ShiftRight").unwrap().0);
    assert_ne!(mac_keycode("ControlLeft").unwrap().0, mac_keycode("ControlRight").unwrap().0);
    assert_ne!(mac_keycode("AltLeft").unwrap().0, mac_keycode("AltRight").unwrap().0);
    assert_ne!(mac_keycode("KeyA").unwrap().0, mac_keycode("KeyS").unwrap().0);
    assert!(mac_keycode("F12").unwrap().0 <= 0x7E);
    assert_eq!(mac_keycode("F13").unwrap().0, 0x69);
    assert!(matches!(mac_keycode("F20"), Err(InputError::UnknownKey(k)) if k == "F20"));
}

#[test]
fn wide_names_decode_surrogates() {
    let pair: Vec<u16> = "a\u{1F600}b".encode_utf16().collect();
    assert_eq!(pair.len(), 4);
    assert_eq!(wide_to_string(&pair), "a\u{1F600}b");
    assert_eq!(wide_to_string(&[0x41, 0xD800, 0x42, 0]), "A\u{FFFD}B");
    assert_eq!(wide_to_string(&[0xDC00, 0xD83D, 0xDE00, 0xD800]), "\u{FFFD}\u{1F600}\u{FFFD}");
}
