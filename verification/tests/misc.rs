use teleportal::shared::{init_opentelemetry_placeholder, VERSION};
use teleportal::transport::{map_ws_error, recv_step, RecvStep, TransportError, WsEvent, WsFailure};
use teleportal::updater::{crate_version, is_semver_like, latest_manifest_url, stable_channel};

#[test]
fn version_is_semver_like() {
    let parts: Vec<&str> = VERSION.split('.').collect();
    assert_eq!(parts.len(), 3);
    assert!(parts.iter().all(|p| p.chars().all(|c| c.is_ascii_digit())));
}

#[test]
fn opentelemetry_placeholder_is_callable() {
    init_opentelemetry_placeholder();
}

#[test]
fn stable_channel_is_stable() {
    assert_eq!(stable_channel(), "stable");
}

#[test]
fn latest_url_points_at_github_releases() {
    assert!(latest_manifest_url().ends_with("/latest.json"));
    assert!(latest_manifest_url().contains("teleportal-remote"));
}

#[test]
fn semver_like_accepts_workspace_version() {
    assert!(is_semver_like(crate_version()));
    assert!(is_semver_like("1.2.3"));
    assert!(is_semver_like("0.1.0-beta.1"));
    assert!(!is_semver_like(""));
    assert!(!is_semver_like("1.2"));
    assert!(!is_semver_like("a.b.c"));
}

#[test]
fn semver_like_edges() {
    assert!(is_semver_like("+1.2.3"));
    assert!(is_semver_like("4294967295.0.0"));
    assert!(!is_semver_like("4294967296.0.0"));
    assert!(!is_semver_like("1.2.3.4"));
    assert!(!is_semver_like("1..3"));
    assert!(!is_semver_like("-1.2.3"));
    assert!(!is_semver_like("1.2.+"));
    assert!(is_semver_like("01.002.3-rc"));
}

#[test]
fn ws_frames() {
    assert_eq!(recv_step(WsEvent::Binary(vec![1, 2])), RecvStep::Deliver(vec![1, 2]));
    assert_eq!(recv_step(WsEvent::Ping(vec![9])), RecvStep::Pong(vec![9]));
    assert_eq!(recv_step(WsEvent::Pong), RecvStep::Skip);
    assert_eq!(recv_step(WsEvent::Frame), RecvStep::Skip);
    assert_eq!(
        recv_step(WsEvent::Close),
        RecvStep::Stop { error: TransportError::Closed, drop_stream: true }
    );
    assert_eq!(
        recv_step(WsEvent::End),
        RecvStep::Stop { error: TransportError::Closed, drop_stream: false }
    );
    assert_eq!(
        recv_step(WsEvent::Text("hi".into())),
        RecvStep::Stop {
            error: TransportError::Io("unexpected text WebSocket frame".into()),
            drop_stream: false
        }
    );
    assert_eq!(map_ws_error(WsFailure::AlreadyClosed), TransportError::Closed);
    assert_eq!(map_ws_error(WsFailure::Other("x".into())), TransportError::Io("x".into()));
    assert_eq!(TransportError::Io("x".into()).to_string(), "transport I/O: x");
    assert_eq!(
        TransportError::from_protocol(teleportal::protocol::error::ProtocolError::TruncatedFrame)
            .to_string(),
        "truncated frame"
    );
}
