use zterm_daemon::error::DomainErrorKind;
use zterm_daemon::remote_tunnel::{
    decode_tunnel_open, opened_tunnel, tunnel_step, PathKind, PathObservation, TunnelAction, TunnelCloseReason,
    TunnelEvent, TunnelOpen,
};
use zterm_daemon::wire::{FrameHeader, WireKind};

fn frame(kind: WireKind, data_len: usize) -> TunnelEvent {
    TunnelEvent::LocalFrame { header: FrameHeader { kind, request_id: 0, deadline_ms: 0 }, decode_error: None, data_len }
}

#[test]
fn data_after_half_close_is_a_protocol_error() {
    let state = opened_tunnel(1024);
    let (state, action) = tunnel_step(state, frame(WireKind::LocalSessionTunnelData, 5));
    assert_eq!(action, TunnelAction::ForwardToRemote);
    let (state, action) = tunnel_step(state, frame(WireKind::LocalSessionTunnelHalfClose, 0));
    assert_eq!(action, TunnelAction::ShutdownRemoteWrite);
    let (_, action) = tunnel_step(state, frame(WireKind::LocalSessionTunnelData, 5));
    assert_eq!(
        action,
        TunnelAction::Fail { reason: TunnelCloseReason::ProtocolError, kind: DomainErrorKind::MalformedFrame }
    );
    let (state, action) = tunnel_step(state, TunnelEvent::LocalEof);
    assert_eq!(action, TunnelAction::Continue);
    assert!(state.local_read_closed);
    assert_eq!(tunnel_step(state, TunnelEvent::RemoteEof).1, TunnelAction::FinishRemoteEof);
}

#[test]
fn malformed_data_chunks_close_the_tunnel() {
    let state = opened_tunnel(1024);
    assert_eq!(
        tunnel_step(state, frame(WireKind::LocalSessionTunnelData, 0)).1,
        TunnelAction::Fail { reason: TunnelCloseReason::ProtocolError, kind: DomainErrorKind::MalformedFrame }
    );
    assert_eq!(
        tunnel_step(state, frame(WireKind::LocalSessionTunnelData, 1025)).1,
        TunnelAction::Fail { reason: TunnelCloseReason::ProtocolError, kind: DomainErrorKind::ControlPayloadTooLarge }
    );
    assert_eq!(
        tunnel_step(state, TunnelEvent::RemoteWriteFailed(DomainErrorKind::DeadlineExceeded)).1,
        TunnelAction::Fail { reason: TunnelCloseReason::TransportLost, kind: DomainErrorKind::DeadlineExceeded }
    );
}

#[test]
fn path_is_announced_only_when_it_changes() {
    let state = opened_tunnel(1024);
    let relay = PathObservation { path: PathKind::Relay, rtt_ms: Some(19) };
    let (state, action) = tunnel_step(state, TunnelEvent::PathTick(relay));
    assert_eq!(action, TunnelAction::EmitPath(relay));
    assert_eq!(tunnel_step(state, TunnelEvent::PathTick(relay)).1, TunnelAction::Continue);
}

#[test]
fn tunnel_open_is_validated() {
    let open = TunnelOpen {
        header: FrameHeader { kind: WireKind::LocalSessionTunnelOpenRequest, request_id: 7, deadline_ms: 0 },
        protocol_version: 1,
        target_device_id: Some([9; 32]),
    };
    assert_eq!(decode_tunnel_open(open, 1).expect("valid open"), [9; 32]);
    assert_eq!(decode_tunnel_open(open, 2).expect_err("version").kind, DomainErrorKind::WireMajorMismatch);
    let missing = TunnelOpen { target_device_id: None, ..open };
    assert_eq!(decode_tunnel_open(missing, 1).expect_err("target").kind, DomainErrorKind::MalformedFrame);
}
