use zterm_daemon::remote_tunnel::PathKind;
use zterm_daemon::service::{
    bounded_device_count, project_device_live_observation, ConnectionCandidateKey, DeviceLiveObservation,
    PeerConnectionObservation,
};

#[test]
fn live_device_projection_uses_peer_and_session_owners() {
    let peer = PeerConnectionObservation {
        primary: Some(ConnectionCandidateKey { device_id: [0x81; 32], attempt_id: u128::from_be_bytes([0x82; 16]) }),
        candidate_count: 2,
        demand_count: 3,
        remote_acceptance_generation: None,
        path: PathKind::Relay,
        active_stream_count: 7,
    };
    assert_eq!(
        project_device_live_observation(peer, 11).expect("bounded projection"),
        DeviceLiveObservation { online: true, active_stream_count: 7, remote_attachment_count: 11 }
    );
}

#[test]
fn device_counts_saturate_at_the_wire_width() {
    assert_eq!(bounded_device_count(5), 5);
    assert_eq!(bounded_device_count(usize::MAX), u32::MAX);
}

use zterm_daemon::error::DomainErrorKind;
use zterm_daemon::service::{route_target, stops_after_flush, TargetRoute};
use zterm_daemon::wire::WireKind;

#[test]
fn only_an_accepted_stop_ends_the_daemon_after_its_reply() {
    assert!(stops_after_flush(WireKind::LocalStopRequest));
    assert!(!stops_after_flush(WireKind::LocalStatusRequest));
    assert!(!stops_after_flush(WireKind::LocalUpdatePreflightRequest));
}

#[test]
fn reserved_alias_resolves_locally_and_others_need_the_remote_directory() {
    let reserved = "local".to_string();
    assert_eq!(route_target(&"local".to_string(), &reserved, false).expect("reserved"), TargetRoute::Local);
    assert_eq!(route_target(&"laptop".to_string(), &reserved, true).expect("remote"), TargetRoute::Remote);
    assert_eq!(
        route_target(&"laptop".to_string(), &reserved, false).expect_err("no directory").kind,
        DomainErrorKind::TransportUnavailable
    );
}

use zterm_daemon::service::{lifecycle_reply, require_same_setup, requested_relay, ReplyHeader, SetupProfile};

fn setup(name: &str, relay: &str) -> SetupProfile {
    SetupProfile {
        device_name: name.to_string(),
        infrastructure_profile: "public".to_string(),
        relay_url: requested_relay(&relay.to_string()),
    }
}

#[test]
fn lifecycle_replies_carry_the_request_id_and_only_stop_ends_the_daemon() {
    assert_eq!(
        lifecycle_reply(WireKind::LocalStopRequest, 12).expect("stop"),
        ReplyHeader { kind: WireKind::LocalStopResponse, request_id: 12, stop_after_flush: true }
    );
    assert_eq!(
        lifecycle_reply(WireKind::LocalStatusRequest, 13).expect("status"),
        ReplyHeader { kind: WireKind::LocalStatusResponse, request_id: 13, stop_after_flush: false }
    );
    assert_eq!(
        lifecycle_reply(WireKind::SessionListRequest, 14).expect_err("not lifecycle").kind,
        DomainErrorKind::ServiceNotImplemented
    );
}

#[test]
fn differing_setup_is_an_already_configured_conflict() {
    let running = setup("desk", "");
    assert_eq!(running.relay_url, None);
    assert!(require_same_setup(&setup("desk", ""), &running).is_ok());
    assert_eq!(
        require_same_setup(&setup("laptop", ""), &running).expect_err("name").kind,
        DomainErrorKind::AlreadyConfiguredConflict
    );
    assert_eq!(
        require_same_setup(&setup("desk", "https://relay.example.test"), &running).expect_err("relay").kind,
        DomainErrorKind::AlreadyConfiguredConflict
    );
}
