use zterm_daemon::error::DomainErrorKind;
use zterm_daemon::pairing_flow::{controller_accepted, controller_stage_failed, ControllerStage};
use zterm_daemon::error::DaemonError;
use zterm_daemon::service::{find_device, remaining_before, service_owner, ComposedServices, LocalServiceRoute};
use zterm_daemon::wire::WireKind;

const ALL: ComposedServices = ComposedServices { pairing: true, devices: true, remote_sessions: true };

#[test]
fn local_requests_route_to_composed_owners() {
    assert_eq!(service_owner(WireKind::LocalPairCreateRequest, ALL).expect("pairing"), LocalServiceRoute::Pairing);
    assert_eq!(service_owner(WireKind::LocalStatusRequest, ALL).expect("lifecycle"), LocalServiceRoute::Lifecycle);
    assert_eq!(service_owner(WireKind::LocalSessionUnaryRequest, ALL).expect("forward"), LocalServiceRoute::RemoteSession);
    let without_devices = ComposedServices { devices: false, ..ALL };
    assert_eq!(service_owner(WireKind::LocalPairCreateRequest, without_devices).expect("create"), LocalServiceRoute::Pairing);
    let error = service_owner(WireKind::LocalPairAcceptRequest, without_devices).expect_err("accept needs devices");
    assert_eq!(error.kind, DomainErrorKind::ServiceNotImplemented);
    let without_remote = ComposedServices { remote_sessions: false, ..ALL };
    let error = service_owner(WireKind::LocalSessionUnaryRequest, without_remote).expect_err("no transport");
    assert_eq!(error.kind, DomainErrorKind::TransportUnavailable);
    let error = service_owner(WireKind::PairBegin, ALL).expect_err("not a local service");
    assert_eq!(error.kind, DomainErrorKind::ServiceNotImplemented);
}

#[test]
fn elapsed_deadline_refuses_dispatch() {
    assert_eq!(remaining_before(5, 9).expect("time left"), 4);
    assert_eq!(remaining_before(9, 9).expect_err("elapsed").kind, DomainErrorKind::DeadlineExceeded);
}

#[test]
fn vanished_device_is_not_found() {
    let devices = vec![[1_u8; 32], [2_u8; 32]];
    assert_eq!(find_device(&devices, [2; 32]).expect("listed"), 1);
    assert_eq!(find_device(&devices, [3; 32]).expect_err("gone").kind, DomainErrorKind::DeviceNotFound);
}

#[test]
fn proof_delivery_makes_confirmation_mandatory() {
    let before = controller_stage_failed(ControllerStage::BeginWrite, DaemonError::new(DomainErrorKind::TransportUnavailable, "x"));
    assert!(!before.repair_required);
    let after = controller_stage_failed(ControllerStage::ProofWrite, DaemonError::new(DomainErrorKind::TransportUnavailable, "x"));
    assert!(after.repair_required);
    let accepted = controller_accepted(4, Ok(()));
    assert_eq!(accepted.accepted_generation, Some(4));
    assert!(accepted.repair_required && accepted.error.is_none());
}

use zterm_daemon::pairing_flow::{
    check_accept_ticket_size, check_decoded_ticket, create_route, effective_ttl_seconds, NetworkObservation,
};

fn observation(home_relay: Option<&str>) -> NetworkObservation {
    NetworkObservation {
        device_id: [5; 32],
        online: true,
        endpoint_bound: true,
        home_relay: home_relay.map(str::to_string),
    }
}

#[test]
fn create_requires_online_route() {
    assert_eq!(create_route([5; 32], &observation(Some("https://relay.example.test"))).expect("online"), "https://relay.example.test");
    let offline = NetworkObservation { online: false, ..observation(Some("https://relay.example.test")) };
    assert_eq!(create_route([5; 32], &offline).expect_err("offline").kind, DomainErrorKind::AddressUnavailable);
    assert_eq!(create_route([5; 32], &observation(Some(""))).expect_err("empty").kind, DomainErrorKind::AddressUnavailable);
    assert_eq!(create_route([6; 32], &observation(None)).expect_err("identity").kind, DomainErrorKind::IdentityStateMismatch);
    assert_eq!(effective_ttl_seconds(0, 600), 600);
    assert_eq!(effective_ttl_seconds(30, 600), 30);
}

#[test]
fn pasted_tickets_are_bounded_and_checked() {
    assert!(check_accept_ticket_size(100, 4096, 8192).is_ok());
    assert_eq!(check_accept_ticket_size(5000, 4096, 8192).expect_err("size").kind, DomainErrorKind::PairTicketInvalid);
    assert!(check_decoded_ticket(10, 20, [1; 32], [2; 32]).is_ok());
    assert_eq!(check_decoded_ticket(20, 20, [1; 32], [2; 32]).expect_err("expired").kind, DomainErrorKind::PairTicketExpired);
    assert_eq!(check_decoded_ticket(10, 20, [2; 32], [2; 32]).expect_err("self").kind, DomainErrorKind::PairTicketInvalid);
}

use zterm_daemon::wire::{device_wire_error, protocol_error, ProtocolFault};

#[test]
fn codec_failures_keep_their_category() {
    assert_eq!(protocol_error(ProtocolFault::WireMajorMismatch, "v").kind, DomainErrorKind::WireMajorMismatch);
    assert_eq!(protocol_error(ProtocolFault::FrameTooLarge, "big").kind, DomainErrorKind::FrameTooLarge);
    assert_eq!(protocol_error(ProtocolFault::TruncatedFrame, "cut").kind, DomainErrorKind::MalformedFrame);
    assert_eq!(device_wire_error(true, "alias").kind, DomainErrorKind::InvalidDeviceAlias);
    assert_eq!(device_wire_error(false, "id").kind, DomainErrorKind::MalformedFrame);
}

use zterm_daemon::offer_registry::{CreateAdmission, InstallOutcome, IssuedOffer, PairingRegistry};
use zterm_daemon::pairing::{PairingError, PairingNow};

#[test]
fn create_requires_online_route_replays_and_rejects_fingerprint_mismatch() {
    let operation = u128::from_be_bytes([0x61; 16]);
    let fingerprint = [0x61; 32];
    let now = PairingNow::new(1_000, 1_000_000_000_000);
    let disabled = NetworkObservation { device_id: [5; 32], online: false, endpoint_bound: false, home_relay: None };
    assert_eq!(create_route([5; 32], &disabled).expect_err("offline create fails").kind, DomainErrorKind::AddressUnavailable);

    let relay = create_route([5; 32], &observation(Some("https://relay.example.test"))).expect("online create");
    assert_eq!(relay, "https://relay.example.test");
    let mut registry = PairingRegistry::new(4, 1024);
    let serial = match registry.admit_create(now, operation, fingerprint).expect("online create") {
        CreateAdmission::Created { serial } => serial,
        other => panic!("fresh create allocates: {other:?}"),
    };
    let issued = IssuedOffer {
        offer_id: 0x77,
        expires_at_unix: 1_600,
        monotonic_deadline: 1_600_000_000_000,
        ticket_digest: [0x21; 32],
        offer_key: [0x41; 32],
        operation_id: operation,
        fingerprint,
        ticket: b"created-ticket".to_vec(),
    };
    let created = match registry.install_offer(now, issued) {
        InstallOutcome::Installed(created) => created,
        other => panic!("offer installs: {other:?}"),
    };
    let created_ticket = created.ticket.clone();
    registry.complete_create(operation, serial, Ok(created));
    match registry.admit_create(now, operation, fingerprint).expect("create replay") {
        CreateAdmission::Replay(Ok(replayed)) => assert_eq!(created_ticket, replayed.ticket),
        other => panic!("completed create replays: {other:?}"),
    }
    let mismatch = registry.admit_create(now, operation, [0x62; 32]).expect_err("fingerprint mismatch");
    assert_eq!(mismatch, PairingError::OutcomeUnknown);
    assert_eq!(mismatch.local_kind(), DomainErrorKind::PairOutcomeUnknown);
}

use zterm_daemon::pairing_flow::accept_preflight;

#[test]
fn accept_preflight_refuses_in_order_before_any_admission() {
    let ok = accept_preflight(false, 10, 20, 100, 4096, 8192, [1; 32], [1; 32]);
    assert!(ok.is_ok());
    assert_eq!(accept_preflight(true, 30, 20, 9000, 4096, 8192, [1; 32], [2; 32]).expect_err("stopping").kind, DomainErrorKind::Cancelled);
    assert_eq!(accept_preflight(false, 20, 20, 9000, 4096, 8192, [1; 32], [2; 32]).expect_err("late").kind, DomainErrorKind::DeadlineExceeded);
    assert_eq!(accept_preflight(false, 10, 20, 9000, 4096, 8192, [1; 32], [2; 32]).expect_err("large").kind, DomainErrorKind::PairTicketInvalid);
    assert_eq!(accept_preflight(false, 10, 20, 100, 4096, 8192, [1; 32], [2; 32]).expect_err("fingerprint").kind, DomainErrorKind::PairOutcomeUnknown);
}
