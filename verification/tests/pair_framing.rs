use zterm_daemon::error::{DaemonError, DomainErrorKind};
use zterm_daemon::pair_framing::{accept_pair_frame, PairFraming, PairHandshakeBudget, MAX_PAIR_HELLO_FRAME_BYTES};
use zterm_daemon::pairing_flow::{
    admit_inbound_pair_connection, ensure_deadline, first_frame_deadline, resolve_authorize, resolve_normal_confirmation,
    AuthorizationSnapshot, AuthorizationStatus, AuthorizeOutcome, AuthorizeResolution, ConfirmedAuthorization,
    ControllerPairAttempt,
};
use zterm_daemon::wire::{FrameHeader, WireKind};

fn pair(kind: WireKind) -> FrameHeader {
    FrameHeader { kind, request_id: 0, deadline_ms: 0 }
}

#[test]
fn charges_in_both_directions_spend_one_budget() {
    let mut framing = PairFraming::new(32, 42, 1_000).expect("injected cumulative budget is valid");
    framing.charge(30).expect("inbound frame fits by itself");
    assert_eq!(framing.remaining_bytes(), 12);
    assert_eq!(framing.read_allowance(4096).expect("room left"), 12);
    let error = framing.charge(13).expect_err("fully framed outbound bytes exceed the shared budget");
    assert_eq!(error.kind, DomainErrorKind::ResourceExhausted);
    assert_eq!(framing.used_bytes(), 30);
    framing.charge(12).expect("exact fit");
    assert_eq!(framing.read_allowance(4096).expect_err("exhausted").kind, DomainErrorKind::ResourceExhausted);
}

#[test]
fn effective_deadline_is_capped_by_the_total_deadline() {
    let framing = PairFraming::new(MAX_PAIR_HELLO_FRAME_BYTES, 64, 100).expect("valid");
    assert_eq!(framing.effective_deadline(10, 500).expect("capped"), 100);
    assert_eq!(framing.effective_deadline(10, 50).expect("earlier"), 50);
    assert_eq!(framing.effective_deadline(100, 500).expect_err("elapsed").kind, DomainErrorKind::DeadlineExceeded);
}

#[test]
fn open_stream_check_after_eof_is_malformed() {
    let mut framing = PairFraming::new(32, 64, 100).expect("valid");
    framing.require_open_stream().expect("open");
    framing.mark_eof();
    assert_eq!(framing.require_open_stream().expect_err("eof").kind, DomainErrorKind::MalformedFrame);
}

#[test]
fn normal_protocol_kinds_and_metadata_are_rejected() {
    accept_pair_frame(WireKind::PairBegin, pair(WireKind::PairBegin)).expect("expected kind");
    assert!(accept_pair_frame(WireKind::PairBegin, pair(WireKind::PairProof)).is_err());
    assert!(accept_pair_frame(WireKind::SessionListRequest, pair(WireKind::SessionListRequest)).is_err());
    let with_metadata = FrameHeader { kind: WireKind::PairBegin, request_id: 1, deadline_ms: 0 };
    assert_eq!(accept_pair_frame(WireKind::PairBegin, with_metadata).expect_err("metadata").kind, DomainErrorKind::MalformedFrame);
}

#[test]
fn handshake_budget_counts_exactly() {
    let mut budget = PairHandshakeBudget::with_maximum(10).expect("non-zero");
    budget.record(4).expect("fits");
    assert_eq!(budget.used(), 4);
    assert_eq!(budget.remaining(), 6);
    assert!(budget.record(7).is_err());
    assert!(PairHandshakeBudget::with_maximum(0).is_err());
}

#[test]
fn first_frame_deadline_is_the_earlier_bound() {
    assert_eq!(first_frame_deadline(10, 5, 100), 15);
    assert_eq!(first_frame_deadline(10, 500, 100), 100);
    assert_eq!(first_frame_deadline(u64::MAX, 5, 100), 100);
    assert_eq!(ensure_deadline(100, 100, "late").expect_err("late").kind, DomainErrorKind::DeadlineExceeded);
}

#[test]
fn inbound_identity_is_checked() {
    admit_inbound_pair_connection([1; 32], [2; 32], [1; 32]).expect("bound");
    let wrong = admit_inbound_pair_connection([3; 32], [2; 32], [1; 32]).expect_err("wrong local");
    assert_eq!(wrong.kind, DomainErrorKind::IdentityStateMismatch);
    let own = admit_inbound_pair_connection([1; 32], [1; 32], [1; 32]).expect_err("self pairing");
    assert_eq!(own.kind, DomainErrorKind::Unauthorized);
}

#[test]
fn unknown_authorize_outcome_commits_only_an_advanced_generation() {
    let advanced = AuthorizationSnapshot { status: AuthorizationStatus::Authorized, generation: 2 };
    assert_eq!(
        resolve_authorize(AuthorizeOutcome::OutcomeUnknown, 1, Some(advanced)),
        AuthorizeResolution::Commit { generation: 2 }
    );
    let stale = AuthorizationSnapshot { status: AuthorizationStatus::Authorized, generation: 1 };
    assert_eq!(resolve_authorize(AuthorizeOutcome::OutcomeUnknown, 1, Some(stale)), AuthorizeResolution::LeaveConsuming);
    assert_eq!(resolve_authorize(AuthorizeOutcome::OutcomeUnknown, 1, None), AuthorizeResolution::LeaveConsuming);
    assert_eq!(resolve_authorize(AuthorizeOutcome::Failed, 1, None), AuthorizeResolution::Rollback);
    assert_eq!(
        resolve_authorize(AuthorizeOutcome::Committed { generation: 5 }, 1, None),
        AuthorizeResolution::Commit { generation: 5 }
    );
}

fn attempt(repair_required: bool, accepted_generation: Option<u64>) -> ControllerPairAttempt {
    ControllerPairAttempt {
        accepted_generation,
        repair_required,
        error: Some(DaemonError::new(DomainErrorKind::PairTicketInvalid, "pre-proof challenge failure")),
    }
}

#[test]
fn failed_confirmation_before_proof_keeps_the_attempt_error() {
    let normal = Err(DaemonError::new(DomainErrorKind::TransportUnavailable, "normal failed"));
    let error = resolve_normal_confirmation([7; 32], attempt(false, None), normal).expect_err("typed");
    assert_eq!(error.kind, DomainErrorKind::PairTicketInvalid);
}

#[test]
fn failed_confirmation_after_proof_is_outcome_unknown() {
    let normal = Err(DaemonError::new(DomainErrorKind::TransportUnavailable, "normal failed"));
    let error = resolve_normal_confirmation([7; 32], attempt(true, None), normal).expect_err("ambiguous");
    assert_eq!(error.kind, DomainErrorKind::PairOutcomeUnknown);
}

#[test]
fn confirmation_repairs_only_at_the_accepted_generation() {
    let confirmed = ConfirmedAuthorization { remote: [7; 32], generation: 3, verified_relay: Some("relay".to_string()) };
    let repaired = resolve_normal_confirmation([7; 32], attempt(true, Some(3)), Ok(confirmed)).expect("repaired");
    assert_eq!(repaired.generation, 3);
    let older = ConfirmedAuthorization { remote: [7; 32], generation: 2, verified_relay: None };
    let error = resolve_normal_confirmation([7; 32], attempt(true, Some(3)), Ok(older)).expect_err("older");
    assert_eq!(error.kind, DomainErrorKind::PairOutcomeUnknown);
}

use zterm_daemon::pairing_flow::finish_accept;

#[test]
fn confirmed_authorization_survives_only_complete_local_persistence() {
    let confirmed = || ConfirmedAuthorization { remote: [7; 32], generation: 4, verified_relay: Some("https://r.example".to_string()) };
    let result = finish_accept([7; 32], "host".to_string(), "Host".to_string(), confirmed(), true, Ok(())).expect("persisted");
    assert_eq!(result.authorization_generation, 4);
    assert_eq!(result.verified_relay.as_deref(), Some("https://r.example"));
    let error = finish_accept(
        [7; 32],
        "host".to_string(),
        "Host".to_string(),
        confirmed(),
        true,
        Err(DaemonError::new(DomainErrorKind::StoreUnavailable, "store")),
    )
    .expect_err("unpersisted");
    assert_eq!(error.kind, DomainErrorKind::PairOutcomeUnknown);
    let error = finish_accept([7; 32], "host".to_string(), "Host".to_string(), confirmed(), false, Ok(())).expect_err("clock");
    assert_eq!(error.kind, DomainErrorKind::PairOutcomeUnknown);
}

use zterm_daemon::pair_framing::QueuedPairFrame;

fn queued(kind: WireKind, payload: &[u8]) -> QueuedPairFrame {
    QueuedPairFrame { header: FrameHeader { kind, request_id: 0, deadline_ms: 0 }, payload: payload.to_vec() }
}

#[test]
fn coalesced_frames_stay_queued_in_order_even_after_eof() {
    let mut framing = PairFraming::new(32, 64, 100).expect("valid");
    assert!(framing.next_queued().expect("open").is_none());
    framing.enqueue_decoded(vec![queued(WireKind::PairBegin, b"one"), queued(WireKind::PairProof, b"two")]);
    framing.mark_eof();
    let first = framing.next_queued().expect("queued").expect("first frame");
    assert_eq!((first.header.kind, first.payload), (WireKind::PairBegin, b"one".to_vec()));
    let second = framing.next_queued().expect("queued").expect("second frame");
    assert_eq!((second.header.kind, second.payload), (WireKind::PairProof, b"two".to_vec()));
    assert_eq!(framing.next_queued().expect_err("ended").kind, DomainErrorKind::MalformedFrame);
}
