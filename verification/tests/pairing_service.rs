use zterm_daemon::accept_registry::{AcceptAdmission, AcceptRegistry, AcceptReplay};
use zterm_daemon::error::{DaemonError, DomainErrorKind};
use zterm_daemon::pair_framing::{PairFraming, MAX_PAIR_HELLO_FRAME_BYTES};
use zterm_daemon::pairing_flow::{cap_pairing_deadline, generic_pair_rejection};

const SECOND: u64 = 1_000_000_000;
const MAX_PAIR_HANDSHAKE_BYTES: usize = 64 * 1024;
const MAX_LIVE_PAIR_OFFERS: usize = 16;
const PAIRING_TOTAL_DEADLINE: u64 = 60 * SECOND;

fn deadline() -> u64 {
    30 * SECOND
}

#[test]
fn invalid_injected_limits_are_rejected() {
    for frame_limit in [0, MAX_PAIR_HELLO_FRAME_BYTES + 1] {
        let error = PairFraming::new(frame_limit, MAX_PAIR_HANDSHAKE_BYTES, deadline())
            .expect_err("invalid pair frame limit must fail");
        assert_eq!(error.kind(), DomainErrorKind::ResourceExhausted);
    }
    let error = PairFraming::new(MAX_PAIR_HELLO_FRAME_BYTES, 0, deadline()).expect_err("zero handshake budget must fail");
    assert_eq!(error.kind(), DomainErrorKind::ResourceExhausted);
}

#[test]
fn caller_deadline_is_capped_by_pairing_total_limit() {
    let before = 5 * SECOND;
    let capped = cap_pairing_deadline(before, before + 3_600 * SECOND, PAIRING_TOTAL_DEADLINE).expect("deadline cap");
    assert!(capped <= before + PAIRING_TOTAL_DEADLINE + 10_000_000);
    assert_eq!(capped, before + PAIRING_TOTAL_DEADLINE);
}

#[test]
fn earlier_caller_deadline_is_kept() {
    let capped = cap_pairing_deadline(5 * SECOND, 10 * SECOND, PAIRING_TOTAL_DEADLINE).expect("deadline cap");
    assert_eq!(capped, 10 * SECOND);
}

#[test]
fn elapsed_or_unrepresentable_deadline_is_rejected() {
    let error = cap_pairing_deadline(10 * SECOND, 10 * SECOND, PAIRING_TOTAL_DEADLINE).expect_err("elapsed");
    assert_eq!(error.kind(), DomainErrorKind::DeadlineExceeded);
    let error = cap_pairing_deadline(u64::MAX - 1, u64::MAX, PAIRING_TOTAL_DEADLINE).expect_err("overflow");
    assert_eq!(error.kind(), DomainErrorKind::DeadlineExceeded);
}

fn fingerprint(index: usize) -> [u8; 32] {
    [u8::try_from(index + 1).expect("small test fingerprint"); 32]
}

#[test]
fn completed_accept_churn_retains_bounded_ticket_free_replay_tombstones() {
    let maximum = MAX_LIVE_PAIR_OFFERS;
    let mut registry = AcceptRegistry::new(maximum);
    let mut operations = Vec::new();
    for index in 0..maximum + 2 {
        let operation_id = u128::from(u8::try_from(index + 1).expect("small test operation"));
        let serial = match registry.admit_accept(operation_id, fingerprint(index)).expect("completed cells make room") {
            AcceptAdmission::Created { serial } => serial,
            AcceptAdmission::Live { .. } | AcceptAdmission::Complete(_) => panic!("fresh operation must allocate"),
        };
        registry.complete_accept(
            operation_id,
            serial,
            Err(DaemonError::new(DomainErrorKind::Cancelled, &format!("terminal-{index}"))),
        );
        operations.push((operation_id, fingerprint(index)));
    }

    assert_eq!(registry.cell_count(), maximum);
    assert!(registry.retired_count() <= maximum);
    assert!(registry.is_retired(operations[0].0));

    let replay = registry
        .existing_accept(operations[0].0, operations[0].1)
        .expect("same retired fingerprint replays")
        .expect("recent retired operation exists");
    match replay {
        AcceptReplay::Complete(Err(error)) => {
            assert_eq!(error.kind(), DomainErrorKind::Cancelled);
            assert_eq!(error.detail, "terminal-0");
        }
        AcceptReplay::Live { .. } | AcceptReplay::Complete(Ok(_)) => panic!("retired error must replay exactly"),
    }

    let mismatch = registry.existing_accept(operations[0].0, [0x99; 32]);
    let Err(error) = mismatch else {
        panic!("retired ID mismatch must not return a replay");
    };
    assert_eq!(error.kind(), DomainErrorKind::PairOutcomeUnknown);
}

#[test]
fn live_accept_is_joined_not_duplicated() {
    let mut registry = AcceptRegistry::new(2);
    let serial = match registry.admit_accept(7, [1; 32]).expect("admit") {
        AcceptAdmission::Created { serial } => serial,
        _ => panic!("fresh operation must allocate"),
    };
    match registry.admit_accept(7, [1; 32]).expect("join") {
        AcceptAdmission::Live { serial: joined } => assert_eq!(joined, serial),
        _ => panic!("a running operation is joined"),
    }
    assert_eq!(registry.cell_count(), 1);
}

#[test]
fn full_registry_of_running_accepts_is_exhausted() {
    let mut registry = AcceptRegistry::new(1);
    registry.admit_accept(1, [1; 32]).expect("first");
    let Err(error) = registry.admit_accept(2, [2; 32]) else {
        panic!("no completed cell can be retired");
    };
    assert_eq!(error.kind(), DomainErrorKind::ResourceExhausted);
}

#[test]
fn generic_rejection_hides_the_failure_reason() {
    let error = generic_pair_rejection();
    assert_eq!(error.kind(), DomainErrorKind::PairTicketInvalid);
    assert_eq!(error.detail, "pairing request was rejected");
}

use zterm_daemon::pairing_flow::begin_accept;

#[test]
fn accept_fingerprint_mismatch_is_refused_before_any_replay_or_admission() {
    let mut registry = AcceptRegistry::new(4);
    let serial = match registry.admit_accept(0x92, [0x11; 32]).expect("fresh") {
        AcceptAdmission::Created { serial } => serial,
        _ => panic!("fresh operation must allocate"),
    };
    registry.complete_accept(0x92, serial, Err(DaemonError::new(DomainErrorKind::AddressUnavailable, "route failed")));
    let mismatch = begin_accept(&registry, false, 10, 20, 100, 4096, 8192, 0x92, [0x11; 32], [0x22; 32]);
    assert_eq!(mismatch.expect_err("fingerprint").kind, DomainErrorKind::PairOutcomeUnknown);
    assert_eq!(registry.cell_count(), 1);
    match begin_accept(&registry, false, 10, 20, 100, 4096, 8192, 0x92, [0x11; 32], [0x11; 32]).expect("known") {
        Some(AcceptReplay::Complete(Err(error))) => {
            assert_eq!(error.kind, DomainErrorKind::AddressUnavailable);
            assert_eq!(error.detail, "route failed");
        }
        _ => panic!("the completed outcome replays"),
    }
    assert!(begin_accept(&registry, false, 10, 20, 100, 4096, 8192, 0x93, [0x11; 32], [0x11; 32]).expect("fresh").is_none());
}
