use zterm_daemon::offer_registry::{ConsumeRequest, CreateAdmission, InstallOutcome, IssuedOffer, PairingRegistry};
use zterm_daemon::pairing::{
    check_deadline, default_deadline, offer_expiry, validate_request_limits, PairOfferState, PairingError, PairingNow,
};

const ABC_SHA256: [u8; 32] = [
    0xba, 0x78, 0x16, 0xbf, 0x8f, 0x01, 0xcf, 0xea, 0x41, 0x41, 0x40, 0xde, 0x5d, 0xae, 0x22, 0x23, 0xb0, 0x03, 0x61,
    0xa3, 0x96, 0x17, 0x7a, 0x9c, 0xb4, 0x10, 0xff, 0x61, 0xf2, 0x00, 0x15, 0xad,
];
const OFFER: u128 = 0x5151;
const TICKET_DIGEST: [u8; 32] = [0x21; 32];
const CONTROLLER: [u8; 32] = [0x31; 32];

fn now(seconds: u64) -> PairingNow {
    PairingNow::new(seconds, seconds * 1_000_000_000)
}

fn issued() -> IssuedOffer {
    IssuedOffer {
        offer_id: OFFER,
        expires_at_unix: 1_600,
        monotonic_deadline: 1_600 * 1_000_000_000,
        ticket_digest: TICKET_DIGEST,
        offer_key: [0x41; 32],
        operation_id: 9,
        fingerprint: [0x61; 32],
        ticket: b"ticket-text".to_vec(),
    }
}

fn consumer(transcript_digest: [u8; 32]) -> ConsumeRequest {
    ConsumeRequest { offer_id: OFFER, ticket_digest: TICKET_DIGEST, controller_device_id: CONTROLLER, transcript_digest }
}

fn registry_with_offer() -> PairingRegistry {
    let mut registry = PairingRegistry::new(4, 1024);
    let serial = match registry.admit_create(now(1_000), 9, [0x61; 32]).expect("admit") {
        CreateAdmission::Created { serial } => serial,
        _ => panic!("fresh create allocates"),
    };
    let created = match registry.install_offer(now(1_000), issued()) {
        InstallOutcome::Installed(created) => created,
        other => panic!("offer installs: {other:?}"),
    };
    assert_eq!(created.ticket, b"ticket-text".to_vec());
    registry.complete_create(9, serial, Ok(created));
    registry
}

#[test]
fn created_offer_replays_its_exact_ticket() {
    let mut registry = registry_with_offer();
    match registry.admit_create(now(1_001), 9, [0x61; 32]).expect("replay") {
        CreateAdmission::Replay(Ok(created)) => assert_eq!(created.ticket, b"ticket-text".to_vec()),
        other => panic!("completed create replays: {other:?}"),
    }
    assert_eq!(registry.admit_create(now(1_001), 9, [0x62; 32]).expect_err("reused id"), PairingError::OutcomeUnknown);
}

#[test]
fn invalid_proof_leaves_offer_ready() {
    let mut registry = registry_with_offer();
    assert_eq!(registry.try_consume(now(1_001), consumer(ABC_SHA256), false), Err(PairingError::InvalidProof));
    assert_eq!(registry.offer_state(now(1_001), OFFER), Ok(PairOfferState::Ready));
}

#[test]
fn one_consumer_excludes_others_until_rollback() {
    let mut registry = registry_with_offer();
    registry.try_consume(now(1_001), consumer(ABC_SHA256), true).expect("first valid consumer");
    assert_eq!(registry.try_consume(now(1_001), consumer([0x99; 32]), true), Err(PairingError::OfferConsuming));
    assert_eq!(registry.offer_state(now(1_001), OFFER), Ok(PairOfferState::Consuming));
    assert_eq!(registry.rollback(Some(now(1_002)), OFFER, CONTROLLER, ABC_SHA256), Ok(PairOfferState::Ready));
    registry.try_consume(now(1_003), consumer(ABC_SHA256), true).expect("offer is Ready again");
}

#[test]
fn commit_checks_the_transcript_digest_and_is_final() {
    let mut registry = registry_with_offer();
    registry.try_consume(now(1_001), consumer(ABC_SHA256), true).expect("consumer");
    assert_eq!(registry.commit(OFFER, CONTROLLER, ABC_SHA256, b"abd", 1), Err(PairingError::StateConflict));
    assert_eq!(registry.commit(OFFER, CONTROLLER, ABC_SHA256, b"abc", 0).is_err(), true);
    assert_eq!(registry.commit(OFFER, CONTROLLER, ABC_SHA256, b"abc", 1), Ok([0x41; 32]));
    assert_eq!(registry.offer_state(now(1_002), OFFER), Ok(PairOfferState::Consumed));
    assert_eq!(registry.try_consume(now(1_002), consumer(ABC_SHA256), true), Err(PairingError::TicketConsumed));
}

#[test]
fn expired_offer_is_never_consumed() {
    let mut registry = registry_with_offer();
    assert_eq!(registry.try_consume(now(1_600), consumer(ABC_SHA256), true), Err(PairingError::TicketExpired));
    assert_eq!(registry.offer_state(now(1_600), OFFER), Ok(PairOfferState::Expired));
    let snapshot = registry.snapshot(now(1_600));
    assert_eq!(snapshot.ready_offers, 0);
    assert_eq!(snapshot.expired_tombstones, 1);
}

#[test]
fn snapshot_counts_live_offers() {
    let mut registry = registry_with_offer();
    let snapshot = registry.snapshot(now(1_001));
    assert_eq!(snapshot.ready_offers, 1);
    assert_eq!(snapshot.consuming_offers, 0);
    registry.try_consume(now(1_001), consumer(ABC_SHA256), true).expect("consumer");
    let snapshot = registry.snapshot(now(1_001));
    assert_eq!(snapshot.ready_offers, 0);
    assert_eq!(snapshot.consuming_offers, 1);
}

#[test]
fn colliding_offer_id_is_redrawn() {
    let mut registry = registry_with_offer();
    assert!(registry.offer_id_in_use(OFFER));
    assert!(matches!(registry.install_offer(now(1_001), issued()), InstallOutcome::Collision));
}

#[test]
fn deadlines_are_checked_and_overflow_is_typed() {
    assert_eq!(check_deadline(5, 5), Err(PairingError::DeadlineExceeded));
    assert_eq!(check_deadline(4, 5), Ok(()));
    assert_eq!(default_deadline(10, 20), Ok(30));
    assert_eq!(default_deadline(u64::MAX, 1), Err(PairingError::TimeOverflow));
}

#[test]
fn offer_expiry_is_ttl_after_now_on_both_clocks() {
    assert_eq!(offer_expiry(PairingNow::new(1_000, 5), 600), Ok((1_600, 5 + 600 * 1_000_000_000)));
    assert_eq!(offer_expiry(PairingNow::new(u64::MAX, 0), 1), Err(PairingError::TimeOverflow));
    assert_eq!(offer_expiry(PairingNow::new(0, 0), u64::MAX / 2), Err(PairingError::TimeOverflow));
}

#[test]
fn relay_limits_bound_count_and_url_bytes() {
    let hints = vec!["https://a.example".to_string(), "https://b.example".to_string()];
    assert_eq!(validate_request_limits(&hints, 2, 17), Ok(()));
    assert_eq!(validate_request_limits(&hints, 1, 64), Err(PairingError::ResourceExhausted));
    assert_eq!(validate_request_limits(&hints, 2, 16), Err(PairingError::ResourceExhausted));
}
