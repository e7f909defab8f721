use zterm_daemon::offer_registry::{ConsumeRequest, CreateAdmission, InstallOutcome, IssuedOffer};
use zterm_daemon::pairing::{
    PairOfferState, PairingSnapshot,
    PairingClock, PairingClockError, PairingEntropy, PairingEntropyError, PairingError, PairingNow,
};
use zterm_daemon::pairing_manager::{ManagerLimits, PairingManager};
use std::time::{Duration, Instant};

fn later() -> Instant {
    Instant::now() + Duration::from_secs(60)
}

fn elapsed() -> Instant {
    Instant::now()
}

struct FixedClock(Option<PairingNow>);

impl PairingClock for FixedClock {
    fn now(&self) -> Result<PairingNow, PairingClockError> {
        self.0.ok_or(PairingClockError)
    }
}

struct PatternEntropy(Option<u8>);

impl PairingEntropy for PatternEntropy {
    fn fill(&self, destination: &mut [u8]) -> Result<(), PairingEntropyError> {
        match self.0 {
            Some(byte) => {
                destination.fill(byte);
                Ok(())
            }
            None => Err(PairingEntropyError),
        }
    }
}

const LIMITS: ManagerLimits = ManagerLimits { max_live_offers: 4, max_ticket_text_bytes: 1024 };

fn manager(clock: Option<PairingNow>, entropy: Option<u8>) -> PairingManager<FixedClock, PatternEntropy> {
    PairingManager::with_dependencies([0x11; 32], LIMITS, FixedClock(clock), PatternEntropy(entropy))
}

#[test]
fn manager_reads_its_injected_clock_and_entropy() {
    let now = PairingNow::new(100, 5);
    let manager = manager(Some(now), Some(0xAB));
    assert_eq!(manager.host_device_id(), [0x11; 32]);
    assert_eq!(manager.now(), Ok(now));
    assert_eq!(manager.random_nonce_until(later()), Ok([0xAB; 32]));
    assert_eq!(manager.random_nonce_until(elapsed()), Err(PairingError::DeadlineExceeded));
}

#[test]
fn unavailable_clock_and_entropy_are_typed() {
    let mut silent = manager(None, Some(1));
    assert_eq!(silent.now(), Err(PairingError::ClockUnavailable));
    assert_eq!(silent.offer_state(7), Err(PairingError::ClockUnavailable));
    assert_eq!(silent.snapshot(), Err(PairingError::ClockUnavailable));
    let empty = manager(Some(PairingNow::new(1, 1)), None);
    assert_eq!(empty.random_nonce_until(later()), Err(PairingError::EntropyUnavailable));
}

#[test]
fn unknown_offers_are_not_found() {
    let mut manager = manager(Some(PairingNow::new(100, 5)), Some(1));
    assert_eq!(manager.offer_state(7), Err(PairingError::OfferNotFound));
    let request = ConsumeRequest { offer_id: 7, ticket_digest: [0; 32], controller_device_id: [1; 32], transcript_digest: [2; 32] };
    assert_eq!(manager.try_consume_until(request, true, later()), Err(PairingError::OfferNotFound));
    assert_eq!(manager.try_consume_until(request, true, elapsed()), Err(PairingError::DeadlineExceeded));
    assert_eq!(manager.rollback(7, [1; 32], [2; 32]), Err(PairingError::StateConflict));
    assert_eq!(manager.prune_expired(), Ok(0));
    let snapshot = manager.snapshot().expect("clock");
    assert_eq!(snapshot.ready_offers, 0);
}

#[test]
fn fresh_manager_snapshot_is_empty_and_bounded() {
    let mut manager = manager(Some(PairingNow::new(100, 5)), Some(1));
    let snapshot = manager.snapshot().expect("clock");
    assert_eq!(snapshot, PairingSnapshot::default());
    assert!(snapshot.ready_offers + snapshot.consuming_offers <= LIMITS.max_live_offers);
    assert!(snapshot.consumed_tombstones + snapshot.expired_tombstones <= LIMITS.max_live_offers);
}

fn issued(offer_id: u128) -> IssuedOffer {
    IssuedOffer {
        offer_id,
        expires_at_unix: 700,
        monotonic_deadline: 1_000,
        ticket_digest: [0x21; 32],
        offer_key: [0x41; 32],
        operation_id: 3,
        fingerprint: [0x61; 32],
        ticket: b"ticket".to_vec(),
    }
}

#[test]
fn drawn_offer_ids_come_from_entropy_and_are_redrawn_on_collision() {
    let mut manager = manager(Some(PairingNow::new(100, 5)), Some(0xAB));
    let drawn = manager.draw_offer_id_until(later()).expect("fresh identifier");
    assert_eq!(drawn, u128::from_be_bytes([0xAB; 16]));
    assert_eq!(manager.draw_offer_id_until(elapsed()), Err(PairingError::DeadlineExceeded));

    let serial = match manager.admit_create(3, [0x61; 32]).expect("clock") {
        CreateAdmission::Created { serial } => serial,
        other => panic!("fresh create allocates: {other:?}"),
    };
    let created = match manager.install_offer(issued(drawn)).expect("clock") {
        InstallOutcome::Installed(created) => created,
        other => panic!("offer installs: {other:?}"),
    };
    assert_eq!(created.offer_id, drawn);
    manager.complete_create(3, serial, Ok(created));
    assert!(matches!(manager.install_offer(issued(drawn)), Ok(InstallOutcome::Collision)));
    assert_eq!(manager.draw_offer_id_until(later()), Err(PairingError::ResourceExhausted));
    match manager.admit_create(3, [0x61; 32]).expect("replay") {
        CreateAdmission::Replay(Ok(replayed)) => assert_eq!(replayed.ticket, b"ticket".to_vec()),
        other => panic!("completed create replays: {other:?}"),
    }

    let silent = manager_without_entropy();
    assert_eq!(silent.draw_offer_id_until(later()), Err(PairingError::EntropyUnavailable));
}

fn manager_without_entropy() -> PairingManager<FixedClock, PatternEntropy> {
    manager(Some(PairingNow::new(100, 5)), None)
}

#[test]
fn caller_deadlines_read_the_process_clock_not_the_injected_one() {
    let silent = manager(None, Some(0x07));
    assert_eq!(silent.random_nonce_until(later()), Ok([0x07; 32]));
    assert_eq!(silent.draw_offer_id_until(later()), Ok(u128::from_be_bytes([0x07; 16])));
    let mut silent = manager(None, Some(0x07));
    let request = ConsumeRequest { offer_id: 7, ticket_digest: [0; 32], controller_device_id: [1; 32], transcript_digest: [2; 32] };
    assert_eq!(silent.try_consume_until(request, true, later()), Err(PairingError::ClockUnavailable));
    assert_eq!(silent.try_consume_until(request, true, elapsed()), Err(PairingError::DeadlineExceeded));
}

#[test]
fn manager_consumption_checks_the_proof_and_excludes_a_second_consumer() {
    let mut manager = manager(Some(PairingNow::new(100, 5)), Some(0x3C));
    let offer_id = manager.draw_offer_id_until(later()).expect("fresh identifier");
    let serial = match manager.admit_create(3, [0x61; 32]).expect("clock") {
        CreateAdmission::Created { serial } => serial,
        other => panic!("fresh create allocates: {other:?}"),
    };
    let created = match manager.install_offer(issued(offer_id)).expect("clock") {
        InstallOutcome::Installed(created) => created,
        other => panic!("offer installs: {other:?}"),
    };
    manager.complete_create(3, serial, Ok(created));
    let first = ConsumeRequest { offer_id, ticket_digest: [0x21; 32], controller_device_id: [1; 32], transcript_digest: [2; 32] };
    assert_eq!(manager.try_consume_until(first, false, later()), Err(PairingError::InvalidProof));
    assert_eq!(manager.offer_state(offer_id), Ok(PairOfferState::Ready));
    assert_eq!(manager.try_consume_until(first, true, later()), Ok(()));
    assert_eq!(manager.offer_state(offer_id), Ok(PairOfferState::Consuming));
    let second = ConsumeRequest { controller_device_id: [3; 32], transcript_digest: [4; 32], ..first };
    assert_eq!(manager.try_consume_until(second, true, later()), Err(PairingError::OfferConsuming));
    assert_eq!(manager.rollback(offer_id, [1; 32], [2; 32]), Ok(PairOfferState::Ready));
    assert_eq!(manager.offer_state(offer_id), Ok(PairOfferState::Ready));
}

use zterm_daemon::system_time::{clock_reading, pairing_unix_seconds, seconds_or_zero, signed_unix_seconds};

#[test]
fn system_clock_readings_become_pairing_observations() {
    assert_eq!(clock_reading(Some(1_700_000_000), 42), Ok(PairingNow::new(1_700_000_000, 42)));
    assert_eq!(clock_reading(Some(5), u128::from(u64::MAX) + 1), Ok(PairingNow::new(5, u64::MAX)));
    assert_eq!(clock_reading(None, 42), Err(PairingClockError));
    assert_eq!(seconds_or_zero(Some(9)), 9);
    assert_eq!(seconds_or_zero(None), 0);
    assert_eq!(pairing_unix_seconds(Some(9)).expect("reading"), 9);
    assert_eq!(pairing_unix_seconds(None).expect_err("before epoch").kind, zterm_daemon::error::DomainErrorKind::TransportUnavailable);
    assert_eq!(signed_unix_seconds(i64::MAX as u64).expect("fits"), i64::MAX);
    assert_eq!(
        signed_unix_seconds(i64::MAX as u64 + 1).expect_err("out of range").kind,
        zterm_daemon::error::DomainErrorKind::TransportUnavailable
    );
}
