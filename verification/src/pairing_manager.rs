//! The host's pairing manager: the offer registry together with the injected
//! clock and entropy sources, and the caller deadlines read on the process clock.

use vstd::prelude::*;

use crate::offer_registry::{
    admission_view, install_view, offer_id_from_bytes, offer_id_in_use, outcome_view, registry_wf, spec_admit,
    spec_commit, spec_complete, spec_consume_checked, spec_expire, spec_install, spec_offer_state, spec_rollback,
    spec_snapshot, AdmissionView, ConsumeRequest, CreateAdmission, InstallOutcome, IssuedOffer, PairOfferCreated,
    PairingRegistry, RegistryView,
};
use crate::pairing::{
    deadline_outcome, entropy_outcome, nonce_outcome, spec_nonce_outcome, PairOfferState, PairingClock, PairingEntropy,
    PairingError, PairingNow, PairingSnapshot,
};
use crate::system_time::deadline_reached;

verus! {

/// Draws of a fresh offer identifier before creation gives up.
pub const RANDOM_COLLISION_ATTEMPTS: usize = 8;

/// Limits a manager is built with.
#[derive(Clone, Copy, Debug, PartialEq, Eq, Structural)]
pub struct ManagerLimits {
    pub max_live_offers: usize,
    pub max_ticket_text_bytes: usize,
}

/// Host-side owner of pairing offers and of the clock and entropy its operations read.
pub struct PairingManager<C: PairingClock, E: PairingEntropy> {
    host_device_id: [u8; 32],
    clock: C,
    entropy: E,
    registry: PairingRegistry,
}

impl<C: PairingClock, E: PairingEntropy> View for PairingManager<C, E> {
    type V = RegistryView;

    closed spec fn view(&self) -> RegistryView {
        self.registry@
    }
}

impl<C: PairingClock, E: PairingEntropy> PairingManager<C, E> {
    /// Well-formedness of the owned registry, so that the registry laws apply to the manager.
    pub open spec fn wf(&self) -> bool {
        registry_wf(self@)
    }

    /// The host identity embedded into every ticket and transcript.
    pub closed spec fn spec_host_device_id(&self) -> [u8; 32] {
        self.host_device_id
    }

    /// A manager with no offers, reading the injected clock and entropy.
    pub fn with_dependencies(host_device_id: [u8; 32], limits: ManagerLimits, clock: C, entropy: E) -> (manager: Self)
        ensures
            manager.wf(),
            manager.spec_host_device_id() == host_device_id,
            manager@.max_live == limits.max_live_offers,
            manager@.max_ticket_text_bytes == limits.max_ticket_text_bytes,
            manager@.offers.len() == 0,
            manager@.operations.len() == 0,
            manager@.retired_offers.len() == 0,
            manager@.retired_operations.len() == 0,
    {
        let registry = PairingRegistry::new(limits.max_live_offers, limits.max_ticket_text_bytes);
        PairingManager { host_device_id, clock, entropy, registry }
    }

    /// Host identity embedded into every ticket and transcript.
    pub fn host_device_id(&self) -> (id: [u8; 32])
        ensures
            id == self.spec_host_device_id(),
    {
        self.host_device_id
    }

    /// One reading of the injected clock; a failing clock is `ClockUnavailable`.
    pub fn now(&self) -> (now: Result<PairingNow, PairingError>)
        ensures
            now matches Err(error) ==> error == PairingError::ClockUnavailable,
    {
        match self.clock.now() {
            Ok(now) => Ok(now),
            Err(_) => Err(PairingError::ClockUnavailable),
        }
    }

    /// A fresh 32-byte nonce from the injected entropy, drawn only while the
    /// caller's `deadline` has not been reached on the process monotonic clock,
    /// checked before and after the draw.
    pub fn random_nonce_until(&self, deadline: std::time::Instant) -> (nonce: Result<[u8; 32], PairingError>)
        ensures
            exists|reached_before: bool, filled: bool, reached_after: bool| match nonce {
                Ok(_) => spec_nonce_outcome(reached_before, filled, reached_after) == Ok::<(), PairingError>(()),
                Err(error) => spec_nonce_outcome(reached_before, filled, reached_after) == Err::<(), PairingError>(error),
            },
    {
        let mut bytes = [0u8; 32];
        let reached_before = deadline_reached(deadline);
        let filled = if reached_before { false } else { self.entropy.fill(&mut bytes).is_ok() };
        let reached_after = if reached_before || !filled { false } else { deadline_reached(deadline) };
        nonce_outcome(reached_before, filled, reached_after, bytes)
    }

    /// Admits one local create operation at the clock's reading: joins,
    /// replays, rejects a reused identifier, or allocates a pending cell.
    pub fn admit_create(&mut self, operation_id: u128, fingerprint: [u8; 32]) -> (admission: Result<CreateAdmission, PairingError>)
        requires
            old(self).wf(),
        ensures
            final(self).wf(),
            final(self).spec_host_device_id() == old(self).spec_host_device_id(),
            match admission {
                Ok(admission) => exists|now: PairingNow| final(self)@ == spec_admit(old(self)@, now, operation_id, fingerprint).0
                    && spec_admit(old(self)@, now, operation_id, fingerprint).1 == Ok::<AdmissionView, PairingError>(admission_view(admission)),
                Err(error) => (error == PairingError::ClockUnavailable && final(self)@ == old(self)@)
                    || exists|now: PairingNow| final(self)@ == spec_admit(old(self)@, now, operation_id, fingerprint).0
                        && spec_admit(old(self)@, now, operation_id, fingerprint).1 == Err::<AdmissionView, PairingError>(error),
            },
    {
        let now = self.now()?;
        self.registry.admit_create(now, operation_id, fingerprint)
    }

    /// Installs a freshly issued offer as Ready at the clock's reading.
    pub fn install_offer(&mut self, offer: IssuedOffer) -> (outcome: Result<InstallOutcome, PairingError>)
        requires
            old(self).wf(),
        ensures
            final(self).wf(),
            final(self).spec_host_device_id() == old(self).spec_host_device_id(),
            match outcome {
                Ok(outcome) => exists|now: PairingNow| final(self)@ == spec_install(old(self)@, now, offer).0
                    && install_view(outcome) == spec_install(old(self)@, now, offer).1,
                Err(error) => error == PairingError::ClockUnavailable && final(self)@ == old(self)@,
            },
    {
        let now = self.now()?;
        let ghost before = self@;
        let ghost issued = offer;
        let outcome = self.registry.install_offer(now, offer);
        assert(self@ == spec_install(before, now, issued).0 && install_view(outcome) == spec_install(before, now, issued).1);
        Ok(outcome)
    }

    /// Records the outcome of the executing create of `operation_id` under `serial`.
    pub fn complete_create(&mut self, operation_id: u128, serial: u64, outcome: Result<PairOfferCreated, PairingError>)
        requires
            old(self).wf(),
        ensures
            final(self).wf(),
            final(self).spec_host_device_id() == old(self).spec_host_device_id(),
            final(self)@ == spec_complete(old(self)@, operation_id, serial, outcome_view(outcome)),
    {
        self.registry.complete_create(operation_id, serial, outcome)
    }

    /// An offer identifier from the injected entropy that is neither live nor
    /// remembered as retired. Each draw first checks the caller's `deadline` on
    /// the process monotonic clock; a colliding draw is repeated, and
    /// `RANDOM_COLLISION_ATTEMPTS` colliding draws give `ResourceExhausted`.
    pub fn draw_offer_id_until(&self, deadline: std::time::Instant) -> (drawn: Result<u128, PairingError>)
        requires
            self.wf(),
        ensures
            match drawn {
                Ok(offer_id) => !offer_id_in_use(self@, offer_id)
                    && exists|bytes: Seq<u8>| bytes.len() == 16 && offer_id == offer_id_from_bytes(bytes),
                Err(PairingError::ResourceExhausted) => exists|draws: Seq<Seq<u8>>| draws.len() == RANDOM_COLLISION_ATTEMPTS
                    && forall|i: int| 0 <= i < draws.len() ==> (#[trigger] draws[i]).len() == 16
                        && offer_id_in_use(self@, offer_id_from_bytes(draws[i])),
                Err(error) => error == PairingError::DeadlineExceeded || error == PairingError::EntropyUnavailable,
            },
    {
        let ghost mut draws: Seq<Seq<u8>> = Seq::empty();
        let mut attempt: usize = 0;
        while attempt < RANDOM_COLLISION_ATTEMPTS
            invariant
                attempt <= RANDOM_COLLISION_ATTEMPTS,
                draws.len() == attempt,
                forall|i: int| 0 <= i < draws.len() ==> (#[trigger] draws[i]).len() == 16
                    && offer_id_in_use(self@, offer_id_from_bytes(draws[i])),
            decreases RANDOM_COLLISION_ATTEMPTS - attempt,
        {
            deadline_outcome(deadline_reached(deadline))?;
            let mut bytes = [0u8; 16];
            entropy_outcome(self.entropy.fill(&mut bytes))?;
            match self.registry.fresh_offer_id(&bytes) {
                Some(offer_id) => {
                    return Ok(offer_id);
                },
                None => {},
            }
            proof {
                draws = draws.push(bytes@);
            }
            attempt = attempt + 1;
        }
        Err(PairingError::ResourceExhausted)
    }

    /// Public state of one offer after the expiry sweep at the clock's reading.
    pub fn offer_state(&mut self, offer_id: u128) -> (state: Result<PairOfferState, PairingError>)
        requires
            old(self).wf(),
        ensures
            final(self).wf(),
            final(self).spec_host_device_id() == old(self).spec_host_device_id(),
            match state {
                Ok(state) => exists|now: PairingNow| final(self)@ == spec_expire(old(self)@, now)
                    && Ok::<PairOfferState, PairingError>(state) == spec_offer_state(old(self)@, now, offer_id),
                Err(error) => (error == PairingError::ClockUnavailable && final(self)@ == old(self)@)
                    || exists|now: PairingNow| final(self)@ == spec_expire(old(self)@, now)
                        && Err::<PairOfferState, PairingError>(error) == spec_offer_state(old(self)@, now, offer_id),
            },
    {
        let now = self.now()?;
        let ghost before = self@;
        let state = self.registry.offer_state(now, offer_id);
        assert(self@ == spec_expire(before, now) && state == spec_offer_state(before, now, offer_id));
        state
    }

    /// Removes every Ready offer expired at the clock's reading.
    pub fn prune_expired(&mut self) -> (removed: Result<usize, PairingError>)
        requires
            old(self).wf(),
        ensures
            final(self).wf(),
            final(self).spec_host_device_id() == old(self).spec_host_device_id(),
            match removed {
                Ok(_) => exists|now: PairingNow| final(self)@ == spec_expire(old(self)@, now),
                Err(error) => error == PairingError::ClockUnavailable && final(self)@ == old(self)@,
            },
    {
        let now = self.now()?;
        let ghost before = self@;
        let removed = self.registry.prune_expired(now);
        assert(self@ == spec_expire(before, now));
        Ok(removed)
    }

    /// Bounded counts after the expiry sweep at the clock's reading.
    pub fn snapshot(&mut self) -> (snapshot: Result<PairingSnapshot, PairingError>)
        requires
            old(self).wf(),
        ensures
            final(self).wf(),
            final(self).spec_host_device_id() == old(self).spec_host_device_id(),
            match snapshot {
                Ok(snapshot) => (exists|now: PairingNow| final(self)@ == spec_expire(old(self)@, now)
                    && snapshot == spec_snapshot(spec_expire(old(self)@, now)))
                    && snapshot.ready_offers + snapshot.consuming_offers <= old(self)@.max_live
                    && snapshot.operation_cells <= old(self)@.max_live
                    && snapshot.retired_operation_tombstones <= old(self)@.max_live
                    && snapshot.consumed_tombstones + snapshot.expired_tombstones <= old(self)@.max_live,
                Err(error) => error == PairingError::ClockUnavailable && final(self)@ == old(self)@,
            },
    {
        let now = self.now()?;
        let ghost before = self@;
        proof {
            crate::pairing_laws::law_snapshot_counts_live_offers(before, now);
        }
        let snapshot = self.registry.snapshot(now);
        assert(self@ == spec_expire(before, now) && snapshot == spec_snapshot(spec_expire(before, now)));
        Ok(snapshot)
    }

    /// Proof-before-CAS of one consumer under the caller's `deadline`, checked
    /// on the process monotonic clock before the injected clock is read:
    /// `proof_valid` says whether the controller proof authenticated the exact
    /// transcript under the offer's key.
    pub fn try_consume_until(&mut self, request: ConsumeRequest, proof_valid: bool, deadline: std::time::Instant) -> (result: Result<(), PairingError>)
        requires
            old(self).wf(),
        ensures
            final(self).wf(),
            final(self).spec_host_device_id() == old(self).spec_host_device_id(),
            exists|reached: bool, now: Option<PairingNow>|
                (final(self)@, result) == spec_consume_checked(old(self)@, reached, now, request, proof_valid),
    {
        let reached = deadline_reached(deadline);
        let now = if reached {
            None
        } else {
            match self.clock.now() {
                Ok(now) => Some(now),
                Err(_) => None,
            }
        };
        self.registry.try_consume_checked(reached, now, request, proof_valid)
    }

    /// Rolls a pre-commit failure back; an unreadable clock leaves the offer
    /// Ready rather than retiring it as expired.
    pub fn rollback(&mut self, offer_id: u128, controller_device_id: [u8; 32], transcript_digest: [u8; 32]) -> (result: Result<PairOfferState, PairingError>)
        requires
            old(self).wf(),
        ensures
            final(self).wf(),
            final(self).spec_host_device_id() == old(self).spec_host_device_id(),
            exists|now: Option<PairingNow>|
                final(self)@ == spec_rollback(old(self)@, now, offer_id, controller_device_id, transcript_digest).0
                && result == spec_rollback(old(self)@, now, offer_id, controller_device_id, transcript_digest).1,
    {
        let now = match self.clock.now() {
            Ok(now) => Some(now),
            Err(_) => None,
        };
        let ghost before = self@;
        let result = self.registry.rollback(now, offer_id, controller_device_id, transcript_digest);
        assert(self@ == spec_rollback(before, now, offer_id, controller_device_id, transcript_digest).0
            && result == spec_rollback(before, now, offer_id, controller_device_id, transcript_digest).1);
        result
    }

    /// Marks a durably authorized consumer as consumed exactly once; returns the offer key.
    pub fn commit(
        &mut self,
        offer_id: u128,
        controller_device_id: [u8; 32],
        transcript_digest: [u8; 32],
        transcript: &[u8],
        generation: u64,
    ) -> (result: Result<[u8; 32], PairingError>)
        requires
            old(self).wf(),
            transcript@.len() < 0x2000_0000_0000_0000,
        ensures
            final(self).wf(),
            final(self).spec_host_device_id() == old(self).spec_host_device_id(),
            final(self)@ == spec_commit(old(self)@, offer_id, controller_device_id, transcript_digest, transcript@, generation).0,
            result == spec_commit(old(self)@, offer_id, controller_device_id, transcript_digest, transcript@, generation).1,
    {
        self.registry.commit(offer_id, controller_device_id, transcript_digest, transcript, generation)
    }
}

} // verus!
