//! Bounded in-memory ownership of one-time pairing offers.
//!
//! The registry owns the proof-before-CAS state transition of each offer and
//! the exact replay cells of local create operations. Every transition is a
//! verified function of the state and its plain inputs; the clock readings,
//! entropy and ticket cryptography are supplied by the caller.

use vstd::prelude::*;

use crate::bytes::{bytes32_eq, copy_bytes};
use crate::control_packet::{be_value, read_be_wide};
use crate::crypto::{sha256, sha256_digest};
use crate::pairing::{PairTicketError, PairingError, PairingNow, PairOfferState, PairingSnapshot};
use crate::tombstones::{
    Tombstone, insert_tombstone, log_insert, log_lookup, lookup_tombstone,
};

verus! {

/// Pre-commit state of a live offer.
#[derive(Clone, Copy, Debug)]
pub enum LiveOfferState {
    /// The offer may accept a valid proof.
    Ready,
    /// One controller won the proof-before-CAS and owns the offer until
    /// rollback or commit.
    Consuming { controller_device_id: [u8; 32], transcript_digest: [u8; 32] },
}

/// One live offer and the verifier material bound to it.
#[derive(Clone, Copy, Debug)]
pub struct OfferRecord {
    pub offer_id: u128,
    pub expires_at_unix: u64,
    pub monotonic_deadline: u64,
    pub ticket_digest: [u8; 32],
    pub offer_key: [u8; 32],
    pub operation_id: u128,
    pub fingerprint: [u8; 32],
    pub state: LiveOfferState,
}

/// Exact replayable result of one local pair-create mutation.
#[derive(Debug)]
pub struct PairOfferCreated {
    pub offer_id: u128,
    pub expires_at_unix: u64,
    pub ticket: Vec<u8>,
}

/// Specification value of a created offer.
pub struct CreatedView {
    pub offer_id: u128,
    pub expires_at_unix: u64,
    pub ticket: Seq<u8>,
}

impl View for PairOfferCreated {
    type V = CreatedView;

    open spec fn view(&self) -> CreatedView {
        CreatedView { offer_id: self.offer_id, expires_at_unix: self.expires_at_unix, ticket: self.ticket@ }
    }
}

impl PairOfferCreated {
    /// An independent copy with the same offer and ticket bytes.
    pub fn duplicate(&self) -> (copy: PairOfferCreated)
        ensures
            copy@ == self@,
    {
        PairOfferCreated {
            offer_id: self.offer_id,
            expires_at_unix: self.expires_at_unix,
            ticket: copy_bytes(self.ticket.as_slice()),
        }
    }
}

/// Specification value of a create outcome.
pub open spec fn outcome_view(outcome: Result<PairOfferCreated, PairingError>) -> Result<CreatedView, PairingError> {
    match outcome {
        Ok(created) => Ok(created@),
        Err(error) => Err(error),
    }
}

/// Replay cell of one local create operation.
#[derive(Debug)]
pub struct OperationCell {
    pub operation_id: u128,
    pub fingerprint: [u8; 32],
    pub serial: u64,
    pub outcome: Option<Result<PairOfferCreated, PairingError>>,
}

/// Specification value of an operation cell.
pub struct OperationView {
    pub operation_id: u128,
    pub fingerprint: [u8; 32],
    pub serial: u64,
    pub outcome: Option<Result<CreatedView, PairingError>>,
}

impl View for OperationCell {
    type V = OperationView;

    open spec fn view(&self) -> OperationView {
        OperationView {
            operation_id: self.operation_id,
            fingerprint: self.fingerprint,
            serial: self.serial,
            outcome: match self.outcome {
                Some(outcome) => Some(outcome_view(outcome)),
                None => None,
            },
        }
    }
}

/// Specification value of the whole registry.
#[verifier::ext_equal]
pub struct RegistryView {
    pub max_live: nat,
    pub max_ticket_text_bytes: nat,
    pub offers: Seq<OfferRecord>,
    pub operations: Seq<OperationView>,
    pub retired_offers: Seq<Tombstone>,
    pub retired_operations: Seq<Tombstone>,
    pub next_serial: nat,
}

// ---------------------------------------------------------------------------
// Sequence helpers over offers.
// ---------------------------------------------------------------------------

/// Whether either clock reached the offer's expiry.
pub open spec fn offer_expired(record: OfferRecord, now: PairingNow) -> bool {
    now.spec_unix_seconds() >= record.expires_at_unix || now.spec_monotonic() >= record.monotonic_deadline
}

/// Whether the offer is Ready and expired at `now`.
pub open spec fn expiry_victim(record: OfferRecord, now: PairingNow) -> bool {
    record.state is Ready && offer_expired(record, now)
}

/// Index of the newest live offer with identifier `id`, or -1.
pub open spec fn offer_index(offers: Seq<OfferRecord>, id: u128) -> int
    decreases offers.len(),
{
    if offers.len() == 0 {
        -1
    } else if offers.last().offer_id == id {
        offers.len() - 1
    } else {
        offer_index(offers.drop_last(), id)
    }
}

/// The live offer with identifier `id`, if any.
pub open spec fn offer_lookup(offers: Seq<OfferRecord>, id: u128) -> Option<OfferRecord> {
    let index = offer_index(offers, id);
    if index >= 0 {
        Some(offers[index])
    } else {
        None
    }
}

/// Offers that survive an expiry sweep at `now`, in order.
pub open spec fn expiry_survivors(offers: Seq<OfferRecord>, now: PairingNow) -> Seq<OfferRecord>
    decreases offers.len(),
{
    if offers.len() == 0 {
        offers
    } else if expiry_victim(offers.last(), now) {
        expiry_survivors(offers.drop_last(), now)
    } else {
        expiry_survivors(offers.drop_last(), now).push(offers.last())
    }
}

/// Offers removed by an expiry sweep at `now`, in order.
pub open spec fn expiry_victims(offers: Seq<OfferRecord>, now: PairingNow) -> Seq<OfferRecord>
    decreases offers.len(),
{
    if offers.len() == 0 {
        offers
    } else if expiry_victim(offers.last(), now) {
        expiry_victims(offers.drop_last(), now).push(offers.last())
    } else {
        expiry_victims(offers.drop_last(), now)
    }
}

/// Number of Ready offers.
pub open spec fn count_ready(offers: Seq<OfferRecord>) -> nat
    decreases offers.len(),
{
    if offers.len() == 0 {
        0
    } else {
        count_ready(offers.drop_last()) + if offers.last().state is Ready { 1nat } else { 0nat }
    }
}

/// Number of Consuming offers.
pub open spec fn count_consuming(offers: Seq<OfferRecord>) -> nat
    decreases offers.len(),
{
    if offers.len() == 0 {
        0
    } else {
        count_consuming(offers.drop_last()) + if offers.last().state is Consuming { 1nat } else { 0nat }
    }
}

/// Number of tombstones that ended with `error`.
pub open spec fn count_error(log: Seq<Tombstone>, error: PairingError) -> nat
    decreases log.len(),
{
    if log.len() == 0 {
        0
    } else {
        count_error(log.drop_last(), error) + if log.last().error == error { 1nat } else { 0nat }
    }
}

/// Offer identifiers strictly ascend.
pub open spec fn offers_sorted(offers: Seq<OfferRecord>) -> bool {
    forall|i: int, j: int| 0 <= i < j < offers.len() ==> offers[i].offer_id < offers[j].offer_id
}

/// Position at which `id` is inserted into ascending offers.
pub open spec fn insertion_point(offers: Seq<OfferRecord>, id: u128) -> nat
    decreases offers.len(),
{
    if offers.len() == 0 {
        0
    } else if offers.last().offer_id < id {
        offers.len()
    } else {
        insertion_point(offers.drop_last(), id)
    }
}

// ---------------------------------------------------------------------------
// Sequence helpers over operation cells.
// ---------------------------------------------------------------------------

/// Index of the newest operation cell for `id`, or -1.
pub open spec fn operation_index(operations: Seq<OperationView>, id: u128) -> int
    decreases operations.len(),
{
    if operations.len() == 0 {
        -1
    } else if operations.last().operation_id == id {
        operations.len() - 1
    } else {
        operation_index(operations.drop_last(), id)
    }
}

/// The operation cell for `id`, if any.
pub open spec fn operation_lookup(operations: Seq<OperationView>, id: u128) -> Option<OperationView> {
    let index = operation_index(operations, id);
    if index >= 0 {
        Some(operations[index])
    } else {
        None
    }
}

/// The operation cells without the one for `id`.
pub open spec fn operations_without(operations: Seq<OperationView>, id: u128) -> Seq<OperationView>
    decreases operations.len(),
{
    if operations.len() == 0 {
        operations
    } else if operations.last().operation_id == id {
        operations_without(operations.drop_last(), id)
    } else {
        operations_without(operations.drop_last(), id).push(operations.last())
    }
}

/// Operation identifiers are pairwise distinct.
pub open spec fn operations_unique(operations: Seq<OperationView>) -> bool {
    forall|i: int, j: int| 0 <= i < j < operations.len() ==> operations[i].operation_id != operations[j].operation_id
}

// ---------------------------------------------------------------------------
// The transition model.
// ---------------------------------------------------------------------------

/// Retires the replay cell of an operation into its bounded tombstone log.
pub open spec fn retire_operation(v: RegistryView, operation_id: u128, fingerprint: [u8; 32], error: PairingError) -> RegistryView {
    RegistryView {
        operations: operations_without(v.operations, operation_id),
        retired_operations: log_insert(
            v.retired_operations,
            v.max_live,
            Tombstone { key: operation_id, fingerprint, error },
        ),
        ..v
    }
}

/// Retires a removed offer record and its creating operation with `error`.
pub open spec fn retire_offer(v: RegistryView, record: OfferRecord, error: PairingError) -> RegistryView {
    let v1 = retire_operation(v, record.operation_id, record.fingerprint, error);
    RegistryView {
        retired_offers: log_insert(
            v1.retired_offers,
            v1.max_live,
            Tombstone { key: record.offer_id, fingerprint: record.fingerprint, error },
        ),
        ..v1
    }
}

/// Retires each record of `records`, in order.
pub open spec fn retire_each(v: RegistryView, records: Seq<OfferRecord>, error: PairingError) -> RegistryView
    decreases records.len(),
{
    if records.len() == 0 {
        v
    } else {
        retire_offer(retire_each(v, records.drop_last(), error), records.last(), error)
    }
}

/// The registry after removing every Ready offer expired at `now`.
pub open spec fn spec_expire(v: RegistryView, now: PairingNow) -> RegistryView {
    retire_each(
        RegistryView { offers: expiry_survivors(v.offers, now), ..v },
        expiry_victims(v.offers, now),
        PairingError::TicketExpired,
    )
}

/// The terminal error for an identifier that is not live.
pub open spec fn terminal_error(v: RegistryView, offer_id: u128) -> PairingError {
    match log_lookup(v.retired_offers, offer_id) {
        Some(tombstone) => tombstone.error,
        None => PairingError::OfferNotFound,
    }
}

/// Well-formedness of a registry value.
pub open spec fn registry_wf(v: RegistryView) -> bool {
    &&& offers_sorted(v.offers)
    &&& v.offers.len() <= v.max_live
    &&& operations_unique(v.operations)
    &&& v.operations.len() <= v.max_live
    &&& v.retired_offers.len() <= v.max_live
    &&& v.retired_operations.len() <= v.max_live
}


/// Serial number that follows `serial`, wrapping at the top of `u64`.
pub open spec fn serial_after(serial: nat) -> nat {
    if serial >= u64::MAX { 0 } else { serial + 1 }
}

/// Admission of one local create operation, as a specification value.
pub enum AdmissionView {
    /// A fresh pending cell was allocated under `serial`.
    Created { serial: u64 },
    /// A cell for the same operation and fingerprint is still executing.
    Pending { serial: u64 },
    /// A completed cell for the same operation and fingerprint replays its outcome.
    Replay(Result<CreatedView, PairingError>),
}

/// The registry after admitting operation `operation_id` with `fingerprint`
/// at `now`, and the admission outcome.
pub open spec fn spec_admit(v: RegistryView, now: PairingNow, operation_id: u128, fingerprint: [u8; 32]) -> (RegistryView, Result<AdmissionView, PairingError>) {
    let v1 = spec_expire(v, now);
    match operation_lookup(v1.operations, operation_id) {
        Some(cell) => if cell.fingerprint@ != fingerprint@ {
            (v1, Err(PairingError::OutcomeUnknown))
        } else {
            match cell.outcome {
                Some(outcome) => (v1, Ok(AdmissionView::Replay(outcome))),
                None => (v1, Ok(AdmissionView::Pending { serial: cell.serial })),
            }
        },
        None => match log_lookup(v1.retired_operations, operation_id) {
            Some(tombstone) => (v1, Err(if tombstone.fingerprint@ == fingerprint@ { tombstone.error } else { PairingError::OutcomeUnknown })),
            None => if v1.offers.len() >= v1.max_live || v1.operations.len() >= v1.max_live {
                (v1, Err(PairingError::ResourceExhausted))
            } else {
                (
                    RegistryView {
                        operations: v1.operations.push(OperationView {
                            operation_id,
                            fingerprint,
                            serial: v1.next_serial as u64,
                            outcome: None,
                        }),
                        next_serial: serial_after(v1.next_serial),
                        ..v1
                    },
                    Ok(AdmissionView::Created { serial: v1.next_serial as u64 }),
                )
            },
        },
    }
}

/// Whether an offer identifier is live or still remembered as retired.
pub open spec fn offer_id_in_use(v: RegistryView, offer_id: u128) -> bool {
    offer_lookup(v.offers, offer_id) is Some || log_lookup(v.retired_offers, offer_id) is Some
}

/// The offer identifier that drawn bytes spell, most significant byte first.
pub open spec fn offer_id_from_bytes(bytes: Seq<u8>) -> u128 {
    be_value(bytes) as u128
}

/// A freshly issued offer, as handed to the registry by the ticket issuer.
pub struct IssuedOffer {
    pub offer_id: u128,
    pub expires_at_unix: u64,
    pub monotonic_deadline: u64,
    pub ticket_digest: [u8; 32],
    pub offer_key: [u8; 32],
    pub operation_id: u128,
    pub fingerprint: [u8; 32],
    pub ticket: Vec<u8>,
}

/// The Ready record that an issued offer becomes.
pub open spec fn issued_record(offer: IssuedOffer) -> OfferRecord {
    OfferRecord {
        offer_id: offer.offer_id,
        expires_at_unix: offer.expires_at_unix,
        monotonic_deadline: offer.monotonic_deadline,
        ticket_digest: offer.ticket_digest,
        offer_key: offer.offer_key,
        operation_id: offer.operation_id,
        fingerprint: offer.fingerprint,
        state: LiveOfferState::Ready,
    }
}

/// Result of installing an issued offer, as a specification value.
pub enum InstallView {
    /// The offer is live and Ready.
    Installed(CreatedView),
    /// The identifier is already live or retired; the caller draws a new one.
    Collision,
    /// The offer cannot be installed.
    Failed(PairingError),
}

/// The registry after installing `offer` at `now`, and the outcome.
pub open spec fn spec_install(v: RegistryView, now: PairingNow, offer: IssuedOffer) -> (RegistryView, InstallView) {
    let record = issued_record(offer);
    if offer.ticket@.len() > v.max_ticket_text_bytes {
        (v, InstallView::Failed(PairingError::ResourceExhausted))
    } else if offer_expired(record, now) {
        (v, InstallView::Failed(PairingError::TicketExpired))
    } else {
        let v1 = spec_expire(v, now);
        if offer_id_in_use(v1, offer.offer_id) {
            (v1, InstallView::Collision)
        } else if v1.offers.len() >= v1.max_live {
            (v1, InstallView::Failed(PairingError::ResourceExhausted))
        } else {
            (
                with_offers(v1, v1.offers.insert(insertion_point(v1.offers, offer.offer_id) as int, record)),
                InstallView::Installed(CreatedView {
                    offer_id: offer.offer_id,
                    expires_at_unix: offer.expires_at_unix,
                    ticket: offer.ticket@,
                }),
            )
        }
    }
}

/// The registry after the executing create of `operation_id` under `serial`
/// finished with `outcome`.
pub open spec fn spec_complete(v: RegistryView, operation_id: u128, serial: u64, outcome: Result<CreatedView, PairingError>) -> RegistryView {
    let index = operation_index(v.operations, operation_id);
    if index >= 0 && v.operations[index].serial == serial {
        let cell = v.operations[index];
        let completed = if cell.outcome is None {
            RegistryView {
                operations: v.operations.update(index, OperationView { outcome: Some(outcome), ..cell }),
                ..v
            }
        } else {
            v
        };
        match outcome {
            Ok(_) => completed,
            Err(error) => retire_operation(completed, operation_id, cell.fingerprint, error),
        }
    } else {
        v
    }
}

/// Public fields of a Ready offer used to build a challenge.
pub struct ReadyOffer {
    pub offer_id: u128,
    pub expires_at_unix: u64,
    pub ticket_digest: [u8; 32],
}

/// The Ready offer `offer_id` at `now`, or why it cannot be challenged.
pub open spec fn spec_ready(v: RegistryView, now: PairingNow, offer_id: u128) -> Result<ReadyOffer, PairingError> {
    let v1 = spec_expire(v, now);
    match offer_lookup(v1.offers, offer_id) {
        Some(record) => match record.state {
            LiveOfferState::Ready => Ok(ReadyOffer {
                offer_id: record.offer_id,
                expires_at_unix: record.expires_at_unix,
                ticket_digest: record.ticket_digest,
            }),
            LiveOfferState::Consuming { .. } => Err(PairingError::OfferConsuming),
        },
        None => Err(terminal_error(v1, offer_id)),
    }
}

/// One attempted consumer of an offer: the challenge it answered.
#[derive(Clone, Copy, Debug)]
pub struct ConsumeRequest {
    pub offer_id: u128,
    pub ticket_digest: [u8; 32],
    pub controller_device_id: [u8; 32],
    pub transcript_digest: [u8; 32],
}

/// The registry and result of one consumer under a caller deadline: a
/// reached deadline, then an unreadable clock, leave the registry unchanged.
pub open spec fn spec_consume_checked(
    v: RegistryView,
    deadline_reached: bool,
    now: Option<PairingNow>,
    request: ConsumeRequest,
    proof_valid: bool,
) -> (RegistryView, Result<(), PairingError>) {
    if deadline_reached {
        (v, Err(PairingError::DeadlineExceeded))
    } else {
        match now {
            Some(now) => spec_consume(v, now, request, proof_valid),
            None => (v, Err(PairingError::ClockUnavailable)),
        }
    }
}

/// The registry after the proof-before-CAS of `request` at `now`, where
/// `proof_valid` says whether the controller proof authenticated the exact
/// transcript under the offer's key, and the outcome.
pub open spec fn spec_consume(v: RegistryView, now: PairingNow, request: ConsumeRequest, proof_valid: bool) -> (RegistryView, Result<(), PairingError>) {
    let v1 = spec_expire(v, now);
    let index = offer_index(v1.offers, request.offer_id);
    if index < 0 {
        (v1, Err(terminal_error(v1, request.offer_id)))
    } else {
        let record = v1.offers[index];
        if record.ticket_digest@ != request.ticket_digest@ {
            (v1, Err(PairingError::StateConflict))
        } else {
            match record.state {
                LiveOfferState::Ready => if !proof_valid {
                    (v1, Err(PairingError::InvalidProof))
                } else {
                    (
                        with_offers(v1, v1.offers.update(index, OfferRecord {
                            state: LiveOfferState::Consuming {
                                controller_device_id: request.controller_device_id,
                                transcript_digest: request.transcript_digest,
                            },
                            ..record
                        })),
                        Ok(()),
                    )
                },
                LiveOfferState::Consuming { .. } => (v1, Err(PairingError::OfferConsuming)),
            }
        }
    }
}

/// Whether the offer is held by exactly this consumer.
pub open spec fn held_by(record: OfferRecord, controller_device_id: [u8; 32], transcript_digest: [u8; 32]) -> bool {
    match record.state {
        LiveOfferState::Consuming { controller_device_id: current, transcript_digest: digest } =>
            current@ == controller_device_id@ && digest@ == transcript_digest@,
        LiveOfferState::Ready => false,
    }
}

/// The outcome of releasing a permit whose offer is no longer live.
pub open spec fn retired_release(v: RegistryView, offer_id: u128) -> Result<PairOfferState, PairingError> {
    match log_lookup(v.retired_offers, offer_id) {
        Some(tombstone) => match tombstone.error {
            PairingError::TicketExpired => Ok(PairOfferState::Expired),
            PairingError::TicketConsumed => Ok(PairOfferState::Consumed),
            error => Err(error),
        },
        None => Err(PairingError::StateConflict),
    }
}

/// The registry after rolling back the consumer of `offer_id`; `now` is
/// `None` when the clock could not be read, and the outcome.
pub open spec fn spec_rollback(v: RegistryView, now: Option<PairingNow>, offer_id: u128, controller_device_id: [u8; 32], transcript_digest: [u8; 32]) -> (RegistryView, Result<PairOfferState, PairingError>) {
    let index = offer_index(v.offers, offer_id);
    if index < 0 {
        (v, retired_release(v, offer_id))
    } else {
        let record = v.offers[index];
        if !held_by(record, controller_device_id, transcript_digest) {
            (v, Err(PairingError::StateConflict))
        } else if now matches Some(now) && offer_expired(record, now) {
            (retire_offer(with_offers(v, v.offers.remove(index)), record, PairingError::TicketExpired), Ok(PairOfferState::Expired))
        } else {
            (with_offers(v, v.offers.update(index, OfferRecord { state: LiveOfferState::Ready, ..record })), Ok(PairOfferState::Ready))
        }
    }
}

/// The registry after committing the consumer of `offer_id` whose canonical
/// transcript is `transcript` at authorization `generation`, and the outcome
/// (the offer key on success).
pub open spec fn spec_commit(v: RegistryView, offer_id: u128, controller_device_id: [u8; 32], transcript_digest: [u8; 32], transcript: Seq<u8>, generation: u64) -> (RegistryView, Result<[u8; 32], PairingError>) {
    let index = offer_index(v.offers, offer_id);
    if generation == 0 {
        (v, Err(PairingError::InvalidTicket(PairTicketError::ZeroAuthorizationGeneration)))
    } else if index < 0 {
        (v, Err(terminal_error(v, offer_id)))
    } else {
        let record = v.offers[index];
        if !held_by(record, controller_device_id, transcript_digest) {
            (v, Err(PairingError::StateConflict))
        } else if sha256_digest(transcript) != transcript_digest@ {
            (v, Err(PairingError::StateConflict))
        } else {
            (retire_offer(with_offers(v, v.offers.remove(index)), record, PairingError::TicketConsumed), Ok(record.offer_key))
        }
    }
}

/// Public state of `offer_id` at `now`.
pub open spec fn spec_offer_state(v: RegistryView, now: PairingNow, offer_id: u128) -> Result<PairOfferState, PairingError> {
    let v1 = spec_expire(v, now);
    match offer_lookup(v1.offers, offer_id) {
        Some(record) => match record.state {
            LiveOfferState::Ready => Ok(PairOfferState::Ready),
            LiveOfferState::Consuming { .. } => Ok(PairOfferState::Consuming),
        },
        None => match log_lookup(v1.retired_offers, offer_id) {
            Some(tombstone) => match tombstone.error {
                PairingError::TicketConsumed => Ok(PairOfferState::Consumed),
                PairingError::TicketExpired => Ok(PairOfferState::Expired),
                error => Err(error),
            },
            None => Err(PairingError::OfferNotFound),
        },
    }
}

/// Bounded counts of a registry value.
pub open spec fn spec_snapshot(v: RegistryView) -> PairingSnapshot {
    PairingSnapshot {
        ready_offers: count_ready(v.offers) as usize,
        consuming_offers: count_consuming(v.offers) as usize,
        operation_cells: v.operations.len() as usize,
        retired_operation_tombstones: v.retired_operations.len() as usize,
        consumed_tombstones: count_error(v.retired_offers, PairingError::TicketConsumed) as usize,
        expired_tombstones: count_error(v.retired_offers, PairingError::TicketExpired) as usize,
    }
}

/// The registry value with its offers replaced.
pub open spec fn with_offers(v: RegistryView, offers: Seq<OfferRecord>) -> RegistryView {
    RegistryView { offers, ..v }
}

/// Retiring records never touches the live offers and commutes with replacing them.
pub proof fn lemma_retire_each_offers(v: RegistryView, records: Seq<OfferRecord>, error: PairingError, offers: Seq<OfferRecord>)
    ensures
        retire_each(v, records, error).offers == v.offers,
        retire_each(v, records, error).max_live == v.max_live,
        retire_each(with_offers(v, offers), records, error) == with_offers(retire_each(v, records, error), offers),
    decreases records.len(),
{
    if records.len() > 0 {
        lemma_retire_each_offers(v, records.drop_last(), error, offers);
    }
}

/// What the index of an offer identifier says about the sequence.
pub proof fn lemma_offer_index(offers: Seq<OfferRecord>, id: u128)
    ensures
        -1 <= offer_index(offers, id) < offers.len(),
        offer_index(offers, id) >= 0 ==> offers[offer_index(offers, id)].offer_id == id,
        forall|j: int| offer_index(offers, id) < j < offers.len() ==> offers[j].offer_id != id,
    decreases offers.len(),
{
    if offers.len() > 0 {
        let rest = offers.drop_last();
        lemma_offer_index(rest, id);
        if offers.last().offer_id != id {
            assert forall|j: int| offer_index(offers, id) < j < offers.len() implies offers[j].offer_id != id by {
                if j < offers.len() - 1 {
                    assert(offers[j] == rest[j]);
                }
            }
        }
    }
}

/// What the index of an operation identifier says about the sequence.
pub proof fn lemma_operation_index(operations: Seq<OperationView>, id: u128)
    ensures
        -1 <= operation_index(operations, id) < operations.len(),
        operation_index(operations, id) >= 0 ==> operations[operation_index(operations, id)].operation_id == id,
        forall|j: int| operation_index(operations, id) < j < operations.len() ==> operations[j].operation_id != id,
    decreases operations.len(),
{
    if operations.len() > 0 {
        let rest = operations.drop_last();
        lemma_operation_index(rest, id);
        if operations.last().operation_id != id {
            assert forall|j: int| operation_index(operations, id) < j < operations.len() implies operations[j].operation_id != id by {
                if j < operations.len() - 1 {
                    assert(operations[j] == rest[j]);
                }
            }
        }
    }
}

/// Survivors of a sweep are drawn from the sweep's input and keep it ascending.
pub proof fn lemma_survivors(offers: Seq<OfferRecord>, now: PairingNow)
    ensures
        expiry_survivors(offers, now).len() <= offers.len(),
        forall|i: int| 0 <= i < expiry_survivors(offers, now).len() ==> exists|j: int| 0 <= j < offers.len() && #[trigger] expiry_survivors(offers, now)[i] == offers[j],
        forall|i: int| 0 <= i < expiry_survivors(offers, now).len() ==> !expiry_victim(#[trigger] expiry_survivors(offers, now)[i], now),
        offers_sorted(offers) ==> offers_sorted(expiry_survivors(offers, now)),
    decreases offers.len(),
{
    if offers.len() > 0 {
        let rest = offers.drop_last();
        lemma_survivors(rest, now);
        let kept = expiry_survivors(rest, now);
        if !expiry_victim(offers.last(), now) {
            let pushed = kept.push(offers.last());
            assert forall|i: int| 0 <= i < pushed.len() implies !expiry_victim(#[trigger] pushed[i], now) by {
                if i < kept.len() {
                    assert(pushed[i] == kept[i]);
                }
            }
            assert forall|i: int| 0 <= i < pushed.len() implies exists|j: int| 0 <= j < offers.len() && #[trigger] pushed[i] == offers[j] by {
                if i < kept.len() {
                    let j = choose|j: int| 0 <= j < rest.len() && kept[i] == rest[j];
                    assert(pushed[i] == offers[j]);
                } else {
                    assert(pushed[i] == offers[offers.len() - 1]);
                }
            }
            if offers_sorted(offers) {
                assert forall|i: int, k: int| 0 <= i < k < pushed.len() implies pushed[i].offer_id < pushed[k].offer_id by {
                    if k < kept.len() {
                    } else {
                        let j = choose|j: int| 0 <= j < rest.len() && kept[i] == rest[j];
                        assert(kept[i] == offers[j]);
                    }
                }
            }
        } else {
            assert forall|i: int| 0 <= i < kept.len() implies exists|j: int| 0 <= j < offers.len() && #[trigger] kept[i] == offers[j] by {
                let j = choose|j: int| 0 <= j < rest.len() && kept[i] == rest[j];
                assert(kept[i] == offers[j]);
            }
        }
    }
}

/// Removing an operation keeps the remaining identifiers distinct.
pub proof fn lemma_operations_without(operations: Seq<OperationView>, id: u128)
    ensures
        operations_without(operations, id).len() <= operations.len(),
        forall|i: int| 0 <= i < operations_without(operations, id).len() ==> exists|j: int| 0 <= j < operations.len() && #[trigger] operations_without(operations, id)[i] == operations[j],
        operations_unique(operations) ==> operations_unique(operations_without(operations, id)),
    decreases operations.len(),
{
    if operations.len() > 0 {
        let rest = operations.drop_last();
        lemma_operations_without(rest, id);
        let kept = operations_without(rest, id);
        if operations.last().operation_id != id {
            let pushed = kept.push(operations.last());
            assert forall|i: int| 0 <= i < pushed.len() implies exists|j: int| 0 <= j < operations.len() && #[trigger] pushed[i] == operations[j] by {
                if i < kept.len() {
                    let j = choose|j: int| 0 <= j < rest.len() && kept[i] == rest[j];
                    assert(pushed[i] == operations[j]);
                } else {
                    assert(pushed[i] == operations[operations.len() - 1]);
                }
            }
            if operations_unique(operations) {
                assert forall|i: int, k: int| 0 <= i < k < pushed.len() implies pushed[i].operation_id != pushed[k].operation_id by {
                    if k < kept.len() {
                    } else {
                        let j = choose|j: int| 0 <= j < rest.len() && kept[i] == rest[j];
                        assert(kept[i] == operations[j]);
                    }
                }
            }
        } else {
            assert forall|i: int| 0 <= i < kept.len() implies exists|j: int| 0 <= j < operations.len() && #[trigger] kept[i] == operations[j] by {
                let j = choose|j: int| 0 <= j < rest.len() && kept[i] == rest[j];
                assert(kept[i] == operations[j]);
            }
        }
    }
}

/// Retiring an offer keeps the registry well formed.
pub proof fn lemma_retire_offer_wf(v: RegistryView, record: OfferRecord, error: PairingError)
    requires
        registry_wf(v),
    ensures
        registry_wf(retire_offer(v, record, error)),
        retire_offer(v, record, error).offers == v.offers,
        retire_offer(v, record, error).max_live == v.max_live,
{
    lemma_operations_without(v.operations, record.operation_id);
}

/// Retiring a sequence of offers keeps the registry well formed.
pub proof fn lemma_retire_each_wf(v: RegistryView, records: Seq<OfferRecord>, error: PairingError)
    requires
        registry_wf(v),
    ensures
        registry_wf(retire_each(v, records, error)),
    decreases records.len(),
{
    if records.len() > 0 {
        lemma_retire_each_wf(v, records.drop_last(), error);
        lemma_retire_offer_wf(retire_each(v, records.drop_last(), error), records.last(), error);
    }
}

/// An expiry sweep keeps the registry well formed.
pub proof fn lemma_expire_wf(v: RegistryView, now: PairingNow)
    requires
        registry_wf(v),
    ensures
        registry_wf(spec_expire(v, now)),
        spec_expire(v, now).max_live == v.max_live,
        spec_expire(v, now).max_ticket_text_bytes == v.max_ticket_text_bytes,
        spec_expire(v, now).next_serial == v.next_serial,
{
    lemma_survivors(v.offers, now);
    let start = with_offers(v, expiry_survivors(v.offers, now));
    lemma_retire_each_wf(start, expiry_victims(v.offers, now), PairingError::TicketExpired);
    lemma_retire_each_fields(start, expiry_victims(v.offers, now), PairingError::TicketExpired);
}

/// Retiring never changes the bounds or the serial counter.
pub proof fn lemma_retire_each_fields(v: RegistryView, records: Seq<OfferRecord>, error: PairingError)
    ensures
        retire_each(v, records, error).max_live == v.max_live,
        retire_each(v, records, error).max_ticket_text_bytes == v.max_ticket_text_bytes,
        retire_each(v, records, error).next_serial == v.next_serial,
    decreases records.len(),
{
    if records.len() > 0 {
        lemma_retire_each_fields(v, records.drop_last(), error);
    }
}

/// Where an absent identifier is inserted into ascending offers.
pub proof fn lemma_insertion_point(offers: Seq<OfferRecord>, id: u128)
    requires
        offers_sorted(offers),
        offer_index(offers, id) == -1,
    ensures
        insertion_point(offers, id) <= offers.len(),
        forall|i: int| 0 <= i < insertion_point(offers, id) ==> offers[i].offer_id < id,
        forall|i: int| insertion_point(offers, id) <= i < offers.len() ==> offers[i].offer_id > id,
    decreases offers.len(),
{
    lemma_offer_index(offers, id);
    if offers.len() > 0 {
        let rest = offers.drop_last();
        let last = offers.len() - 1;
        assert(offers_sorted(rest));
        assert(offers[last].offer_id != id);
        assert(offer_index(rest, id) == -1);
        if offers.last().offer_id < id {
            assert forall|i: int| 0 <= i < insertion_point(offers, id) implies offers[i].offer_id < id by {
                if i < last {
                    assert(offers[i].offer_id < offers[last].offer_id);
                }
            }
        } else {
            lemma_insertion_point(rest, id);
            assert forall|i: int| 0 <= i < insertion_point(offers, id) implies offers[i].offer_id < id by {
                assert(offers[i] == rest[i]);
            }
            assert forall|i: int| insertion_point(offers, id) <= i < offers.len() implies offers[i].offer_id > id by {
                if i < last {
                    assert(offers[i] == rest[i]);
                }
            }
        }
    }
}

/// Admission of one local create operation.
#[derive(Debug)]
pub enum CreateAdmission {
    /// A fresh pending cell was allocated under `serial`; the caller issues the offer.
    Created { serial: u64 },
    /// A cell for the same operation and fingerprint is still executing.
    Pending { serial: u64 },
    /// A completed cell for the same operation and fingerprint replays its outcome.
    Replay(Result<PairOfferCreated, PairingError>),
}

/// Specification value of an admission.
pub open spec fn admission_view(admission: CreateAdmission) -> AdmissionView {
    match admission {
        CreateAdmission::Created { serial } => AdmissionView::Created { serial },
        CreateAdmission::Pending { serial } => AdmissionView::Pending { serial },
        CreateAdmission::Replay(outcome) => AdmissionView::Replay(outcome_view(outcome)),
    }
}

/// Result of installing an issued offer.
#[derive(Debug)]
pub enum InstallOutcome {
    /// The offer is live and Ready.
    Installed(PairOfferCreated),
    /// The identifier is already live or retired; the caller draws a new one.
    Collision,
    /// The offer cannot be installed.
    Failed(PairingError),
}

/// Specification value of an install outcome.
pub open spec fn install_view(outcome: InstallOutcome) -> InstallView {
    match outcome {
        InstallOutcome::Installed(created) => InstallView::Installed(created@),
        InstallOutcome::Collision => InstallView::Collision,
        InstallOutcome::Failed(error) => InstallView::Failed(error),
    }
}

/// Specification value of an optional create outcome.
pub open spec fn optional_outcome_view(outcome: Option<Result<PairOfferCreated, PairingError>>) -> Option<Result<CreatedView, PairingError>> {
    match outcome {
        Some(outcome) => Some(outcome_view(outcome)),
        None => None,
    }
}

/// Copies a create outcome.
fn duplicate_outcome(outcome: &Result<PairOfferCreated, PairingError>) -> (copy: Result<PairOfferCreated, PairingError>)
    ensures
        outcome_view(copy) == outcome_view(*outcome),
{
    match outcome {
        Ok(created) => Ok(created.duplicate()),
        Err(error) => Err(*error),
    }
}

/// Bounded owner of live pairing offers, their replay cells and tombstones.
pub struct PairingRegistry {
    max_live_offers: usize,
    max_ticket_text_bytes: usize,
    offers: Vec<OfferRecord>,
    operations: Vec<OperationCell>,
    retired_offers: Vec<Tombstone>,
    retired_operations: Vec<Tombstone>,
    next_serial: u64,
}

impl View for PairingRegistry {
    type V = RegistryView;

    closed spec fn view(&self) -> RegistryView {
        RegistryView {
            max_live: self.max_live_offers as nat,
            max_ticket_text_bytes: self.max_ticket_text_bytes as nat,
            offers: self.offers@,
            operations: self.operations@.map_values(|cell: OperationCell| cell@),
            retired_offers: self.retired_offers@,
            retired_operations: self.retired_operations@,
            next_serial: self.next_serial as nat,
        }
    }
}

impl PairingRegistry {
    /// Well-formedness: sorted unique live offers and every list within the live bound.
    pub open spec fn wf(&self) -> bool {
        registry_wf(self@)
    }

    /// An empty registry bounded by `max_live_offers` live offers and
    /// `max_ticket_text_bytes` bytes of encoded ticket.
    pub fn new(max_live_offers: usize, max_ticket_text_bytes: usize) -> (registry: PairingRegistry)
        ensures
            registry.wf(),
            registry@.max_live == max_live_offers,
            registry@.max_ticket_text_bytes == max_ticket_text_bytes,
            registry@.offers.len() == 0,
            registry@.operations.len() == 0,
            registry@.retired_offers.len() == 0,
            registry@.retired_operations.len() == 0,
            registry@.next_serial == 0,
    {
        let registry = PairingRegistry {
            max_live_offers,
            max_ticket_text_bytes,
            offers: Vec::new(),
            operations: Vec::new(),
            retired_offers: Vec::new(),
            retired_operations: Vec::new(),
            next_serial: 0,
        };
        assert(registry@.operations =~= Seq::<OperationView>::empty());
        registry
    }

    /// Index of the live offer `offer_id`.
    fn find_offer(&self, offer_id: u128) -> (found: Option<usize>)
        ensures
            match found {
                Some(index) => index as int == offer_index(self@.offers, offer_id),
                None => offer_index(self@.offers, offer_id) == -1,
            },
    {
        let mut index: usize = self.offers.len();
        proof {
            assert(self.offers@.subrange(0, index as int) =~= self.offers@);
        }
        while index > 0
            invariant
                0 <= index <= self.offers@.len(),
                offer_index(self@.offers, offer_id) == offer_index(self.offers@.subrange(0, index as int), offer_id),
            decreases index,
        {
            proof {
                assert(self.offers@.subrange(0, index as int).drop_last() =~= self.offers@.subrange(0, index - 1));
            }
            if self.offers[index - 1].offer_id == offer_id {
                return Some(index - 1);
            }
            index = index - 1;
        }
        None
    }

    /// Index of the replay cell of `operation_id`.
    fn find_operation(&self, operation_id: u128) -> (found: Option<usize>)
        ensures
            match found {
                Some(index) => index as int == operation_index(self@.operations, operation_id),
                None => operation_index(self@.operations, operation_id) == -1,
            },
    {
        let ghost cells = self@.operations;
        let mut index: usize = self.operations.len();
        proof {
            assert(cells.subrange(0, index as int) =~= cells);
        }
        while index > 0
            invariant
                0 <= index <= cells.len(),
                cells == self@.operations,
                cells.len() == self.operations@.len(),
                operation_index(cells, operation_id) == operation_index(cells.subrange(0, index as int), operation_id),
            decreases index,
        {
            proof {
                assert(cells.subrange(0, index as int).drop_last() =~= cells.subrange(0, index - 1));
                assert(cells[index - 1] == self.operations@[index - 1]@);
            }
            if self.operations[index - 1].operation_id == operation_id {
                return Some(index - 1);
            }
            index = index - 1;
        }
        None
    }

    /// Admits one local create operation at `now`: joins a pending cell,
    /// replays a completed or retired outcome, rejects a reused identifier
    /// with another fingerprint, or allocates a pending cell.
    pub fn admit_create(&mut self, now: PairingNow, operation_id: u128, fingerprint: [u8; 32]) -> (admission: Result<CreateAdmission, PairingError>)
        requires
            old(self).wf(),
        ensures
            final(self).wf(),
            final(self)@ == spec_admit(old(self)@, now, operation_id, fingerprint).0,
            match admission {
                Ok(admission) => spec_admit(old(self)@, now, operation_id, fingerprint).1 == Ok::<AdmissionView, PairingError>(admission_view(admission)),
                Err(error) => spec_admit(old(self)@, now, operation_id, fingerprint).1 == Err::<AdmissionView, PairingError>(error),
            },
    {
        proof {
            lemma_expire_wf(self@, now);
        }
        self.expire_ready(now);
        let ghost v1 = self@;
        proof {
            lemma_operation_index(v1.operations, operation_id);
        }
        match self.find_operation(operation_id) {
            Some(index) => {
                let cell = &self.operations[index];
                proof {
                    assert(v1.operations[index as int] == cell@);
                }
                if !bytes32_eq(&cell.fingerprint, &fingerprint) {
                    return Err(PairingError::OutcomeUnknown);
                }
                match &cell.outcome {
                    Some(outcome) => Ok(CreateAdmission::Replay(duplicate_outcome(outcome))),
                    None => Ok(CreateAdmission::Pending { serial: cell.serial }),
                }
            },
            None => match lookup_tombstone(&self.retired_operations, operation_id) {
                Some(tombstone) => {
                    if bytes32_eq(&tombstone.fingerprint, &fingerprint) {
                        Err(tombstone.error)
                    } else {
                        Err(PairingError::OutcomeUnknown)
                    }
                },
                None => {
                    if self.offers.len() >= self.max_live_offers || self.operations.len() >= self.max_live_offers {
                        return Err(PairingError::ResourceExhausted);
                    }
                    let serial = self.next_serial;
                    self.next_serial = if serial == u64::MAX { 0 } else { serial + 1 };
                    let ghost before = self.operations@;
                    self.operations.push(OperationCell { operation_id, fingerprint, serial, outcome: None });
                    proof {
                        assert(self.operations@.map_values(|cell: OperationCell| cell@) =~= before.map_values(|cell: OperationCell| cell@).push(OperationView { operation_id, fingerprint, serial, outcome: None }));
                        lemma_operation_index(v1.operations, operation_id);
                        assert(self@ =~= spec_admit(old(self)@, now, operation_id, fingerprint).0);
                        assert(operations_unique(self@.operations));
                    }
                    Ok(CreateAdmission::Created { serial })
                },
            },
        }
    }

    /// Whether `offer_id` is live or still remembered as retired.
    pub fn offer_id_in_use(&self, offer_id: u128) -> (in_use: bool)
        ensures
            in_use == offer_id_in_use(self@, offer_id),
    {
        proof {
            lemma_offer_index(self@.offers, offer_id);
        }
        self.find_offer(offer_id).is_some() || lookup_tombstone(&self.retired_offers, offer_id).is_some()
    }

    /// The identifier that sixteen drawn bytes spell, unless it is live or
    /// still remembered as retired and must be drawn again.
    pub fn fresh_offer_id(&self, bytes: &[u8; 16]) -> (fresh: Option<u128>)
        ensures
            fresh == (if offer_id_in_use(self@, offer_id_from_bytes(bytes@)) {
                None::<u128>
            } else {
                Some(offer_id_from_bytes(bytes@))
            }),
    {
        let all: &[u8] = bytes;
        let offer_id = read_be_wide(all);
        if self.offer_id_in_use(offer_id) {
            None
        } else {
            Some(offer_id)
        }
    }

    /// Installs a freshly issued offer as Ready at `now`.
    pub fn install_offer(&mut self, now: PairingNow, offer: IssuedOffer) -> (outcome: InstallOutcome)
        requires
            old(self).wf(),
        ensures
            final(self).wf(),
            final(self)@ == spec_install(old(self)@, now, offer).0,
            install_view(outcome) == spec_install(old(self)@, now, offer).1,
    {
        if offer.ticket.len() > self.max_ticket_text_bytes {
            return InstallOutcome::Failed(PairingError::ResourceExhausted);
        }
        if now.unix_seconds() >= offer.expires_at_unix || now.monotonic() >= offer.monotonic_deadline {
            return InstallOutcome::Failed(PairingError::TicketExpired);
        }
        proof {
            lemma_expire_wf(self@, now);
        }
        self.expire_ready(now);
        if self.offer_id_in_use(offer.offer_id) {
            return InstallOutcome::Collision;
        }
        if self.offers.len() >= self.max_live_offers {
            return InstallOutcome::Failed(PairingError::ResourceExhausted);
        }
        let ghost v1 = self@;
        let record = OfferRecord {
            offer_id: offer.offer_id,
            expires_at_unix: offer.expires_at_unix,
            monotonic_deadline: offer.monotonic_deadline,
            ticket_digest: offer.ticket_digest,
            offer_key: offer.offer_key,
            operation_id: offer.operation_id,
            fingerprint: offer.fingerprint,
            state: LiveOfferState::Ready,
        };
        let mut position: usize = self.offers.len();
        proof {
            assert(self.offers@.subrange(0, position as int) =~= self.offers@);
        }
        while position > 0 && self.offers[position - 1].offer_id > offer.offer_id
            invariant
                0 <= position <= self.offers@.len(),
                self@ == v1,
                insertion_point(v1.offers, offer.offer_id) == insertion_point(v1.offers.subrange(0, position as int), offer.offer_id),
            decreases position,
        {
            proof {
                assert(v1.offers.subrange(0, position as int).drop_last() =~= v1.offers.subrange(0, position - 1));
            }
            position = position - 1;
        }
        proof {
            if position > 0 {
                let prefix = v1.offers.subrange(0, position as int);
                assert(prefix.last().offer_id <= offer.offer_id);
                lemma_offer_index(v1.offers, offer.offer_id);
                assert(v1.offers[position - 1].offer_id != offer.offer_id);
            }
            lemma_offer_index(v1.offers, offer.offer_id);
            lemma_insertion_point(v1.offers, offer.offer_id);
        }
        self.offers.insert(position, record);
        proof {
            let inserted = self.offers@;
            assert forall|i: int, j: int| 0 <= i < j < inserted.len() implies inserted[i].offer_id < inserted[j].offer_id by {
                if j < position {
                } else if j == position {
                } else if i < position {
                } else if i == position {
                } else {
                }
            }
            assert(self@ =~= spec_install(old(self)@, now, offer).0);
        }
        InstallOutcome::Installed(PairOfferCreated {
            offer_id: offer.offer_id,
            expires_at_unix: offer.expires_at_unix,
            ticket: offer.ticket,
        })
    }

    /// Records the outcome of the executing create of `operation_id` under
    /// `serial`; a failed create retires its cell so that the identifier
    /// replays the failure while its tombstone is retained.
    pub fn complete_create(&mut self, operation_id: u128, serial: u64, outcome: Result<PairOfferCreated, PairingError>)
        requires
            old(self).wf(),
        ensures
            final(self).wf(),
            final(self)@ == spec_complete(old(self)@, operation_id, serial, outcome_view(outcome)),
    {
        let ghost v0 = self@;
        proof {
            lemma_operation_index(v0.operations, operation_id);
        }
        let index = match self.find_operation(operation_id) {
            Some(index) => index,
            None => return,
        };
        if self.operations[index].serial != serial {
            proof {
                assert(v0.operations[index as int] == self.operations@[index as int]@);
            }
            return;
        }
        let fingerprint = self.operations[index].fingerprint;
        let pending = self.operations[index].outcome.is_none();
        proof {
            assert(v0.operations[index as int] == self.operations@[index as int]@);
        }
        let failure = match &outcome {
            Ok(_) => None,
            Err(error) => Some(*error),
        };
        if pending {
            let ghost before = self.operations@;
            self.operations.set(index, OperationCell { operation_id, fingerprint, serial, outcome: Some(outcome) });
            proof {
                assert(self.operations@.map_values(|cell: OperationCell| cell@) =~= before.map_values(|cell: OperationCell| cell@).update(index as int, self.operations@[index as int]@));
                assert forall|i: int, j: int| 0 <= i < j < self@.operations.len() implies self@.operations[i].operation_id != self@.operations[j].operation_id by {
                    assert(v0.operations[i].operation_id == self@.operations[i].operation_id);
                    assert(v0.operations[j].operation_id == self@.operations[j].operation_id);
                }
            }
        }
        let ghost completed = self@;
        proof {
            assert(completed =~= (if v0.operations[index as int].outcome is None {
                RegistryView {
                    operations: v0.operations.update(index as int, OperationView { outcome: Some(outcome_view(outcome)), ..v0.operations[index as int] }),
                    ..v0
                }
            } else {
                v0
            }));
        }
        match failure {
            Some(error) => {
                proof {
                    lemma_operations_without(completed.operations, operation_id);
                }
                self.retire_operation_locked(operation_id, fingerprint, error);
            },
            None => {},
        }
    }

    /// The Ready offer `offer_id` at `now`, after the expiry sweep.
    pub fn ready_offer(&mut self, now: PairingNow, offer_id: u128) -> (ready: Result<ReadyOffer, PairingError>)
        requires
            old(self).wf(),
        ensures
            final(self).wf(),
            final(self)@ == spec_expire(old(self)@, now),
            ready == spec_ready(old(self)@, now, offer_id),
    {
        proof {
            lemma_expire_wf(self@, now);
        }
        self.expire_ready(now);
        proof {
            lemma_offer_index(self@.offers, offer_id);
        }
        match self.find_offer(offer_id) {
            Some(index) => {
                let record = self.offers[index];
                match record.state {
                    LiveOfferState::Ready => Ok(ReadyOffer {
                        offer_id: record.offer_id,
                        expires_at_unix: record.expires_at_unix,
                        ticket_digest: record.ticket_digest,
                    }),
                    LiveOfferState::Consuming { .. } => Err(PairingError::OfferConsuming),
                }
            },
            None => Err(self.terminal_error(offer_id)),
        }
    }

    /// The terminal error of an identifier that is not live.
    fn terminal_error(&self, offer_id: u128) -> (error: PairingError)
        ensures
            error == terminal_error(self@, offer_id),
    {
        match lookup_tombstone(&self.retired_offers, offer_id) {
            Some(tombstone) => tombstone.error,
            None => PairingError::OfferNotFound,
        }
    }

    /// The verifier key of the live offer `offer_id`, without changing state.
    pub fn offer_key(&self, offer_id: u128) -> (key: Option<[u8; 32]>)
        ensures
            key == (match offer_lookup(self@.offers, offer_id) {
                Some(record) => Some(record.offer_key),
                None => None::<[u8; 32]>,
            }),
    {
        proof {
            lemma_offer_index(self@.offers, offer_id);
        }
        match self.find_offer(offer_id) {
            Some(index) => Some(self.offers[index].offer_key),
            None => None,
        }
    }

    /// One consumer under a caller deadline: a reached deadline fails first,
    /// then an unreadable clock, and only then the proof-before-CAS at `now`.
    pub fn try_consume_checked(
        &mut self,
        deadline_reached: bool,
        now: Option<PairingNow>,
        request: ConsumeRequest,
        proof_valid: bool,
    ) -> (result: Result<(), PairingError>)
        requires
            old(self).wf(),
        ensures
            final(self).wf(),
            (final(self)@, result) == spec_consume_checked(old(self)@, deadline_reached, now, request, proof_valid),
    {
        if deadline_reached {
            return Err(PairingError::DeadlineExceeded);
        }
        match now {
            Some(now) => self.try_consume(now, request, proof_valid),
            None => Err(PairingError::ClockUnavailable),
        }
    }

    /// Proof-before-CAS: after the expiry sweep at `now`, a Ready offer whose
    /// ticket digest matches becomes Consuming by this controller exactly when
    /// `proof_valid` holds.
    pub fn try_consume(&mut self, now: PairingNow, request: ConsumeRequest, proof_valid: bool) -> (result: Result<(), PairingError>)
        requires
            old(self).wf(),
        ensures
            final(self).wf(),
            final(self)@ == spec_consume(old(self)@, now, request, proof_valid).0,
            result == spec_consume(old(self)@, now, request, proof_valid).1,
    {
        proof {
            lemma_expire_wf(self@, now);
        }
        self.expire_ready(now);
        let ghost v1 = self@;
        proof {
            lemma_offer_index(v1.offers, request.offer_id);
        }
        let index = match self.find_offer(request.offer_id) {
            Some(index) => index,
            None => return Err(self.terminal_error(request.offer_id)),
        };
        let record = self.offers[index];
        if !bytes32_eq(&record.ticket_digest, &request.ticket_digest) {
            return Err(PairingError::StateConflict);
        }
        match record.state {
            LiveOfferState::Ready => {
                if !proof_valid {
                    return Err(PairingError::InvalidProof);
                }
                let updated = OfferRecord {
                    state: LiveOfferState::Consuming {
                        controller_device_id: request.controller_device_id,
                        transcript_digest: request.transcript_digest,
                    },
                    ..record
                };
                self.offers.set(index, updated);
                proof {
                    assert forall|i: int, j: int| 0 <= i < j < self@.offers.len() implies self@.offers[i].offer_id < self@.offers[j].offer_id by {
                        assert(self@.offers[i].offer_id == v1.offers[i].offer_id);
                        assert(self@.offers[j].offer_id == v1.offers[j].offer_id);
                    }
                    assert(self@ =~= spec_consume(old(self)@, now, request, proof_valid).0);
                }
                Ok(())
            },
            LiveOfferState::Consuming { .. } => Err(PairingError::OfferConsuming),
        }
    }

    /// Whether the offer at `index` is held by exactly this consumer.
    fn held_by_at(&self, index: usize, controller_device_id: &[u8; 32], transcript_digest: &[u8; 32]) -> (held: bool)
        requires
            index < self@.offers.len(),
        ensures
            held == held_by(self@.offers[index as int], *controller_device_id, *transcript_digest),
    {
        match self.offers[index].state {
            LiveOfferState::Consuming { controller_device_id: current, transcript_digest: digest } =>
                bytes32_eq(&current, controller_device_id) && bytes32_eq(&digest, transcript_digest),
            LiveOfferState::Ready => false,
        }
    }

    /// Removes the live offer at `index` and retires it with `error`.
    fn remove_and_retire(&mut self, index: usize, error: PairingError) -> (record: OfferRecord)
        requires
            old(self).wf(),
            index < old(self)@.offers.len(),
        ensures
            final(self).wf(),
            record == old(self)@.offers[index as int],
            final(self)@ == retire_offer(with_offers(old(self)@, old(self)@.offers.remove(index as int)), record, error),
    {
        let ghost v0 = self@;
        let record = self.offers.remove(index);
        proof {
            assert(self@ =~= with_offers(v0, v0.offers.remove(index as int)));
            assert forall|i: int, j: int| 0 <= i < j < self@.offers.len() implies self@.offers[i].offer_id < self@.offers[j].offer_id by {
                if i < index {
                    if j < index {
                    } else {
                        assert(self@.offers[j] == v0.offers[j + 1]);
                    }
                } else {
                    assert(self@.offers[i] == v0.offers[i + 1]);
                    assert(self@.offers[j] == v0.offers[j + 1]);
                }
            }
            lemma_retire_offer_wf(self@, record, error);
        }
        self.retire_offer_locked(record, error);
        record
    }

    /// Rolls a pre-commit failure back: the offer returns to Ready, or is
    /// retired as Expired when `now` shows that either clock elapsed.
    pub fn rollback(&mut self, now: Option<PairingNow>, offer_id: u128, controller_device_id: [u8; 32], transcript_digest: [u8; 32]) -> (result: Result<PairOfferState, PairingError>)
        requires
            old(self).wf(),
        ensures
            final(self).wf(),
            final(self)@ == spec_rollback(old(self)@, now, offer_id, controller_device_id, transcript_digest).0,
            result == spec_rollback(old(self)@, now, offer_id, controller_device_id, transcript_digest).1,
    {
        let ghost v0 = self@;
        proof {
            lemma_offer_index(v0.offers, offer_id);
        }
        let index = match self.find_offer(offer_id) {
            Some(index) => index,
            None => {
                return match lookup_tombstone(&self.retired_offers, offer_id) {
                    Some(tombstone) => match tombstone.error {
                        PairingError::TicketExpired => Ok(PairOfferState::Expired),
                        PairingError::TicketConsumed => Ok(PairOfferState::Consumed),
                        error => Err(error),
                    },
                    None => Err(PairingError::StateConflict),
                };
            },
        };
        if !self.held_by_at(index, &controller_device_id, &transcript_digest) {
            return Err(PairingError::StateConflict);
        }
        let record = self.offers[index];
        let expired = match now {
            Some(now) => now.unix_seconds() >= record.expires_at_unix || now.monotonic() >= record.monotonic_deadline,
            None => false,
        };
        if expired {
            self.remove_and_retire(index, PairingError::TicketExpired);
            return Ok(PairOfferState::Expired);
        }
        self.offers.set(index, OfferRecord { state: LiveOfferState::Ready, ..record });
        proof {
            assert forall|i: int, j: int| 0 <= i < j < self@.offers.len() implies self@.offers[i].offer_id < self@.offers[j].offer_id by {
                assert(self@.offers[i].offer_id == v0.offers[i].offer_id);
                assert(self@.offers[j].offer_id == v0.offers[j].offer_id);
            }
            assert(self@ =~= spec_rollback(v0, now, offer_id, controller_device_id, transcript_digest).0);
        }
        Ok(PairOfferState::Ready)
    }

    /// Marks a durably authorized consumer as consumed exactly once, after
    /// checking that `transcript` hashes to the digest the consumer proved.
    /// Returns the offer key for the host confirmation.
    pub fn commit(&mut self, offer_id: u128, controller_device_id: [u8; 32], transcript_digest: [u8; 32], transcript: &[u8], generation: u64) -> (result: Result<[u8; 32], PairingError>)
        requires
            old(self).wf(),
            transcript@.len() < 0x2000_0000_0000_0000,
        ensures
            final(self).wf(),
            final(self)@ == spec_commit(old(self)@, offer_id, controller_device_id, transcript_digest, transcript@, generation).0,
            result == spec_commit(old(self)@, offer_id, controller_device_id, transcript_digest, transcript@, generation).1,
    {
        if generation == 0 {
            return Err(PairingError::InvalidTicket(PairTicketError::ZeroAuthorizationGeneration));
        }
        let ghost v0 = self@;
        proof {
            lemma_offer_index(v0.offers, offer_id);
        }
        let index = match self.find_offer(offer_id) {
            Some(index) => index,
            None => return Err(self.terminal_error(offer_id)),
        };
        if !self.held_by_at(index, &controller_device_id, &transcript_digest) {
            return Err(PairingError::StateConflict);
        }
        let digest = sha256(transcript);
        if !bytes32_eq(&digest, &transcript_digest) {
            return Err(PairingError::StateConflict);
        }
        let record = self.remove_and_retire(index, PairingError::TicketConsumed);
        Ok(record.offer_key)
    }

    /// Public state of `offer_id` after the expiry sweep at `now`.
    pub fn offer_state(&mut self, now: PairingNow, offer_id: u128) -> (state: Result<PairOfferState, PairingError>)
        requires
            old(self).wf(),
        ensures
            final(self).wf(),
            final(self)@ == spec_expire(old(self)@, now),
            state == spec_offer_state(old(self)@, now, offer_id),
    {
        proof {
            lemma_expire_wf(self@, now);
        }
        self.expire_ready(now);
        proof {
            lemma_offer_index(self@.offers, offer_id);
        }
        match self.find_offer(offer_id) {
            Some(index) => match self.offers[index].state {
                LiveOfferState::Ready => Ok(PairOfferState::Ready),
                LiveOfferState::Consuming { .. } => Ok(PairOfferState::Consuming),
            },
            None => match lookup_tombstone(&self.retired_offers, offer_id) {
                Some(tombstone) => match tombstone.error {
                    PairingError::TicketConsumed => Ok(PairOfferState::Consumed),
                    PairingError::TicketExpired => Ok(PairOfferState::Expired),
                    error => Err(error),
                },
                None => Err(PairingError::OfferNotFound),
            },
        }
    }

    /// Removes every Ready offer expired at `now` and reports how many were removed.
    pub fn prune_expired(&mut self, now: PairingNow) -> (removed: usize)
        requires
            old(self).wf(),
        ensures
            final(self).wf(),
            final(self)@ == spec_expire(old(self)@, now),
            removed == expiry_victims(old(self)@.offers, now).len(),
    {
        proof {
            lemma_expire_wf(self@, now);
        }
        self.expire_ready(now)
    }

    /// Bounded counts after the expiry sweep at `now`; no ticket, verifier or transcript.
    pub fn snapshot(&mut self, now: PairingNow) -> (snapshot: PairingSnapshot)
        requires
            old(self).wf(),
        ensures
            final(self).wf(),
            final(self)@ == spec_expire(old(self)@, now),
            snapshot == spec_snapshot(spec_expire(old(self)@, now)),
    {
        proof {
            lemma_expire_wf(self@, now);
        }
        self.expire_ready(now);
        let mut ready: usize = 0;
        let mut consuming: usize = 0;
        let mut index: usize = 0;
        while index < self.offers.len()
            invariant
                0 <= index <= self.offers@.len(),
                ready == count_ready(self.offers@.subrange(0, index as int)),
                consuming == count_consuming(self.offers@.subrange(0, index as int)),
                ready + consuming <= index,
            decreases self.offers@.len() - index,
        {
            proof {
                assert(self.offers@.subrange(0, index + 1).drop_last() =~= self.offers@.subrange(0, index as int));
            }
            match self.offers[index].state {
                LiveOfferState::Ready => ready = ready + 1,
                LiveOfferState::Consuming { .. } => consuming = consuming + 1,
            }
            index = index + 1;
        }
        let mut consumed: usize = 0;
        let mut expired: usize = 0;
        let mut position: usize = 0;
        while position < self.retired_offers.len()
            invariant
                0 <= position <= self.retired_offers@.len(),
                consumed == count_error(self.retired_offers@.subrange(0, position as int), PairingError::TicketConsumed),
                expired == count_error(self.retired_offers@.subrange(0, position as int), PairingError::TicketExpired),
                consumed + expired <= position,
            decreases self.retired_offers@.len() - position,
        {
            proof {
                assert(self.retired_offers@.subrange(0, position + 1).drop_last() =~= self.retired_offers@.subrange(0, position as int));
            }
            match self.retired_offers[position].error {
                PairingError::TicketConsumed => consumed = consumed + 1,
                PairingError::TicketExpired => expired = expired + 1,
                _ => {},
            }
            position = position + 1;
        }
        proof {
            assert(self.offers@.subrange(0, self.offers@.len() as int) =~= self.offers@);
            assert(self.retired_offers@.subrange(0, self.retired_offers@.len() as int) =~= self.retired_offers@);
        }
        PairingSnapshot {
            ready_offers: ready,
            consuming_offers: consuming,
            operation_cells: self.operations.len(),
            retired_operation_tombstones: self.retired_operations.len(),
            consumed_tombstones: consumed,
            expired_tombstones: expired,
        }
    }

    /// Removes the replay cell of `operation_id` and records its tombstone.
    fn retire_operation_locked(&mut self, operation_id: u128, fingerprint: [u8; 32], error: PairingError)
        ensures
            final(self)@ == retire_operation(old(self)@, operation_id, fingerprint, error),
    {
        let ghost initial = self@.operations;
        let mut remaining: Vec<OperationCell> = Vec::new();
        std::mem::swap(&mut remaining, &mut self.operations);
        let ghost cells = remaining@;
        assert(cells.map_values(|cell: OperationCell| cell@) =~= initial);
        let mut kept: Vec<OperationCell> = Vec::new();
        let ghost mut consumed: int = 0;
        while remaining.len() > 0
            invariant
                0 <= consumed <= cells.len(),
                remaining@ == cells.subrange(consumed, cells.len() as int),
                kept@.map_values(|cell: OperationCell| cell@) == operations_without(initial.subrange(0, consumed), operation_id),
                initial == cells.map_values(|cell: OperationCell| cell@),
            decreases remaining@.len(),
        {
            let cell = remaining.remove(0);
            proof {
                assert(cell == cells[consumed]);
                assert(initial.subrange(0, consumed + 1).drop_last() =~= initial.subrange(0, consumed));
                assert(initial.subrange(0, consumed + 1).last() == cell@);
            }
            if cell.operation_id != operation_id {
                let ghost before = kept@;
                kept.push(cell);
                assert(kept@.map_values(|cell: OperationCell| cell@) =~= before.map_values(|cell: OperationCell| cell@).push(cell@));
            }
            proof {
                consumed = consumed + 1;
                assert(remaining@ =~= cells.subrange(consumed, cells.len() as int));
            }
        }
        assert(initial.subrange(0, consumed) =~= initial);
        self.operations = kept;
        insert_tombstone(
            &mut self.retired_operations,
            self.max_live_offers,
            Tombstone { key: operation_id, fingerprint, error },
        );
        assert(self@ =~= retire_operation(old(self)@, operation_id, fingerprint, error));
    }

    /// Retires a removed offer record and its creating operation.
    fn retire_offer_locked(&mut self, record: OfferRecord, error: PairingError)
        ensures
            final(self)@ == retire_offer(old(self)@, record, error),
    {
        self.retire_operation_locked(record.operation_id, record.fingerprint, error);
        insert_tombstone(
            &mut self.retired_offers,
            self.max_live_offers,
            Tombstone { key: record.offer_id, fingerprint: record.fingerprint, error },
        );
        assert(self@ =~= retire_offer(old(self)@, record, error));
    }

    /// Removes every Ready offer expired by wall or monotonic time.
    pub fn expire_ready(&mut self, now: PairingNow) -> (removed: usize)
        ensures
            final(self)@ == spec_expire(old(self)@, now),
            removed == expiry_victims(old(self)@.offers, now).len(),
    {
        let ghost v0 = self@;
        let ghost offers = self.offers@;
        let mut kept: Vec<OfferRecord> = Vec::new();
        let mut removed: usize = 0;
        let mut index: usize = 0;
        let length = self.offers.len();
        while index < length
            invariant
                0 <= index <= length,
                length == offers.len(),
                self.offers@ == offers,
                kept@ == expiry_survivors(offers.subrange(0, index as int), now),
                removed == expiry_victims(offers.subrange(0, index as int), now).len(),
                removed <= index,
                self@ == retire_each(v0, expiry_victims(offers.subrange(0, index as int), now), PairingError::TicketExpired),
            decreases length - index,
        {
            let record = self.offers[index];
            let ghost prefix = offers.subrange(0, index + 1);
            proof {
                assert(prefix.drop_last() =~= offers.subrange(0, index as int));
                assert(prefix.last() == record);
                lemma_retire_each_offers(v0, expiry_victims(offers.subrange(0, index as int), now), PairingError::TicketExpired, offers);
            }
            let is_ready = match record.state {
                LiveOfferState::Ready => true,
                LiveOfferState::Consuming { .. } => false,
            };
            if is_ready && (now.unix_seconds() >= record.expires_at_unix || now.monotonic() >= record.monotonic_deadline) {
                self.retire_offer_locked(record, PairingError::TicketExpired);
                removed = removed + 1;
                proof {
                    let victims = expiry_victims(prefix, now);
                    assert(victims.drop_last() =~= expiry_victims(offers.subrange(0, index as int), now));
                }
            } else {
                kept.push(record);
            }
            index = index + 1;
        }
        proof {
            assert(offers.subrange(0, length as int) =~= offers);
            lemma_retire_each_offers(v0, expiry_victims(offers, now), PairingError::TicketExpired, expiry_survivors(offers, now));
        }
        self.offers = kept;
        assert(self@ =~= spec_expire(v0, now));
        removed
    }
}

} // verus!
