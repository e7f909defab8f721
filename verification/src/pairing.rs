//! Clock, entropy and error boundaries of one-time pairing offers.

use vstd::prelude::*;
use vstd::string::StringSliceAdditionalSpecFns;

use crate::error::{DaemonError, DomainErrorKind};

verus! {

/// Nanoseconds in one second on the monotonic axis.
pub const NANOS_PER_SECOND: u64 = 1_000_000_000;

/// One wall-clock and monotonic observation used for offer expiry.
///
/// The monotonic reading is a nanosecond count on a process-local axis that
/// never goes backwards; deadlines are expressed on the same axis.
#[derive(Clone, Copy, Debug, PartialEq, Eq, Structural)]
pub struct PairingNow {
    unix_seconds: u64,
    monotonic: u64,
}

impl PairingNow {
    /// Whole seconds since the Unix epoch, as a specification value.
    pub closed spec fn spec_unix_seconds(self) -> u64 {
        self.unix_seconds
    }

    /// Monotonic nanoseconds, as a specification value.
    pub closed spec fn spec_monotonic(self) -> u64 {
        self.monotonic
    }

    /// Constructs an injected clock observation.
    pub fn new(unix_seconds: u64, monotonic: u64) -> (now: PairingNow)
        ensures
            now.spec_unix_seconds() == unix_seconds,
            now.spec_monotonic() == monotonic,
    {
        PairingNow { unix_seconds, monotonic }
    }

    /// Whole seconds since the Unix epoch.
    pub fn unix_seconds(self) -> (seconds: u64)
        ensures
            seconds == self.spec_unix_seconds(),
    {
        self.unix_seconds
    }

    /// Monotonic observation paired with the wall-clock value.
    pub fn monotonic(self) -> (nanos: u64)
        ensures
            nanos == self.spec_monotonic(),
    {
        self.monotonic
    }
}


/// Opaque failure from an injected pairing clock.
#[derive(Clone, Copy, Debug, PartialEq, Eq, Structural)]
pub struct PairingClockError;

impl PairingClockError {
    /// Human-readable description, in place of `Display`.
    pub fn message(&self) -> (text: &'static str)
        ensures
            text@ == "pairing clock is unavailable"@,
    {
        "pairing clock is unavailable"
    }
}

/// Clock boundary used to test expiry without sleeping or changing the OS clock.
pub trait PairingClock {
    /// Returns one coherent wall-clock and monotonic observation.
    fn now(&self) -> Result<PairingNow, PairingClockError>;
}

/// Opaque failure from the pairing entropy source.
#[derive(Clone, Copy, Debug, PartialEq, Eq, Structural)]
pub struct PairingEntropyError;

impl PairingEntropyError {
    /// Human-readable description, in place of `Display`.
    pub fn message(&self) -> (text: &'static str)
        ensures
            text@ == "pairing entropy is unavailable"@,
    {
        "pairing entropy is unavailable"
    }
}

/// Entropy boundary used by deterministic state-machine tests.
pub trait PairingEntropy {
    /// Fills the complete destination with cryptographically secure bytes.
    fn fill(&self, destination: &mut [u8]) -> Result<(), PairingEntropyError>;
}

/// Rejected transport limit configuration.
#[derive(Clone, Copy, Debug, PartialEq, Eq, Structural)]
pub enum TransportLimitsError {
    /// A limit was zero or larger than the product ceiling.
    OutOfRange,
}

/// Rejected public ticket or transcript field.
#[derive(Clone, Copy, Debug, PartialEq, Eq, Structural)]
pub enum PairTicketError {
    /// The requested offer lifetime is outside the allowed range.
    InvalidTtl,
    /// A ticket or transcript field failed validation.
    InvalidField,
    /// A committed authorization must carry a non-zero generation.
    ZeroAuthorizationGeneration,
}

/// Typed local pairing failure with a separate generic peer projection.
#[derive(Clone, Copy, Debug, PartialEq, Eq, Structural)]
pub enum PairingError {
    /// The configured transport limits were internally inconsistent.
    InvalidLimits(TransportLimitsError),
    /// Public ticket or transcript fields failed the shared contract.
    InvalidTicket(PairTicketError),
    /// Ticket fields did not bind the authenticated endpoint or handshake.
    InvalidBinding,
    /// The wall/monotonic clock could not be observed.
    ClockUnavailable,
    /// Expiry or deadline arithmetic could not be represented.
    TimeOverflow,
    /// The operating-system entropy source failed.
    EntropyUnavailable,
    /// The configured live-offer or operation-cell bound was reached.
    ResourceExhausted,
    /// The caller's absolute deadline elapsed.
    DeadlineExceeded,
    /// No live or retained terminal offer matched the identifier.
    OfferNotFound,
    /// The offer expired by either wall clock or monotonic time.
    TicketExpired,
    /// The offer was already committed and consumed.
    TicketConsumed,
    /// Another valid consumer currently owns the pre-commit CAS.
    OfferConsuming,
    /// The controller proof did not authenticate the exact transcript.
    InvalidProof,
    /// An operation ID was reused for another semantic fingerprint.
    OutcomeUnknown,
    /// An opaque challenge or consumption permit did not belong to this state.
    StateConflict,
}

/// Detailed category of a pairing failure for the same-UID local caller.
pub open spec fn spec_local_kind(error: PairingError) -> DomainErrorKind {
    match error {
        PairingError::InvalidLimits(_) | PairingError::ResourceExhausted => DomainErrorKind::ResourceExhausted,
        PairingError::ClockUnavailable | PairingError::EntropyUnavailable => DomainErrorKind::TransportUnavailable,
        PairingError::DeadlineExceeded => DomainErrorKind::DeadlineExceeded,
        PairingError::TicketExpired => DomainErrorKind::PairTicketExpired,
        PairingError::TicketConsumed => DomainErrorKind::PairTicketConsumed,
        PairingError::OfferConsuming | PairingError::OutcomeUnknown | PairingError::StateConflict => DomainErrorKind::PairOutcomeUnknown,
        PairingError::InvalidTicket(_) | PairingError::InvalidBinding | PairingError::TimeOverflow
        | PairingError::OfferNotFound | PairingError::InvalidProof => DomainErrorKind::PairTicketInvalid,
    }
}

/// Generic category of a pairing failure that is safe for an unauthenticated peer.
pub open spec fn spec_peer_kind(error: PairingError) -> DomainErrorKind {
    match error {
        PairingError::InvalidLimits(_) | PairingError::ResourceExhausted => DomainErrorKind::ResourceExhausted,
        PairingError::ClockUnavailable | PairingError::EntropyUnavailable => DomainErrorKind::TransportUnavailable,
        PairingError::DeadlineExceeded => DomainErrorKind::DeadlineExceeded,
        _ => DomainErrorKind::PairTicketInvalid,
    }
}

/// Fixed detail text sent to a peer with each generic category.
pub open spec fn peer_detail(kind: DomainErrorKind) -> &'static str {
    match kind {
        DomainErrorKind::ResourceExhausted => "pairing service is overloaded",
        DomainErrorKind::TransportUnavailable => "pairing service is unavailable",
        DomainErrorKind::DeadlineExceeded => "pairing handshake deadline elapsed",
        _ => "pairing request was rejected",
    }
}

impl PairingError {
    /// Stable, detailed category exposed only to the same-UID local caller.
    pub fn local_kind(self) -> (kind: DomainErrorKind)
        ensures
            kind == spec_local_kind(self),
    {
        match self {
            PairingError::InvalidLimits(_) | PairingError::ResourceExhausted => DomainErrorKind::ResourceExhausted,
            PairingError::ClockUnavailable | PairingError::EntropyUnavailable => DomainErrorKind::TransportUnavailable,
            PairingError::DeadlineExceeded => DomainErrorKind::DeadlineExceeded,
            PairingError::TicketExpired => DomainErrorKind::PairTicketExpired,
            PairingError::TicketConsumed => DomainErrorKind::PairTicketConsumed,
            PairingError::OfferConsuming | PairingError::OutcomeUnknown | PairingError::StateConflict => DomainErrorKind::PairOutcomeUnknown,
            PairingError::InvalidTicket(_) | PairingError::InvalidBinding | PairingError::TimeOverflow
            | PairingError::OfferNotFound | PairingError::InvalidProof => DomainErrorKind::PairTicketInvalid,
        }
    }

    /// Generic category safe to expose to an unauthenticated pair peer.
    pub fn peer_kind(self) -> (kind: DomainErrorKind)
        ensures
            kind == spec_peer_kind(self),
    {
        match self {
            PairingError::InvalidLimits(_) | PairingError::ResourceExhausted => DomainErrorKind::ResourceExhausted,
            PairingError::ClockUnavailable | PairingError::EntropyUnavailable => DomainErrorKind::TransportUnavailable,
            PairingError::DeadlineExceeded => DomainErrorKind::DeadlineExceeded,
            _ => DomainErrorKind::PairTicketInvalid,
        }
    }

    /// Generic daemon error which does not distinguish offer state or proof failure.
    pub fn peer_error(self) -> (error: DaemonError)
        ensures
            error.kind == spec_peer_kind(self),
            error.detail@ == peer_detail(spec_peer_kind(self))@,
    {
        let kind = self.peer_kind();
        let detail = match kind {
            DomainErrorKind::ResourceExhausted => "pairing service is overloaded",
            DomainErrorKind::TransportUnavailable => "pairing service is unavailable",
            DomainErrorKind::DeadlineExceeded => "pairing handshake deadline elapsed",
            _ => "pairing request was rejected",
        };
        DaemonError::new(kind, detail)
    }
}

/// Observable offer state without verifier, ticket, proof, or transcript bytes.
#[derive(Clone, Copy, Debug, PartialEq, Eq, Structural)]
pub enum PairOfferState {
    /// Offer may accept a valid proof.
    Ready,
    /// One valid consumer owns the pre-commit CAS.
    Consuming,
    /// Durable authorization committed and the offer cannot reopen.
    Consumed,
    /// Either expiry clock reached its deadline.
    Expired,
}

/// Bounded aggregate observation of pairing-owned memory.
#[derive(Clone, Copy, Debug, Default, PartialEq, Eq, Structural)]
pub struct PairingSnapshot {
    /// Ready live offers.
    pub ready_offers: usize,
    /// Offers held by one pre-commit consumer.
    pub consuming_offers: usize,
    /// Exact ticket replay operation cells.
    pub operation_cells: usize,
    /// Ticket-free retained operation outcomes used to reject recent ID reuse.
    pub retired_operation_tombstones: usize,
    /// Retained bounded consumed identifiers.
    pub consumed_tombstones: usize,
    /// Retained bounded expired identifiers.
    pub expired_tombstones: usize,
}

/// Fails with `DeadlineExceeded` once the monotonic reading reaches the deadline.
pub fn check_deadline(now: u64, deadline: u64) -> (result: Result<(), PairingError>)
    ensures
        result == (if now >= deadline { Err(PairingError::DeadlineExceeded) } else { Ok(()) }),
{
    if now >= deadline {
        Err(PairingError::DeadlineExceeded)
    } else {
        Ok(())
    }
}

/// Fails with `DeadlineExceeded` exactly when the deadline has been reached.
pub fn deadline_outcome(reached: bool) -> (result: Result<(), PairingError>)
    ensures
        result == (if reached { Err(PairingError::DeadlineExceeded) } else { Ok(()) }),
{
    if reached {
        Err(PairingError::DeadlineExceeded)
    } else {
        Ok(())
    }
}

/// A failed entropy draw is `EntropyUnavailable`.
pub fn entropy_outcome(filled: Result<(), PairingEntropyError>) -> (result: Result<(), PairingError>)
    ensures
        result == (match filled {
            Ok(()) => Ok(()),
            Err(_) => Err(PairingError::EntropyUnavailable),
        }),
{
    match filled {
        Ok(()) => Ok(()),
        Err(_) => Err(PairingError::EntropyUnavailable),
    }
}

/// Outcome of drawing a nonce: the deadline is checked before the draw and
/// again after it.
pub open spec fn spec_nonce_outcome(reached_before: bool, filled: bool, reached_after: bool) -> Result<(), PairingError> {
    if reached_before {
        Err(PairingError::DeadlineExceeded)
    } else if !filled {
        Err(PairingError::EntropyUnavailable)
    } else if reached_after {
        Err(PairingError::DeadlineExceeded)
    } else {
        Ok(())
    }
}

/// The nonce drawn into `bytes`, or the error that the deadline readings and
/// the draw decide.
pub fn nonce_outcome(reached_before: bool, filled: bool, reached_after: bool, bytes: [u8; 32]) -> (nonce: Result<[u8; 32], PairingError>)
    ensures
        match nonce {
            Ok(drawn) => spec_nonce_outcome(reached_before, filled, reached_after) == Ok::<(), PairingError>(()) && drawn == bytes,
            Err(error) => spec_nonce_outcome(reached_before, filled, reached_after) == Err::<(), PairingError>(error),
        },
{
    if reached_before {
        Err(PairingError::DeadlineExceeded)
    } else if !filled {
        Err(PairingError::EntropyUnavailable)
    } else if reached_after {
        Err(PairingError::DeadlineExceeded)
    } else {
        Ok(bytes)
    }
}

/// Absolute deadline `duration` nanoseconds after `now`, or `TimeOverflow`.
pub fn default_deadline(now: u64, duration: u64) -> (result: Result<u64, PairingError>)
    ensures
        result == (if now + duration <= u64::MAX { Ok((now + duration) as u64) } else { Err::<u64, PairingError>(PairingError::TimeOverflow) }),
{
    match now.checked_add(duration) {
        Some(deadline) => Ok(deadline),
        None => Err(PairingError::TimeOverflow),
    }
}

/// Wall-clock expiry and monotonic deadline of an offer created at `now`
/// with a lifetime of `ttl_seconds`, or `TimeOverflow`.
pub fn offer_expiry(now: PairingNow, ttl_seconds: u64) -> (expiry: Result<(u64, u64), PairingError>)
    ensures
        match expiry {
            Ok((expires_at_unix, monotonic_deadline)) => expires_at_unix == now.spec_unix_seconds() + ttl_seconds
                && monotonic_deadline == now.spec_monotonic() + ttl_seconds * NANOS_PER_SECOND,
            Err(error) => error == PairingError::TimeOverflow
                && (now.spec_unix_seconds() + ttl_seconds > u64::MAX
                    || now.spec_monotonic() + ttl_seconds * NANOS_PER_SECOND > u64::MAX),
        },
{
    let expires_at_unix = match now.unix_seconds().checked_add(ttl_seconds) {
        Some(expiry) => expiry,
        None => return Err(PairingError::TimeOverflow),
    };
    let lifetime = match ttl_seconds.checked_mul(NANOS_PER_SECOND) {
        Some(nanos) => nanos,
        None => return Err(PairingError::TimeOverflow),
    };
    match now.monotonic().checked_add(lifetime) {
        Some(deadline) => Ok((expires_at_unix, deadline)),
        None => Err(PairingError::TimeOverflow),
    }
}

/// Whether an offer request stays within the relay limits: at most
/// `max_relay_hints` hints, each at most `max_relay_url_bytes` bytes long.
pub open spec fn relay_limits_hold(relay_hints: Seq<String>, max_relay_hints: usize, max_relay_url_bytes: usize) -> bool {
    relay_hints.len() <= max_relay_hints
        && forall|i: int| 0 <= i < relay_hints.len() ==> vstd::utf8::encode_utf8((#[trigger] relay_hints[i])@).len() <= max_relay_url_bytes
}

/// Rejects an offer request whose relay hints exceed the configured limits.
pub fn validate_request_limits(relay_hints: &Vec<String>, max_relay_hints: usize, max_relay_url_bytes: usize) -> (result: Result<(), PairingError>)
    ensures
        match result {
            Ok(()) => relay_limits_hold(relay_hints@, max_relay_hints, max_relay_url_bytes),
            Err(error) => error == PairingError::ResourceExhausted
                && !relay_limits_hold(relay_hints@, max_relay_hints, max_relay_url_bytes),
        },
{
    if relay_hints.len() > max_relay_hints {
        return Err(PairingError::ResourceExhausted);
    }
    let mut index: usize = 0;
    while index < relay_hints.len()
        invariant
            0 <= index <= relay_hints@.len(),
            forall|i: int| 0 <= i < index ==> vstd::utf8::encode_utf8((#[trigger] relay_hints@[i])@).len() <= max_relay_url_bytes,
        decreases relay_hints@.len() - index,
    {
        let hint: &str = relay_hints[index].as_str();
        let length = hint.as_bytes().len();
        assert(length == vstd::utf8::encode_utf8(relay_hints@[index as int]@).len());
        if length > max_relay_url_bytes {
            return Err(PairingError::ResourceExhausted);
        }
        index = index + 1;
    }
    Ok(())
}

} // verus!
