//! Bounded framing rules for one short-lived pairing handshake: the single
//! byte budget shared by both directions, the deadlines, and the message
//! kinds and metadata that the pairing protocol admits.

use vstd::prelude::*;

use crate::error::{DaemonError, DomainErrorKind};
use crate::wire::{FrameHeader, WireKind};

verus! {

/// Product bound on one pairing frame body.
pub const MAX_PAIR_HELLO_FRAME_BYTES: usize = 16 * 1024;

/// Size of the read buffer used while waiting for the next frame.
pub const READ_BUFFER_BYTES: usize = 4 * 1024;

/// Rejected handshake budget operation.
#[derive(Clone, Copy, Debug, PartialEq, Eq, Structural)]
pub enum PairHandshakeBudgetError {
    /// The configured ceiling is zero.
    ZeroMaximum,
    /// Recording the bytes would exceed the ceiling.
    Exhausted,
}

/// Cumulative byte budget of one handshake, shared by inbound and outbound bytes.
#[derive(Clone, Copy, Debug, PartialEq, Eq, Structural)]
pub struct PairHandshakeBudget {
    maximum: usize,
    used: usize,
}

impl PairHandshakeBudget {
    /// Ceiling of the budget.
    pub closed spec fn spec_maximum(self) -> nat {
        self.maximum as nat
    }

    /// Bytes recorded so far.
    pub closed spec fn spec_used(self) -> nat {
        self.used as nat
    }

    /// Well-formedness: never more used than the ceiling.
    pub closed spec fn wf(self) -> bool {
        self.used <= self.maximum && self.maximum > 0
    }

    /// A fresh budget with a non-zero ceiling.
    pub fn with_maximum(maximum: usize) -> (result: Result<PairHandshakeBudget, PairHandshakeBudgetError>)
        ensures
            match result {
                Ok(budget) => maximum > 0 && budget.wf() && budget.spec_maximum() == maximum && budget.spec_used() == 0,
                Err(error) => maximum == 0 && error == PairHandshakeBudgetError::ZeroMaximum,
            },
    {
        if maximum == 0 {
            Err(PairHandshakeBudgetError::ZeroMaximum)
        } else {
            Ok(PairHandshakeBudget { maximum, used: 0 })
        }
    }

    /// Bytes recorded so far.
    pub fn used(&self) -> (used: usize)
        ensures
            used == self.spec_used(),
    {
        self.used
    }

    /// Ceiling of the budget.
    pub fn maximum(&self) -> (maximum: usize)
        ensures
            maximum == self.spec_maximum(),
    {
        self.maximum
    }

    /// Bytes left before the ceiling.
    pub fn remaining(&self) -> (remaining: usize)
        requires
            self.wf(),
        ensures
            remaining == self.spec_maximum() - self.spec_used(),
    {
        self.maximum - self.used
    }

    /// Charges `bytes`; fails without charging anything when they exceed what is left.
    pub fn record(&mut self, bytes: usize) -> (result: Result<(), PairHandshakeBudgetError>)
        requires
            old(self).wf(),
        ensures
            final(self).wf(),
            final(self).spec_maximum() == old(self).spec_maximum(),
            match result {
                Ok(()) => old(self).spec_used() + bytes <= old(self).spec_maximum()
                    && final(self).spec_used() == old(self).spec_used() + bytes,
                Err(error) => old(self).spec_used() + bytes > old(self).spec_maximum()
                    && error == PairHandshakeBudgetError::Exhausted && *final(self) == *old(self),
            },
    {
        if bytes > self.maximum - self.used {
            Err(PairHandshakeBudgetError::Exhausted)
        } else {
            self.used = self.used + bytes;
            Ok(())
        }
    }
}

/// One decoded pairing frame: its header and its payload bytes.
#[derive(Debug)]
pub struct QueuedPairFrame {
    pub header: FrameHeader,
    pub payload: Vec<u8>,
}

/// Specification value of a decoded frame.
pub open spec fn queued_frame_view(frame: QueuedPairFrame) -> (FrameHeader, Seq<u8>) {
    (frame.header, frame.payload@)
}

/// Specification value of a sequence of decoded frames, in order.
pub open spec fn queued_frames_view(frames: Seq<QueuedPairFrame>) -> Seq<(FrameHeader, Seq<u8>)> {
    frames.map_values(|frame: QueuedPairFrame| queued_frame_view(frame))
}

/// Framing state of one handshake: the frame bound, the shared budget, the
/// absolute total deadline, the frames decoded but not yet taken (bytes read
/// after a coalesced frame stay queued), and whether the peer's stream has ended.
#[derive(Debug)]
pub struct PairFraming {
    maximum_frame_body_bytes: usize,
    budget: PairHandshakeBudget,
    total_deadline: u64,
    queued: Vec<QueuedPairFrame>,
    reached_eof: bool,
}

impl PairFraming {
    /// Well-formedness of the framing state.
    pub closed spec fn wf(&self) -> bool {
        self.budget.wf() && 0 < self.maximum_frame_body_bytes <= MAX_PAIR_HELLO_FRAME_BYTES
    }

    /// The shared budget.
    pub closed spec fn spec_budget(&self) -> PairHandshakeBudget {
        self.budget
    }

    /// The absolute handshake deadline.
    pub closed spec fn spec_total_deadline(&self) -> u64 {
        self.total_deadline
    }

    /// The per-frame body bound handed to the decoder.
    pub closed spec fn spec_frame_bound(&self) -> usize {
        self.maximum_frame_body_bytes
    }

    /// Whether the peer's stream ended.
    pub closed spec fn spec_reached_eof(&self) -> bool {
        self.reached_eof
    }

    /// Frames decoded but not yet taken, oldest first.
    pub closed spec fn spec_queued(&self) -> Seq<(FrameHeader, Seq<u8>)> {
        queued_frames_view(self.queued@)
    }

    /// Creates framing with injected product limits and one absolute deadline:
    /// the frame body bound must be non-zero and at most the 16 KiB pairing
    /// frame bound, and the handshake budget non-zero.
    pub fn new(maximum_frame_body_bytes: usize, maximum_handshake_bytes: usize, total_deadline: u64) -> (result: Result<PairFraming, DaemonError>)
        ensures
            match result {
                Ok(framing) => 0 < maximum_frame_body_bytes <= MAX_PAIR_HELLO_FRAME_BYTES && maximum_handshake_bytes > 0
                    && framing.wf()
                    && framing.spec_frame_bound() == maximum_frame_body_bytes
                    && framing.spec_budget().spec_maximum() == maximum_handshake_bytes
                    && framing.spec_budget().spec_used() == 0
                    && framing.spec_total_deadline() == total_deadline
                    && framing.spec_queued().len() == 0
                    && !framing.spec_reached_eof(),
                Err(error) => error.kind == DomainErrorKind::ResourceExhausted
                    && (maximum_frame_body_bytes == 0 || maximum_frame_body_bytes > MAX_PAIR_HELLO_FRAME_BYTES
                        || maximum_handshake_bytes == 0),
            },
    {
        if maximum_frame_body_bytes == 0 || maximum_frame_body_bytes > MAX_PAIR_HELLO_FRAME_BYTES {
            return Err(DaemonError::new(
                DomainErrorKind::ResourceExhausted,
                "pairing frame body ceiling must be between 1 byte and 16 KiB",
            ));
        }
        let budget = match PairHandshakeBudget::with_maximum(maximum_handshake_bytes) {
            Ok(budget) => budget,
            Err(_) => return Err(handshake_budget_error()),
        };
        let framing = PairFraming { maximum_frame_body_bytes, budget, total_deadline, queued: Vec::new(), reached_eof: false };
        assert(framing.spec_queued() =~= Seq::<(FrameHeader, Seq<u8>)>::empty());
        Ok(framing)
    }

    /// Raw inbound plus fully framed outbound bytes already accounted.
    pub fn used_bytes(&self) -> (used: usize)
        ensures
            used == self.spec_budget().spec_used(),
    {
        self.budget.used()
    }

    /// Bytes left in the shared handshake budget.
    pub fn remaining_bytes(&self) -> (remaining: usize)
        requires
            self.wf(),
        ensures
            remaining == self.spec_budget().spec_maximum() - self.spec_budget().spec_used(),
    {
        self.budget.remaining()
    }

    /// The per-frame body bound handed to the decoder.
    pub fn frame_bound(&self) -> (bound: usize)
        ensures
            bound == self.spec_frame_bound(),
    {
        self.maximum_frame_body_bytes
    }

    /// The operation deadline capped by the handshake total deadline; fails
    /// with `DeadlineExceeded` when it already passed at `now`.
    pub fn effective_deadline(&self, now: u64, operation_deadline: u64) -> (result: Result<u64, DaemonError>)
        ensures
            match result {
                Ok(deadline) => deadline == (if self.spec_total_deadline() <= operation_deadline { self.spec_total_deadline() } else { operation_deadline })
                    && now < deadline,
                Err(error) => error.kind == DomainErrorKind::DeadlineExceeded
                    && now >= (if self.spec_total_deadline() <= operation_deadline { self.spec_total_deadline() } else { operation_deadline }),
            },
    {
        let deadline = if self.total_deadline <= operation_deadline { self.total_deadline } else { operation_deadline };
        if now >= deadline {
            return Err(deadline_error());
        }
        Ok(deadline)
    }

    /// How many bytes the next read may take: what the budget and the buffer
    /// both allow. An exhausted budget fails before any read.
    pub fn read_allowance(&self, buffer_len: usize) -> (result: Result<usize, DaemonError>)
        requires
            self.wf(),
        ensures
            ({
                let remaining = self.spec_budget().spec_maximum() - self.spec_budget().spec_used();
                let allowed = if remaining <= buffer_len { remaining } else { buffer_len as int };
                match result {
                    Ok(count) => count == allowed && count > 0,
                    Err(error) => allowed == 0 && error.kind == DomainErrorKind::ResourceExhausted,
                }
            }),
    {
        let remaining = self.budget.remaining();
        let allowed = if remaining <= buffer_len { remaining } else { buffer_len };
        if allowed == 0 {
            return Err(DaemonError::new(
                DomainErrorKind::ResourceExhausted,
                "pairing handshake byte budget exhausted before the expected frame",
            ));
        }
        Ok(allowed)
    }

    /// Charges bytes read from, or fully framed bytes about to be written to,
    /// the peer against the one shared budget.
    pub fn charge(&mut self, bytes: usize) -> (result: Result<(), DaemonError>)
        requires
            old(self).wf(),
        ensures
            final(self).wf(),
            final(self).spec_total_deadline() == old(self).spec_total_deadline(),
            final(self).spec_frame_bound() == old(self).spec_frame_bound(),
            final(self).spec_reached_eof() == old(self).spec_reached_eof(),
            final(self).spec_queued() == old(self).spec_queued(),
            final(self).spec_budget().spec_maximum() == old(self).spec_budget().spec_maximum(),
            match result {
                Ok(()) => old(self).spec_budget().spec_used() + bytes <= old(self).spec_budget().spec_maximum()
                    && final(self).spec_budget().spec_used() == old(self).spec_budget().spec_used() + bytes,
                Err(error) => error.kind == DomainErrorKind::ResourceExhausted
                    && old(self).spec_budget().spec_used() + bytes > old(self).spec_budget().spec_maximum()
                    && final(self).spec_budget() == old(self).spec_budget(),
            },
    {
        match self.budget.record(bytes) {
            Ok(()) => Ok(()),
            Err(_) => Err(handshake_budget_error()),
        }
    }

    /// Records that the peer's stream ended.
    pub fn mark_eof(&mut self)
        requires
            old(self).wf(),
        ensures
            final(self).wf(),
            final(self).spec_reached_eof(),
            final(self).spec_queued() == old(self).spec_queued(),
            final(self).spec_budget() == old(self).spec_budget(),
            final(self).spec_total_deadline() == old(self).spec_total_deadline(),
            final(self).spec_frame_bound() == old(self).spec_frame_bound(),
    {
        self.reached_eof = true;
    }

    /// Refuses to wait for another frame once the stream ended.
    pub fn require_open_stream(&self) -> (result: Result<(), DaemonError>)
        ensures
            match result {
                Ok(()) => !self.spec_reached_eof(),
                Err(error) => self.spec_reached_eof() && error.kind == DomainErrorKind::MalformedFrame,
            },
    {
        if self.reached_eof {
            Err(unexpected_eof())
        } else {
            Ok(())
        }
    }

    /// Queues the frames that one read decoded, after those already queued.
    pub fn enqueue_decoded(&mut self, frames: Vec<QueuedPairFrame>)
        requires
            old(self).wf(),
        ensures
            final(self).wf(),
            final(self).spec_queued() == old(self).spec_queued() + queued_frames_view(frames@),
            final(self).spec_budget() == old(self).spec_budget(),
            final(self).spec_total_deadline() == old(self).spec_total_deadline(),
            final(self).spec_frame_bound() == old(self).spec_frame_bound(),
            final(self).spec_reached_eof() == old(self).spec_reached_eof(),
    {
        let mut frames = frames;
        let ghost before = self.queued@;
        let ghost added = frames@;
        self.queued.append(&mut frames);
        assert(queued_frames_view(self.queued@) =~= queued_frames_view(before) + queued_frames_view(added));
    }

    /// The next frame to hand out: the oldest queued one; with nothing queued,
    /// `None` while the stream is open (read more), and a protocol error once
    /// it ended.
    pub fn next_queued(&mut self) -> (next: Result<Option<QueuedPairFrame>, DaemonError>)
        requires
            old(self).wf(),
        ensures
            final(self).wf(),
            final(self).spec_budget() == old(self).spec_budget(),
            final(self).spec_total_deadline() == old(self).spec_total_deadline(),
            final(self).spec_frame_bound() == old(self).spec_frame_bound(),
            final(self).spec_reached_eof() == old(self).spec_reached_eof(),
            match next {
                Ok(Some(frame)) => old(self).spec_queued().len() > 0
                    && queued_frame_view(frame) == old(self).spec_queued()[0]
                    && final(self).spec_queued() == old(self).spec_queued().drop_first(),
                Ok(None) => old(self).spec_queued().len() == 0 && !old(self).spec_reached_eof()
                    && final(self).spec_queued() == old(self).spec_queued(),
                Err(error) => old(self).spec_queued().len() == 0 && old(self).spec_reached_eof()
                    && error.kind == DomainErrorKind::MalformedFrame
                    && final(self).spec_queued() == old(self).spec_queued(),
            },
    {
        if self.queued.len() > 0 {
            let ghost before = self.queued@;
            let frame = self.queued.remove(0);
            assert(queued_frames_view(self.queued@) =~= queued_frames_view(before).drop_first());
            return Ok(Some(frame));
        }
        if self.reached_eof {
            return Err(unexpected_eof());
        }
        Ok(None)
    }
}

/// Whether a kind belongs to the pairing protocol.
pub open spec fn is_pair_kind(kind: WireKind) -> bool {
    kind == WireKind::PairBegin || kind == WireKind::PairChallenge || kind == WireKind::PairProof || kind == WireKind::PairAccepted
}

/// Admits only the four pairing message kinds.
pub fn validate_pair_kind(kind: WireKind) -> (result: Result<(), DaemonError>)
    ensures
        match result {
            Ok(()) => is_pair_kind(kind),
            Err(error) => !is_pair_kind(kind) && error.kind == DomainErrorKind::MalformedFrame,
        },
{
    match kind {
        WireKind::PairBegin | WireKind::PairChallenge | WireKind::PairProof | WireKind::PairAccepted => Ok(()),
        _ => Err(DaemonError::new(DomainErrorKind::MalformedFrame, "message kind is not permitted on the pairing protocol")),
    }
}

/// Pairing frames must carry zero request and deadline metadata.
pub fn validate_metadata(header: FrameHeader) -> (result: Result<(), DaemonError>)
    ensures
        match result {
            Ok(()) => header.request_id == 0 && header.deadline_ms == 0,
            Err(error) => (header.request_id != 0 || header.deadline_ms != 0) && error.kind == DomainErrorKind::MalformedFrame,
        },
{
    if header.request_id != 0 || header.deadline_ms != 0 {
        return Err(DaemonError::new(
            DomainErrorKind::MalformedFrame,
            "pairing frames must use zero request and deadline metadata",
        ));
    }
    Ok(())
}

/// A decoded frame is accepted as the next message only when it has the
/// expected pairing kind and zero metadata.
pub fn accept_pair_frame(expected: WireKind, header: FrameHeader) -> (result: Result<(), DaemonError>)
    ensures
        match result {
            Ok(()) => is_pair_kind(expected) && header.request_id == 0 && header.deadline_ms == 0 && header.kind == expected,
            Err(error) => !(is_pair_kind(expected) && header.request_id == 0 && header.deadline_ms == 0 && header.kind == expected)
                && error.kind == DomainErrorKind::MalformedFrame,
        },
{
    validate_pair_kind(expected)?;
    validate_metadata(header)?;
    if header.kind != expected {
        return Err(DaemonError::new(DomainErrorKind::MalformedFrame, "pairing frame has an unexpected kind"));
    }
    Ok(())
}

fn handshake_budget_error() -> (error: DaemonError)
    ensures
        error.kind == DomainErrorKind::ResourceExhausted,
        error.detail@ == "pairing handshake byte budget is exhausted"@,
{
    DaemonError::new(DomainErrorKind::ResourceExhausted, "pairing handshake byte budget is exhausted")
}

fn deadline_error() -> (error: DaemonError)
    ensures
        error.kind == DomainErrorKind::DeadlineExceeded,
{
    DaemonError::new(DomainErrorKind::DeadlineExceeded, "pairing frame deadline elapsed")
}

fn unexpected_eof() -> (error: DaemonError)
    ensures
        error.kind == DomainErrorKind::MalformedFrame,
{
    DaemonError::new(DomainErrorKind::MalformedFrame, "pairing stream ended before the expected frame")
}

} // verus!
