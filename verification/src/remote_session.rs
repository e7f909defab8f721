//! Decisions of the remote Session unary client: request classification,
//! response correlation, the exactly-one-response stream rule, and the
//! bounded retry policy that never re-executes an ambiguous mutation.

use vstd::prelude::*;

use crate::bytes::bytes32_eq;
use crate::error::{DaemonError, DomainErrorKind};
use crate::wire::{FrameHeader, WireKind};

verus! {

/// How a unary request may be retried after a post-write failure.
#[derive(Clone, Copy, Debug, PartialEq, Eq, Structural)]
pub enum RetryClass {
    /// Read-only: a second attempt is harmless.
    Safe,
    /// Allocates host state: never retried.
    StatefulControl,
    /// Idempotent by operation identity: retried once, then ambiguous.
    Mutation,
}

/// Response kind and retry class of a unary request kind, if it is unary.
pub open spec fn spec_request_contract(kind: WireKind) -> Option<(WireKind, RetryClass)> {
    match kind {
        WireKind::SessionListRequest => Some((WireKind::SessionListResponse, RetryClass::Safe)),
        WireKind::SessionOperationLeaseRequest => Some((WireKind::SessionOperationLeaseResponse, RetryClass::StatefulControl)),
        WireKind::SessionCreateRequest => Some((WireKind::SessionMutateResponse, RetryClass::Mutation)),
        WireKind::SessionRenameRequest => Some((WireKind::SessionMutateResponse, RetryClass::Mutation)),
        WireKind::SessionCloseRequest => Some((WireKind::SessionMutateResponse, RetryClass::Mutation)),
        WireKind::SessionTakeoverRequest => Some((WireKind::SessionMutateResponse, RetryClass::Mutation)),
        _ => None,
    }
}

/// The correlation contract of one forwarded unary request.
#[derive(Clone, Copy, Debug, PartialEq, Eq, Structural)]
pub struct RequestContract {
    pub request_id: u64,
    pub response_kind: WireKind,
    pub retry_class: RetryClass,
}

/// Law: each unary Session request expects the response kind that the host
/// answers it with, and has the retry class that its effect calls for. The
/// four mutations (create, rename, close, takeover) expect a mutate response
/// and are retried once by operation identity; listing expects a list response
/// and is safe to repeat; a lease expects a lease response and is never
/// retried. Every other kind is not a unary Session request. The host's
/// correlated, well-formed answer of the expected kind validates as expected.
pub proof fn law_unary_request_contracts(kind: WireKind, request_id: u64, deadline_ms: u64)
    ensures
        (kind == WireKind::SessionCreateRequest || kind == WireKind::SessionRenameRequest
            || kind == WireKind::SessionCloseRequest || kind == WireKind::SessionTakeoverRequest)
            ==> spec_request_contract(kind) == Some((WireKind::SessionMutateResponse, RetryClass::Mutation)),
        kind == WireKind::SessionListRequest
            ==> spec_request_contract(kind) == Some((WireKind::SessionListResponse, RetryClass::Safe)),
        kind == WireKind::SessionOperationLeaseRequest
            ==> spec_request_contract(kind) == Some((WireKind::SessionOperationLeaseResponse, RetryClass::StatefulControl)),
        !(kind == WireKind::SessionCreateRequest || kind == WireKind::SessionRenameRequest
            || kind == WireKind::SessionCloseRequest || kind == WireKind::SessionTakeoverRequest
            || kind == WireKind::SessionListRequest || kind == WireKind::SessionOperationLeaseRequest)
            ==> spec_request_contract(kind) is None,
        spec_request_contract(kind) matches Some((response, _)) ==> spec_validate_response(
            FrameHeader { kind: response, request_id, deadline_ms },
            request_id,
            response,
            None,
            Ok(()),
        ) == Ok::<SessionUnaryResponseStatus, DomainErrorKind>(SessionUnaryResponseStatus::Expected),
{
}

/// A request's exact device target.
#[derive(Clone, Copy, Debug)]
pub enum TargetSelector {
    /// The reserved local selector.
    Local,
    /// One full device identity.
    Device([u8; 32]),
}

/// Requires the inner request to name exactly the routed device.
pub fn require_exact_remote_target(target: Option<TargetSelector>, expected: [u8; 32]) -> (result: Result<(), DaemonError>)
    ensures
        match result {
            Ok(()) => target matches Some(TargetSelector::Device(device)) && device@ == expected@,
            Err(error) => !(target matches Some(TargetSelector::Device(device)) && device@ == expected@)
                && error.kind == DomainErrorKind::MalformedFrame,
        },
{
    match target {
        Some(TargetSelector::Device(device)) => {
            if bytes32_eq(&device, &expected) {
                Ok(())
            } else {
                Err(DaemonError::new(DomainErrorKind::MalformedFrame, "remote Session envelope target differs from its inner request target"))
            }
        },
        _ => Err(DaemonError::new(DomainErrorKind::MalformedFrame, "remote Session request omitted its exact device target")),
    }
}

/// The local device is reached only through the reserved local selector:
/// a remote target that names this device is refused.
pub fn reject_own_target(target: [u8; 32], own_device_id: [u8; 32]) -> (result: Result<(), DaemonError>)
    ensures
        match result {
            Ok(()) => target@ != own_device_id@,
            Err(error) => target@ == own_device_id@ && error.kind == DomainErrorKind::InvalidTargetSelector,
        },
{
    if bytes32_eq(&target, &own_device_id) {
        Err(DaemonError::new(DomainErrorKind::InvalidTargetSelector, "the local device must use the reserved local target"))
    } else {
        Ok(())
    }
}

/// Inspects the one inner request of a forwarding envelope: it must be a
/// unary Session kind whose target names exactly the routed device.
pub fn inspect_request(header: FrameHeader, target: Option<TargetSelector>, routed: [u8; 32]) -> (result: Result<RequestContract, DaemonError>)
    ensures
        match result {
            Ok(contract) => spec_request_contract(header.kind) == Some((contract.response_kind, contract.retry_class))
                && contract.request_id == header.request_id
                && (target matches Some(TargetSelector::Device(device)) && device@ == routed@),
            Err(error) => error.kind == DomainErrorKind::MalformedFrame
                && (spec_request_contract(header.kind) is None
                    || !(target matches Some(TargetSelector::Device(device)) && device@ == routed@)),
        },
{
    let (response_kind, retry_class) = match header.kind {
        WireKind::SessionListRequest => (WireKind::SessionListResponse, RetryClass::Safe),
        WireKind::SessionOperationLeaseRequest => (WireKind::SessionOperationLeaseResponse, RetryClass::StatefulControl),
        WireKind::SessionCreateRequest => (WireKind::SessionMutateResponse, RetryClass::Mutation),
        WireKind::SessionRenameRequest => (WireKind::SessionMutateResponse, RetryClass::Mutation),
        WireKind::SessionCloseRequest => (WireKind::SessionMutateResponse, RetryClass::Mutation),
        WireKind::SessionTakeoverRequest => (WireKind::SessionMutateResponse, RetryClass::Mutation),
        _ => {
            return Err(DaemonError::new(DomainErrorKind::MalformedFrame, "local remote-Session envelope contains a non-unary Session kind"));
        },
    };
    require_exact_remote_target(target, routed)?;
    Ok(RequestContract { request_id: header.request_id, response_kind, retry_class })
}

impl RequestContract {
    /// The forwarding envelope's request ID must equal the inner request's.
    pub fn require_request_id(self, request_id: u64) -> (result: Result<(), DaemonError>)
        ensures
            match result {
                Ok(()) => self.request_id == request_id,
                Err(error) => self.request_id != request_id && error.kind == DomainErrorKind::MalformedFrame,
            },
    {
        if self.request_id == request_id {
            Ok(())
        } else {
            Err(DaemonError::new(DomainErrorKind::MalformedFrame, "local forwarding envelope request_id differs from its inner Session request"))
        }
    }
}

/// Classification of a correlated unary response.
#[derive(Clone, Copy, Debug, PartialEq, Eq, Structural)]
pub enum SessionUnaryResponseStatus {
    /// The expected response kind with a valid payload.
    Expected,
    /// A complete typed service error of this category.
    ServiceError(DomainErrorKind),
}

/// The classification of a response, or the category of its rejection.
/// `service_error` is the category decoded from a service-error payload
/// (`None` when its code is unknown) and `payload` the outcome of validating
/// an expected payload.
pub open spec fn spec_validate_response(
    header: FrameHeader,
    expected_request_id: u64,
    expected_kind: WireKind,
    service_error: Option<DomainErrorKind>,
    payload: Result<(), DomainErrorKind>,
) -> Result<SessionUnaryResponseStatus, DomainErrorKind> {
    if header.request_id != expected_request_id {
        Err(DomainErrorKind::MalformedFrame)
    } else if header.kind == WireKind::ServiceErrorResponse {
        match service_error {
            Some(kind) => Ok(SessionUnaryResponseStatus::ServiceError(kind)),
            None => Err(DomainErrorKind::MalformedFrame),
        }
    } else if header.kind != expected_kind {
        Err(DomainErrorKind::MalformedFrame)
    } else {
        match payload {
            Ok(()) => Ok(SessionUnaryResponseStatus::Expected),
            Err(kind) => Err(kind),
        }
    }
}

/// Validates a unary response: it must correlate by request ID and be either
/// a complete typed service error or the expected kind with a valid payload.
pub fn validate_session_unary_response(
    header: FrameHeader,
    expected_request_id: u64,
    expected_kind: WireKind,
    service_error: Option<DomainErrorKind>,
    payload: Result<(), DomainErrorKind>,
) -> (result: Result<SessionUnaryResponseStatus, DaemonError>)
    ensures
        match result {
            Ok(status) => spec_validate_response(header, expected_request_id, expected_kind, service_error, payload)
                == Ok::<SessionUnaryResponseStatus, DomainErrorKind>(status),
            Err(error) => spec_validate_response(header, expected_request_id, expected_kind, service_error, payload)
                == Err::<SessionUnaryResponseStatus, DomainErrorKind>(error.kind),
        },
{
    if header.request_id != expected_request_id {
        return Err(DaemonError::new(DomainErrorKind::MalformedFrame, "remote Session response request_id does not match its request"));
    }
    if header.kind == WireKind::ServiceErrorResponse {
        return match service_error {
            Some(kind) => Ok(SessionUnaryResponseStatus::ServiceError(kind)),
            None => Err(DaemonError::new(DomainErrorKind::MalformedFrame, "remote Session response used an unknown domain error code")),
        };
    }
    if header.kind != expected_kind {
        return Err(DaemonError::new(DomainErrorKind::MalformedFrame, "remote Session response kind does not match the expected kind"));
    }
    match payload {
        Ok(()) => Ok(SessionUnaryResponseStatus::Expected),
        Err(kind) => Err(DaemonError::new(kind, "remote Session response payload is invalid")),
    }
}

/// Law: a response that does not answer the request's id is malformed
/// whatever it holds; a correlated typed service error is passed through as
/// its category (an unknown code is malformed); a correlated response of any
/// kind but the expected one is malformed; and the expected kind is accepted
/// exactly when its payload is valid, or fails with the payload's category.
pub proof fn law_response_validation(
    header: FrameHeader,
    expected_request_id: u64,
    expected_kind: WireKind,
    service_error: Option<DomainErrorKind>,
    payload: Result<(), DomainErrorKind>,
)
    requires
        expected_kind != WireKind::ServiceErrorResponse,
    ensures
        ({
            let result = spec_validate_response(header, expected_request_id, expected_kind, service_error, payload);
            let correlated = header.request_id == expected_request_id;
            &&& !correlated ==> result == Err::<SessionUnaryResponseStatus, DomainErrorKind>(DomainErrorKind::MalformedFrame)
            &&& (correlated && header.kind == WireKind::ServiceErrorResponse) ==> result == (match service_error {
                Some(kind) => Ok::<SessionUnaryResponseStatus, DomainErrorKind>(SessionUnaryResponseStatus::ServiceError(kind)),
                None => Err::<SessionUnaryResponseStatus, DomainErrorKind>(DomainErrorKind::MalformedFrame),
            })
            &&& (correlated && header.kind != WireKind::ServiceErrorResponse && header.kind != expected_kind)
                ==> result == Err::<SessionUnaryResponseStatus, DomainErrorKind>(DomainErrorKind::MalformedFrame)
            &&& (correlated && header.kind == expected_kind) ==> (result is Ok) == (payload is Ok)
                && (result is Ok ==> result == Ok::<SessionUnaryResponseStatus, DomainErrorKind>(SessionUnaryResponseStatus::Expected))
                && (payload matches Err(kind) ==> result == Err::<SessionUnaryResponseStatus, DomainErrorKind>(kind))
        }),
{
}

/// Outcome of one exchange attempt.
#[derive(Clone, Copy, Debug, PartialEq, Eq, Structural)]
pub enum AttemptOutcome {
    /// A validated response arrived.
    Response,
    /// The attempt failed before any request byte was written.
    PreWrite(DomainErrorKind),
    /// The attempt failed after the request may have been written.
    PostWrite(DomainErrorKind),
}

/// What the client does after an attempt.
#[derive(Clone, Copy, Debug, PartialEq, Eq, Structural)]
pub enum RetryDecision {
    /// Return the validated response.
    Respond,
    /// Fail with this category.
    Fail(DomainErrorKind),
    /// Make the second and last attempt.
    Retry,
}

/// The decision after the first attempt.
pub open spec fn spec_after_first(class: RetryClass, first: AttemptOutcome) -> RetryDecision {
    match first {
        AttemptOutcome::Response => RetryDecision::Respond,
        AttemptOutcome::PreWrite(kind) => RetryDecision::Fail(kind),
        AttemptOutcome::PostWrite(kind) => match class {
            RetryClass::StatefulControl => RetryDecision::Fail(kind),
            RetryClass::Safe | RetryClass::Mutation => RetryDecision::Retry,
        },
    }
}

/// The decision after the second attempt.
pub open spec fn spec_after_second(class: RetryClass, second: AttemptOutcome) -> RetryDecision {
    match second {
        AttemptOutcome::Response => RetryDecision::Respond,
        AttemptOutcome::PreWrite(kind) | AttemptOutcome::PostWrite(kind) => match class {
            RetryClass::Mutation => RetryDecision::Fail(DomainErrorKind::OperationOutcomeUnknown),
            _ => RetryDecision::Fail(kind),
        },
    }
}

/// Decides after the first attempt: a response returns, a pre-write failure
/// and any failure of a stateful control request are final, and a post-write
/// failure of a safe or mutation request is retried once.
pub fn after_first_attempt(class: RetryClass, first: AttemptOutcome) -> (decision: RetryDecision)
    ensures
        decision == spec_after_first(class, first),
{
    match first {
        AttemptOutcome::Response => RetryDecision::Respond,
        AttemptOutcome::PreWrite(kind) => RetryDecision::Fail(kind),
        AttemptOutcome::PostWrite(kind) => match class {
            RetryClass::StatefulControl => RetryDecision::Fail(kind),
            RetryClass::Safe | RetryClass::Mutation => RetryDecision::Retry,
        },
    }
}

/// Decides after the second attempt: a failed mutation has an unknown
/// outcome, any other failure keeps its own category.
pub fn after_second_attempt(class: RetryClass, second: AttemptOutcome) -> (decision: RetryDecision)
    ensures
        decision == spec_after_second(class, second),
{
    match second {
        AttemptOutcome::Response => RetryDecision::Respond,
        AttemptOutcome::PreWrite(kind) | AttemptOutcome::PostWrite(kind) => match class {
            RetryClass::Mutation => RetryDecision::Fail(DomainErrorKind::OperationOutcomeUnknown),
            _ => RetryDecision::Fail(kind),
        },
    }
}

/// Error for an ambiguous mutation.
pub fn outcome_unknown() -> (error: DaemonError)
    ensures
        error.kind == DomainErrorKind::OperationOutcomeUnknown,
{
    DaemonError::new(
        DomainErrorKind::OperationOutcomeUnknown,
        "remote Session mutation may have committed but no complete response was received",
    )
}

/// Law: a request is attempted at most twice; a stateful control request or
/// a pre-write failure is never retried; a mutation whose second attempt
/// fails is reported as an unknown outcome and never re-executed again; a
/// read-only failure keeps its own category.
pub proof fn law_bounded_retry(class: RetryClass, first: AttemptOutcome, second: AttemptOutcome)
    ensures
        spec_after_second(class, second) != RetryDecision::Retry,
        class == RetryClass::StatefulControl ==> spec_after_first(class, first) != RetryDecision::Retry,
        first is PreWrite ==> spec_after_first(class, first) != RetryDecision::Retry,
        (class == RetryClass::Mutation && !(second is Response))
            ==> spec_after_second(class, second) == RetryDecision::Fail(DomainErrorKind::OperationOutcomeUnknown),
        class == RetryClass::Safe ==> (second matches AttemptOutcome::PostWrite(kind)
            ==> spec_after_second(class, second) == RetryDecision::Fail(kind)),
{
}

/// Law: a validated response is always returned; a failure before any request
/// byte was written is final and keeps its category; a post-write failure of a
/// read-only or mutation request gets exactly one more attempt; the second
/// attempt of a stateful control request is never made, and a failed second
/// attempt of a non-mutation keeps its category.
pub proof fn law_retry_decisions(class: RetryClass, kind: DomainErrorKind)
    ensures
        spec_after_first(class, AttemptOutcome::Response) == RetryDecision::Respond,
        spec_after_second(class, AttemptOutcome::Response) == RetryDecision::Respond,
        spec_after_first(class, AttemptOutcome::PreWrite(kind)) == RetryDecision::Fail(kind),
        (class == RetryClass::Safe || class == RetryClass::Mutation)
            ==> spec_after_first(class, AttemptOutcome::PostWrite(kind)) == RetryDecision::Retry,
        class == RetryClass::StatefulControl
            ==> spec_after_first(class, AttemptOutcome::PostWrite(kind)) == RetryDecision::Fail(kind),
        class != RetryClass::Mutation ==> spec_after_second(class, AttemptOutcome::PostWrite(kind)) == RetryDecision::Fail(kind)
            && spec_after_second(class, AttemptOutcome::PreWrite(kind)) == RetryDecision::Fail(kind),
{
}

/// Reader state of a response stream that must carry exactly one frame then end.
#[derive(Clone, Copy, Debug, PartialEq, Eq, Structural)]
pub struct ExactResponseReader {
    /// One complete response frame has arrived.
    pub completed: bool,
}

/// What the exact-response reader does after a read.
#[derive(Clone, Copy, Debug, PartialEq, Eq, Structural)]
pub enum ReaderStep {
    /// Keep reading.
    Continue(ExactResponseReader),
    /// The stream ended after exactly one frame: return it.
    Complete,
    /// The attempt failed after the request was written, with this category.
    Fail(DomainErrorKind),
}

/// One read of the response stream: `frames` new complete frames, or the end
/// of the stream where `finish_error` is the category of a truncated frame.
#[derive(Clone, Copy, Debug, PartialEq, Eq, Structural)]
pub enum ReaderEvent {
    Frames(usize),
    Eof { finish_error: Option<DomainErrorKind> },
    ReadFailed,
}

/// The reader's step for one event.
pub open spec fn spec_reader_step(reader: ExactResponseReader, event: ReaderEvent) -> ReaderStep {
    match event {
        ReaderEvent::ReadFailed => ReaderStep::Fail(DomainErrorKind::TransportUnavailable),
        ReaderEvent::Eof { finish_error } => match finish_error {
            Some(kind) => ReaderStep::Fail(kind),
            None => if reader.completed { ReaderStep::Complete } else { ReaderStep::Fail(DomainErrorKind::TransportUnavailable) },
        },
        ReaderEvent::Frames(count) => if count > 1 || (reader.completed && count > 0) {
            ReaderStep::Fail(DomainErrorKind::MalformedFrame)
        } else if count == 1 {
            ReaderStep::Continue(ExactResponseReader { completed: true })
        } else {
            ReaderStep::Continue(reader)
        },
    }
}

/// Advances the exact-response reader: more than one frame is malformed, an
/// end of stream without a frame is a transport failure.
pub fn reader_step(reader: ExactResponseReader, event: ReaderEvent) -> (step: ReaderStep)
    ensures
        step == spec_reader_step(reader, event),
{
    match event {
        ReaderEvent::ReadFailed => ReaderStep::Fail(DomainErrorKind::TransportUnavailable),
        ReaderEvent::Eof { finish_error } => match finish_error {
            Some(kind) => ReaderStep::Fail(kind),
            None => if reader.completed { ReaderStep::Complete } else { ReaderStep::Fail(DomainErrorKind::TransportUnavailable) },
        },
        ReaderEvent::Frames(count) => {
            if count > 1 || (reader.completed && count > 0) {
                ReaderStep::Fail(DomainErrorKind::MalformedFrame)
            } else if count == 1 {
                ReaderStep::Continue(ExactResponseReader { completed: true })
            } else {
                ReaderStep::Continue(reader)
            }
        },
    }
}

/// Total frames seen before the stream ends, folding reader steps.
pub open spec fn reader_run(reader: ExactResponseReader, counts: Seq<usize>) -> ReaderStep
    decreases counts.len(),
{
    if counts.len() == 0 {
        ReaderStep::Continue(reader)
    } else {
        match reader_run(reader, counts.drop_last()) {
            ReaderStep::Continue(current) => spec_reader_step(current, ReaderEvent::Frames(counts.last())),
            done => done,
        }
    }
}

/// Sum of frame counts.
pub open spec fn frame_total(counts: Seq<usize>) -> nat
    decreases counts.len(),
{
    if counts.len() == 0 { 0 } else { frame_total(counts.drop_last()) + counts.last() as nat }
}

/// Law: a failed read of the response stream is a lost transport, and an end
/// of stream whose decoder reports leftover bytes fails with that category,
/// whatever the reader had seen.
pub proof fn law_reader_failures(reader: ExactResponseReader, kind: DomainErrorKind)
    ensures
        spec_reader_step(reader, ReaderEvent::ReadFailed) == ReaderStep::Fail(DomainErrorKind::TransportUnavailable),
        spec_reader_step(reader, ReaderEvent::Eof { finish_error: Some(kind) }) == ReaderStep::Fail(kind),
{
}

/// Law: a response stream is accepted exactly when it carries one complete
/// frame in total and then ends cleanly.
pub proof fn law_exactly_one_response(counts: Seq<usize>)
    ensures
        match reader_run(ExactResponseReader { completed: false }, counts) {
            ReaderStep::Continue(reader) => frame_total(counts) <= 1 && reader.completed == (frame_total(counts) == 1)
                && spec_reader_step(reader, ReaderEvent::Eof { finish_error: None })
                    == (if frame_total(counts) == 1 { ReaderStep::Complete } else { ReaderStep::Fail(DomainErrorKind::TransportUnavailable) }),
            ReaderStep::Complete => false,
            ReaderStep::Fail(kind) => kind == DomainErrorKind::MalformedFrame && frame_total(counts) > 1,
        },
    decreases counts.len(),
{
    if counts.len() > 0 {
        law_exactly_one_response(counts.drop_last());
    }
}

/// One envelope must decode to exactly one complete frame.
pub fn require_exactly_one_frame(frames: usize) -> (result: Result<(), DaemonError>)
    ensures
        match result {
            Ok(()) => frames == 1,
            Err(error) => frames != 1 && error.kind == DomainErrorKind::MalformedFrame,
        },
{
    if frames != 1 {
        return Err(DaemonError::new(DomainErrorKind::MalformedFrame, "remote Session envelope must contain exactly one complete frame"));
    }
    Ok(())
}

} // verus!
