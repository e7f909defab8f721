use zterm_daemon::error::DomainErrorKind;
use zterm_daemon::remote_session::{
    after_first_attempt, after_second_attempt, inspect_request, reader_step, require_exactly_one_frame,
    validate_session_unary_response, AttemptOutcome, ExactResponseReader, ReaderEvent, ReaderStep, RetryClass,
    RetryDecision, SessionUnaryResponseStatus, TargetSelector,
};
use zterm_daemon::wire::{FrameHeader, WireKind};

const ROUTED: [u8; 32] = [0x51; 32];

fn header(kind: WireKind, request_id: u64) -> FrameHeader {
    FrameHeader { kind, request_id, deadline_ms: 0 }
}

#[test]
fn read_only_ambiguity_retries_once() {
    let lost = AttemptOutcome::PostWrite(DomainErrorKind::TransportUnavailable);
    assert_eq!(after_first_attempt(RetryClass::Safe, lost), RetryDecision::Retry);
    assert_eq!(after_second_attempt(RetryClass::Safe, lost), RetryDecision::Fail(DomainErrorKind::TransportUnavailable));
}

#[test]
fn operation_lease_post_write_failure_is_never_retried() {
    let lost = AttemptOutcome::PostWrite(DomainErrorKind::TransportUnavailable);
    assert_eq!(
        after_first_attempt(RetryClass::StatefulControl, lost),
        RetryDecision::Fail(DomainErrorKind::TransportUnavailable)
    );
}

#[test]
fn final_mutation_ambiguity_is_outcome_unknown() {
    let lost = AttemptOutcome::PostWrite(DomainErrorKind::DeadlineExceeded);
    assert_eq!(after_first_attempt(RetryClass::Mutation, lost), RetryDecision::Retry);
    assert_eq!(
        after_second_attempt(RetryClass::Mutation, lost),
        RetryDecision::Fail(DomainErrorKind::OperationOutcomeUnknown)
    );
    assert_eq!(after_second_attempt(RetryClass::Mutation, AttemptOutcome::Response), RetryDecision::Respond);
}

#[test]
fn pre_write_failure_is_final() {
    let refused = AttemptOutcome::PreWrite(DomainErrorKind::AddressUnavailable);
    assert_eq!(after_first_attempt(RetryClass::Mutation, refused), RetryDecision::Fail(DomainErrorKind::AddressUnavailable));
}

#[test]
fn inspected_requests_carry_their_response_contract() {
    let contract = inspect_request(header(WireKind::SessionTakeoverRequest, 61), Some(TargetSelector::Device(ROUTED)), ROUTED)
        .expect("unary takeover");
    assert_eq!(contract.response_kind, WireKind::SessionMutateResponse);
    assert_eq!(contract.retry_class, RetryClass::Mutation);
    assert_eq!(contract.request_id, 61);
    let local = inspect_request(header(WireKind::SessionListRequest, 1), Some(TargetSelector::Local), ROUTED);
    assert_eq!(local.expect_err("self target").kind, DomainErrorKind::MalformedFrame);
    let terminal = inspect_request(header(WireKind::TerminalInput, 1), Some(TargetSelector::Device(ROUTED)), ROUTED);
    assert!(terminal.is_err());
}

#[test]
fn wrong_kind_or_request_id_replies_are_rejected() {
    let expected = WireKind::SessionMutateResponse;
    let status = validate_session_unary_response(header(expected, 111), 111, expected, None, Ok(())).expect("valid");
    assert_eq!(status, SessionUnaryResponseStatus::Expected);
    let wrong_id = validate_session_unary_response(header(expected, 112), 111, expected, None, Ok(()));
    assert_eq!(wrong_id.expect_err("id").kind, DomainErrorKind::MalformedFrame);
    let wrong_kind = validate_session_unary_response(header(WireKind::SessionListResponse, 111), 111, expected, None, Ok(()));
    assert_eq!(wrong_kind.expect_err("kind").kind, DomainErrorKind::MalformedFrame);
    let error = validate_session_unary_response(
        header(WireKind::ServiceErrorResponse, 111),
        111,
        expected,
        Some(DomainErrorKind::SessionNotFound),
        Ok(()),
    )
    .expect("typed error");
    assert_eq!(error, SessionUnaryResponseStatus::ServiceError(DomainErrorKind::SessionNotFound));
}

#[test]
fn reader_steps_require_one_frame_then_eof() {
    let fresh = ExactResponseReader { completed: false };
    let ReaderStep::Continue(after_one) = reader_step(fresh, ReaderEvent::Frames(1)) else { panic!("one frame") };
    assert_eq!(reader_step(after_one, ReaderEvent::Eof { finish_error: None }), ReaderStep::Complete);
    assert_eq!(reader_step(after_one, ReaderEvent::Frames(1)), ReaderStep::Fail(DomainErrorKind::MalformedFrame));
    assert_eq!(reader_step(fresh, ReaderEvent::Frames(2)), ReaderStep::Fail(DomainErrorKind::MalformedFrame));
    assert_eq!(
        reader_step(fresh, ReaderEvent::Eof { finish_error: None }),
        ReaderStep::Fail(DomainErrorKind::TransportUnavailable)
    );
}

#[test]
fn request_boundary_rejects_multiple_frames() {
    assert!(require_exactly_one_frame(1).is_ok());
    assert_eq!(require_exactly_one_frame(2).expect_err("two").kind, DomainErrorKind::MalformedFrame);
}

#[test]
fn request_boundary_rejects_nested_terminal_and_trailing_inner_frames() {
    let target = [15u8; 32];
    let nested = inspect_request(header(WireKind::LocalSessionUnaryRequest, 131), Some(TargetSelector::Device(target)), target);
    assert_eq!(
        nested.expect_err("the envelope accepts exactly one unary Session control frame").kind,
        DomainErrorKind::MalformedFrame
    );
    let terminal = inspect_request(header(WireKind::TerminalInput, 132), Some(TargetSelector::Device(target)), target);
    assert_eq!(
        terminal.expect_err("the envelope accepts exactly one unary Session control frame").kind,
        DomainErrorKind::MalformedFrame
    );
    inspect_request(header(WireKind::SessionListRequest, 133), Some(TargetSelector::Device(target)), target)
        .expect("the leading list request alone is unary");
    assert_eq!(
        require_exactly_one_frame(2).expect_err("the envelope accepts exactly one unary Session control frame").kind,
        DomainErrorKind::MalformedFrame
    );
}

use zterm_daemon::remote_session::reject_own_target;

#[test]
fn own_device_is_not_a_remote_target() {
    assert!(reject_own_target([2; 32], [1; 32]).is_ok());
    assert_eq!(reject_own_target([1; 32], [1; 32]).expect_err("self").kind, DomainErrorKind::InvalidTargetSelector);
}
