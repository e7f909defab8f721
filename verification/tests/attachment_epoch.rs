use zterm_daemon::attachment_epoch::{
    acknowledge_snapshot, activate_epoch, begin_bridge, complete_full_sync, enter_acknowledged_resync, finish_epoch,
    initial_remote_update, initial_sync_required, local_frame_step, offline_local_step, open_epoch,
    reconnect_after_failure, remote_frame_step, require_full_snapshot, BridgeNext, BridgeState, Epoch, EpochEnd, InitialAttach,
    InitialUpdate, LocalAction, LocalFrame, OfflineAction, RemoteAction, RemoteFrame,
};
use zterm_daemon::error::DomainErrorKind;
use zterm_daemon::remote_attachment::{
    should_retry_resume_occupied, DesiredViewPhase, EpochPhase, HistoryCursor, HistoryDirection, HistoryOutcome,
    HistoryPageShape, Viewport,
};
use zterm_daemon::remote_session::TargetSelector;

const TARGET: [u8; 32] = [0x81; 32];
const LOCAL: u128 = 0x82;
const REMOTE: u128 = 0x90;
const SESSION: u128 = 0x83;
const MAX_ROWS: usize = 1024;

fn attach(takeover: bool) -> InitialAttach {
    InitialAttach {
        target: Some(TargetSelector::Device(TARGET)),
        resume_view_chosen: false,
        known_revision_chosen: false,
        viewport: Some(Viewport { rows: 24, columns: 80 }),
        viewport_size: Ok(()),
        takeover,
    }
}

fn bridge(takeover: bool) -> BridgeState {
    begin_bridge(TARGET, LOCAL, attach(takeover)).expect("valid first attach")
}

fn active() -> Epoch {
    Epoch { remote_attachment_id: REMOTE, phase: EpochPhase::Active }
}

fn lease(request_id: u64) -> LocalFrame {
    LocalFrame::LeaseRequest { request_id, target: Some(TargetSelector::Device(TARGET)) }
}

#[test]
fn first_attach_may_not_choose_the_resume_identity() {
    let mut request = attach(false);
    request.resume_view_chosen = true;
    let Err(error) = begin_bridge(TARGET, LOCAL, request) else { panic!("resume identity is daemon-owned") };
    assert_eq!(error.kind, DomainErrorKind::MalformedFrame);

    let mut request = attach(false);
    request.target = Some(TargetSelector::Local);
    let Err(error) = begin_bridge(TARGET, LOCAL, request) else { panic!("exact device target required") };
    assert_eq!(error.kind, DomainErrorKind::MalformedFrame);

    let state = bridge(false);
    assert_eq!(state.desired, DesiredViewPhase::Preparing);
    assert_eq!(state.latest_viewport, Some(Viewport { rows: 24, columns: 80 }));
    assert_eq!(state.pending.len(), 0);
}

#[test]
fn control_requests_before_activation_are_rejected_unqueued() {
    let mut state = bridge(false);
    let mut epoch = open_epoch(&state, REMOTE, 41);
    let action = local_frame_step(&mut state, &mut epoch, lease(16), true, MAX_ROWS).expect("typed rejection");
    assert_eq!(action, LocalAction::RejectNotSynchronized);
    assert_eq!(state.pending.len(), 0);
}

#[test]
fn snapshot_acknowledgement_activates_the_epoch() {
    let mut state = bridge(false);
    let mut epoch = open_epoch(&state, REMOTE, 41);
    let stale = LocalFrame::SnapshotApplied { attachment_id: Some(LOCAL), revision: 40 };
    assert_eq!(local_frame_step(&mut state, &mut epoch, stale, true, MAX_ROWS).expect("ignored"), LocalAction::Ignore);
    let applied = LocalFrame::SnapshotApplied { attachment_id: Some(LOCAL), revision: 41 };
    assert_eq!(
        local_frame_step(&mut state, &mut epoch, applied, true, MAX_ROWS).expect("forwarded"),
        LocalAction::ForwardThenAcknowledge
    );
    assert_eq!(state.known_revision, Some(41));
    assert!(acknowledge_snapshot(&mut epoch));
    activate_epoch(&mut state, &mut epoch);
    assert_eq!(epoch.phase, EpochPhase::Active);
    assert_eq!(state.desired, DesiredViewPhase::Active);
    assert!(state.ever_active);
}

#[test]
fn requested_takeover_activates_only_after_its_response() {
    let mut state = bridge(true);
    state.frozen_session_id = Some(SESSION);
    let mut epoch = open_epoch(&state, REMOTE, 5);
    let applied = LocalFrame::SnapshotApplied { attachment_id: Some(LOCAL), revision: 5 };
    local_frame_step(&mut state, &mut epoch, applied, true, MAX_ROWS).expect("forwarded");
    assert!(!acknowledge_snapshot(&mut epoch), "takeover still pending");
    let takeover = LocalFrame::TakeoverRequest {
        request_id: 7,
        attachment_id: Some(LOCAL),
        session_id: Some(SESSION),
        target: Some(TargetSelector::Device(TARGET)),
    };
    assert_eq!(local_frame_step(&mut state, &mut epoch, takeover, true, MAX_ROWS).expect("forwarded"), LocalAction::Forward);
    assert_eq!(state.pending.len(), 1);
    let response = RemoteFrame::MutateResponse { request_id: 7, payload: Ok(()), session_id: Ok(SESSION) };
    assert_eq!(
        remote_frame_step(&mut state, &mut epoch, response, MAX_ROWS).expect("takeover completes"),
        RemoteAction::ForwardLocalAndActivate
    );
    assert_eq!(state.pending.len(), 0);
}

#[test]
fn correlated_service_error_projection_is_terminal_only_for_fatal_kinds() {
    let mut state = bridge(false);
    let mut epoch = active();
    local_frame_step(&mut state, &mut epoch, lease(31), true, MAX_ROWS).expect("lease forwarded");
    local_frame_step(&mut state, &mut epoch, lease(32), true, MAX_ROWS).expect("lease forwarded");
    let ordinary = RemoteFrame::ServiceError { request_id: 31, kind: Some(DomainErrorKind::SessionOccupied) };
    assert_eq!(
        remote_frame_step(&mut state, &mut epoch, ordinary, MAX_ROWS).expect("projected"),
        RemoteAction::ProjectError { kind: DomainErrorKind::SessionOccupied, terminal: false }
    );
    let fatal = RemoteFrame::ServiceError { request_id: 32, kind: Some(DomainErrorKind::AuthorizationRevoked) };
    assert_eq!(
        remote_frame_step(&mut state, &mut epoch, fatal, MAX_ROWS).expect("projected"),
        RemoteAction::ProjectError { kind: DomainErrorKind::AuthorizationRevoked, terminal: true }
    );
    let uncorrelated = RemoteFrame::ServiceError { request_id: 99, kind: Some(DomainErrorKind::SessionOccupied) };
    assert_eq!(
        remote_frame_step(&mut state, &mut epoch, uncorrelated, MAX_ROWS).expect("projected"),
        RemoteAction::ProjectError { kind: DomainErrorKind::SessionOccupied, terminal: true }
    );
    assert_eq!(state.pending.len(), 0);
}

#[test]
fn revision_gaps_request_full_sync() {
    let mut state = bridge(false);
    state.known_revision = Some(10);
    let mut epoch = active();
    let gap = RemoteFrame::Delta { attachment_id: Some(REMOTE), from_revision: 12, to_revision: 13, shape: Ok(()) };
    assert_eq!(
        remote_frame_step(&mut state, &mut epoch, gap, MAX_ROWS).expect("recoverable"),
        RemoteAction::RequestFullSync { known_revision: 10 }
    );
    assert_eq!(state.known_revision, Some(10));
    assert!(enter_acknowledged_resync(&mut state, &mut epoch, true));
    assert!(state.force_full);
    assert_eq!(epoch.phase, EpochPhase::Synchronizing { expected: 10, acknowledged: true, needs_takeover: false });

    let mut epoch = active();
    let next = RemoteFrame::Delta { attachment_id: Some(REMOTE), from_revision: 10, to_revision: 11, shape: Ok(()) };
    assert_eq!(remote_frame_step(&mut state, &mut epoch, next, MAX_ROWS).expect("continues"), RemoteAction::ForwardLocal);
    assert_eq!(state.known_revision, Some(11));
}

#[test]
fn stale_remote_attachment_cannot_affect_the_epoch() {
    let mut state = bridge(false);
    let mut epoch = active();
    let stale = RemoteFrame::LeaseLost { attachment_id: Some(REMOTE + 1) };
    let Err(error) = remote_frame_step(&mut state, &mut epoch, stale, MAX_ROWS) else { panic!("stale attachment") };
    assert_eq!(error.kind, DomainErrorKind::MalformedFrame);
}

#[test]
fn delta_before_synchronization_is_a_protocol_error() {
    let mut state = bridge(false);
    let mut epoch = open_epoch(&state, REMOTE, 3);
    let delta = RemoteFrame::Delta { attachment_id: Some(REMOTE), from_revision: 3, to_revision: 4, shape: Ok(()) };
    let Err(error) = remote_frame_step(&mut state, &mut epoch, delta, MAX_ROWS) else { panic!("early delta") };
    assert_eq!(error.kind, DomainErrorKind::MalformedFrame);
}

#[test]
fn mid_epoch_snapshot_announces_synchronizing_once() {
    let mut state = bridge(false);
    state.desired = DesiredViewPhase::Active;
    let mut epoch = active();
    let snapshot = RemoteFrame::Snapshot { attachment_id: Some(REMOTE), session_id: Some(SESSION), revision: 20, shape: Ok(()) };
    assert_eq!(
        remote_frame_step(&mut state, &mut epoch, snapshot, MAX_ROWS).expect("valid"),
        RemoteAction::Resynchronize { announce: true }
    );
    assert_eq!(state.frozen_session_id, Some(SESSION));
    let again = RemoteFrame::SyncRequired { attachment_id: Some(REMOTE), latest_revision: 21 };
    assert_eq!(
        remote_frame_step(&mut state, &mut epoch, again, MAX_ROWS).expect("valid"),
        RemoteAction::Resynchronize { announce: false }
    );
    let other = RemoteFrame::Snapshot { attachment_id: Some(REMOTE), session_id: Some(SESSION + 1), revision: 22, shape: Ok(()) };
    let Err(error) = remote_frame_step(&mut state, &mut epoch, other, MAX_ROWS) else { panic!("session is frozen") };
    assert_eq!(error.kind, DomainErrorKind::SessionNotFound);
}

#[test]
fn history_pages_correlate_and_unsupported_peers_get_a_gap() {
    let mut state = bridge(false);
    let mut epoch = active();
    let request = LocalFrame::HistoryRequest {
        request_id: 10,
        attachment_id: Some(LOCAL),
        direction: Some(HistoryDirection::Older),
        maximum_rows: 64,
    };
    assert_eq!(local_frame_step(&mut state, &mut epoch, request, false, MAX_ROWS).expect("gap"), LocalAction::ReplyHistoryGap);
    assert_eq!(local_frame_step(&mut state, &mut epoch, request, true, MAX_ROWS).expect("forwarded"), LocalAction::Forward);
    let page = HistoryPageShape {
        outcome: Some(HistoryOutcome::Complete),
        row_count: 2,
        cursor: Some(HistoryCursor { row_count: 2, epoch: 1, revision: 9 }),
        current_epoch: 1,
        current_revision: 9,
    };
    let frame = RemoteFrame::HistoryPage { request_id: 10, attachment_id: Some(REMOTE), page };
    assert_eq!(remote_frame_step(&mut state, &mut epoch, frame, MAX_ROWS).expect("valid page"), RemoteAction::ForwardLocal);
    let Err(error) = remote_frame_step(&mut state, &mut epoch, frame, MAX_ROWS) else { panic!("unsolicited page") };
    assert_eq!(error.kind, DomainErrorKind::MalformedFrame);
}

#[test]
fn ended_epoch_fails_stranded_requests_in_request_order() {
    let mut state = bridge(false);
    state.frozen_session_id = Some(SESSION);
    let mut epoch = active();
    local_frame_step(&mut state, &mut epoch, lease(9), true, MAX_ROWS).expect("lease");
    let takeover = LocalFrame::TakeoverRequest {
        request_id: 3,
        attachment_id: Some(LOCAL),
        session_id: Some(SESSION),
        target: Some(TargetSelector::Device(TARGET)),
    };
    local_frame_step(&mut state, &mut epoch, takeover, true, MAX_ROWS).expect("takeover");
    let (failures, next) = finish_epoch(&mut state, EpochEnd::Reconnect(DomainErrorKind::TransportUnavailable));
    assert_eq!(
        failures,
        vec![(3, DomainErrorKind::OperationOutcomeUnknown), (9, DomainErrorKind::TransportUnavailable)]
    );
    assert_eq!(next, BridgeNext::Reconnect { announce: true });
    assert_eq!(state.pending.len(), 0);
    let (failures, next) = finish_epoch(&mut state, EpochEnd::Detached);
    assert!(failures.is_empty());
    assert_eq!(next, BridgeNext::Finish);
}

#[test]
fn only_temporary_transport_failures_reconnect() {
    let mut state = bridge(false);
    assert_eq!(reconnect_after_failure(&mut state, DomainErrorKind::TransportUnavailable), Some(true));
    assert_eq!(reconnect_after_failure(&mut state, DomainErrorKind::DeadlineExceeded), Some(false));
    assert_eq!(reconnect_after_failure(&mut state, DomainErrorKind::Unauthorized), None);
}

#[test]
fn offline_view_remembers_geometry_and_refuses_control() {
    let mut state = bridge(false);
    let resize = LocalFrame::Resize { attachment_id: Some(LOCAL), viewport: Viewport { rows: 60, columns: 120 }, size: Ok(()) };
    assert_eq!(offline_local_step(&mut state, resize, MAX_ROWS).expect("kept"), OfflineAction::Continue);
    assert_eq!(state.latest_viewport, Some(Viewport { rows: 60, columns: 120 }));
    assert_eq!(offline_local_step(&mut state, lease(4), MAX_ROWS).expect("refused"), OfflineAction::RejectUnavailable);
    let detach = LocalFrame::Detach { attachment_id: Some(LOCAL) };
    assert_eq!(offline_local_step(&mut state, detach, MAX_ROWS).expect("detached"), OfflineAction::Detached);
}

#[test]
fn inconsistent_resume_delta_requires_a_full_snapshot() {
    let mut state = bridge(false);
    state.frozen_session_id = Some(SESSION);
    state.known_revision = Some(11);
    let delta = RemoteFrame::Delta { attachment_id: Some(REMOTE), from_revision: 12, to_revision: 14, shape: Ok(()) };
    let update = initial_remote_update(&mut state, delta, 5, 5, None).expect("recoverable");
    assert_eq!(update, InitialUpdate::RequiresFull { remote_attachment_id: REMOTE, known_revision: 11 });
    assert!(!state.force_full, "the initial update leaves the bridge state unchanged");
    require_full_snapshot(&mut state);
    assert!(state.force_full);
    let marker = RemoteFrame::SyncRequired { attachment_id: Some(REMOTE), latest_revision: 20 };
    assert_eq!(initial_sync_required(marker, 5, 5, REMOTE).expect("marker"), 20);
    let snapshot = RemoteFrame::Snapshot { attachment_id: Some(REMOTE), session_id: Some(SESSION), revision: 20, shape: Ok(()) };
    let update = initial_remote_update(&mut state, snapshot, 5, 5, Some(REMOTE)).expect("snapshot");
    assert_eq!(complete_full_sync(update, 20).expect("same revision"), (REMOTE, 20));
    let Err(error) = complete_full_sync(update, 21) else { panic!("revision mismatch") };
    assert_eq!(error.kind, DomainErrorKind::MalformedFrame);
}

#[test]
fn occupied_resume_retries_only_after_a_prior_attachment() {
    let occupied = DomainErrorKind::SessionOccupied;
    assert!(!should_retry_resume_occupied(false, None, occupied));
    assert!(!should_retry_resume_occupied(false, Some(SESSION), occupied));
    assert!(should_retry_resume_occupied(true, Some(SESSION), occupied));
}

#[test]
fn epoch_end_debug_retains_only_the_typed_error_category() {
    let end = EpochEnd::Reconnect(DomainErrorKind::TransportUnavailable);
    let rendered = format!("{end:?}");
    assert!(!rendered.contains("REMOTE_ERROR_TEXT_SENTINEL_1f8c"));
    assert!(rendered.contains("TransportUnavailable"));
}

#[test]
fn inconsistent_resume_delta_leaves_the_state_and_checks_the_request_id() {
    let mut state = bridge(false);
    state.frozen_session_id = Some(SESSION);
    state.known_revision = Some(5);
    let delta = RemoteFrame::Delta { attachment_id: Some(REMOTE), from_revision: 4, to_revision: 6, shape: Ok(()) };
    let update = initial_remote_update(&mut state, delta, 1, 1, None).expect("inconsistent resume is recoverable");
    assert_eq!(update, InitialUpdate::RequiresFull { remote_attachment_id: REMOTE, known_revision: 5 });
    assert_unchanged(&state);
    let mismatch = initial_remote_update(&mut state, delta, 1, 2, None).expect_err("request id mismatch");
    assert_eq!(mismatch.kind, DomainErrorKind::MalformedFrame);
    assert_unchanged(&state);
}

fn assert_unchanged(state: &BridgeState) {
    assert_eq!(state.frozen_session_id, Some(SESSION));
    assert_eq!(state.known_revision, Some(5));
    assert!(!state.force_full);
    assert_eq!(state.pending.len(), 0);
}
