use zterm_daemon::error::DomainErrorKind;
use zterm_daemon::remote_attachment::{plan_attach, PendingControl, ResumeState, Viewport, MAX_PENDING_CONTROL_REQUESTS};
use zterm_daemon::wire::WireKind;

#[test]
fn pending_control_window_is_exact_and_recovers_after_correlation() {
    let mut pending = PendingControl::new();
    for request_id in 1..=MAX_PENDING_CONTROL_REQUESTS {
        pending
            .retain(u64::try_from(request_id).expect("pending request ID fits u64"), WireKind::SessionOperationLeaseResponse)
            .expect("every production pending-control slot is admitted");
    }
    assert_eq!(pending.len(), MAX_PENDING_CONTROL_REQUESTS);

    let overflow_id = u64::try_from(MAX_PENDING_CONTROL_REQUESTS + 1).expect("overflow request ID fits u64");
    let error = pending
        .retain(overflow_id, WireKind::SessionOperationLeaseResponse)
        .expect_err("the next pending control exceeds the exact response window");
    assert_eq!(error.kind(), DomainErrorKind::ResourceExhausted);

    assert_eq!(
        pending.take(1),
        Some(WireKind::SessionOperationLeaseResponse),
        "a correlated response reaps exactly its pending cell",
    );
    pending
        .retain(overflow_id, WireKind::SessionOperationLeaseResponse)
        .expect("reaping one correlation recovers one pending-control slot");
    assert_eq!(pending.len(), MAX_PENDING_CONTROL_REQUESTS);
}

#[test]
fn a_frozen_view_never_recreates_main_or_sends_a_pre_ack_reconnect_resize() {
    let session_id: u128 = 0x83;
    let state = ResumeState {
        frozen_session_id: Some(session_id),
        known_revision: Some(11),
        latest_viewport: Some(Viewport { rows: 60, columns: 120 }),
        force_full: false,
        ever_active: true,
        requested_takeover: false,
    };
    let request = plan_attach(state, true);
    assert!(!request.create_main);
    assert!(!request.keep_session_name);
    assert_eq!(request.session_id, Some(session_id));
    assert!(request.viewport.is_none());
    assert_eq!(request.known_revision, Some(11));
}
