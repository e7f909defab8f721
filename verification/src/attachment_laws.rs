//! Properties of the attachment bridge that span its steps.

use vstd::prelude::*;

use crate::attachment_epoch::{
    spec_initial_update, spec_local_step, spec_remote_step, BridgeView, Epoch, LocalAction, LocalFrame, RemoteAction,
    RemoteFrame,
};
use crate::error::DomainErrorKind;
use crate::wire::WireKind;
use crate::remote_attachment::{Viewport, pending_has, pending_lookup, pending_remove, spec_control_allowed, spec_is_fatal_service_error, EpochPhase};

verus! {

/// Lease and takeover requests reach the remote only when the epoch allows
/// control; otherwise they are answered locally and leave no waiter behind.
pub proof fn law_control_requests_wait_for_synchronization(
    view: BridgeView,
    epoch: Epoch,
    frame: LocalFrame,
    history_paging: bool,
    max_rows: usize,
)
    requires
        frame is LeaseRequest || frame is TakeoverRequest,
    ensures
        ({
            let (next, next_epoch, action) = spec_local_step(view, epoch, frame, history_paging, max_rows);
            &&& next_epoch == epoch
            &&& action == Ok::<LocalAction, DomainErrorKind>(LocalAction::Forward) ==> spec_control_allowed(epoch.phase)
            &&& !spec_control_allowed(epoch.phase) ==> next.pending == view.pending
                && (action is Err || action == Ok::<LocalAction, DomainErrorKind>(LocalAction::RejectNotSynchronized))
        }),
{
}

/// Terminal input and geometry reach the remote only while the epoch is active.
pub proof fn law_input_flows_only_while_active(
    view: BridgeView,
    epoch: Epoch,
    frame: LocalFrame,
    history_paging: bool,
    max_rows: usize,
)
    requires
        frame is Input || frame is Resize,
    ensures
        spec_local_step(view, epoch, frame, history_paging, max_rows).2 == Ok::<LocalAction, DomainErrorKind>(LocalAction::Forward)
            ==> epoch.phase == EpochPhase::Active,
{
}

/// Law: terminal input that names the local view is forwarded to the remote
/// attachment exactly when the epoch is active, and is dropped otherwise;
/// input naming any other attachment, or none, is malformed. Input never
/// changes the bridge state or the epoch.
pub proof fn law_input_is_forwarded_exactly_while_active(
    view: BridgeView,
    epoch: Epoch,
    attachment_id: Option<u128>,
    history_paging: bool,
    max_rows: usize,
)
    ensures
        ({
            let (next, next_epoch, action) = spec_local_step(view, epoch, LocalFrame::Input { attachment_id }, history_paging, max_rows);
            &&& next == view
            &&& next_epoch == epoch
            &&& attachment_id == Some(view.local_view_id) ==> {
                &&& (action == Ok::<LocalAction, DomainErrorKind>(LocalAction::Forward)) == (epoch.phase == EpochPhase::Active)
                &&& epoch.phase != EpochPhase::Active ==> action == Ok::<LocalAction, DomainErrorKind>(LocalAction::Ignore)
            }
            &&& attachment_id != Some(view.local_view_id) ==> action == Err::<LocalAction, DomainErrorKind>(DomainErrorKind::MalformedFrame)
        }),
{
}

/// Law: a valid resize of the local view is always remembered as the latest
/// viewport, and is forwarded to the remote attachment exactly when the epoch
/// is active; otherwise it waits for the next attach.
pub proof fn law_resize_is_remembered_and_forwarded_while_active(
    view: BridgeView,
    epoch: Epoch,
    viewport: Viewport,
    history_paging: bool,
    max_rows: usize,
)
    ensures
        ({
            let frame = LocalFrame::Resize { attachment_id: Some(view.local_view_id), viewport, size: Ok(()) };
            let (next, next_epoch, action) = spec_local_step(view, epoch, frame, history_paging, max_rows);
            &&& next == (BridgeView { latest_viewport: Some(viewport), ..view })
            &&& next_epoch == epoch
            &&& action == Ok::<LocalAction, DomainErrorKind>(
                if epoch.phase == EpochPhase::Active { LocalAction::Forward } else { LocalAction::Ignore })
        }),
{
}

/// Law: the local view's detach ends the epoch as detached in every phase; a
/// sync request is forwarded while the epoch is active and otherwise marks the
/// next attach as a full snapshot; a snapshot acknowledgement is forwarded
/// only once, for the exact revision the epoch waits for, and then becomes the
/// known revision; any other frame kind is malformed.
pub proof fn law_view_control_frames(view: BridgeView, epoch: Epoch, revision: u64, history_paging: bool, max_rows: usize)
    ensures
        spec_local_step(view, epoch, LocalFrame::Detach { attachment_id: Some(view.local_view_id) }, history_paging, max_rows)
            == (view, epoch, Ok::<LocalAction, DomainErrorKind>(LocalAction::Detach)),
        spec_local_step(view, epoch, LocalFrame::SyncRequest { attachment_id: Some(view.local_view_id) }, history_paging, max_rows)
            == (if epoch.phase == EpochPhase::Active {
                (view, epoch, Ok::<LocalAction, DomainErrorKind>(LocalAction::ForwardThenResynchronize))
            } else {
                (BridgeView { force_full: true, ..view }, epoch, Ok::<LocalAction, DomainErrorKind>(LocalAction::Ignore))
            }),
        ({
            let frame = LocalFrame::SnapshotApplied { attachment_id: Some(view.local_view_id), revision };
            let (next, next_epoch, action) = spec_local_step(view, epoch, frame, history_paging, max_rows);
            &&& next_epoch == epoch
            &&& if epoch.phase == (EpochPhase::Synchronizing { expected: revision, acknowledged: false, needs_takeover: epoch.phase->Synchronizing_needs_takeover }) {
                next == (BridgeView { known_revision: Some(revision), ..view })
                    && action == Ok::<LocalAction, DomainErrorKind>(LocalAction::ForwardThenAcknowledge)
            } else {
                next == view && action == Ok::<LocalAction, DomainErrorKind>(LocalAction::Ignore)
            }
        }),
        spec_local_step(view, epoch, LocalFrame::Unexpected, history_paging, max_rows)
            == (view, epoch, Err::<LocalAction, DomainErrorKind>(DomainErrorKind::MalformedFrame)),
{
}

/// A correlated remote service error is projected locally and keeps the epoch
/// unless its category is fatal; an uncorrelated one ends the epoch. Either
/// way its waiter is reaped.
pub proof fn law_correlated_errors_keep_the_epoch_unless_fatal(view: BridgeView, epoch: Epoch, request_id: u64, kind: DomainErrorKind, max_rows: usize)
    ensures
        ({
            let (next, next_epoch, action) = spec_remote_step(view, epoch, RemoteFrame::ServiceError { request_id, kind: Some(kind) }, max_rows);
            &&& next_epoch == epoch
            &&& next.pending == pending_remove(view.pending, request_id)
            &&& action == Ok::<RemoteAction, DomainErrorKind>(RemoteAction::ProjectError {
                kind,
                terminal: !pending_has(view.pending, request_id) || spec_is_fatal_service_error(kind),
            })
        }),
{
}

/// A remote delta that does not continue the known revision is never
/// forwarded: the view asks for a full snapshot from the revision it has and
/// keeps its state until that request is written.
pub proof fn law_revision_gaps_are_never_forwarded(
    view: BridgeView,
    epoch: Epoch,
    attachment_id: Option<u128>,
    from_revision: u64,
    to_revision: u64,
    max_rows: usize,
)
    requires
        epoch.phase == EpochPhase::Active,
        attachment_id == Some(epoch.remote_attachment_id),
        ({
            let known = match view.known_revision { Some(known) => known, None => 0 };
            from_revision != known || to_revision < from_revision
        }),
    ensures
        ({
            let frame = RemoteFrame::Delta { attachment_id, from_revision, to_revision, shape: Ok(()) };
            let (next, next_epoch, action) = spec_remote_step(view, epoch, frame, max_rows);
            &&& next == view
            &&& next_epoch == epoch
            &&& action == Ok::<RemoteAction, DomainErrorKind>(RemoteAction::RequestFullSync {
                known_revision: match view.known_revision { Some(known) => known, None => 0 },
            })
        }),
{
}

/// Law: in an active epoch, a remote delta on the epoch's attachment that
/// continues the known revision exactly is forwarded to the local view and
/// becomes the known revision; outside an active epoch, or on another
/// attachment, a delta is malformed and changes nothing.
pub proof fn law_continuous_deltas_are_forwarded(
    view: BridgeView,
    epoch: Epoch,
    attachment_id: Option<u128>,
    to_revision: u64,
    max_rows: usize,
)
    ensures
        ({
            let known = match view.known_revision { Some(known) => known, None => 0 };
            let frame = RemoteFrame::Delta { attachment_id, from_revision: known, to_revision, shape: Ok(()) };
            let (next, next_epoch, action) = spec_remote_step(view, epoch, frame, max_rows);
            &&& next_epoch == epoch
            &&& (epoch.phase == EpochPhase::Active && attachment_id == Some(epoch.remote_attachment_id) && to_revision >= known)
                ==> next == (BridgeView { known_revision: Some(to_revision), ..view })
                    && action == Ok::<RemoteAction, DomainErrorKind>(RemoteAction::ForwardLocal)
            &&& (epoch.phase != EpochPhase::Active || attachment_id != Some(epoch.remote_attachment_id))
                ==> next == view && action == Err::<RemoteAction, DomainErrorKind>(DomainErrorKind::MalformedFrame)
        }),
{
}

/// Law: a remote response reaches the local view only when it answers a
/// request the view is waiting for, with the kind that request expects; then
/// its waiter is reaped. A response nobody waits for is malformed and changes
/// nothing. The end of the lease or of the frozen session on the epoch's
/// attachment is forwarded and ends the epoch.
pub proof fn law_responses_are_correlated(view: BridgeView, epoch: Epoch, request_id: u64, max_rows: usize)
    ensures
        ({
            let frame = RemoteFrame::LeaseResponse { request_id, payload: Ok(()) };
            let (next, next_epoch, action) = spec_remote_step(view, epoch, frame, max_rows);
            &&& next_epoch == epoch
            &&& pending_lookup(view.pending, request_id) == Some(WireKind::SessionOperationLeaseResponse)
                ==> next.pending == pending_remove(view.pending, request_id)
                    && action == Ok::<RemoteAction, DomainErrorKind>(RemoteAction::ForwardLocal)
            &&& pending_lookup(view.pending, request_id) != Some(WireKind::SessionOperationLeaseResponse)
                ==> next == view && action == Err::<RemoteAction, DomainErrorKind>(DomainErrorKind::MalformedFrame)
        }),
        !pending_has(view.pending, request_id) ==> spec_remote_step(view, epoch, RemoteFrame::MutateResponse {
            request_id,
            payload: Ok(()),
            session_id: Ok(0),
        }, max_rows) == (view, epoch, Err::<RemoteAction, DomainErrorKind>(DomainErrorKind::MalformedFrame)),
        spec_remote_step(view, epoch, RemoteFrame::LeaseLost { attachment_id: Some(epoch.remote_attachment_id) }, max_rows)
            == (view, epoch, Ok::<RemoteAction, DomainErrorKind>(RemoteAction::ForwardLocalAndEnd)),
        view.frozen_session_id is Some ==> spec_remote_step(view, epoch, RemoteFrame::SessionEnded {
            attachment_id: Some(epoch.remote_attachment_id),
            session_id: view.frozen_session_id,
        }, max_rows) == (view, epoch, Ok::<RemoteAction, DomainErrorKind>(RemoteAction::ForwardLocalAndEnd)),
{
}

/// The revision the view knows changes during an epoch only by a delta that
/// continues it exactly.
pub proof fn law_known_revision_advances_only_by_continuous_deltas(view: BridgeView, epoch: Epoch, frame: RemoteFrame, max_rows: usize)
    ensures
        ({
            let next = spec_remote_step(view, epoch, frame, max_rows).0;
            next.known_revision != view.known_revision ==> (frame matches RemoteFrame::Delta { from_revision, to_revision, .. }
                && from_revision == (match view.known_revision { Some(known) => known, None => 0 })
                && to_revision >= from_revision && next.known_revision == Some(to_revision))
        }),
{
}

/// Once a view's session is frozen, no remote frame and no initial update
/// changes it.
pub proof fn law_frozen_session_never_changes(
    view: BridgeView,
    epoch: Epoch,
    frame: RemoteFrame,
    max_rows: usize,
    frame_request_id: u64,
    expected_request_id: u64,
    expected_remote: Option<u128>,
)
    requires
        view.frozen_session_id is Some,
    ensures
        spec_remote_step(view, epoch, frame, max_rows).0.frozen_session_id == view.frozen_session_id,
        spec_initial_update(view, frame, frame_request_id, expected_request_id, expected_remote).0.frozen_session_id
            == view.frozen_session_id,
{
}

} // verus!
