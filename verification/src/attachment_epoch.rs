//! The bridge between one local terminal view and its reconnecting remote
//! attachment, as a state machine: each decoded local or remote frame moves
//! the bridge and epoch state and yields the action the I/O loop performs.
//! Where an action writes to the remote peer, the state change that depends on
//! that write succeeding is a separate step the loop takes afterwards.

use vstd::prelude::*;

use crate::error::{DaemonError, DomainErrorKind};
use crate::remote_attachment::{
    control_allowed, freeze_session, is_fatal_attachment_service_error, pending_failure, pending_has, pending_insert,
    lemma_split_exists, pending_lookup, pending_remove, pending_wf, splits_at, spec_control_allowed, spec_history_page_valid,
    spec_is_fatal_service_error, spec_pending_failure, validate_history_page, validate_history_request,
    DesiredViewPhase, EpochPhase, HistoryDirection, HistoryPageShape, PendingControl, Viewport,
    MAX_PENDING_CONTROL_REQUESTS,
};
use crate::remote_session::{require_exact_remote_target, TargetSelector};
use crate::wire::WireKind;

verus! {

/// State of one local view that outlives its remote stream epochs.
pub struct BridgeState {
    /// The routed device every control request must name.
    pub target: [u8; 32],
    /// Attachment ID of the local view.
    pub local_view_id: u128,
    /// Daemon-lifetime session resolved by the first snapshot.
    pub frozen_session_id: Option<u128>,
    /// Last revision the local view applied.
    pub known_revision: Option<u64>,
    /// Last viewport the local view asked for.
    pub latest_viewport: Option<Viewport>,
    /// Whether the next attach must request a full snapshot.
    pub force_full: bool,
    /// Whether any epoch of this view became active.
    pub ever_active: bool,
    /// Whether the view's attach still asks for a takeover.
    pub takeover_requested: bool,
    /// Phase last announced to the local view.
    pub desired: DesiredViewPhase,
    /// Control requests forwarded in the current epoch, awaiting responses.
    pub pending: PendingControl,
}

/// Specification value of the bridge state.
pub struct BridgeView {
    pub target: [u8; 32],
    pub local_view_id: u128,
    pub frozen_session_id: Option<u128>,
    pub known_revision: Option<u64>,
    pub latest_viewport: Option<Viewport>,
    pub force_full: bool,
    pub ever_active: bool,
    pub takeover_requested: bool,
    pub desired: DesiredViewPhase,
    pub pending: Seq<(u64, WireKind)>,
}

impl View for BridgeState {
    type V = BridgeView;

    open spec fn view(&self) -> BridgeView {
        BridgeView {
            target: self.target,
            local_view_id: self.local_view_id,
            frozen_session_id: self.frozen_session_id,
            known_revision: self.known_revision,
            latest_viewport: self.latest_viewport,
            force_full: self.force_full,
            ever_active: self.ever_active,
            takeover_requested: self.takeover_requested,
            desired: self.desired,
            pending: self.pending@,
        }
    }
}

/// Response kinds a forwarded control request may await.
pub open spec fn retained_kind(kind: WireKind) -> bool {
    kind == WireKind::SessionOperationLeaseResponse || kind == WireKind::TerminalHistoryPage
        || kind == WireKind::SessionMutateResponse
}

/// Well-formedness of the bridge: an ordered, bounded window of awaited
/// responses, each of a kind that a control request awaits.
pub open spec fn bridge_wf(view: BridgeView) -> bool {
    &&& pending_wf(view.pending)
    &&& forall|i: int| 0 <= i < view.pending.len() ==> retained_kind(#[trigger] view.pending[i].1)
}

/// One remote stream epoch: the remote attachment it serves and its phase.
#[derive(Clone, Copy, Debug, PartialEq, Eq, Structural)]
pub struct Epoch {
    pub remote_attachment_id: u128,
    pub phase: EpochPhase,
}

/// A decoded frame from the local view.
#[derive(Clone, Copy, Debug)]
pub enum LocalFrame {
    Detach { attachment_id: Option<u128> },
    Input { attachment_id: Option<u128> },
    /// `size` is the outcome of checking the requested terminal size.
    Resize { attachment_id: Option<u128>, viewport: Viewport, size: Result<(), DomainErrorKind> },
    SnapshotApplied { attachment_id: Option<u128>, revision: u64 },
    SyncRequest { attachment_id: Option<u128> },
    HistoryRequest { request_id: u64, attachment_id: Option<u128>, direction: Option<HistoryDirection>, maximum_rows: u32 },
    LeaseRequest { request_id: u64, target: Option<TargetSelector> },
    TakeoverRequest { request_id: u64, attachment_id: Option<u128>, session_id: Option<u128>, target: Option<TargetSelector> },
    /// Any other wire kind.
    Unexpected,
}

/// What the loop does with a local frame during an epoch.
#[derive(Clone, Copy, Debug, PartialEq, Eq, Structural)]
pub enum LocalAction {
    /// Nothing is sent.
    Ignore,
    /// Send a best-effort detach to the remote, close it, and end the epoch as detached.
    Detach,
    /// Forward the frame, rewritten to the remote attachment ID; a failed write reconnects.
    Forward,
    /// Forward the acknowledgement; once written, take `acknowledge_snapshot`.
    ForwardThenAcknowledge,
    /// Forward the sync request; once written, take `enter_acknowledged_resync` without marking a full sync.
    ForwardThenResynchronize,
    /// Answer the request locally with `NotSynchronized`.
    RejectNotSynchronized,
    /// Answer the history request locally with an empty `Gap` page: the peer cannot page history.
    ReplyHistoryGap,
}

/// A message naming an attachment must name exactly `expected`.
pub open spec fn attachment_check(attachment_id: Option<u128>, expected: u128) -> Result<(), DomainErrorKind> {
    match attachment_id {
        Some(actual) => if actual == expected { Ok(()) } else { Err(DomainErrorKind::MalformedFrame) },
        None => Err(DomainErrorKind::MalformedFrame),
    }
}

/// A message naming a session must name exactly the frozen session.
pub open spec fn frozen_check(session_id: Option<u128>, frozen: Option<u128>) -> Result<(), DomainErrorKind> {
    match session_id {
        Some(actual) => if Some(actual) == frozen { Ok(()) } else { Err(DomainErrorKind::MalformedFrame) },
        None => Err(DomainErrorKind::MalformedFrame),
    }
}

/// A control request must target exactly the routed device.
pub open spec fn target_check(target: Option<TargetSelector>, expected: [u8; 32]) -> Result<(), DomainErrorKind> {
    if target matches Some(TargetSelector::Device(device)) && device@ == expected@ {
        Ok(())
    } else {
        Err(DomainErrorKind::MalformedFrame)
    }
}

/// Whether a history request has a known direction and a row bound within `1..=max_rows`.
pub open spec fn history_request_valid(direction: Option<HistoryDirection>, maximum_rows: u32, max_rows: usize) -> bool {
    direction matches Some(d) && d != HistoryDirection::Unspecified && 0 < maximum_rows && maximum_rows <= max_rows
}

/// The window after admitting a control request, and the outcome.
pub open spec fn spec_retain(pending: Seq<(u64, WireKind)>, request_id: u64, kind: WireKind) -> (Seq<(u64, WireKind)>, Result<(), DomainErrorKind>) {
    if request_id == 0 || pending_has(pending, request_id) {
        (pending, Err(DomainErrorKind::MalformedFrame))
    } else if pending.len() >= MAX_PENDING_CONTROL_REQUESTS {
        (pending, Err(DomainErrorKind::ResourceExhausted))
    } else {
        (pending_insert(pending, request_id, kind), Ok(()))
    }
}

/// Bridge state with another pending window.
pub open spec fn with_pending(view: BridgeView, pending: Seq<(u64, WireKind)>) -> BridgeView {
    BridgeView { pending, ..view }
}

/// Admits a control request and forwards it, unless the window refuses it.
pub open spec fn retain_then_forward(view: BridgeView, epoch: Epoch, request_id: u64, kind: WireKind) -> (BridgeView, Epoch, Result<LocalAction, DomainErrorKind>) {
    let (pending, admitted) = spec_retain(view.pending, request_id, kind);
    match admitted {
        Ok(()) => (with_pending(view, pending), epoch, Ok(LocalAction::Forward)),
        Err(kind) => (view, epoch, Err(kind)),
    }
}

/// The step for one local frame during an epoch: the next bridge and epoch
/// state, and the action or the category of the protocol error that ends the epoch.
pub open spec fn spec_local_step(view: BridgeView, epoch: Epoch, frame: LocalFrame, history_paging: bool, max_rows: usize)
    -> (BridgeView, Epoch, Result<LocalAction, DomainErrorKind>)
{
    let active = epoch.phase == EpochPhase::Active;
    match frame {
        LocalFrame::Detach { attachment_id } => match attachment_check(attachment_id, view.local_view_id) {
            Err(kind) => (view, epoch, Err(kind)),
            Ok(()) => (view, epoch, Ok(LocalAction::Detach)),
        },
        LocalFrame::Input { attachment_id } => match attachment_check(attachment_id, view.local_view_id) {
            Err(kind) => (view, epoch, Err(kind)),
            Ok(()) => (view, epoch, Ok(if active { LocalAction::Forward } else { LocalAction::Ignore })),
        },
        LocalFrame::Resize { attachment_id, viewport, size } => match attachment_check(attachment_id, view.local_view_id) {
            Err(kind) => (view, epoch, Err(kind)),
            Ok(()) => match size {
                Err(kind) => (view, epoch, Err(kind)),
                Ok(()) => (
                    BridgeView { latest_viewport: Some(viewport), ..view },
                    epoch,
                    Ok(if active { LocalAction::Forward } else { LocalAction::Ignore }),
                ),
            },
        },
        LocalFrame::SnapshotApplied { attachment_id, revision } => match attachment_check(attachment_id, view.local_view_id) {
            Err(kind) => (view, epoch, Err(kind)),
            Ok(()) => match epoch.phase {
                EpochPhase::Synchronizing { expected, acknowledged, needs_takeover } =>
                    if acknowledged || revision != expected {
                        (view, epoch, Ok(LocalAction::Ignore))
                    } else {
                        (BridgeView { known_revision: Some(expected), ..view }, epoch, Ok(LocalAction::ForwardThenAcknowledge))
                    },
                EpochPhase::Active => (view, epoch, Ok(LocalAction::Ignore)),
            },
        },
        LocalFrame::SyncRequest { attachment_id } => match attachment_check(attachment_id, view.local_view_id) {
            Err(kind) => (view, epoch, Err(kind)),
            Ok(()) => if active {
                (view, epoch, Ok(LocalAction::ForwardThenResynchronize))
            } else {
                (BridgeView { force_full: true, ..view }, epoch, Ok(LocalAction::Ignore))
            },
        },
        LocalFrame::HistoryRequest { request_id, attachment_id, direction, maximum_rows } =>
            match attachment_check(attachment_id, view.local_view_id) {
                Err(kind) => (view, epoch, Err(kind)),
                Ok(()) => if !history_request_valid(direction, maximum_rows, max_rows) {
                    (view, epoch, Err(DomainErrorKind::MalformedFrame))
                } else if !history_paging {
                    (view, epoch, Ok(LocalAction::ReplyHistoryGap))
                } else if !active {
                    (view, epoch, Ok(LocalAction::RejectNotSynchronized))
                } else {
                    retain_then_forward(view, epoch, request_id, WireKind::TerminalHistoryPage)
                },
            },
        LocalFrame::LeaseRequest { request_id, target } => match target_check(target, view.target) {
            Err(kind) => (view, epoch, Err(kind)),
            Ok(()) => if !spec_control_allowed(epoch.phase) {
                (view, epoch, Ok(LocalAction::RejectNotSynchronized))
            } else {
                retain_then_forward(view, epoch, request_id, WireKind::SessionOperationLeaseResponse)
            },
        },
        LocalFrame::TakeoverRequest { request_id, attachment_id, session_id, target } =>
            match attachment_check(attachment_id, view.local_view_id) {
                Err(kind) => (view, epoch, Err(kind)),
                Ok(()) => match frozen_check(session_id, view.frozen_session_id) {
                    Err(kind) => (view, epoch, Err(kind)),
                    Ok(()) => match target_check(target, view.target) {
                        Err(kind) => (view, epoch, Err(kind)),
                        Ok(()) => if !spec_control_allowed(epoch.phase) {
                            (view, epoch, Ok(LocalAction::RejectNotSynchronized))
                        } else {
                            retain_then_forward(view, epoch, request_id, WireKind::SessionMutateResponse)
                        },
                    },
                },
            },
        LocalFrame::Unexpected => (view, epoch, Err(DomainErrorKind::MalformedFrame)),
    }
}

/// Requires a message to name exactly the attachment `expected`.
pub fn require_attachment(attachment_id: Option<u128>, expected: u128) -> (result: Result<(), DaemonError>)
    ensures
        match result {
            Ok(()) => attachment_check(attachment_id, expected) == Ok::<(), DomainErrorKind>(()),
            Err(error) => attachment_check(attachment_id, expected) == Err::<(), DomainErrorKind>(error.kind),
        },
{
    match attachment_id {
        Some(actual) => {
            if actual == expected {
                Ok(())
            } else {
                Err(DaemonError::new(DomainErrorKind::MalformedFrame, "terminal message attachment_id does not match its stream"))
            }
        },
        None => Err(DaemonError::new(DomainErrorKind::MalformedFrame, "terminal message omitted attachment_id")),
    }
}

/// Requires a message to name exactly the frozen session.
pub fn require_frozen_session(session_id: Option<u128>, frozen: Option<u128>) -> (result: Result<(), DaemonError>)
    ensures
        match result {
            Ok(()) => frozen_check(session_id, frozen) == Ok::<(), DomainErrorKind>(()),
            Err(error) => frozen_check(session_id, frozen) == Err::<(), DomainErrorKind>(error.kind),
        },
{
    match session_id {
        Some(actual) => {
            if Some(actual) == frozen {
                Ok(())
            } else {
                Err(DaemonError::new(DomainErrorKind::MalformedFrame, "terminal message session_id does not match the frozen session"))
            }
        },
        None => Err(DaemonError::new(DomainErrorKind::MalformedFrame, "terminal message omitted session_id")),
    }
}

fn check_target(target: Option<TargetSelector>, expected: [u8; 32]) -> (result: Result<(), DaemonError>)
    ensures
        match result {
            Ok(()) => target_check(target, expected) == Ok::<(), DomainErrorKind>(()),
            Err(error) => target_check(target, expected) == Err::<(), DomainErrorKind>(error.kind),
        },
{
    require_exact_remote_target(target, expected)
}

fn check_history_request(direction: Option<HistoryDirection>, maximum_rows: u32, max_rows: usize) -> (result: Result<(), DaemonError>)
    ensures
        match result {
            Ok(()) => history_request_valid(direction, maximum_rows, max_rows),
            Err(error) => !history_request_valid(direction, maximum_rows, max_rows) && error.kind == DomainErrorKind::MalformedFrame,
        },
{
    validate_history_request(direction, maximum_rows, max_rows)
}

impl BridgeState {
    /// Admits a control request awaiting `kind` into the window.
    fn retain(&mut self, request_id: u64, kind: WireKind) -> (result: Result<(), DaemonError>)
        requires
            bridge_wf(old(self)@),
            retained_kind(kind),
        ensures
            bridge_wf(final(self)@),
            final(self)@ == with_pending(old(self)@, spec_retain(old(self)@.pending, request_id, kind).0),
            match result {
                Ok(()) => spec_retain(old(self)@.pending, request_id, kind).1 == Ok::<(), DomainErrorKind>(()),
                Err(error) => spec_retain(old(self)@.pending, request_id, kind).1 == Err::<(), DomainErrorKind>(error.kind),
            },
    {
        let ghost before = self@.pending;
        let result = self.pending.retain(request_id, kind);
        proof {
            if result is Ok {
                lemma_split_exists(before, request_id);
                let position = choose|p: int| splits_at(before, request_id, p);
                assert(self@.pending == before.insert(position, (request_id, kind)));
                assert forall|i: int| 0 <= i < self@.pending.len() implies retained_kind(#[trigger] self@.pending[i].1) by {
                    if i < position {
                        assert(self@.pending[i] == before[i]);
                    } else if i > position {
                        assert(self@.pending[i] == before[i - 1]);
                    }
                }
            }
        }
        result
    }
}

/// Takes one local frame during an epoch. An `Err` is a protocol error that
/// the loop reports to the local view before it ends the epoch.
pub fn local_frame_step(state: &mut BridgeState, epoch: &mut Epoch, frame: LocalFrame, history_paging: bool, max_rows: usize)
    -> (action: Result<LocalAction, DaemonError>)
    requires
        bridge_wf(old(state)@),
    ensures
        bridge_wf(final(state)@),
        final(state)@ == spec_local_step(old(state)@, *old(epoch), frame, history_paging, max_rows).0,
        *final(epoch) == spec_local_step(old(state)@, *old(epoch), frame, history_paging, max_rows).1,
        match action {
            Ok(action) => spec_local_step(old(state)@, *old(epoch), frame, history_paging, max_rows).2
                == Ok::<LocalAction, DomainErrorKind>(action),
            Err(error) => spec_local_step(old(state)@, *old(epoch), frame, history_paging, max_rows).2
                == Err::<LocalAction, DomainErrorKind>(error.kind),
        },
{
    let active = match epoch.phase {
        EpochPhase::Active => true,
        EpochPhase::Synchronizing { .. } => false,
    };
    match frame {
        LocalFrame::Detach { attachment_id } => {
            require_attachment(attachment_id, state.local_view_id)?;
            Ok(LocalAction::Detach)
        },
        LocalFrame::Input { attachment_id } => {
            require_attachment(attachment_id, state.local_view_id)?;
            Ok(if active { LocalAction::Forward } else { LocalAction::Ignore })
        },
        LocalFrame::Resize { attachment_id, viewport, size } => {
            require_attachment(attachment_id, state.local_view_id)?;
            if let Err(kind) = size {
                return Err(DaemonError::new(kind, "terminal resize requested an invalid size"));
            }
            state.latest_viewport = Some(viewport);
            Ok(if active { LocalAction::Forward } else { LocalAction::Ignore })
        },
        LocalFrame::SnapshotApplied { attachment_id, revision } => {
            require_attachment(attachment_id, state.local_view_id)?;
            match epoch.phase {
                EpochPhase::Synchronizing { expected, acknowledged, needs_takeover } => {
                    if acknowledged || revision != expected {
                        Ok(LocalAction::Ignore)
                    } else {
                        state.known_revision = Some(expected);
                        Ok(LocalAction::ForwardThenAcknowledge)
                    }
                },
                EpochPhase::Active => Ok(LocalAction::Ignore),
            }
        },
        LocalFrame::SyncRequest { attachment_id } => {
            require_attachment(attachment_id, state.local_view_id)?;
            if active {
                Ok(LocalAction::ForwardThenResynchronize)
            } else {
                state.force_full = true;
                Ok(LocalAction::Ignore)
            }
        },
        LocalFrame::HistoryRequest { request_id, attachment_id, direction, maximum_rows } => {
            require_attachment(attachment_id, state.local_view_id)?;
            check_history_request(direction, maximum_rows, max_rows)?;
            if !history_paging {
                Ok(LocalAction::ReplyHistoryGap)
            } else if !active {
                Ok(LocalAction::RejectNotSynchronized)
            } else {
                state.retain(request_id, WireKind::TerminalHistoryPage)?;
                Ok(LocalAction::Forward)
            }
        },
        LocalFrame::LeaseRequest { request_id, target } => {
            check_target(target, state.target)?;
            if !control_allowed(epoch.phase) {
                Ok(LocalAction::RejectNotSynchronized)
            } else {
                state.retain(request_id, WireKind::SessionOperationLeaseResponse)?;
                Ok(LocalAction::Forward)
            }
        },
        LocalFrame::TakeoverRequest { request_id, attachment_id, session_id, target } => {
            require_attachment(attachment_id, state.local_view_id)?;
            require_frozen_session(session_id, state.frozen_session_id)?;
            check_target(target, state.target)?;
            if !control_allowed(epoch.phase) {
                Ok(LocalAction::RejectNotSynchronized)
            } else {
                state.retain(request_id, WireKind::SessionMutateResponse)?;
                Ok(LocalAction::Forward)
            }
        },
        LocalFrame::Unexpected => Err(DaemonError::new(DomainErrorKind::MalformedFrame, "wire kind is invalid from a local remote attachment")),
    }
}

/// After a forwarded snapshot acknowledgement was written: the epoch records
/// it, and activates unless a takeover is still needed.
pub fn acknowledge_snapshot(epoch: &mut Epoch) -> (activate: bool)
    requires
        old(epoch).phase is Synchronizing,
    ensures
        match old(epoch).phase {
            EpochPhase::Synchronizing { expected, needs_takeover, .. } =>
                *final(epoch) == (Epoch {
                    remote_attachment_id: old(epoch).remote_attachment_id,
                    phase: EpochPhase::Synchronizing { expected, acknowledged: true, needs_takeover },
                }) && activate == !needs_takeover,
            EpochPhase::Active => false,
        },
{
    match epoch.phase {
        EpochPhase::Synchronizing { expected, needs_takeover, .. } => {
            epoch.phase = EpochPhase::Synchronizing { expected, acknowledged: true, needs_takeover };
            !needs_takeover
        },
        EpochPhase::Active => false,
    }
}

/// After a full-sync request was written to the remote: the epoch waits for
/// the snapshot of the known revision (zero when none), already acknowledged
/// by the local view; `mark_full` records that the next attach needs a full
/// snapshot. Returns whether the loop must announce `Synchronizing` locally.
pub fn enter_acknowledged_resync(state: &mut BridgeState, epoch: &mut Epoch, mark_full: bool) -> (announce: bool)
    ensures
        announce == (old(state)@.desired != DesiredViewPhase::Synchronizing),
        final(state)@ == (BridgeView {
            desired: DesiredViewPhase::Synchronizing,
            force_full: old(state)@.force_full || mark_full,
            ..old(state)@
        }),
        *final(epoch) == (Epoch {
            remote_attachment_id: old(epoch).remote_attachment_id,
            phase: EpochPhase::Synchronizing {
                expected: match old(state)@.known_revision { Some(known) => known, None => 0 },
                acknowledged: true,
                needs_takeover: false,
            },
        }),
{
    let expected = match state.known_revision {
        Some(known) => known,
        None => 0,
    };
    if mark_full {
        state.force_full = true;
    }
    epoch.phase = EpochPhase::Synchronizing { expected, acknowledged: true, needs_takeover: false };
    let announce = match state.desired {
        DesiredViewPhase::Synchronizing => false,
        _ => true,
    };
    state.desired = DesiredViewPhase::Synchronizing;
    announce
}

/// Activates the epoch once any latest viewport was resent to the remote: the
/// view is active, has been active, no longer asks for a takeover or a full
/// snapshot, and the loop announces `Active`.
pub fn activate_epoch(state: &mut BridgeState, epoch: &mut Epoch)
    ensures
        final(state)@ == (BridgeView {
            desired: DesiredViewPhase::Active,
            ever_active: true,
            takeover_requested: false,
            force_full: false,
            ..old(state)@
        }),
        *final(epoch) == (Epoch { remote_attachment_id: old(epoch).remote_attachment_id, phase: EpochPhase::Active }),
{
    epoch.phase = EpochPhase::Active;
    state.desired = DesiredViewPhase::Active;
    state.ever_active = true;
    state.takeover_requested = false;
    state.force_full = false;
}

/// A decoded frame from the remote attachment stream.
#[derive(Clone, Copy, Debug)]
pub enum RemoteFrame {
    /// A service error; `kind` is its category, `None` when the code is unknown.
    ServiceError { request_id: u64, kind: Option<DomainErrorKind> },
    /// `shape` is the outcome of checking the delta's geometry, screen and modes.
    Delta { attachment_id: Option<u128>, from_revision: u64, to_revision: u64, shape: Result<(), DomainErrorKind> },
    SyncRequired { attachment_id: Option<u128>, latest_revision: u64 },
    /// `shape` is the outcome of checking the snapshot's geometry, screen and modes.
    Snapshot { attachment_id: Option<u128>, session_id: Option<u128>, revision: u64, shape: Result<(), DomainErrorKind> },
    LeaseLost { attachment_id: Option<u128> },
    SessionEnded { attachment_id: Option<u128>, session_id: Option<u128> },
    HistoryPage { request_id: u64, attachment_id: Option<u128>, page: HistoryPageShape },
    /// `payload` is the outcome of validating the lease response payload.
    LeaseResponse { request_id: u64, payload: Result<(), DomainErrorKind> },
    /// `payload` is the outcome of validating the response; `session_id` the
    /// session of its summary, or the category of the summary's defect.
    MutateResponse { request_id: u64, payload: Result<(), DomainErrorKind>, session_id: Result<u128, DomainErrorKind> },
    /// Any other wire kind.
    Unexpected,
}

/// What the loop does with a remote frame during an epoch.
#[derive(Clone, Copy, Debug, PartialEq, Eq, Structural)]
pub enum RemoteAction {
    /// Report the remote service error locally, then end the epoch as terminal when `terminal`.
    ProjectError { kind: DomainErrorKind, terminal: bool },
    /// Send a full-sync request from `known_revision` to the remote; a failed
    /// write reconnects, and once written the loop takes `enter_acknowledged_resync`
    /// marking a full sync.
    RequestFullSync { known_revision: u64 },
    /// Forward the frame locally, rewritten to the local view's attachment ID.
    ForwardLocal,
    /// Announce `Synchronizing` locally when `announce`, then forward the frame locally.
    Resynchronize { announce: bool },
    /// Forward the frame locally and end the epoch as terminal.
    ForwardLocalAndEnd,
    /// Forward the takeover response locally, then resend the latest viewport and activate.
    ForwardLocalAndActivate,
}

/// The phase a snapshot or sync marker at `expected` opens, keeping a pending takeover.
pub open spec fn resync_phase(phase: EpochPhase, expected: u64) -> EpochPhase {
    EpochPhase::Synchronizing {
        expected,
        acknowledged: false,
        needs_takeover: (phase matches EpochPhase::Synchronizing { needs_takeover: true, .. }),
    }
}

/// The step for one remote frame during an epoch: the next bridge and epoch
/// state, and the action or the category of the protocol error that ends the epoch.
pub open spec fn spec_remote_step(view: BridgeView, epoch: Epoch, frame: RemoteFrame, max_rows: usize)
    -> (BridgeView, Epoch, Result<RemoteAction, DomainErrorKind>)
{
    let remote = epoch.remote_attachment_id;
    let announce = view.desired != DesiredViewPhase::Synchronizing;
    match frame {
        RemoteFrame::ServiceError { request_id, kind } => match kind {
            None => (view, epoch, Err(DomainErrorKind::MalformedFrame)),
            Some(kind) => {
                let correlated = pending_has(view.pending, request_id);
                (
                    with_pending(view, pending_remove(view.pending, request_id)),
                    epoch,
                    Ok(RemoteAction::ProjectError { kind, terminal: !(correlated && !spec_is_fatal_service_error(kind)) }),
                )
            },
        },
        RemoteFrame::Delta { attachment_id, from_revision, to_revision, shape } => match shape {
            Err(kind) => (view, epoch, Err(kind)),
            Ok(()) => match attachment_check(attachment_id, remote) {
                Err(kind) => (view, epoch, Err(kind)),
                Ok(()) => if epoch.phase != EpochPhase::Active {
                    (view, epoch, Err(DomainErrorKind::MalformedFrame))
                } else {
                    let known = match view.known_revision { Some(known) => known, None => 0 };
                    if from_revision != known || to_revision < from_revision {
                        (view, epoch, Ok(RemoteAction::RequestFullSync { known_revision: known }))
                    } else {
                        (BridgeView { known_revision: Some(to_revision), ..view }, epoch, Ok(RemoteAction::ForwardLocal))
                    }
                },
            },
        },
        RemoteFrame::SyncRequired { attachment_id, latest_revision } => match attachment_check(attachment_id, remote) {
            Err(kind) => (view, epoch, Err(kind)),
            Ok(()) => (
                BridgeView { desired: DesiredViewPhase::Synchronizing, ..view },
                Epoch { phase: resync_phase(epoch.phase, latest_revision), ..epoch },
                Ok(RemoteAction::Resynchronize { announce }),
            ),
        },
        RemoteFrame::Snapshot { attachment_id, session_id, revision, shape } => match shape {
            Err(kind) => (view, epoch, Err(kind)),
            Ok(()) => match attachment_check(attachment_id, remote) {
                Err(kind) => (view, epoch, Err(kind)),
                Ok(()) => match session_id {
                    None => (view, epoch, Err(DomainErrorKind::MalformedFrame)),
                    Some(session) => match view.frozen_session_id {
                        Some(frozen) if frozen != session => (view, epoch, Err(DomainErrorKind::SessionNotFound)),
                        _ => (
                            BridgeView {
                                frozen_session_id: Some(session),
                                force_full: false,
                                desired: DesiredViewPhase::Synchronizing,
                                ..view
                            },
                            Epoch { phase: resync_phase(epoch.phase, revision), ..epoch },
                            Ok(RemoteAction::Resynchronize { announce }),
                        ),
                    },
                },
            },
        },
        RemoteFrame::LeaseLost { attachment_id } => match attachment_check(attachment_id, remote) {
            Err(kind) => (view, epoch, Err(kind)),
            Ok(()) => (view, epoch, Ok(RemoteAction::ForwardLocalAndEnd)),
        },
        RemoteFrame::SessionEnded { attachment_id, session_id } => match attachment_check(attachment_id, remote) {
            Err(kind) => (view, epoch, Err(kind)),
            Ok(()) => match frozen_check(session_id, view.frozen_session_id) {
                Err(kind) => (view, epoch, Err(kind)),
                Ok(()) => (view, epoch, Ok(RemoteAction::ForwardLocalAndEnd)),
            },
        },
        RemoteFrame::HistoryPage { request_id, attachment_id, page } => match pending_lookup(view.pending, request_id) {
            None => (view, epoch, Err(DomainErrorKind::MalformedFrame)),
            Some(expected) => if expected != WireKind::TerminalHistoryPage {
                (view, epoch, Err(DomainErrorKind::MalformedFrame))
            } else {
                match attachment_check(attachment_id, remote) {
                    Err(kind) => (view, epoch, Err(kind)),
                    Ok(()) => if !spec_history_page_valid(page, max_rows) {
                        (view, epoch, Err(DomainErrorKind::MalformedFrame))
                    } else {
                        (with_pending(view, pending_remove(view.pending, request_id)), epoch, Ok(RemoteAction::ForwardLocal))
                    },
                }
            },
        },
        RemoteFrame::LeaseResponse { request_id, payload } => match pending_lookup(view.pending, request_id) {
            None => (view, epoch, Err(DomainErrorKind::MalformedFrame)),
            Some(expected) => if expected != WireKind::SessionOperationLeaseResponse {
                (view, epoch, Err(DomainErrorKind::MalformedFrame))
            } else {
                match payload {
                    Err(kind) => (view, epoch, Err(kind)),
                    Ok(()) => (with_pending(view, pending_remove(view.pending, request_id)), epoch, Ok(RemoteAction::ForwardLocal)),
                }
            },
        },
        RemoteFrame::MutateResponse { request_id, payload, session_id } => match pending_lookup(view.pending, request_id) {
            None => (view, epoch, Err(DomainErrorKind::MalformedFrame)),
            Some(expected) => if expected != WireKind::SessionMutateResponse {
                (view, epoch, Err(DomainErrorKind::MalformedFrame))
            } else {
                match payload {
                    Err(kind) => (view, epoch, Err(kind)),
                    Ok(()) => {
                        let reaped = with_pending(view, pending_remove(view.pending, request_id));
                        match session_id {
                            Err(kind) => (reaped, epoch, Err(kind)),
                            Ok(session) => if Some(session) != view.frozen_session_id {
                                (reaped, epoch, Err(DomainErrorKind::MalformedFrame))
                            } else if epoch.phase matches EpochPhase::Synchronizing { acknowledged: true, needs_takeover: true, .. } {
                                (reaped, epoch, Ok(RemoteAction::ForwardLocalAndActivate))
                            } else {
                                (reaped, epoch, Ok(RemoteAction::ForwardLocal))
                            },
                        }
                    },
                }
            },
        },
        RemoteFrame::Unexpected => (view, epoch, Err(DomainErrorKind::MalformedFrame)),
    }
}

impl BridgeState {
    /// Reaps the awaited response of `request_id`, returning its expected kind.
    fn reap(&mut self, request_id: u64) -> (kind: Option<WireKind>)
        requires
            bridge_wf(old(self)@),
        ensures
            bridge_wf(final(self)@),
            kind == pending_lookup(old(self)@.pending, request_id),
            final(self)@ == with_pending(old(self)@, pending_remove(old(self)@.pending, request_id)),
    {
        let ghost before = self@.pending;
        let kind = self.pending.take(request_id);
        proof {
            if pending_has(before, request_id) {
                let index = crate::remote_attachment::pending_index(before, request_id);
                assert forall|i: int| 0 <= i < self@.pending.len() implies retained_kind(#[trigger] self@.pending[i].1) by {
                    if i >= index {
                        assert(self@.pending[i] == before[i + 1]);
                    }
                }
            }
        }
        kind
    }

    /// Announces `Synchronizing` unless it already is the announced phase.
    fn enter_synchronizing(&mut self) -> (announce: bool)
        ensures
            announce == (old(self)@.desired != DesiredViewPhase::Synchronizing),
            final(self)@ == (BridgeView { desired: DesiredViewPhase::Synchronizing, ..old(self)@ }),
    {
        let announce = match self.desired {
            DesiredViewPhase::Synchronizing => false,
            _ => true,
        };
        self.desired = DesiredViewPhase::Synchronizing;
        announce
    }
}

fn resync_phase_exec(phase: EpochPhase, expected: u64) -> (next: EpochPhase)
    ensures
        next == resync_phase(phase, expected),
{
    let needs_takeover = match phase {
        EpochPhase::Synchronizing { needs_takeover, .. } => needs_takeover,
        EpochPhase::Active => false,
    };
    EpochPhase::Synchronizing { expected, acknowledged: false, needs_takeover }
}

/// Takes one remote frame during an epoch. An `Err` is a protocol error that
/// the loop reports to the local view before it ends the epoch.
pub fn remote_frame_step(state: &mut BridgeState, epoch: &mut Epoch, frame: RemoteFrame, max_rows: usize)
    -> (action: Result<RemoteAction, DaemonError>)
    requires
        bridge_wf(old(state)@),
    ensures
        bridge_wf(final(state)@),
        final(state)@ == spec_remote_step(old(state)@, *old(epoch), frame, max_rows).0,
        *final(epoch) == spec_remote_step(old(state)@, *old(epoch), frame, max_rows).1,
        match action {
            Ok(action) => spec_remote_step(old(state)@, *old(epoch), frame, max_rows).2
                == Ok::<RemoteAction, DomainErrorKind>(action),
            Err(error) => spec_remote_step(old(state)@, *old(epoch), frame, max_rows).2
                == Err::<RemoteAction, DomainErrorKind>(error.kind),
        },
{
    let remote = epoch.remote_attachment_id;
    match frame {
        RemoteFrame::ServiceError { request_id, kind } => {
            let kind = match kind {
                Some(kind) => kind,
                None => return Err(DaemonError::new(DomainErrorKind::MalformedFrame, "remote Session response used an unknown domain error code")),
            };
            let correlated = state.reap(request_id).is_some();
            Ok(RemoteAction::ProjectError { kind, terminal: !(correlated && !is_fatal_attachment_service_error(kind)) })
        },
        RemoteFrame::Delta { attachment_id, from_revision, to_revision, shape } => {
            if let Err(kind) = shape {
                return Err(DaemonError::new(kind, "remote terminal delta is invalid"));
            }
            require_attachment(attachment_id, remote)?;
            match epoch.phase {
                EpochPhase::Active => {},
                EpochPhase::Synchronizing { .. } => {
                    return Err(DaemonError::new(DomainErrorKind::MalformedFrame, "remote terminal delta arrived before initial synchronization"));
                },
            }
            let known = match state.known_revision {
                Some(known) => known,
                None => 0,
            };
            if from_revision != known || to_revision < from_revision {
                Ok(RemoteAction::RequestFullSync { known_revision: known })
            } else {
                state.known_revision = Some(to_revision);
                Ok(RemoteAction::ForwardLocal)
            }
        },
        RemoteFrame::SyncRequired { attachment_id, latest_revision } => {
            require_attachment(attachment_id, remote)?;
            epoch.phase = resync_phase_exec(epoch.phase, latest_revision);
            let announce = state.enter_synchronizing();
            Ok(RemoteAction::Resynchronize { announce })
        },
        RemoteFrame::Snapshot { attachment_id, session_id, revision, shape } => {
            if let Err(kind) = shape {
                return Err(DaemonError::new(kind, "remote terminal snapshot is invalid"));
            }
            require_attachment(attachment_id, remote)?;
            let session = match session_id {
                Some(session) => session,
                None => return Err(DaemonError::new(DomainErrorKind::MalformedFrame, "terminal message omitted session_id")),
            };
            freeze_session(&mut state.frozen_session_id, session)?;
            epoch.phase = resync_phase_exec(epoch.phase, revision);
            state.force_full = false;
            let announce = state.enter_synchronizing();
            Ok(RemoteAction::Resynchronize { announce })
        },
        RemoteFrame::LeaseLost { attachment_id } => {
            require_attachment(attachment_id, remote)?;
            Ok(RemoteAction::ForwardLocalAndEnd)
        },
        RemoteFrame::SessionEnded { attachment_id, session_id } => {
            require_attachment(attachment_id, remote)?;
            require_frozen_session(session_id, state.frozen_session_id)?;
            Ok(RemoteAction::ForwardLocalAndEnd)
        },
        RemoteFrame::HistoryPage { request_id, attachment_id, page } => {
            match state.pending.expected(request_id) {
                None => return Err(DaemonError::new(DomainErrorKind::MalformedFrame, "unsolicited remote terminal history page")),
                Some(WireKind::TerminalHistoryPage) => {},
                Some(_) => return Err(DaemonError::new(DomainErrorKind::MalformedFrame, "remote attachment control response kind mismatch")),
            }
            require_attachment(attachment_id, remote)?;
            validate_history_page(page, max_rows)?;
            state.reap(request_id);
            Ok(RemoteAction::ForwardLocal)
        },
        RemoteFrame::LeaseResponse { request_id, payload } => {
            match state.pending.expected(request_id) {
                None => return Err(DaemonError::new(DomainErrorKind::MalformedFrame, "unsolicited remote attachment control response")),
                Some(WireKind::SessionOperationLeaseResponse) => {},
                Some(_) => return Err(DaemonError::new(DomainErrorKind::MalformedFrame, "remote attachment control response kind mismatch")),
            }
            if let Err(kind) = payload {
                return Err(DaemonError::new(kind, "remote Session response payload is invalid"));
            }
            state.reap(request_id);
            Ok(RemoteAction::ForwardLocal)
        },
        RemoteFrame::MutateResponse { request_id, payload, session_id } => {
            match state.pending.expected(request_id) {
                None => return Err(DaemonError::new(DomainErrorKind::MalformedFrame, "unsolicited remote attachment control response")),
                Some(WireKind::SessionMutateResponse) => {},
                Some(_) => return Err(DaemonError::new(DomainErrorKind::MalformedFrame, "remote attachment control response kind mismatch")),
            }
            if let Err(kind) = payload {
                return Err(DaemonError::new(kind, "remote Session response payload is invalid"));
            }
            state.reap(request_id);
            let session = match session_id {
                Ok(session) => session,
                Err(kind) => return Err(DaemonError::new(kind, "takeover response carried an invalid session summary")),
            };
            if Some(session) != state.frozen_session_id {
                return Err(DaemonError::new(DomainErrorKind::MalformedFrame, "takeover response changed the frozen session"));
            }
            match epoch.phase {
                EpochPhase::Synchronizing { acknowledged: true, needs_takeover: true, .. } => Ok(RemoteAction::ForwardLocalAndActivate),
                _ => Ok(RemoteAction::ForwardLocal),
            }
        },
        RemoteFrame::Unexpected => Err(DaemonError::new(DomainErrorKind::MalformedFrame, "wire kind is invalid from a remote terminal attachment")),
    }
}

/// What the loop does with a local frame while no epoch is open.
#[derive(Clone, Copy, Debug, PartialEq, Eq, Structural)]
pub enum OfflineAction {
    /// Keep waiting for the remote.
    Continue,
    /// The view detached: end the bridge.
    Detached,
    /// Answer the control request locally with `TransportUnavailable`.
    RejectUnavailable,
}

/// The step for one local frame while the bridge is reconnecting.
pub open spec fn spec_offline_step(view: BridgeView, frame: LocalFrame, max_rows: usize) -> (BridgeView, Result<OfflineAction, DomainErrorKind>) {
    match frame {
        LocalFrame::Detach { attachment_id } => match attachment_check(attachment_id, view.local_view_id) {
            Err(kind) => (view, Err(kind)),
            Ok(()) => (view, Ok(OfflineAction::Detached)),
        },
        LocalFrame::Resize { attachment_id, viewport, size } => match attachment_check(attachment_id, view.local_view_id) {
            Err(kind) => (view, Err(kind)),
            Ok(()) => match size {
                Err(kind) => (view, Err(kind)),
                Ok(()) => (BridgeView { latest_viewport: Some(viewport), ..view }, Ok(OfflineAction::Continue)),
            },
        },
        LocalFrame::Input { attachment_id } | LocalFrame::SnapshotApplied { attachment_id, .. } =>
            match attachment_check(attachment_id, view.local_view_id) {
                Err(kind) => (view, Err(kind)),
                Ok(()) => (view, Ok(OfflineAction::Continue)),
            },
        LocalFrame::SyncRequest { attachment_id } => match attachment_check(attachment_id, view.local_view_id) {
            Err(kind) => (view, Err(kind)),
            Ok(()) => (BridgeView { force_full: true, ..view }, Ok(OfflineAction::Continue)),
        },
        LocalFrame::HistoryRequest { attachment_id, direction, maximum_rows, .. } =>
            match attachment_check(attachment_id, view.local_view_id) {
                Err(kind) => (view, Err(kind)),
                Ok(()) => if history_request_valid(direction, maximum_rows, max_rows) {
                    (view, Ok(OfflineAction::RejectUnavailable))
                } else {
                    (view, Err(DomainErrorKind::MalformedFrame))
                },
            },
        LocalFrame::TakeoverRequest { attachment_id, session_id, target, .. } =>
            match attachment_check(attachment_id, view.local_view_id) {
                Err(kind) => (view, Err(kind)),
                Ok(()) => match frozen_check(session_id, view.frozen_session_id) {
                    Err(kind) => (view, Err(kind)),
                    Ok(()) => match target_check(target, view.target) {
                        Err(kind) => (view, Err(kind)),
                        Ok(()) => (view, Ok(OfflineAction::RejectUnavailable)),
                    },
                },
            },
        LocalFrame::LeaseRequest { target, .. } => match target_check(target, view.target) {
            Err(kind) => (view, Err(kind)),
            Ok(()) => (view, Ok(OfflineAction::RejectUnavailable)),
        },
        LocalFrame::Unexpected => (view, Err(DomainErrorKind::MalformedFrame)),
    }
}

/// Takes one local frame while no epoch is open: geometry and full-sync
/// requests are remembered for the next attach, control requests are refused.
/// An `Err` ends the bridge.
pub fn offline_local_step(state: &mut BridgeState, frame: LocalFrame, max_rows: usize) -> (action: Result<OfflineAction, DaemonError>)
    requires
        bridge_wf(old(state)@),
    ensures
        bridge_wf(final(state)@),
        final(state)@ == spec_offline_step(old(state)@, frame, max_rows).0,
        match action {
            Ok(action) => spec_offline_step(old(state)@, frame, max_rows).1 == Ok::<OfflineAction, DomainErrorKind>(action),
            Err(error) => spec_offline_step(old(state)@, frame, max_rows).1 == Err::<OfflineAction, DomainErrorKind>(error.kind),
        },
{
    match frame {
        LocalFrame::Detach { attachment_id } => {
            require_attachment(attachment_id, state.local_view_id)?;
            Ok(OfflineAction::Detached)
        },
        LocalFrame::Resize { attachment_id, viewport, size } => {
            require_attachment(attachment_id, state.local_view_id)?;
            if let Err(kind) = size {
                return Err(DaemonError::new(kind, "terminal resize requested an invalid size"));
            }
            state.latest_viewport = Some(viewport);
            Ok(OfflineAction::Continue)
        },
        LocalFrame::Input { attachment_id } | LocalFrame::SnapshotApplied { attachment_id, .. } => {
            require_attachment(attachment_id, state.local_view_id)?;
            Ok(OfflineAction::Continue)
        },
        LocalFrame::SyncRequest { attachment_id } => {
            require_attachment(attachment_id, state.local_view_id)?;
            state.force_full = true;
            Ok(OfflineAction::Continue)
        },
        LocalFrame::HistoryRequest { attachment_id, direction, maximum_rows, .. } => {
            require_attachment(attachment_id, state.local_view_id)?;
            check_history_request(direction, maximum_rows, max_rows)?;
            Ok(OfflineAction::RejectUnavailable)
        },
        LocalFrame::TakeoverRequest { attachment_id, session_id, target, .. } => {
            require_attachment(attachment_id, state.local_view_id)?;
            require_frozen_session(session_id, state.frozen_session_id)?;
            check_target(target, state.target)?;
            Ok(OfflineAction::RejectUnavailable)
        },
        LocalFrame::LeaseRequest { target, .. } => {
            check_target(target, state.target)?;
            Ok(OfflineAction::RejectUnavailable)
        },
        LocalFrame::Unexpected => Err(DaemonError::new(DomainErrorKind::MalformedFrame, "wire kind is invalid from a local remote attachment")),
    }
}

/// The phase of a freshly attached epoch: synchronizing to the initial
/// revision, and still owing a takeover when the view asked for one before it
/// ever became active.
pub fn open_epoch(state: &BridgeState, remote_attachment_id: u128, initial_revision: u64) -> (epoch: Epoch)
    ensures
        epoch == (Epoch {
            remote_attachment_id,
            phase: EpochPhase::Synchronizing {
                expected: initial_revision,
                acknowledged: false,
                needs_takeover: state.takeover_requested && !state.ever_active,
            },
        }),
{
    Epoch {
        remote_attachment_id,
        phase: EpochPhase::Synchronizing {
            expected: initial_revision,
            acknowledged: false,
            needs_takeover: state.takeover_requested && !state.ever_active,
        },
    }
}

/// Fails every awaited control request once its epoch ended, in ascending
/// request-ID order: leases and history pages with `transport_error`, a
/// takeover whose result was lost as `OperationOutcomeUnknown`. The window is
/// emptied.
pub fn resolve_pending_control(state: &mut BridgeState, transport_error: DomainErrorKind) -> (failures: Vec<(u64, DomainErrorKind)>)
    requires
        bridge_wf(old(state)@),
    ensures
        bridge_wf(final(state)@),
        final(state)@ == with_pending(old(state)@, Seq::empty()),
        failures@.len() == old(state)@.pending.len(),
        forall|i: int| 0 <= i < failures@.len() ==> (#[trigger] failures@[i]).0 == old(state)@.pending[i].0,
        forall|i: int| 0 <= i < failures@.len()
            ==> spec_pending_failure(old(state)@.pending[i].1, transport_error) == Some((#[trigger] failures@[i]).1),
{
    let ghost before = state@.pending;
    let entries = state.pending.drain();
    let mut failures: Vec<(u64, DomainErrorKind)> = Vec::new();
    let mut index: usize = 0;
    while index < entries.len()
        invariant
            0 <= index <= entries@.len(),
            entries@ == before,
            forall|i: int| 0 <= i < before.len() ==> retained_kind(#[trigger] before[i].1),
            failures@.len() == index,
            forall|i: int| 0 <= i < index ==> (#[trigger] failures@[i]).0 == before[i].0,
            forall|i: int| 0 <= i < index ==> spec_pending_failure(before[i].1, transport_error) == Some((#[trigger] failures@[i]).1),
        decreases entries@.len() - index,
    {
        let (request_id, kind) = entries[index];
        assert(retained_kind(before[index as int].1));
        let failure = match pending_failure(kind, transport_error) {
            Ok(failure) => failure,
            Err(_) => {
                proof {
                    assert(false);
                }
                transport_error
            },
        };
        failures.push((request_id, failure));
        index = index + 1;
    }
    assert(state@.pending =~= Seq::<(u64, WireKind)>::empty());
    assert(before == old(state)@.pending);

    failures
}

/// How the first remote update of an epoch is taken.
#[derive(Clone, Copy, Debug, PartialEq, Eq, Structural)]
pub enum InitialUpdate {
    /// Forward it locally; the epoch serves `remote_attachment_id` and starts at `revision`.
    Accepted { remote_attachment_id: u128, revision: u64 },
    /// The resume delta does not continue the view: request a full snapshot from `known_revision`.
    RequiresFull { remote_attachment_id: u128, known_revision: u64 },
}

/// The first remote update of an epoch, answering the attach request
/// `expected_request_id`; `expected_remote` is the attachment a full
/// re-synchronization must keep. A delta that does not continue the view
/// leaves the bridge state as it is; the loop then takes `require_full_snapshot`.
pub open spec fn spec_initial_update(
    view: BridgeView,
    frame: RemoteFrame,
    frame_request_id: u64,
    expected_request_id: u64,
    expected_remote: Option<u128>,
) -> (BridgeView, Result<InitialUpdate, DomainErrorKind>) {
    if frame_request_id != expected_request_id {
        (view, Err(DomainErrorKind::MalformedFrame))
    } else {
        match frame {
            RemoteFrame::ServiceError { kind, .. } => match kind {
                Some(kind) => (view, Err(kind)),
                None => (view, Err(DomainErrorKind::MalformedFrame)),
            },
            RemoteFrame::Snapshot { attachment_id, session_id, revision, shape } => match shape {
                Err(kind) => (view, Err(kind)),
                Ok(()) => match session_id {
                    None => (view, Err(DomainErrorKind::MalformedFrame)),
                    Some(session) => match view.frozen_session_id {
                        Some(frozen) if frozen != session => (view, Err(DomainErrorKind::SessionNotFound)),
                        _ => {
                            let frozen = BridgeView { frozen_session_id: Some(session), ..view };
                            match attachment_id {
                                None => (frozen, Err(DomainErrorKind::MalformedFrame)),
                                Some(remote) => if expected_remote is Some && expected_remote != Some(remote) {
                                    (frozen, Err(DomainErrorKind::MalformedFrame))
                                } else {
                                    (frozen, Ok(InitialUpdate::Accepted { remote_attachment_id: remote, revision }))
                                },
                            }
                        },
                    },
                },
            },
            RemoteFrame::Delta { attachment_id, from_revision, to_revision, shape } => match shape {
                Err(kind) => (view, Err(kind)),
                Ok(()) => match attachment_id {
                    None => (view, Err(DomainErrorKind::MalformedFrame)),
                    Some(remote) => if expected_remote is Some && expected_remote != Some(remote) {
                        (view, Err(DomainErrorKind::MalformedFrame))
                    } else {
                        match view.known_revision {
                            None => (view, Err(DomainErrorKind::MalformedFrame)),
                            Some(known) => if view.frozen_session_id is None || from_revision != known || to_revision < from_revision {
                                (view, Ok(InitialUpdate::RequiresFull { remote_attachment_id: remote, known_revision: known }))
                            } else {
                                (view, Ok(InitialUpdate::Accepted { remote_attachment_id: remote, revision: to_revision }))
                            },
                        }
                    },
                },
            },
            _ => (view, Err(DomainErrorKind::MalformedFrame)),
        }
    }
}

fn require_expected_remote(actual: u128, expected: Option<u128>) -> (result: Result<(), DaemonError>)
    ensures
        match result {
            Ok(()) => !(expected is Some && expected != Some(actual)),
            Err(error) => expected is Some && expected != Some(actual) && error.kind == DomainErrorKind::MalformedFrame,
        },
{
    crate::remote_attachment::require_expected_remote_attachment(actual, expected)
}

/// Takes the first remote update of an epoch.
pub fn initial_remote_update(
    state: &mut BridgeState,
    frame: RemoteFrame,
    frame_request_id: u64,
    expected_request_id: u64,
    expected_remote: Option<u128>,
) -> (update: Result<InitialUpdate, DaemonError>)
    requires
        bridge_wf(old(state)@),
    ensures
        bridge_wf(final(state)@),
        final(state)@ == spec_initial_update(old(state)@, frame, frame_request_id, expected_request_id, expected_remote).0,
        match update {
            Ok(update) => spec_initial_update(old(state)@, frame, frame_request_id, expected_request_id, expected_remote).1
                == Ok::<InitialUpdate, DomainErrorKind>(update),
            Err(error) => spec_initial_update(old(state)@, frame, frame_request_id, expected_request_id, expected_remote).1
                == Err::<InitialUpdate, DomainErrorKind>(error.kind),
        },
{
    if frame_request_id != expected_request_id {
        return Err(DaemonError::new(DomainErrorKind::MalformedFrame, "remote initial terminal update request_id mismatch"));
    }
    match frame {
        RemoteFrame::ServiceError { kind, .. } => match kind {
            Some(kind) => Err(DaemonError::new(kind, "remote Session request failed")),
            None => Err(DaemonError::new(DomainErrorKind::MalformedFrame, "remote Session response used an unknown domain error code")),
        },
        RemoteFrame::Snapshot { attachment_id, session_id, revision, shape } => {
            if let Err(kind) = shape {
                return Err(DaemonError::new(kind, "remote terminal snapshot is invalid"));
            }
            let session = match session_id {
                Some(session) => session,
                None => return Err(DaemonError::new(DomainErrorKind::MalformedFrame, "terminal message omitted session_id")),
            };
            freeze_session(&mut state.frozen_session_id, session)?;
            let remote = match attachment_id {
                Some(remote) => remote,
                None => return Err(DaemonError::new(DomainErrorKind::MalformedFrame, "terminal message omitted attachment_id")),
            };
            require_expected_remote(remote, expected_remote)?;
            Ok(InitialUpdate::Accepted { remote_attachment_id: remote, revision })
        },
        RemoteFrame::Delta { attachment_id, from_revision, to_revision, shape } => {
            if let Err(kind) = shape {
                return Err(DaemonError::new(kind, "remote terminal delta is invalid"));
            }
            let remote = match attachment_id {
                Some(remote) => remote,
                None => return Err(DaemonError::new(DomainErrorKind::MalformedFrame, "terminal message omitted attachment_id")),
            };
            require_expected_remote(remote, expected_remote)?;
            let known = match state.known_revision {
                Some(known) => known,
                None => return Err(DaemonError::new(DomainErrorKind::MalformedFrame, "an initial resume delta has no local baseline")),
            };
            if state.frozen_session_id.is_none() || from_revision != known || to_revision < from_revision {
                Ok(InitialUpdate::RequiresFull { remote_attachment_id: remote, known_revision: known })
            } else {
                Ok(InitialUpdate::Accepted { remote_attachment_id: remote, revision: to_revision })
            }
        },
        _ => Err(DaemonError::new(DomainErrorKind::MalformedFrame, "remote attach began with an unexpected wire kind")),
    }
}

/// Before asking the host for a full snapshot on an initial resume: the next
/// attach of the view must not offer a known revision either.
pub fn require_full_snapshot(state: &mut BridgeState)
    requires
        bridge_wf(old(state)@),
    ensures
        bridge_wf(final(state)@),
        final(state)@ == (BridgeView { force_full: true, ..old(state)@ }),
{
    state.force_full = true;
}

/// The host's full-sync marker answering the attach request
/// `expected_request_id` on the epoch's attachment; gives its latest revision.
pub fn initial_sync_required(frame: RemoteFrame, frame_request_id: u64, expected_request_id: u64, expected_attachment: u128)
    -> (latest: Result<u64, DaemonError>)
    ensures
        match latest {
            Ok(revision) => frame_request_id == expected_request_id
                && (frame matches RemoteFrame::SyncRequired { attachment_id: Some(remote), latest_revision }
                && remote == expected_attachment && revision == latest_revision),
            Err(error) => if frame_request_id != expected_request_id {
                error.kind == DomainErrorKind::MalformedFrame
            } else {
                match frame {
                    RemoteFrame::ServiceError { kind: Some(kind), .. } => error.kind == kind,
                    RemoteFrame::SyncRequired { attachment_id, .. } => attachment_check(attachment_id, expected_attachment)
                        == Err::<(), DomainErrorKind>(error.kind),
                    _ => error.kind == DomainErrorKind::MalformedFrame,
                }
            },
        },
{
    if frame_request_id != expected_request_id {
        return Err(DaemonError::new(DomainErrorKind::MalformedFrame, "remote full-sync marker request_id mismatch"));
    }
    match frame {
        RemoteFrame::ServiceError { kind, .. } => match kind {
            Some(kind) => Err(DaemonError::new(kind, "remote Session request failed")),
            None => Err(DaemonError::new(DomainErrorKind::MalformedFrame, "remote Session response used an unknown domain error code")),
        },
        RemoteFrame::SyncRequired { attachment_id, latest_revision } => {
            require_attachment(attachment_id, expected_attachment)?;
            Ok(latest_revision)
        },
        _ => Err(DaemonError::new(DomainErrorKind::MalformedFrame, "remote full synchronization expected TerminalSyncRequired")),
    }
}

/// The snapshot that completes an initial full synchronization must be
/// accepted at exactly the marker's revision.
pub fn complete_full_sync(update: InitialUpdate, required_revision: u64) -> (result: Result<(u128, u64), DaemonError>)
    ensures
        match result {
            Ok((remote, revision)) => update == (InitialUpdate::Accepted { remote_attachment_id: remote, revision })
                && revision == required_revision,
            Err(error) => error.kind == DomainErrorKind::MalformedFrame
                && !(update matches InitialUpdate::Accepted { revision, .. } && revision == required_revision),
        },
{
    match update {
        InitialUpdate::Accepted { remote_attachment_id, revision } => {
            if revision != required_revision {
                Err(DaemonError::new(DomainErrorKind::MalformedFrame, "remote full-sync marker and snapshot revision mismatch"))
            } else {
                Ok((remote_attachment_id, revision))
            }
        },
        InitialUpdate::RequiresFull { .. } => Err(DaemonError::new(DomainErrorKind::MalformedFrame, "remote full synchronization returned another inconsistent delta")),
    }
}

/// The local view's first attach request, as the bridge reads it.
#[derive(Clone, Copy, Debug)]
pub struct InitialAttach {
    pub target: Option<TargetSelector>,
    /// Whether the caller chose a resume-view identity.
    pub resume_view_chosen: bool,
    /// Whether the caller chose a known revision.
    pub known_revision_chosen: bool,
    pub viewport: Option<Viewport>,
    /// The outcome of checking the requested terminal size, when a viewport is given.
    pub viewport_size: Result<(), DomainErrorKind>,
    pub takeover: bool,
}

/// Whether a first attach may open a bridge, or the category of its rejection.
pub open spec fn spec_initial_attach(attach: InitialAttach, target: [u8; 32]) -> Result<(), DomainErrorKind> {
    match target_check(attach.target, target) {
        Err(kind) => Err(kind),
        Ok(()) => if attach.resume_view_chosen || attach.known_revision_chosen {
            Err(DomainErrorKind::MalformedFrame)
        } else if attach.viewport is Some && attach.viewport_size is Err {
            attach.viewport_size
        } else {
            Ok(())
        },
    }
}

/// Opens the bridge of a local view from its first attach request: the
/// request must name the routed device and may not choose the daemon's
/// resume identity or revision.
pub fn begin_bridge(target: [u8; 32], local_view_id: u128, attach: InitialAttach) -> (state: Result<BridgeState, DaemonError>)
    ensures
        match state {
            Ok(state) => spec_initial_attach(attach, target) == Ok::<(), DomainErrorKind>(())
                && bridge_wf(state@)
                && state@ == (BridgeView {
                    target,
                    local_view_id,
                    frozen_session_id: None,
                    known_revision: None,
                    latest_viewport: attach.viewport,
                    force_full: false,
                    ever_active: false,
                    takeover_requested: attach.takeover,
                    desired: DesiredViewPhase::Preparing,
                    pending: Seq::empty(),
                }),
            Err(error) => spec_initial_attach(attach, target) == Err::<(), DomainErrorKind>(error.kind),
        },
{
    check_target(attach.target, target)?;
    if attach.resume_view_chosen || attach.known_revision_chosen {
        return Err(DaemonError::new(DomainErrorKind::MalformedFrame, "same-UID callers cannot choose the daemon resume-view identity"));
    }
    if attach.viewport.is_some() {
        if let Err(kind) = attach.viewport_size {
            return Err(DaemonError::new(kind, "terminal attach requested an invalid size"));
        }
    }
    let pending = PendingControl::new();
    let state = BridgeState {
        target,
        local_view_id,
        frozen_session_id: None,
        known_revision: None,
        latest_viewport: attach.viewport,
        force_full: false,
        ever_active: false,
        takeover_requested: attach.takeover,
        desired: DesiredViewPhase::Preparing,
        pending,
    };
    assert(state@.pending =~= Seq::<(u64, WireKind)>::empty());
    Ok(state)
}

/// After opening, attaching or reading an epoch failed with `kind`: a
/// temporary transport failure reconnects, announcing `Reconnecting` once;
/// any other failure ends the bridge (`None`).
pub fn reconnect_after_failure(state: &mut BridgeState, kind: DomainErrorKind) -> (announce: Option<bool>)
    ensures
        if crate::remote_attachment::spec_is_temporary_transport(kind) {
            announce == Some(old(state)@.desired != DesiredViewPhase::Reconnecting)
                && final(state)@ == (BridgeView { desired: DesiredViewPhase::Reconnecting, ..old(state)@ })
        } else {
            announce is None && final(state)@ == old(state)@
        },
{
    if !crate::remote_attachment::is_temporary_transport(kind) {
        return None;
    }
    let announce = match state.desired {
        DesiredViewPhase::Reconnecting => false,
        _ => true,
    };
    state.desired = DesiredViewPhase::Reconnecting;
    Some(announce)
}

/// How an epoch ended.
#[derive(Clone, Copy, Debug, PartialEq, Eq, Structural)]
pub enum EpochEnd {
    /// The remote stream failed with a temporary category: reconnect.
    Reconnect(DomainErrorKind),
    /// The local view detached.
    Detached,
    /// The attachment ended for good.
    Terminal,
}

/// What the bridge does after an epoch ended.
#[derive(Clone, Copy, Debug, PartialEq, Eq, Structural)]
pub enum BridgeNext {
    /// Open a new epoch, announcing `Reconnecting` first when `announce`.
    Reconnect { announce: bool },
    /// The bridge is over.
    Finish,
}

/// Ends an epoch: stranded control requests are failed (with the epoch's
/// error, or `TransportUnavailable` when it ended for good), and the bridge
/// reconnects only after a `Reconnect` end.
pub fn finish_epoch(state: &mut BridgeState, end: EpochEnd) -> (outcome: (Vec<(u64, DomainErrorKind)>, BridgeNext))
    requires
        bridge_wf(old(state)@),
    ensures
        bridge_wf(final(state)@),
        match end {
            EpochEnd::Reconnect(kind) => outcome.1 == (BridgeNext::Reconnect { announce: old(state)@.desired != DesiredViewPhase::Reconnecting })
                && final(state)@ == (BridgeView { desired: DesiredViewPhase::Reconnecting, pending: Seq::empty(), ..old(state)@ })
                && outcome.0@.len() == old(state)@.pending.len()
                && (forall|i: int| 0 <= i < outcome.0@.len() ==> (#[trigger] outcome.0@[i]).0 == old(state)@.pending[i].0
                    && spec_pending_failure(old(state)@.pending[i].1, kind) == Some(outcome.0@[i].1)),
            EpochEnd::Terminal => outcome.1 == BridgeNext::Finish
                && final(state)@ == with_pending(old(state)@, Seq::empty())
                && outcome.0@.len() == old(state)@.pending.len()
                && (forall|i: int| 0 <= i < outcome.0@.len() ==> (#[trigger] outcome.0@[i]).0 == old(state)@.pending[i].0
                    && spec_pending_failure(old(state)@.pending[i].1, DomainErrorKind::TransportUnavailable) == Some(outcome.0@[i].1)),
            EpochEnd::Detached => outcome.1 == BridgeNext::Finish && final(state)@ == old(state)@ && outcome.0@.len() == 0,
        },
{
    match end {
        EpochEnd::Reconnect(kind) => {
            let failures = resolve_pending_control(state, kind);
            let announce = match state.desired {
                DesiredViewPhase::Reconnecting => false,
                _ => true,
            };
            state.desired = DesiredViewPhase::Reconnecting;
            (failures, BridgeNext::Reconnect { announce })
        },
        EpochEnd::Terminal => {
            let failures = resolve_pending_control(state, DomainErrorKind::TransportUnavailable);
            (failures, BridgeNext::Finish)
        },
        EpochEnd::Detached => (Vec::new(), BridgeNext::Finish),
    }
}

} // verus!
