//! Decisions of the opaque local Session tunnel pump: which frames it admits,
//! what it forwards, how half-close propagates, and when it closes.
//!
//! The pump alternates reading the local tunnel socket, reading the remote
//! service stream, and observing the selected path. Each observation is an
//! event; `tunnel_step` decides the next state and the one action to perform.

use vstd::prelude::*;

use crate::error::{DaemonError, DomainErrorKind};
use crate::wire::{FrameHeader, WireKind};

verus! {

/// Selected network path of a connection.
#[derive(Clone, Copy, Debug, PartialEq, Eq, Structural)]
pub enum PathKind {
    Unknown,
    Direct,
    Relay,
}

/// Address-free observation of the selected path.
#[derive(Clone, Copy, Debug, PartialEq, Eq, Structural)]
pub struct PathObservation {
    pub path: PathKind,
    pub rtt_ms: Option<u32>,
}

impl PathObservation {
    /// The reset observation announced when a tunnel opens.
    pub fn unknown() -> (observation: PathObservation)
        ensures
            observation == (PathObservation { path: PathKind::Unknown, rtt_ms: None }),
    {
        PathObservation { path: PathKind::Unknown, rtt_ms: None }
    }
}

/// Why the tunnel closes towards the local client.
#[derive(Clone, Copy, Debug, PartialEq, Eq, Structural)]
pub enum TunnelCloseReason {
    ProtocolError,
    TransportLost,
    RemoteEof,
}

/// One observation of the pump.
#[derive(Clone, Copy, Debug, PartialEq, Eq, Structural)]
pub enum TunnelEvent {
    /// A complete local frame; `decode_error` is the category of a payload
    /// that failed to decode for its kind, and `data_len` the byte count of a
    /// decoded Data chunk.
    LocalFrame { header: FrameHeader, decode_error: Option<DomainErrorKind>, data_len: usize },
    /// The local socket reached a clean end of stream.
    LocalEof,
    /// Reading or decoding the local socket failed with this category.
    LocalReadFailed(DomainErrorKind),
    /// Forwarding local data to the remote stream failed (or timed out) with this category.
    RemoteWriteFailed(DomainErrorKind),
    /// The remote stream produced this many bytes (never zero).
    RemoteData(usize),
    /// The remote stream ended.
    RemoteEof,
    /// Reading the remote stream failed.
    RemoteReadFailed,
    /// The periodic path observation.
    PathTick(PathObservation),
}

/// The one action the pump performs for an event.
#[derive(Clone, Copy, Debug, PartialEq, Eq, Structural)]
pub enum TunnelAction {
    /// Nothing to do; wait for the next event.
    Continue,
    /// Write the decoded Data chunk to the remote stream.
    ForwardToRemote,
    /// Shut down the remote write half (the local client half-closed).
    ShutdownRemoteWrite,
    /// Wrap the remote bytes into one local Data envelope.
    ForwardToLocal(usize),
    /// Announce a changed path observation.
    EmitPath(PathObservation),
    /// Shut down the remote write half and end the pump successfully.
    FinishLocalEof,
    /// Send HalfClose and Closed(RemoteEof) locally, shut down locally, and
    /// end the pump successfully.
    FinishRemoteEof,
    /// Send Closed(reason) locally, best effort, and end the pump with an
    /// error of category `kind`.
    Fail { reason: TunnelCloseReason, kind: DomainErrorKind },
}

/// Pump state between events.
#[derive(Clone, Copy, Debug, PartialEq, Eq, Structural)]
pub struct TunnelState {
    /// Largest admitted Data chunk.
    pub max_data_bytes: usize,
    /// The local client sent HalfClose.
    pub local_half_closed: bool,
    /// The local socket ended after HalfClose; it is no longer read.
    pub local_read_closed: bool,
    /// The last path observation announced locally.
    pub previous_path: PathObservation,
}

/// State of a freshly opened tunnel, after Opened and the path reset.
pub fn opened_tunnel(max_data_bytes: usize) -> (state: TunnelState)
    ensures
        state == (TunnelState {
            max_data_bytes,
            local_half_closed: false,
            local_read_closed: false,
            previous_path: PathObservation { path: PathKind::Unknown, rtt_ms: None },
        }),
{
    TunnelState { max_data_bytes, local_half_closed: false, local_read_closed: false, previous_path: PathObservation::unknown() }
}

/// The category of a rejected Data chunk, if any.
pub open spec fn data_chunk_error(len: usize, max_data_bytes: usize) -> Option<DomainErrorKind> {
    if len == 0 {
        Some(DomainErrorKind::MalformedFrame)
    } else if len > max_data_bytes {
        Some(DomainErrorKind::ControlPayloadTooLarge)
    } else {
        None
    }
}

/// The next state and action for one event.
pub open spec fn spec_tunnel_step(state: TunnelState, event: TunnelEvent) -> (TunnelState, TunnelAction) {
    let protocol_failure = |kind: DomainErrorKind| TunnelAction::Fail { reason: TunnelCloseReason::ProtocolError, kind };
    match event {
        TunnelEvent::LocalFrame { header, decode_error, data_len } => if state.local_read_closed {
            (state, TunnelAction::Continue)
        } else if state.local_half_closed {
            (state, protocol_failure(DomainErrorKind::MalformedFrame))
        } else if header.request_id != 0 || header.deadline_ms != 0 {
            (state, protocol_failure(DomainErrorKind::MalformedFrame))
        } else if header.kind == WireKind::LocalSessionTunnelData {
            match decode_error {
                Some(kind) => (state, protocol_failure(kind)),
                None => match data_chunk_error(data_len, state.max_data_bytes) {
                    Some(kind) => (state, protocol_failure(kind)),
                    None => (state, TunnelAction::ForwardToRemote),
                },
            }
        } else if header.kind == WireKind::LocalSessionTunnelHalfClose {
            match decode_error {
                Some(kind) => (state, protocol_failure(kind)),
                None => (TunnelState { local_half_closed: true, ..state }, TunnelAction::ShutdownRemoteWrite),
            }
        } else {
            (state, protocol_failure(DomainErrorKind::MalformedFrame))
        },
        TunnelEvent::LocalEof => if state.local_read_closed {
            (state, TunnelAction::Continue)
        } else if state.local_half_closed {
            (TunnelState { local_read_closed: true, ..state }, TunnelAction::Continue)
        } else {
            (state, TunnelAction::FinishLocalEof)
        },
        TunnelEvent::LocalReadFailed(kind) => if state.local_read_closed {
            (state, TunnelAction::Continue)
        } else {
            (state, protocol_failure(kind))
        },
        TunnelEvent::RemoteWriteFailed(kind) => (state, TunnelAction::Fail { reason: TunnelCloseReason::TransportLost, kind }),
        TunnelEvent::RemoteData(count) => (state, TunnelAction::ForwardToLocal(count)),
        TunnelEvent::RemoteEof => (state, TunnelAction::FinishRemoteEof),
        TunnelEvent::RemoteReadFailed => (state, TunnelAction::Fail {
            reason: TunnelCloseReason::TransportLost,
            kind: DomainErrorKind::TransportUnavailable,
        }),
        TunnelEvent::PathTick(observation) => if observation != state.previous_path {
            (TunnelState { previous_path: observation, ..state }, TunnelAction::EmitPath(observation))
        } else {
            (state, TunnelAction::Continue)
        },
    }
}

/// Checks the size of one local Data chunk: it must be non-empty and within the chunk limit.
pub fn require_data_chunk(len: usize, max_data_bytes: usize) -> (result: Result<(), DaemonError>)
    ensures
        match result {
            Ok(()) => data_chunk_error(len, max_data_bytes) is None,
            Err(error) => data_chunk_error(len, max_data_bytes) == Some(error.kind),
        },
{
    if len == 0 {
        return Err(DaemonError::new(DomainErrorKind::MalformedFrame, "local Session tunnel Data must not be empty"));
    }
    if len > max_data_bytes {
        return Err(DaemonError::new(DomainErrorKind::ControlPayloadTooLarge, "local Session tunnel Data exceeds the chunk limit"));
    }
    Ok(())
}

/// Stream frames after Open must carry zero request ID and deadline.
pub fn require_stream_frame_header(header: FrameHeader) -> (result: Result<(), DaemonError>)
    ensures
        match result {
            Ok(()) => header.request_id == 0 && header.deadline_ms == 0,
            Err(error) => (header.request_id != 0 || header.deadline_ms != 0) && error.kind == DomainErrorKind::MalformedFrame,
        },
{
    if header.request_id != 0 || header.deadline_ms != 0 {
        Err(DaemonError::new(DomainErrorKind::MalformedFrame, "local Session tunnel stream frames require zero request ID and deadline"))
    } else {
        Ok(())
    }
}

/// Decides the pump's next state and action for one event.
pub fn tunnel_step(state: TunnelState, event: TunnelEvent) -> (step: (TunnelState, TunnelAction))
    ensures
        step == spec_tunnel_step(state, event),
{
    match event {
        TunnelEvent::LocalFrame { header, decode_error, data_len } => {
            if state.local_read_closed {
                return (state, TunnelAction::Continue);
            }
            if state.local_half_closed {
                return (state, TunnelAction::Fail { reason: TunnelCloseReason::ProtocolError, kind: DomainErrorKind::MalformedFrame });
            }
            if let Err(error) = require_stream_frame_header(header) {
                return (state, TunnelAction::Fail { reason: TunnelCloseReason::ProtocolError, kind: error.kind });
            }
            match header.kind {
                WireKind::LocalSessionTunnelData => {
                    if let Some(kind) = decode_error {
                        return (state, TunnelAction::Fail { reason: TunnelCloseReason::ProtocolError, kind });
                    }
                    match require_data_chunk(data_len, state.max_data_bytes) {
                        Err(error) => (state, TunnelAction::Fail { reason: TunnelCloseReason::ProtocolError, kind: error.kind }),
                        Ok(()) => (state, TunnelAction::ForwardToRemote),
                    }
                },
                WireKind::LocalSessionTunnelHalfClose => match decode_error {
                    Some(kind) => (state, TunnelAction::Fail { reason: TunnelCloseReason::ProtocolError, kind }),
                    None => (TunnelState { local_half_closed: true, ..state }, TunnelAction::ShutdownRemoteWrite),
                },
                _ => (state, TunnelAction::Fail { reason: TunnelCloseReason::ProtocolError, kind: DomainErrorKind::MalformedFrame }),
            }
        },
        TunnelEvent::LocalEof => {
            if state.local_read_closed {
                (state, TunnelAction::Continue)
            } else if state.local_half_closed {
                (TunnelState { local_read_closed: true, ..state }, TunnelAction::Continue)
            } else {
                (state, TunnelAction::FinishLocalEof)
            }
        },
        TunnelEvent::LocalReadFailed(kind) => {
            if state.local_read_closed {
                (state, TunnelAction::Continue)
            } else {
                (state, TunnelAction::Fail { reason: TunnelCloseReason::ProtocolError, kind })
            }
        },
        TunnelEvent::RemoteWriteFailed(kind) => (state, TunnelAction::Fail { reason: TunnelCloseReason::TransportLost, kind }),
        TunnelEvent::RemoteData(count) => (state, TunnelAction::ForwardToLocal(count)),
        TunnelEvent::RemoteEof => (state, TunnelAction::FinishRemoteEof),
        TunnelEvent::RemoteReadFailed => (state, TunnelAction::Fail {
            reason: TunnelCloseReason::TransportLost,
            kind: DomainErrorKind::TransportUnavailable,
        }),
        TunnelEvent::PathTick(observation) => {
            if observation != state.previous_path {
                (TunnelState { previous_path: observation, ..state }, TunnelAction::EmitPath(observation))
            } else {
                (state, TunnelAction::Continue)
            }
        },
    }
}

/// The state and actions after a sequence of events, stopping at the first
/// action that ends the pump.
pub open spec fn run_events(state: TunnelState, events: Seq<TunnelEvent>) -> (TunnelState, Seq<TunnelAction>)
    decreases events.len(),
{
    if events.len() == 0 {
        (state, Seq::empty())
    } else {
        let (before, actions) = run_events(state, events.drop_last());
        if actions.len() > 0 && ends_pump(actions.last()) {
            (before, actions)
        } else {
            let (after, action) = spec_tunnel_step(before, events.last());
            (after, actions.push(action))
        }
    }
}

/// Whether an action ends the pump.
pub open spec fn ends_pump(action: TunnelAction) -> bool {
    action is FinishLocalEof || action is FinishRemoteEof || action is Fail
}

/// Law: once the local client half-closed, no later local frame is ever
/// forwarded to the remote stream; the first one ends the tunnel with a
/// protocol error, and the half-close itself is propagated exactly once.
pub proof fn law_no_data_after_half_close(state: TunnelState, event: TunnelEvent)
    requires
        state.local_half_closed,
    ensures
        spec_tunnel_step(state, event).1 != TunnelAction::ForwardToRemote,
        spec_tunnel_step(state, event).1 != TunnelAction::ShutdownRemoteWrite,
        spec_tunnel_step(state, event).0.local_half_closed,
        (event is LocalFrame && !state.local_read_closed) ==> spec_tunnel_step(state, event).1 == (TunnelAction::Fail {
            reason: TunnelCloseReason::ProtocolError,
            kind: DomainErrorKind::MalformedFrame,
        }),
{
}

/// Law: over any run of events, the remote write half is shut down at most
/// once on behalf of a local half-close, and no Data is forwarded after it.
pub proof fn law_half_close_propagates_once(state: TunnelState, events: Seq<TunnelEvent>)
    requires
        !state.local_half_closed,
    ensures
        ({
            let actions = run_events(state, events).1;
            forall|i: int, j: int| 0 <= i < j < actions.len() && actions[i] == TunnelAction::ShutdownRemoteWrite
                ==> actions[j] != TunnelAction::ShutdownRemoteWrite && actions[j] != TunnelAction::ForwardToRemote
        }),
        run_events(state, events).0.local_half_closed ==> (exists|i: int| 0 <= i < run_events(state, events).1.len()
            && run_events(state, events).1[i] == TunnelAction::ShutdownRemoteWrite),
        !run_events(state, events).0.local_half_closed ==> (forall|i: int| 0 <= i < run_events(state, events).1.len()
            ==> run_events(state, events).1[i] != TunnelAction::ShutdownRemoteWrite),
    decreases events.len(),
{
    if events.len() > 0 {
        law_half_close_propagates_once(state, events.drop_last());
        let (before, actions) = run_events(state, events.drop_last());
        if !(actions.len() > 0 && ends_pump(actions.last())) {
            let (after, action) = spec_tunnel_step(before, events.last());
            let all = actions.push(action);
            if before.local_half_closed {
                law_no_data_after_half_close(before, events.last());
                assert forall|i: int, j: int| 0 <= i < j < all.len() && all[i] == TunnelAction::ShutdownRemoteWrite
                    implies all[j] != TunnelAction::ShutdownRemoteWrite && all[j] != TunnelAction::ForwardToRemote by {
                    if j < actions.len() {
                        assert(all[i] == actions[i]);
                        assert(all[j] == actions[j]);
                    }
                }
                let k = choose|i: int| 0 <= i < actions.len() && actions[i] == TunnelAction::ShutdownRemoteWrite;
                assert(all[k] == actions[k]);
            } else {
                assert forall|i: int, j: int| 0 <= i < j < all.len() && all[i] == TunnelAction::ShutdownRemoteWrite
                    implies all[j] != TunnelAction::ShutdownRemoteWrite && all[j] != TunnelAction::ForwardToRemote by {
                    assert(all[i] == actions[i]);
                }
                if after.local_half_closed {
                    assert(all[actions.len() as int] == TunnelAction::ShutdownRemoteWrite);
                } else {
                    assert forall|i: int| 0 <= i < all.len() implies all[i] != TunnelAction::ShutdownRemoteWrite by {
                        if i < actions.len() {
                            assert(all[i] == actions[i]);
                        }
                    }
                }
            }
        }
    }
}

/// Law: a path observation is announced exactly when it differs from the
/// previously announced one.
pub proof fn law_path_announced_only_on_change(state: TunnelState, observation: PathObservation)
    ensures
        (spec_tunnel_step(state, TunnelEvent::PathTick(observation)).1 == TunnelAction::EmitPath(observation))
            == (observation != state.previous_path),
        spec_tunnel_step(state, TunnelEvent::PathTick(observation)).0.previous_path == observation,
{
}

/// Law: what the remote side sends is handled the same way in every state,
/// whether or not the local client half-closed its direction: remote bytes are
/// always wrapped for the local client, a remote end finishes the pump, and a
/// remote failure ends it as a lost transport. None of these changes the state.
pub proof fn law_remote_side_is_independent_of_local_half_close(state: TunnelState, count: usize, kind: DomainErrorKind)
    ensures
        spec_tunnel_step(state, TunnelEvent::RemoteData(count)) == (state, TunnelAction::ForwardToLocal(count)),
        spec_tunnel_step(state, TunnelEvent::RemoteEof) == (state, TunnelAction::FinishRemoteEof),
        spec_tunnel_step(state, TunnelEvent::RemoteReadFailed) == (state, TunnelAction::Fail {
            reason: TunnelCloseReason::TransportLost,
            kind: DomainErrorKind::TransportUnavailable,
        }),
        spec_tunnel_step(state, TunnelEvent::RemoteWriteFailed(kind)) == (state, TunnelAction::Fail {
            reason: TunnelCloseReason::TransportLost,
            kind,
        }),
{
}

/// Law: while the local direction is open, a well-formed Data chunk (zero
/// metadata, non-empty, within the chunk limit) is forwarded to the remote
/// stream, and a well-formed HalfClose shuts the remote write half and marks
/// the local direction closed; nothing else changes.
pub proof fn law_open_local_direction_forwards(state: TunnelState, len: usize)
    requires
        !state.local_half_closed,
        !state.local_read_closed,
    ensures
        0 < len <= state.max_data_bytes ==> spec_tunnel_step(state, TunnelEvent::LocalFrame {
            header: FrameHeader { kind: WireKind::LocalSessionTunnelData, request_id: 0, deadline_ms: 0 },
            decode_error: None,
            data_len: len,
        }) == (state, TunnelAction::ForwardToRemote),
        spec_tunnel_step(state, TunnelEvent::LocalFrame {
            header: FrameHeader { kind: WireKind::LocalSessionTunnelHalfClose, request_id: 0, deadline_ms: 0 },
            decode_error: None,
            data_len: len,
        }) == (TunnelState { local_half_closed: true, ..state }, TunnelAction::ShutdownRemoteWrite),
{
}

/// Law: the local socket's end finishes the pump while the local direction is
/// open; after a half-close it only stops further local reads, and once those
/// stopped, local events are no longer acted on.
pub proof fn law_local_end_of_stream(state: TunnelState, event: TunnelEvent)
    ensures
        (!state.local_half_closed && !state.local_read_closed)
            ==> spec_tunnel_step(state, TunnelEvent::LocalEof) == (state, TunnelAction::FinishLocalEof),
        (state.local_half_closed && !state.local_read_closed)
            ==> spec_tunnel_step(state, TunnelEvent::LocalEof) == (TunnelState { local_read_closed: true, ..state }, TunnelAction::Continue),
        (state.local_read_closed && (event is LocalFrame || event is LocalEof || event is LocalReadFailed))
            ==> spec_tunnel_step(state, event) == (state, TunnelAction::Continue),
{
}

/// Law: while the local direction is open, a local frame that breaks the
/// stream rules ends the tunnel with a protocol error of its category:
/// non-zero metadata or a kind other than Data and HalfClose is malformed, a
/// decoding failure keeps its own category, an empty chunk is malformed, and
/// a chunk over the limit is too large. A failed local read ends it the same way.
pub proof fn law_bad_local_frames_close_the_tunnel(state: TunnelState, header: FrameHeader, decode_error: Option<DomainErrorKind>, len: usize, kind: DomainErrorKind)
    requires
        !state.local_half_closed,
        !state.local_read_closed,
    ensures
        ({
            let fail = |kind: DomainErrorKind| (state, TunnelAction::Fail { reason: TunnelCloseReason::ProtocolError, kind });
            let step = spec_tunnel_step(state, TunnelEvent::LocalFrame { header, decode_error, data_len: len });
            let data = header.kind == WireKind::LocalSessionTunnelData;
            let half_close = header.kind == WireKind::LocalSessionTunnelHalfClose;
            &&& (header.request_id != 0 || header.deadline_ms != 0 || !(data || half_close)) ==> step == fail(DomainErrorKind::MalformedFrame)
            &&& (header.request_id == 0 && header.deadline_ms == 0 && (data || half_close) && decode_error is Some)
                ==> step == fail(decode_error->Some_0)
            &&& (header.request_id == 0 && header.deadline_ms == 0 && data && decode_error is None && len == 0)
                ==> step == fail(DomainErrorKind::MalformedFrame)
            &&& (header.request_id == 0 && header.deadline_ms == 0 && data && decode_error is None && len > state.max_data_bytes)
                ==> step == fail(DomainErrorKind::ControlPayloadTooLarge)
            &&& spec_tunnel_step(state, TunnelEvent::LocalReadFailed(kind)) == fail(kind)
        }),
{
}

/// Fields of the one Open request of a tunnel.
#[derive(Clone, Copy, Debug)]
pub struct TunnelOpen {
    pub header: FrameHeader,
    pub protocol_version: u32,
    pub target_device_id: Option<[u8; 32]>,
}

/// Validates the Open request: its kind, a non-zero request ID, the tunnel
/// protocol version, and a present target; returns the target.
pub fn decode_tunnel_open(open: TunnelOpen, supported_version: u32) -> (result: Result<[u8; 32], DaemonError>)
    ensures
        match result {
            Ok(target) => open.header.kind == WireKind::LocalSessionTunnelOpenRequest && open.header.request_id != 0
                && open.protocol_version == supported_version && open.target_device_id == Some(target),
            Err(error) => if open.header.kind != WireKind::LocalSessionTunnelOpenRequest || open.header.request_id == 0 {
                error.kind == DomainErrorKind::MalformedFrame
            } else if open.protocol_version != supported_version {
                error.kind == DomainErrorKind::WireMajorMismatch
            } else {
                open.target_device_id is None && error.kind == DomainErrorKind::MalformedFrame
            },
        },
{
    if open.header.kind != WireKind::LocalSessionTunnelOpenRequest {
        return Err(DaemonError::new(DomainErrorKind::MalformedFrame, "remote Session tunnel requires an Open request"));
    }
    if open.header.request_id == 0 {
        return Err(DaemonError::new(DomainErrorKind::MalformedFrame, "remote Session tunnel Open requires a request ID"));
    }
    if open.protocol_version != supported_version {
        return Err(DaemonError::new(DomainErrorKind::WireMajorMismatch, "unsupported local Session tunnel protocol version"));
    }
    match open.target_device_id {
        Some(target) => Ok(target),
        None => Err(DaemonError::new(DomainErrorKind::MalformedFrame, "remote Session tunnel Open omitted target_device_id")),
    }
}

} // verus!
