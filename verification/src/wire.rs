//! Message kinds of the framed daemon protocol.

use vstd::prelude::*;

use crate::error::{DaemonError, DomainErrorKind};

verus! {

/// Kind tag of one decoded protocol frame.
#[derive(Clone, Copy, Debug, PartialEq, Eq, Structural)]
pub enum WireKind {
    ConnectionHello,
    LocalDeviceListRequest,
    LocalDeviceListResponse,
    LocalDeviceRenameRequest,
    LocalDeviceRenameResponse,
    LocalDeviceRevokeRequest,
    LocalDeviceRevokeResponse,
    LocalPairAcceptRequest,
    LocalPairAcceptResponse,
    LocalPairCreateRequest,
    LocalPairCreateResponse,
    LocalReadinessRequest,
    LocalReadinessResponse,
    LocalSessionTunnelClosed,
    LocalSessionTunnelData,
    LocalSessionTunnelHalfClose,
    LocalSessionTunnelOpenRequest,
    LocalSessionTunnelOpened,
    LocalSessionTunnelPath,
    LocalSessionUnaryRequest,
    LocalStatusRequest,
    LocalStatusResponse,
    LocalStopRequest,
    LocalStopResponse,
    LocalTargetResolveRequest,
    LocalTargetResolveResponse,
    LocalUpdatePreflightRequest,
    LocalUpdatePreflightResponse,
    LocalValidateSetupRequest,
    LocalValidateSetupResponse,
    PairAccepted,
    PairBegin,
    PairChallenge,
    PairProof,
    ServiceErrorResponse,
    SessionCloseRequest,
    SessionCreateRequest,
    SessionListRequest,
    SessionListResponse,
    SessionMutateResponse,
    SessionOperationLeaseRequest,
    SessionOperationLeaseResponse,
    SessionRenameRequest,
    SessionTakeoverRequest,
    TerminalAttachRequest,
    TerminalConnectionStatusEvent,
    TerminalDelta,
    TerminalDetach,
    TerminalHistoryPage,
    TerminalHistoryRequest,
    TerminalInput,
    TerminalLeaseLost,
    TerminalResize,
    TerminalSessionEnded,
    TerminalSnapshot,
    TerminalSnapshotApplied,
    TerminalSyncRequest,
    TerminalSyncRequired,
    TerminalTransportStateEvent,
}

/// Header fields of one decoded frame that the daemon's rules inspect.
#[derive(Clone, Copy, Debug, PartialEq, Eq, Structural)]
pub struct FrameHeader {
    pub kind: WireKind,
    pub request_id: u64,
    pub deadline_ms: u64,
}

/// Class of a wire codec failure, as far as the daemon distinguishes them.
#[derive(Clone, Copy, Debug, PartialEq, Eq, Structural)]
pub enum ProtocolFault {
    WireMajorMismatch,
    UnknownKind,
    FrameTooLarge,
    ControlPayloadTooLarge,
    MalformedVarint,
    TruncatedFrame,
    MalformedProtobuf,
    UnexpectedKind,
    InvalidIdentifier,
    InvalidTerminalSize,
}

/// Category of a codec failure: the version, kind and size classes keep
/// their own category, every structural defect is a malformed frame.
pub open spec fn spec_protocol_kind(fault: ProtocolFault) -> DomainErrorKind {
    match fault {
        ProtocolFault::WireMajorMismatch => DomainErrorKind::WireMajorMismatch,
        ProtocolFault::UnknownKind => DomainErrorKind::UnknownKind,
        ProtocolFault::FrameTooLarge => DomainErrorKind::FrameTooLarge,
        ProtocolFault::ControlPayloadTooLarge => DomainErrorKind::ControlPayloadTooLarge,
        _ => DomainErrorKind::MalformedFrame,
    }
}

/// The daemon error reporting a codec failure, with its description as detail.
pub fn protocol_error(fault: ProtocolFault, detail: &str) -> (error: DaemonError)
    ensures
        error.kind == spec_protocol_kind(fault),
        error.detail@ == detail@,
{
    let kind = match fault {
        ProtocolFault::WireMajorMismatch => DomainErrorKind::WireMajorMismatch,
        ProtocolFault::UnknownKind => DomainErrorKind::UnknownKind,
        ProtocolFault::FrameTooLarge => DomainErrorKind::FrameTooLarge,
        ProtocolFault::ControlPayloadTooLarge => DomainErrorKind::ControlPayloadTooLarge,
        _ => DomainErrorKind::MalformedFrame,
    };
    DaemonError::new(kind, detail)
}

/// The daemon error for a rejected device request field: an invalid alias is
/// its own category, any other field defect is a malformed frame.
pub fn device_wire_error(invalid_alias: bool, detail: &str) -> (error: DaemonError)
    ensures
        error.kind == (if invalid_alias { DomainErrorKind::InvalidDeviceAlias } else { DomainErrorKind::MalformedFrame }),
        error.detail@ == detail@,
{
    if invalid_alias {
        DaemonError::new(DomainErrorKind::InvalidDeviceAlias, detail)
    } else {
        DaemonError::new(DomainErrorKind::MalformedFrame, detail)
    }
}

} // verus!
