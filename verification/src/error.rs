//! Domain error categories and the daemon's typed error value.

use vstd::prelude::*;

verus! {

/// Stable category of a daemon failure, shared by local and peer projections.
#[derive(Clone, Copy, Debug, PartialEq, Eq, Structural)]
pub enum DomainErrorKind {
    ResourceExhausted,
    TransportUnavailable,
    DeadlineExceeded,
    PairTicketExpired,
    PairTicketConsumed,
    PairOutcomeUnknown,
    PairTicketInvalid,
    MalformedFrame,
    WireMajorMismatch,
    UnknownKind,
    FrameTooLarge,
    ControlPayloadTooLarge,
    Cancelled,
    ServiceNotImplemented,
    InvalidDeviceAlias,
    AlreadyConfiguredConflict,
    StoreUnavailable,
    DeviceNotFound,
    AddressUnavailable,
    OperationOutcomeUnknown,
    IdentityStateMismatch,
    Unauthorized,
    AuthorizationRevoked,
    SessionNotFound,
    SessionOccupied,
    LeaseLost,
    DaemonStopped,
    NotSynchronized,
    DeviceAliasConflict,
    InvalidTargetSelector,
}

/// Typed daemon failure: a category plus a bounded human-readable detail.
#[derive(Debug)]
pub struct DaemonError {
    pub kind: DomainErrorKind,
    pub detail: String,
}

impl DaemonError {
    /// Builds an error from a category and a static detail message.
    pub fn new(kind: DomainErrorKind, detail: &str) -> (error: DaemonError)
        ensures
            error.kind == kind,
            error.detail@ == detail@,
    {
        DaemonError { kind, detail: detail.to_owned() }
    }

    /// Returns the category of this error.
    pub fn kind(&self) -> (kind: DomainErrorKind)
        ensures
            kind == self.kind,
    {
        self.kind
    }
}

} // verus!
