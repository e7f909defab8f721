//! Local daemon lifecycle projections: readiness, session impact of stop and
//! update, live device observations, and routing of local requests.

use vstd::prelude::*;

use crate::bytes::bytes32_eq;

use crate::error::{DaemonError, DomainErrorKind};
use crate::remote_tunnel::PathKind;
use crate::wire::WireKind;

verus! {

/// Protocol version projected by readiness and status.
#[derive(Clone, Copy, Debug, PartialEq, Eq, Structural)]
pub struct ProtocolStatus {
    /// Product wire major.
    pub wire_major: u32,
    /// Persistent-state schema supported by this binary.
    pub state_schema: u32,
    /// Negotiable capability bits, retaining future unknown values.
    pub capabilities: u64,
}

/// Successful local readiness projection.
#[derive(Clone, Debug, PartialEq, Eq)]
pub struct DaemonReadiness {
    /// Supported protocol values.
    pub protocol: ProtocolStatus,
    /// Running package version.
    pub version: String,
    /// Daemon process start timestamp.
    pub started_at_unix: u64,
}

/// Active-session impact returned by stop and update preflight.
#[derive(Clone, Debug, PartialEq, Eq)]
pub struct SessionImpact {
    /// Live terminal sessions affected by the operation.
    pub active_session_count: u32,
    /// Live terminal session names affected by the operation.
    pub active_session_names: Vec<String>,
    /// Whether the accepted stop request is shutting the daemon down.
    pub stopping: bool,
    /// Whether a future manual update would interrupt work.
    pub interruption_required: bool,
}

/// Redacted live transport/session counters merged into a device projection.
#[derive(Clone, Copy, Debug, Default, PartialEq, Eq, Structural)]
pub struct DeviceLiveObservation {
    /// Whether one promoted normal-ALPN connection is active.
    pub online: bool,
    /// Current application streams owned by the remote endpoint.
    pub active_stream_count: u32,
    /// Current Session attachments owned by the remote endpoint.
    pub remote_attachment_count: u32,
}

/// Identity of one connection candidate.
#[derive(Clone, Copy, Debug)]
pub struct ConnectionCandidateKey {
    pub device_id: [u8; 32],
    pub attempt_id: u128,
}

/// Redacted broker observation of one peer.
#[derive(Clone, Copy, Debug)]
pub struct PeerConnectionObservation {
    /// The promoted primary connection, if any.
    pub primary: Option<ConnectionCandidateKey>,
    pub candidate_count: usize,
    pub demand_count: usize,
    pub remote_acceptance_generation: Option<u64>,
    pub path: PathKind,
    /// Application streams currently open to the peer.
    pub active_stream_count: u32,
}

/// A host count saturated into the 32-bit wire counter.
pub open spec fn saturated_count(value: int) -> int {
    if value <= u32::MAX { value } else { u32::MAX as int }
}

/// Saturating projection of a host count into the 32-bit wire counter.
pub fn bounded_device_count(value: usize) -> (count: u32)
    ensures
        count == saturated_count(value as int),
{
    if value <= u32::MAX as usize {
        value as u32
    } else {
        u32::MAX
    }
}

/// Merges the broker's peer observation with the session owner's attachment count.
pub fn project_device_live_observation(peer: PeerConnectionObservation, remote_attachment_count: usize) -> (result: Result<DeviceLiveObservation, DaemonError>)
    ensures
        result matches Ok(observation) && observation == (DeviceLiveObservation {
            online: peer.primary is Some,
            active_stream_count: peer.active_stream_count,
            remote_attachment_count: saturated_count(remote_attachment_count as int) as u32,
        }),
{
    Ok(DeviceLiveObservation {
        online: peer.primary.is_some(),
        active_stream_count: peer.active_stream_count,
        remote_attachment_count: bounded_device_count(remote_attachment_count),
    })
}

/// A stored optional timestamp as the wire's unsigned value: absent is zero,
/// and a negative stored value means the store is inconsistent.
pub fn optional_timestamp(value: Option<i64>, field: &str) -> (result: Result<u64, DaemonError>)
    ensures
        match value {
            None => result == Ok::<u64, DaemonError>(0),
            Some(stored) => if stored >= 0 {
                result matches Ok(converted) && converted == stored
            } else {
                result matches Err(error) && error.kind == DomainErrorKind::StoreUnavailable
            },
        },
{
    match value {
        None => Ok(0),
        Some(stored) => {
            if stored >= 0 {
                Ok(stored as u64)
            } else {
                Err(DaemonError::new(DomainErrorKind::StoreUnavailable, field))
            }
        },
    }
}

/// Copies session names in display order.
pub fn session_names(sessions: &Vec<String>) -> (names: Vec<String>)
    ensures
        names@.len() == sessions@.len(),
        forall|i: int| 0 <= i < sessions@.len() ==> names@[i]@ == sessions@[i]@,
{
    let mut names: Vec<String> = Vec::new();
    let mut index: usize = 0;
    while index < sessions.len()
        invariant
            0 <= index <= sessions@.len(),
            names@.len() == index,
            forall|i: int| 0 <= i < index ==> names@[i]@ == sessions@[i]@,
        decreases sessions@.len() - index,
    {
        names.push(sessions[index].clone());
        index = index + 1;
    }
    names
}

/// Impact of an accepted stop: the daemon is stopping with these sessions live.
pub fn stop_impact(sessions: &Vec<String>) -> (impact: SessionImpact)
    ensures
        impact.active_session_count == saturated_count(sessions@.len() as int),
        impact.active_session_names@.len() == sessions@.len(),
        forall|i: int| 0 <= i < sessions@.len() ==> impact.active_session_names@[i]@ == sessions@[i]@,
        impact.stopping,
        !impact.interruption_required,
{
    SessionImpact {
        active_session_count: bounded_device_count(sessions.len()),
        active_session_names: session_names(sessions),
        stopping: true,
        interruption_required: false,
    }
}

/// Impact of a future manual update: it interrupts work exactly when a session is live.
pub fn update_preflight_impact(sessions: &Vec<String>) -> (impact: SessionImpact)
    ensures
        impact.active_session_count == saturated_count(sessions@.len() as int),
        impact.active_session_names@.len() == sessions@.len(),
        forall|i: int| 0 <= i < sessions@.len() ==> impact.active_session_names@[i]@ == sessions@[i]@,
        !impact.stopping,
        impact.interruption_required == (sessions@.len() > 0),
{
    SessionImpact {
        active_session_count: bounded_device_count(sessions.len()),
        active_session_names: session_names(sessions),
        stopping: false,
        interruption_required: sessions.len() > 0,
    }
}

/// Readiness projection of a running daemon.
pub fn readiness(protocol: ProtocolStatus, version: &str, started_at_unix: u64) -> (ready: DaemonReadiness)
    ensures
        ready.protocol == protocol,
        ready.version@ == version@,
        ready.started_at_unix == started_at_unix,
{
    DaemonReadiness { protocol, version: version.to_owned(), started_at_unix }
}

/// Which owner serves a local request.
#[derive(Clone, Copy, Debug, PartialEq, Eq, Structural)]
pub enum LocalServiceRoute {
    /// Local pair create and accept.
    Pairing,
    /// Device list, rename and revoke.
    Devices,
    /// Forwarded remote Session unary requests.
    RemoteSession,
    /// Lifecycle requests served on a blocking worker.
    Lifecycle,
    /// Not implemented by this daemon.
    NotImplemented,
}

/// Routes one local request kind to its owner.
pub open spec fn spec_route(kind: WireKind) -> LocalServiceRoute {
    match kind {
        WireKind::LocalPairCreateRequest | WireKind::LocalPairAcceptRequest => LocalServiceRoute::Pairing,
        WireKind::LocalDeviceListRequest | WireKind::LocalDeviceRenameRequest | WireKind::LocalDeviceRevokeRequest => LocalServiceRoute::Devices,
        WireKind::LocalSessionUnaryRequest => LocalServiceRoute::RemoteSession,
        WireKind::LocalReadinessRequest | WireKind::LocalStatusRequest | WireKind::LocalValidateSetupRequest
        | WireKind::LocalStopRequest | WireKind::LocalUpdatePreflightRequest | WireKind::LocalTargetResolveRequest => LocalServiceRoute::Lifecycle,
        _ => LocalServiceRoute::NotImplemented,
    }
}

/// Routes one local request kind to the owner that serves it.
pub fn local_service_route(kind: WireKind) -> (route: LocalServiceRoute)
    ensures
        route == spec_route(kind),
{
    match kind {
        WireKind::LocalPairCreateRequest | WireKind::LocalPairAcceptRequest => LocalServiceRoute::Pairing,
        WireKind::LocalDeviceListRequest | WireKind::LocalDeviceRenameRequest | WireKind::LocalDeviceRevokeRequest => LocalServiceRoute::Devices,
        WireKind::LocalSessionUnaryRequest => LocalServiceRoute::RemoteSession,
        WireKind::LocalReadinessRequest | WireKind::LocalStatusRequest | WireKind::LocalValidateSetupRequest
        | WireKind::LocalStopRequest | WireKind::LocalUpdatePreflightRequest | WireKind::LocalTargetResolveRequest => LocalServiceRoute::Lifecycle,
        _ => LocalServiceRoute::NotImplemented,
    }
}

/// The response kind of each lifecycle request kind.
pub open spec fn spec_lifecycle_response(kind: WireKind) -> Option<WireKind> {
    match kind {
        WireKind::LocalReadinessRequest => Some(WireKind::LocalReadinessResponse),
        WireKind::LocalStatusRequest => Some(WireKind::LocalStatusResponse),
        WireKind::LocalValidateSetupRequest => Some(WireKind::LocalValidateSetupResponse),
        WireKind::LocalStopRequest => Some(WireKind::LocalStopResponse),
        WireKind::LocalUpdatePreflightRequest => Some(WireKind::LocalUpdatePreflightResponse),
        WireKind::LocalTargetResolveRequest => Some(WireKind::LocalTargetResolveResponse),
        _ => None,
    }
}

/// The response kind of a lifecycle request.
pub fn lifecycle_response_kind(kind: WireKind) -> (response: Option<WireKind>)
    ensures
        response == spec_lifecycle_response(kind),
{
    match kind {
        WireKind::LocalReadinessRequest => Some(WireKind::LocalReadinessResponse),
        WireKind::LocalStatusRequest => Some(WireKind::LocalStatusResponse),
        WireKind::LocalValidateSetupRequest => Some(WireKind::LocalValidateSetupResponse),
        WireKind::LocalStopRequest => Some(WireKind::LocalStopResponse),
        WireKind::LocalUpdatePreflightRequest => Some(WireKind::LocalUpdatePreflightResponse),
        WireKind::LocalTargetResolveRequest => Some(WireKind::LocalTargetResolveResponse),
        _ => None,
    }
}

/// Header of one lifecycle reply: its kind, the request it answers, and
/// whether the daemon stops once it has been flushed.
#[derive(Clone, Copy, Debug, PartialEq, Eq, Structural)]
pub struct ReplyHeader {
    pub kind: WireKind,
    pub request_id: u64,
    pub stop_after_flush: bool,
}

/// The reply header for lifecycle request `kind` answering `request_id`; any
/// other kind is not implemented by the lifecycle worker.
pub fn lifecycle_reply(kind: WireKind, request_id: u64) -> (reply: Result<ReplyHeader, DaemonError>)
    ensures
        match reply {
            Ok(header) => spec_lifecycle_response(kind) == Some(header.kind)
                && header.request_id == request_id
                && header.stop_after_flush == (kind == WireKind::LocalStopRequest),
            Err(error) => spec_lifecycle_response(kind) is None && error.kind == DomainErrorKind::ServiceNotImplemented,
        },
{
    match lifecycle_response_kind(kind) {
        Some(response) => Ok(ReplyHeader { kind: response, request_id, stop_after_flush: stops_after_flush(kind) }),
        None => Err(DaemonError::new(DomainErrorKind::ServiceNotImplemented, "wire service is not implemented by this daemon")),
    }
}

/// A validated setup profile as plain values: the device name, the
/// infrastructure profile name and the optional relay URL.
#[derive(Debug)]
pub struct SetupProfile {
    pub device_name: String,
    pub infrastructure_profile: String,
    pub relay_url: Option<String>,
}

/// Specification value of an optional text.
pub open spec fn optional_text(text: Option<String>) -> Option<Seq<char>> {
    match text {
        Some(text) => Some(text@),
        None => None,
    }
}

/// Whether two setup profiles are the same configuration.
pub open spec fn same_setup(left: SetupProfile, right: SetupProfile) -> bool {
    &&& left.device_name@ == right.device_name@
    &&& left.infrastructure_profile@ == right.infrastructure_profile@
    &&& optional_text(left.relay_url) == optional_text(right.relay_url)
}

/// The relay URL of a setup request: an empty field names no relay.
pub fn requested_relay(relay_url: &String) -> (relay: Option<String>)
    ensures
        optional_text(relay) == (if relay_url@.len() == 0 { None::<Seq<char>> } else { Some(relay_url@) }),
{
    if relay_url.as_str().is_empty() {
        None
    } else {
        Some(relay_url.clone())
    }
}

/// A setup validation request succeeds only for the running daemon's own
/// configuration; any difference is a conflict.
pub fn require_same_setup(requested: &SetupProfile, running: &SetupProfile) -> (result: Result<(), DaemonError>)
    ensures
        match result {
            Ok(()) => same_setup(*requested, *running),
            Err(error) => !same_setup(*requested, *running) && error.kind == DomainErrorKind::AlreadyConfiguredConflict,
        },
{
    let same_relay = match (&requested.relay_url, &running.relay_url) {
        (Some(left), Some(right)) => *left == *right,
        (None, None) => true,
        _ => false,
    };
    if requested.device_name == running.device_name
        && requested.infrastructure_profile == running.infrastructure_profile
        && same_relay
    {
        Ok(())
    } else {
        Err(DaemonError::new(
            DomainErrorKind::AlreadyConfiguredConflict,
            "requested setup differs from the running daemon configuration",
        ))
    }
}

/// Whether the reply to `kind` stops the daemon once it has been flushed:
/// only an accepted stop does.
pub fn stops_after_flush(kind: WireKind) -> (stops: bool)
    ensures
        stops == (kind == WireKind::LocalStopRequest),
{
    match kind {
        WireKind::LocalStopRequest => true,
        _ => false,
    }
}

/// Where a target selector is resolved.
#[derive(Clone, Copy, Debug, PartialEq, Eq, Structural)]
pub enum TargetRoute {
    /// The reserved alias names this device.
    Local,
    /// Any other selector is looked up in the remote device directory.
    Remote,
}

/// Routes a target selector: the reserved alias is this device; any other
/// selector needs the remote directory, which a daemon may run without.
pub fn route_target(selector: &String, reserved_alias: &String, remote_available: bool) -> (route: Result<TargetRoute, DaemonError>)
    ensures
        match route {
            Ok(TargetRoute::Local) => selector@ == reserved_alias@,
            Ok(TargetRoute::Remote) => selector@ != reserved_alias@ && remote_available,
            Err(error) => selector@ != reserved_alias@ && !remote_available
                && error.kind == DomainErrorKind::TransportUnavailable,
        },
{
    if *selector == *reserved_alias {
        Ok(TargetRoute::Local)
    } else if remote_available {
        Ok(TargetRoute::Remote)
    } else {
        Err(DaemonError::new(DomainErrorKind::TransportUnavailable, "remote target resolution is unavailable in this daemon"))
    }
}

/// The forwarded response must answer the same request ID as the envelope.
pub fn require_forwarded_request_id(envelope_request_id: u64, response_request_id: u64) -> (result: Result<(), DaemonError>)
    ensures
        match result {
            Ok(()) => envelope_request_id == response_request_id,
            Err(error) => envelope_request_id != response_request_id && error.kind == DomainErrorKind::MalformedFrame,
        },
{
    if response_request_id != envelope_request_id {
        return Err(DaemonError::new(
            DomainErrorKind::MalformedFrame,
            "local forwarding envelope request_id differs from the inner Session request",
        ));
    }
    Ok(())
}

/// Which optional owners are composed into a running daemon.
#[derive(Clone, Copy, Debug, PartialEq, Eq, Structural)]
pub struct ComposedServices {
    pub pairing: bool,
    pub devices: bool,
    pub remote_sessions: bool,
}

/// The owner that serves a local request, or the category of its refusal.
pub open spec fn spec_service_owner(kind: WireKind, composed: ComposedServices) -> Result<LocalServiceRoute, DomainErrorKind> {
    match spec_route(kind) {
        LocalServiceRoute::Pairing => if !composed.pairing {
            Err(DomainErrorKind::ServiceNotImplemented)
        } else if kind == WireKind::LocalPairAcceptRequest && !composed.devices {
            Err(DomainErrorKind::ServiceNotImplemented)
        } else {
            Ok(LocalServiceRoute::Pairing)
        },
        LocalServiceRoute::Devices => if composed.devices { Ok(LocalServiceRoute::Devices) } else { Err(DomainErrorKind::ServiceNotImplemented) },
        LocalServiceRoute::RemoteSession => if composed.remote_sessions {
            Ok(LocalServiceRoute::RemoteSession)
        } else {
            Err(DomainErrorKind::TransportUnavailable)
        },
        LocalServiceRoute::Lifecycle => Ok(LocalServiceRoute::Lifecycle),
        LocalServiceRoute::NotImplemented => Err(DomainErrorKind::ServiceNotImplemented),
    }
}

/// Law: every local request kind reaches the owner that serves it. Pair
/// create and accept go to pairing; device list, rename and revoke go to
/// device management and are served whenever it is composed; the forwarded
/// Session unary request goes to the remote Session owner; the lifecycle
/// worker takes exactly the kinds it has a reply for; and every other kind is
/// not implemented.
pub proof fn law_local_requests_reach_their_owner(kind: WireKind, composed: ComposedServices)
    ensures
        (kind == WireKind::LocalPairCreateRequest || kind == WireKind::LocalPairAcceptRequest)
            ==> spec_route(kind) == LocalServiceRoute::Pairing,
        (kind == WireKind::LocalDeviceListRequest || kind == WireKind::LocalDeviceRenameRequest
            || kind == WireKind::LocalDeviceRevokeRequest) ==> spec_route(kind) == LocalServiceRoute::Devices
            && spec_service_owner(kind, composed) == (if composed.devices {
                Ok::<LocalServiceRoute, DomainErrorKind>(LocalServiceRoute::Devices)
            } else {
                Err::<LocalServiceRoute, DomainErrorKind>(DomainErrorKind::ServiceNotImplemented)
            }),
        kind == WireKind::LocalPairCreateRequest ==> spec_service_owner(kind, composed) == (if composed.pairing {
            Ok::<LocalServiceRoute, DomainErrorKind>(LocalServiceRoute::Pairing)
        } else {
            Err::<LocalServiceRoute, DomainErrorKind>(DomainErrorKind::ServiceNotImplemented)
        }),
        kind == WireKind::LocalPairAcceptRequest ==> spec_service_owner(kind, composed) == (if composed.pairing && composed.devices {
            Ok::<LocalServiceRoute, DomainErrorKind>(LocalServiceRoute::Pairing)
        } else {
            Err::<LocalServiceRoute, DomainErrorKind>(DomainErrorKind::ServiceNotImplemented)
        }),
        kind == WireKind::LocalSessionUnaryRequest ==> spec_route(kind) == LocalServiceRoute::RemoteSession
            && spec_service_owner(kind, composed) == (if composed.remote_sessions {
                Ok::<LocalServiceRoute, DomainErrorKind>(LocalServiceRoute::RemoteSession)
            } else {
                Err::<LocalServiceRoute, DomainErrorKind>(DomainErrorKind::TransportUnavailable)
            }),
        (spec_route(kind) == LocalServiceRoute::Lifecycle) == (spec_lifecycle_response(kind) is Some),
        spec_route(kind) == LocalServiceRoute::Lifecycle
            ==> spec_service_owner(kind, composed) == Ok::<LocalServiceRoute, DomainErrorKind>(LocalServiceRoute::Lifecycle),
        !(kind == WireKind::LocalPairCreateRequest || kind == WireKind::LocalPairAcceptRequest
            || kind == WireKind::LocalDeviceListRequest || kind == WireKind::LocalDeviceRenameRequest
            || kind == WireKind::LocalDeviceRevokeRequest || kind == WireKind::LocalSessionUnaryRequest
            || kind == WireKind::LocalReadinessRequest || kind == WireKind::LocalStatusRequest
            || kind == WireKind::LocalValidateSetupRequest || kind == WireKind::LocalStopRequest
            || kind == WireKind::LocalUpdatePreflightRequest || kind == WireKind::LocalTargetResolveRequest)
            ==> spec_route(kind) == LocalServiceRoute::NotImplemented
                && spec_service_owner(kind, composed) == Err::<LocalServiceRoute, DomainErrorKind>(DomainErrorKind::ServiceNotImplemented),
{
}

/// Law: each lifecycle request is answered with its own response kind.
pub proof fn law_lifecycle_requests_get_their_own_response(kind: WireKind)
    ensures
        kind == WireKind::LocalReadinessRequest ==> spec_lifecycle_response(kind) == Some(WireKind::LocalReadinessResponse),
        kind == WireKind::LocalStatusRequest ==> spec_lifecycle_response(kind) == Some(WireKind::LocalStatusResponse),
        kind == WireKind::LocalValidateSetupRequest ==> spec_lifecycle_response(kind) == Some(WireKind::LocalValidateSetupResponse),
        kind == WireKind::LocalStopRequest ==> spec_lifecycle_response(kind) == Some(WireKind::LocalStopResponse),
        kind == WireKind::LocalUpdatePreflightRequest ==> spec_lifecycle_response(kind) == Some(WireKind::LocalUpdatePreflightResponse),
        kind == WireKind::LocalTargetResolveRequest ==> spec_lifecycle_response(kind) == Some(WireKind::LocalTargetResolveResponse),
{
}

/// Selects the owner of a local request: pairing and device management must
/// be composed (pair acceptance needs both), forwarding needs the remote
/// Session transport, and unknown kinds are not implemented.
pub fn service_owner(kind: WireKind, composed: ComposedServices) -> (owner: Result<LocalServiceRoute, DaemonError>)
    ensures
        match owner {
            Ok(route) => spec_service_owner(kind, composed) == Ok::<LocalServiceRoute, DomainErrorKind>(route),
            Err(error) => spec_service_owner(kind, composed) == Err::<LocalServiceRoute, DomainErrorKind>(error.kind),
        },
{
    match local_service_route(kind) {
        LocalServiceRoute::Pairing => {
            if !composed.pairing {
                return Err(DaemonError::new(DomainErrorKind::ServiceNotImplemented, "local pairing is not composed into this daemon"));
            }
            if matches!(kind, WireKind::LocalPairAcceptRequest) && !composed.devices {
                return Err(DaemonError::new(DomainErrorKind::ServiceNotImplemented, "local device management is required for pair acceptance"));
            }
            Ok(LocalServiceRoute::Pairing)
        },
        LocalServiceRoute::Devices => {
            if composed.devices {
                Ok(LocalServiceRoute::Devices)
            } else {
                Err(DaemonError::new(DomainErrorKind::ServiceNotImplemented, "local device management is not composed into this daemon"))
            }
        },
        LocalServiceRoute::RemoteSession => {
            if composed.remote_sessions {
                Ok(LocalServiceRoute::RemoteSession)
            } else {
                Err(DaemonError::new(DomainErrorKind::TransportUnavailable, "remote Session transport is not composed into this daemon"))
            }
        },
        LocalServiceRoute::Lifecycle => Ok(LocalServiceRoute::Lifecycle),
        LocalServiceRoute::NotImplemented => Err(DaemonError::new(DomainErrorKind::ServiceNotImplemented, "wire service is not implemented by this daemon")),
    }
}

/// Time left before `deadline`; a deadline already reached fails before any work is dispatched.
pub fn remaining_before(now: u64, deadline: u64) -> (remaining: Result<u64, DaemonError>)
    ensures
        match remaining {
            Ok(left) => now < deadline && left == deadline - now,
            Err(error) => now >= deadline && error.kind == DomainErrorKind::DeadlineExceeded,
        },
{
    if now >= deadline {
        Err(DaemonError::new(DomainErrorKind::DeadlineExceeded, "local operation deadline elapsed before dispatch"))
    } else {
        Ok(deadline - now)
    }
}

/// Position of `device_id` among listed device summaries; a device that
/// disappeared after the operation is `DeviceNotFound`.
pub fn find_device(devices: &Vec<[u8; 32]>, device_id: [u8; 32]) -> (found: Result<usize, DaemonError>)
    ensures
        match found {
            Ok(index) => index < devices@.len() && devices@[index as int]@ == device_id@
                && forall|j: int| 0 <= j < index ==> devices@[j]@ != device_id@,
            Err(error) => error.kind == DomainErrorKind::DeviceNotFound
                && forall|j: int| 0 <= j < devices@.len() ==> devices@[j]@ != device_id@,
        },
{
    let mut index: usize = 0;
    while index < devices.len()
        invariant
            0 <= index <= devices@.len(),
            forall|j: int| 0 <= j < index ==> devices@[j]@ != device_id@,
        decreases devices@.len() - index,
    {
        if bytes32_eq(&devices[index], &device_id) {
            return Ok(index);
        }
        index = index + 1;
    }
    Err(DaemonError::new(DomainErrorKind::DeviceNotFound, "device projection disappeared after the requested operation"))
}

} // verus!
