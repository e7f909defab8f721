//! Decisions of the pairing service around its network and store calls:
//! deadline capping, identity admission, authorization reconciliation and
//! normal-confirmation repair.

use vstd::prelude::*;

use crate::accept_registry::{replay_view, spec_existing, AcceptRegistry, AcceptReplay, PairAcceptResult, ReplayView};
use crate::bytes::bytes32_eq;
use crate::error::{DaemonError, DomainErrorKind};
use crate::pairing::{peer_detail, PairingError};

verus! {

/// The single rejection a peer sees for any invalid pairing binding, ticket or proof.
pub fn generic_pair_rejection() -> (error: DaemonError)
    ensures
        error.kind == DomainErrorKind::PairTicketInvalid,
        error.detail@ == peer_detail(DomainErrorKind::PairTicketInvalid)@,
{
    PairingError::InvalidBinding.peer_error()
}

/// Fails with `DeadlineExceeded` once the monotonic reading reaches the deadline.
pub fn ensure_deadline(now: u64, deadline: u64, detail: &str) -> (result: Result<(), DaemonError>)
    ensures
        match result {
            Ok(()) => now < deadline,
            Err(error) => now >= deadline && error.kind == DomainErrorKind::DeadlineExceeded && error.detail@ == detail@,
        },
{
    if now >= deadline {
        Err(DaemonError::new(DomainErrorKind::DeadlineExceeded, detail))
    } else {
        Ok(())
    }
}

/// The caller's deadline capped by the pairing total limit `total` after `now`.
pub open spec fn capped_deadline(now: u64, caller_deadline: u64, total: u64) -> int {
    if caller_deadline <= now + total { caller_deadline as int } else { now + total }
}

/// Caps a caller deadline by the pairing total limit; fails with
/// `DeadlineExceeded` when the cap cannot be represented or has already passed.
pub fn cap_pairing_deadline(now: u64, caller_deadline: u64, total: u64) -> (result: Result<u64, DaemonError>)
    ensures
        match result {
            Ok(deadline) => now + total <= u64::MAX && deadline == capped_deadline(now, caller_deadline, total)
                && now < deadline,
            Err(error) => error.kind == DomainErrorKind::DeadlineExceeded
                && (now + total > u64::MAX || now >= capped_deadline(now, caller_deadline, total)),
        },
{
    let service_deadline = match now.checked_add(total) {
        Some(deadline) => deadline,
        None => return Err(DaemonError::new(DomainErrorKind::DeadlineExceeded, "pairing deadline arithmetic overflowed")),
    };
    let deadline = if caller_deadline <= service_deadline { caller_deadline } else { service_deadline };
    if now >= deadline {
        Err(DaemonError::new(DomainErrorKind::DeadlineExceeded, "pairing operation deadline elapsed"))
    } else {
        Ok(deadline)
    }
}

/// Deadline of the first inbound pairing frame: the stricter of the
/// first-frame window after `now` (the handshake deadline when that sum
/// overflows) and the handshake deadline.
pub fn first_frame_deadline(now: u64, first_frame_window: u64, deadline: u64) -> (first: u64)
    ensures
        first == (if now + first_frame_window <= u64::MAX && now + first_frame_window < deadline {
            (now + first_frame_window) as int
        } else {
            deadline as int
        }),
{
    let window = match now.checked_add(first_frame_window) {
        Some(window) => window,
        None => deadline,
    };
    if window < deadline { window } else { deadline }
}

/// Admits an inbound pairing connection by its TLS identities.
pub fn admit_inbound_pair_connection(local: [u8; 32], remote: [u8; 32], identity: [u8; 32]) -> (result: Result<(), DaemonError>)
    ensures
        match result {
            Ok(()) => local@ == identity@ && remote@ != local@,
            Err(error) => (local@ != identity@ && error.kind == DomainErrorKind::IdentityStateMismatch)
                || (local@ == identity@ && remote@ == local@ && error.kind == DomainErrorKind::Unauthorized),
        },
{
    if !bytes32_eq(&local, &identity) {
        return Err(DaemonError::new(DomainErrorKind::IdentityStateMismatch, "inbound pairing connection has the wrong local identity"));
    }
    if bytes32_eq(&remote, &local) {
        return Err(DaemonError::new(DomainErrorKind::Unauthorized, "a device cannot pair with itself"));
    }
    Ok(())
}

/// Whether an established pairing stream binds the ticket: it is ours on the
/// local side, the ticket's host on the remote side, and not a self-pairing.
pub fn controller_stream_binds_ticket(local: [u8; 32], remote: [u8; 32], identity: [u8; 32], ticket_host: [u8; 32]) -> (binds: bool)
    ensures
        binds == (local@ == identity@ && remote@ == ticket_host@ && local@ != remote@),
{
    bytes32_eq(&local, &identity) && bytes32_eq(&remote, &ticket_host) && !bytes32_eq(&local, &remote)
}

/// Durable authorization state of a controller as read back from the store.
#[derive(Clone, Copy, Debug, PartialEq, Eq, Structural)]
pub enum AuthorizationStatus {
    Authorized,
    Revoked,
    Unknown,
}

/// A durable authorization snapshot: status and generation.
#[derive(Clone, Copy, Debug, PartialEq, Eq, Structural)]
pub struct AuthorizationSnapshot {
    pub status: AuthorizationStatus,
    pub generation: u64,
}

/// What the host does with a consumption after the durable authorize step.
#[derive(Clone, Copy, Debug, PartialEq, Eq, Structural)]
pub enum AuthorizeResolution {
    /// The store committed this generation: commit the offer and publish it.
    Commit { generation: u64 },
    /// Durable authorization provably did not happen: roll the offer back.
    Rollback,
    /// The outcome is ambiguous: keep the offer Consuming and fail closed.
    LeaveConsuming,
}

/// Outcome of the durable authorize command.
#[derive(Clone, Copy, Debug, PartialEq, Eq, Structural)]
pub enum AuthorizeOutcome {
    /// The store committed this generation.
    Committed { generation: u64 },
    /// The store reported an outcome that may or may not have committed.
    OutcomeUnknown,
    /// The store failed before committing.
    Failed,
}

/// The resolution of an authorize outcome, given the generation held before
/// the attempt and, after an ambiguous outcome, the snapshot read back.
pub open spec fn spec_resolve_authorize(outcome: AuthorizeOutcome, prior_generation: u64, reread: Option<AuthorizationSnapshot>) -> AuthorizeResolution {
    match outcome {
        AuthorizeOutcome::Committed { generation } => AuthorizeResolution::Commit { generation },
        AuthorizeOutcome::Failed => AuthorizeResolution::Rollback,
        AuthorizeOutcome::OutcomeUnknown => match reread {
            Some(snapshot) => if snapshot.status == AuthorizationStatus::Authorized && snapshot.generation > prior_generation {
                AuthorizeResolution::Commit { generation: snapshot.generation }
            } else {
                AuthorizeResolution::LeaveConsuming
            },
            None => AuthorizeResolution::LeaveConsuming,
        },
    }
}

/// Reconciles the durable authorize step: a committed generation commits;
/// a pre-commit failure rolls back; an ambiguous outcome commits only when the
/// re-read snapshot proves an advanced authorized generation, and otherwise
/// leaves the offer Consuming.
pub fn resolve_authorize(outcome: AuthorizeOutcome, prior_generation: u64, reread: Option<AuthorizationSnapshot>) -> (resolution: AuthorizeResolution)
    ensures
        resolution == spec_resolve_authorize(outcome, prior_generation, reread),
{
    match outcome {
        AuthorizeOutcome::Committed { generation } => AuthorizeResolution::Commit { generation },
        AuthorizeOutcome::Failed => AuthorizeResolution::Rollback,
        AuthorizeOutcome::OutcomeUnknown => match reread {
            Some(snapshot) => {
                let authorized = match snapshot.status {
                    AuthorizationStatus::Authorized => true,
                    _ => false,
                };
                if authorized && snapshot.generation > prior_generation {
                    AuthorizeResolution::Commit { generation: snapshot.generation }
                } else {
                    AuthorizeResolution::LeaveConsuming
                }
            },
            None => AuthorizeResolution::LeaveConsuming,
        },
    }
}

/// Law: an ambiguous durable outcome never reopens the offer; it only
/// commits a generation that the store proves authorized and newer than the
/// one held before the attempt.
pub proof fn law_ambiguous_authorization_never_reopens(prior_generation: u64, reread: Option<AuthorizationSnapshot>)
    ensures
        spec_resolve_authorize(AuthorizeOutcome::OutcomeUnknown, prior_generation, reread) != AuthorizeResolution::Rollback,
        spec_resolve_authorize(AuthorizeOutcome::OutcomeUnknown, prior_generation, reread) matches AuthorizeResolution::Commit { generation }
            ==> (reread matches Some(snapshot) && snapshot.status == AuthorizationStatus::Authorized
                && generation == snapshot.generation && generation > prior_generation),
{
}

/// The controller side's record of its pair-protocol attempt.
#[derive(Debug)]
pub struct ControllerPairAttempt {
    /// Generation carried by a validated PairAccepted, if one arrived.
    pub accepted_generation: Option<u64>,
    /// Whether the proof may have reached the host, so that only a normal
    /// confirmation can settle the outcome.
    pub repair_required: bool,
    /// The attempt's own failure, if any.
    pub error: Option<DaemonError>,
}

/// Steps of the controller's pairing handshake, in order.
#[derive(Clone, Copy, Debug, PartialEq, Eq, Structural)]
pub enum ControllerStage {
    Connect,
    BindIdentity,
    Framing,
    Nonce,
    Begin,
    BeginWrite,
    ChallengeRead,
    Challenge,
    Transcript,
    ProofWrite,
    AcceptedRead,
    AcceptedValidate,
}

/// Whether the proof may already have reached the host when `stage` fails: a
/// cancelled proof write may still have delivered a complete frame.
pub open spec fn spec_proof_may_be_delivered(stage: ControllerStage) -> bool {
    stage == ControllerStage::ProofWrite || stage == ControllerStage::AcceptedRead
        || stage == ControllerStage::AcceptedValidate
}

impl ControllerPairAttempt {
    /// An attempt that failed with `error` before any PairAccepted was validated.
    pub fn failed(error: DaemonError, repair_required: bool) -> (attempt: ControllerPairAttempt)
        ensures
            attempt.accepted_generation is None,
            attempt.repair_required == repair_required,
            attempt.error == Some(error),
    {
        ControllerPairAttempt { accepted_generation: None, repair_required, error: Some(error) }
    }
}

/// The attempt after the handshake failed at `stage` with `error`: from the
/// proof write onwards only a normal confirmation can settle the outcome.
pub fn controller_stage_failed(stage: ControllerStage, error: DaemonError) -> (attempt: ControllerPairAttempt)
    ensures
        attempt.accepted_generation is None,
        attempt.repair_required == spec_proof_may_be_delivered(stage),
        attempt.error == Some(error),
{
    let delivered = match stage {
        ControllerStage::ProofWrite | ControllerStage::AcceptedRead | ControllerStage::AcceptedValidate => true,
        _ => false,
    };
    ControllerPairAttempt::failed(error, delivered)
}

/// The attempt after PairAccepted carried `generation`: confirmation is still
/// required, and a failed stream shutdown is kept as the attempt's error.
pub fn controller_accepted(generation: u64, shutdown: Result<(), DaemonError>) -> (attempt: ControllerPairAttempt)
    ensures
        attempt.accepted_generation == Some(generation),
        attempt.repair_required,
        match shutdown {
            Ok(()) => attempt.error is None,
            Err(error) => attempt.error == Some(error),
        },
{
    match shutdown {
        Ok(()) => ControllerPairAttempt { accepted_generation: Some(generation), repair_required: true, error: None },
        Err(error) => ControllerPairAttempt { accepted_generation: Some(generation), repair_required: true, error: Some(error) },
    }
}

/// Authorization confirmed over the normal protocol.
#[derive(Debug)]
pub struct ConfirmedAuthorization {
    pub remote: [u8; 32],
    pub generation: u64,
    pub verified_relay: Option<String>,
}

/// The category of the settled accept outcome, or the confirmed generation.
pub open spec fn spec_resolve_confirmation(
    expected_remote: [u8; 32],
    accepted_generation: Option<u64>,
    repair_required: bool,
    attempt_error: Option<DomainErrorKind>,
    confirmation: Result<([u8; 32], u64), DomainErrorKind>,
) -> Result<u64, DomainErrorKind> {
    match confirmation {
        Ok((remote, generation)) => if remote@ != expected_remote@ || generation == 0 {
            Err(DomainErrorKind::PairOutcomeUnknown)
        } else if accepted_generation matches Some(accepted) && generation < accepted {
            Err(DomainErrorKind::PairOutcomeUnknown)
        } else {
            Ok(generation)
        },
        Err(normal) => if repair_required {
            Err(DomainErrorKind::PairOutcomeUnknown)
        } else {
            match attempt_error {
                Some(kind) => Err(kind),
                None => Err(normal),
            }
        },
    }
}

/// Settles an outbound pairing by the normal-protocol confirmation: it must
/// name the ticket's host with a non-zero generation no older than the one
/// PairAccepted carried; when it fails after the proof may have been
/// delivered the outcome is unknown, and otherwise the attempt's own error
/// (or the confirmation's) is reported.
pub fn resolve_normal_confirmation(
    expected_remote: [u8; 32],
    attempt: ControllerPairAttempt,
    confirmation: Result<ConfirmedAuthorization, DaemonError>,
) -> (result: Result<ConfirmedAuthorization, DaemonError>)
    ensures
        match result {
            Ok(confirmed) => spec_resolve_confirmation(
                expected_remote,
                attempt.accepted_generation,
                attempt.repair_required,
                match attempt.error { Some(error) => Some(error.kind), None => None },
                match confirmation { Ok(c) => Ok((c.remote, c.generation)), Err(e) => Err(e.kind) },
            ) == Ok::<u64, DomainErrorKind>(confirmed.generation)
                && (confirmation matches Ok(c) && confirmed.remote == c.remote && confirmed.verified_relay == c.verified_relay),
            Err(error) => spec_resolve_confirmation(
                expected_remote,
                attempt.accepted_generation,
                attempt.repair_required,
                match attempt.error { Some(error) => Some(error.kind), None => None },
                match confirmation { Ok(c) => Ok((c.remote, c.generation)), Err(e) => Err(e.kind) },
            ) == Err::<u64, DomainErrorKind>(error.kind)
                && (!attempt.repair_required ==> match confirmation {
                    Err(normal) => match attempt.error {
                        Some(own) => error == own,
                        None => error == normal,
                    },
                    Ok(_) => true,
                }),
        },
{
    let confirmed = match confirmation {
        Ok(confirmed) => {
            if !bytes32_eq(&confirmed.remote, &expected_remote) || confirmed.generation == 0 {
                return Err(DaemonError::new(DomainErrorKind::PairOutcomeUnknown, "normal confirmation returned inconsistent authorization"));
            }
            confirmed
        },
        Err(normal_error) => {
            if attempt.repair_required {
                return Err(DaemonError::new(DomainErrorKind::PairOutcomeUnknown, "remote pairing outcome could not be confirmed"));
            }
            return match attempt.error {
                Some(error) => Err(error),
                None => Err(normal_error),
            };
        },
    };
    match attempt.accepted_generation {
        Some(accepted) => {
            if confirmed.generation < accepted {
                return Err(DaemonError::new(DomainErrorKind::PairOutcomeUnknown, "normal confirmation generation predates PairAccepted"));
            }
        },
        None => {},
    }
    Ok(confirmed)
}

/// Law: once the proof may have reached the host, a failed normal
/// confirmation is always reported as an unknown pairing outcome, never as
/// the transport's own error; and a confirmed generation never predates the
/// generation PairAccepted reported.
pub proof fn law_repair_required_outcome_is_never_a_plain_failure(
    expected_remote: [u8; 32],
    accepted_generation: Option<u64>,
    attempt_error: Option<DomainErrorKind>,
    normal: DomainErrorKind,
    confirmation: Result<([u8; 32], u64), DomainErrorKind>,
    repair_required: bool,
)
    ensures
        spec_resolve_confirmation(expected_remote, accepted_generation, true, attempt_error, Err(normal))
            == Err::<u64, DomainErrorKind>(DomainErrorKind::PairOutcomeUnknown),
        spec_resolve_confirmation(expected_remote, accepted_generation, repair_required, attempt_error, confirmation) matches Ok(generation)
            ==> generation > 0 && (accepted_generation matches Some(accepted) ==> generation >= accepted),
{
}

/// The lifetime of a created offer: the requested one, or `default_ttl` when none was requested.
pub fn effective_ttl_seconds(requested_ttl_seconds: u64, default_ttl: u64) -> (ttl: u64)
    ensures
        ttl == (if requested_ttl_seconds == 0 { default_ttl } else { requested_ttl_seconds }),
{
    if requested_ttl_seconds == 0 { default_ttl } else { requested_ttl_seconds }
}

/// The network owner's observation that ticket creation depends on.
#[derive(Debug)]
pub struct NetworkObservation {
    pub device_id: [u8; 32],
    pub online: bool,
    pub endpoint_bound: bool,
    pub home_relay: Option<String>,
}

/// Why ticket creation cannot use the observed network, if it cannot.
pub open spec fn spec_create_route(identity: [u8; 32], observation: NetworkObservation) -> Result<Seq<char>, DomainErrorKind> {
    if observation.device_id@ != identity@ {
        Err(DomainErrorKind::IdentityStateMismatch)
    } else if !observation.online || !observation.endpoint_bound {
        Err(DomainErrorKind::AddressUnavailable)
    } else {
        match observation.home_relay {
            Some(relay) => if relay@.len() > 0 { Ok(relay@) } else { Err(DomainErrorKind::AddressUnavailable) },
            None => Err(DomainErrorKind::AddressUnavailable),
        }
    }
}

/// The home relay a new ticket advertises: the observation must be of this
/// device, online with a bound endpoint, and name a non-empty home relay.
pub fn create_route(identity: [u8; 32], observation: &NetworkObservation) -> (relay: Result<String, DaemonError>)
    ensures
        match relay {
            Ok(relay) => spec_create_route(identity, *observation) == Ok::<Seq<char>, DomainErrorKind>(relay@),
            Err(error) => spec_create_route(identity, *observation) == Err::<Seq<char>, DomainErrorKind>(error.kind),
        },
{
    if !bytes32_eq(&observation.device_id, &identity) {
        return Err(DaemonError::new(DomainErrorKind::IdentityStateMismatch, "network observation identity does not match pairing identity"));
    }
    if !observation.online || !observation.endpoint_bound {
        return Err(DaemonError::new(DomainErrorKind::AddressUnavailable, "pair ticket creation requires an online bound endpoint"));
    }
    match &observation.home_relay {
        Some(relay) => {
            if relay.as_str().is_empty() {
                Err(DaemonError::new(DomainErrorKind::AddressUnavailable, "pair ticket creation requires a current home relay"))
            } else {
                Ok(relay.clone())
            }
        },
        None => Err(DaemonError::new(DomainErrorKind::AddressUnavailable, "pair ticket creation requires a current home relay")),
    }
}

/// What the checks of a local pair accept decide before any replay lookup,
/// cell or transport work, in their order.
pub open spec fn spec_accept_preflight(
    stopping: bool,
    now: u64,
    deadline: u64,
    ticket_bytes: usize,
    configured_max: usize,
    absolute_max: usize,
    fingerprint: [u8; 32],
    expected_fingerprint: [u8; 32],
) -> Result<(), DomainErrorKind> {
    if stopping {
        Err(DomainErrorKind::Cancelled)
    } else if now >= deadline {
        Err(DomainErrorKind::DeadlineExceeded)
    } else if ticket_bytes > configured_max || ticket_bytes > absolute_max {
        Err(DomainErrorKind::PairTicketInvalid)
    } else if fingerprint@ != expected_fingerprint@ {
        Err(DomainErrorKind::PairOutcomeUnknown)
    } else {
        Ok(())
    }
}

/// The first checks of a local pair accept: the service must be running,
/// the capped deadline not reached at `now`, the ticket text within both
/// limits, and the operation's fingerprint the one that its ticket and alias
/// give (`expected_fingerprint`). Nothing is admitted or sent before they pass.
pub fn accept_preflight(
    stopping: bool,
    now: u64,
    deadline: u64,
    ticket_bytes: usize,
    configured_max: usize,
    absolute_max: usize,
    fingerprint: [u8; 32],
    expected_fingerprint: [u8; 32],
) -> (result: Result<(), DaemonError>)
    ensures
        match result {
            Ok(()) => spec_accept_preflight(stopping, now, deadline, ticket_bytes, configured_max, absolute_max, fingerprint, expected_fingerprint)
                == Ok::<(), DomainErrorKind>(()),
            Err(error) => spec_accept_preflight(stopping, now, deadline, ticket_bytes, configured_max, absolute_max, fingerprint, expected_fingerprint)
                == Err::<(), DomainErrorKind>(error.kind),
        },
{
    if stopping {
        return Err(DaemonError::new(DomainErrorKind::Cancelled, "pairing service is stopping"));
    }
    ensure_deadline(now, deadline, "local pair accept deadline elapsed")?;
    check_accept_ticket_size(ticket_bytes, configured_max, absolute_max)?;
    if !bytes32_eq(&fingerprint, &expected_fingerprint) {
        return Err(DaemonError::new(
            DomainErrorKind::PairOutcomeUnknown,
            "pair accept operation fingerprint did not match its arguments",
        ));
    }
    Ok(())
}

/// The start of a local pair accept: the preflight checks in their order,
/// then the answer for a known operation identifier (a running operation to
/// join, an outcome to replay, or a reused identifier). Nothing is allocated;
/// `Ok(None)` lets the caller decode the ticket and admit a new operation.
pub fn begin_accept(
    registry: &AcceptRegistry,
    stopping: bool,
    now: u64,
    deadline: u64,
    ticket_bytes: usize,
    configured_max: usize,
    absolute_max: usize,
    operation_id: u128,
    fingerprint: [u8; 32],
    expected_fingerprint: [u8; 32],
) -> (answer: Result<Option<AcceptReplay>, DaemonError>)
    ensures
        match spec_accept_preflight(stopping, now, deadline, ticket_bytes, configured_max, absolute_max, fingerprint, expected_fingerprint) {
            Err(kind) => answer matches Err(error) && error.kind == kind,
            Ok(()) => match answer {
                Ok(Some(replay)) => spec_existing(registry@, operation_id, fingerprint)
                    == Ok::<Option<ReplayView>, DomainErrorKind>(Some(replay_view(replay))),
                Ok(None) => spec_existing(registry@, operation_id, fingerprint) == Ok::<Option<ReplayView>, DomainErrorKind>(None),
                Err(error) => spec_existing(registry@, operation_id, fingerprint) == Err::<Option<ReplayView>, DomainErrorKind>(error.kind),
            },
        },
{
    accept_preflight(stopping, now, deadline, ticket_bytes, configured_max, absolute_max, fingerprint, expected_fingerprint)?;
    registry.existing_accept(operation_id, fingerprint)
}

/// A pasted ticket must fit both the configured and the absolute ticket text limits.
pub fn check_accept_ticket_size(ticket_bytes: usize, configured_max: usize, absolute_max: usize) -> (result: Result<(), DaemonError>)
    ensures
        match result {
            Ok(()) => ticket_bytes <= configured_max && ticket_bytes <= absolute_max,
            Err(error) => (ticket_bytes > configured_max || ticket_bytes > absolute_max)
                && error.kind == DomainErrorKind::PairTicketInvalid,
        },
{
    if ticket_bytes > configured_max || ticket_bytes > absolute_max {
        return Err(DaemonError::new(DomainErrorKind::PairTicketInvalid, "pairing ticket exceeds the configured text limit"));
    }
    Ok(())
}

/// A decoded ticket is usable when it has not expired at `now_unix` and does
/// not name this device as its host.
pub fn check_decoded_ticket(now_unix: u64, expires_at_unix: u64, host: [u8; 32], identity: [u8; 32]) -> (result: Result<(), DaemonError>)
    ensures
        match result {
            Ok(()) => now_unix < expires_at_unix && host@ != identity@,
            Err(error) => if now_unix >= expires_at_unix {
                error.kind == DomainErrorKind::PairTicketExpired
            } else {
                host@ == identity@ && error.kind == DomainErrorKind::PairTicketInvalid
            },
        },
{
    if now_unix >= expires_at_unix {
        return Err(DaemonError::new(DomainErrorKind::PairTicketExpired, "pairing ticket has expired"));
    }
    if bytes32_eq(&host, &identity) {
        return Err(DaemonError::new(DomainErrorKind::PairTicketInvalid, "a device cannot pair with itself"));
    }
    Ok(())
}

/// Finishes an outbound pairing whose authorization the host confirmed:
/// once the remote side is authorized, a failure to timestamp the verified
/// route (`route_timestamped`) or to persist the known device leaves the
/// outcome unknown rather than failed.
pub fn finish_accept(
    host: [u8; 32],
    alias: String,
    remote_name: String,
    confirmed: ConfirmedAuthorization,
    route_timestamped: bool,
    persisted: Result<(), DaemonError>,
) -> (outcome: Result<PairAcceptResult, DaemonError>)
    ensures
        match outcome {
            Ok(result) => (confirmed.verified_relay is None || route_timestamped) && persisted is Ok
                && result.device_id == host && result.alias@ == alias@ && result.remote_name@ == remote_name@
                && result.authorization_generation == confirmed.generation
                && result.verified_relay == confirmed.verified_relay,
            Err(error) => ((confirmed.verified_relay is Some && !route_timestamped) || persisted is Err)
                && error.kind == DomainErrorKind::PairOutcomeUnknown,
        },
{
    if confirmed.verified_relay.is_some() && !route_timestamped {
        return Err(DaemonError::new(DomainErrorKind::PairOutcomeUnknown, "remote authorization was confirmed but route timestamping failed"));
    }
    if persisted.is_err() {
        return Err(DaemonError::new(DomainErrorKind::PairOutcomeUnknown, "remote authorization was confirmed but local device persistence did not complete"));
    }
    Ok(PairAcceptResult {
        device_id: host,
        alias,
        remote_name,
        authorization_generation: confirmed.generation,
        verified_relay: confirmed.verified_relay,
    })
}

} // verus!
