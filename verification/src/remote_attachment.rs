//! Decisions of the reconnecting remote attachment bridge: the bounded
//! window of pending control requests, the error classes that reconnect or
//! end a view, revision continuity, the synchronization phases of one stream
//! epoch, and the attach request re-issued on each reconnect.

use vstd::prelude::*;

use crate::error::{DaemonError, DomainErrorKind};
use crate::wire::WireKind;

verus! {

/// Exact number of control responses one epoch may await at once.
pub const MAX_PENDING_CONTROL_REQUESTS: usize = 8;

/// Request IDs of forwarded control requests awaiting their responses, in
/// ascending request-ID order, with the response kind each expects.
pub struct PendingControl {
    entries: Vec<(u64, WireKind)>,
}

/// Whether a pending window holds `request_id`.
pub open spec fn pending_has(entries: Seq<(u64, WireKind)>, request_id: u64) -> bool {
    exists|i: int| 0 <= i < entries.len() && entries[i].0 == request_id
}

/// Well-formedness of a window: non-zero IDs in strictly ascending order, at most the bound.
pub open spec fn pending_wf(entries: Seq<(u64, WireKind)>) -> bool {
    &&& entries.len() <= MAX_PENDING_CONTROL_REQUESTS
    &&& forall|i: int| 0 <= i < entries.len() ==> entries[i].0 != 0
    &&& forall|i: int, j: int| 0 <= i < j < entries.len() ==> entries[i].0 < entries[j].0
}

/// Position of `request_id` in a window that holds it.
pub open spec fn pending_index(entries: Seq<(u64, WireKind)>, request_id: u64) -> int {
    choose|i: int| 0 <= i < entries.len() && entries[i].0 == request_id
}

/// The response kind awaited for `request_id`, if any.
pub open spec fn pending_lookup(entries: Seq<(u64, WireKind)>, request_id: u64) -> Option<WireKind> {
    if pending_has(entries, request_id) {
        Some(entries[pending_index(entries, request_id)].1)
    } else {
        None
    }
}

/// The window without the entry of `request_id`.
pub open spec fn pending_remove(entries: Seq<(u64, WireKind)>, request_id: u64) -> Seq<(u64, WireKind)> {
    if pending_has(entries, request_id) {
        entries.remove(pending_index(entries, request_id))
    } else {
        entries
    }
}

/// Whether `position` splits the window into entries below and above `request_id`.
pub open spec fn splits_at(entries: Seq<(u64, WireKind)>, request_id: u64, position: int) -> bool {
    &&& 0 <= position <= entries.len()
    &&& forall|i: int| 0 <= i < position ==> entries[i].0 < request_id
    &&& forall|i: int| position <= i < entries.len() ==> entries[i].0 > request_id
}

/// The window with `(request_id, kind)` inserted at its ordered place.
pub open spec fn pending_insert(entries: Seq<(u64, WireKind)>, request_id: u64, kind: WireKind) -> Seq<(u64, WireKind)> {
    entries.insert(choose|position: int| splits_at(entries, request_id, position), (request_id, kind))
}

proof fn lemma_split_unique(entries: Seq<(u64, WireKind)>, request_id: u64, position: int, other: int)
    requires
        splits_at(entries, request_id, position),
        splits_at(entries, request_id, other),
    ensures
        position == other,
{
    if position < other {
        assert(entries[position].0 < request_id);
    } else if other < position {
        assert(entries[other].0 < request_id);
    }
}

pub proof fn lemma_split_exists(entries: Seq<(u64, WireKind)>, request_id: u64) -> (position: int)
    requires
        forall|i: int, j: int| 0 <= i < j < entries.len() ==> entries[i].0 < entries[j].0,
        !pending_has(entries, request_id),
    ensures
        splits_at(entries, request_id, position),
    decreases entries.len(),
{
    if entries.len() == 0 {
        0
    } else {
        let last = entries.len() - 1;
        let rest = entries.drop_last();
        assert(!pending_has(rest, request_id)) by {
            if pending_has(rest, request_id) {
                let i = choose|i: int| 0 <= i < rest.len() && rest[i].0 == request_id;
                assert(entries[i].0 == request_id);
            }
        }
        let earlier = lemma_split_exists(rest, request_id);
        assert(entries[last].0 != request_id);
        if entries[last].0 < request_id {
            assert forall|i: int| 0 <= i < entries.len() implies entries[i].0 < request_id by {
                if i < last {
                    assert(entries[i].0 < entries[last].0);
                }
            }
            entries.len() as int
        } else {
            assert forall|i: int| 0 <= i < earlier implies entries[i].0 < request_id by {
                assert(rest[i] == entries[i]);
            }
            assert forall|i: int| earlier <= i < entries.len() implies entries[i].0 > request_id by {
                if i < last {
                    assert(rest[i] == entries[i]);
                }
            }
            earlier
        }
    }
}

proof fn lemma_index_unique(entries: Seq<(u64, WireKind)>, request_id: u64, index: int)
    requires
        pending_wf(entries),
        0 <= index < entries.len(),
        entries[index].0 == request_id,
    ensures
        pending_has(entries, request_id),
        pending_index(entries, request_id) == index,
{
    let chosen = pending_index(entries, request_id);
    assert(0 <= chosen < entries.len() && entries[chosen].0 == request_id);
    if chosen < index {
        assert(entries[chosen].0 < entries[index].0);
    } else if index < chosen {
        assert(entries[index].0 < entries[chosen].0);
    }
}

proof fn lemma_remove_wf(entries: Seq<(u64, WireKind)>, index: int)
    requires
        pending_wf(entries),
        0 <= index < entries.len(),
    ensures
        pending_wf(entries.remove(index)),
        !pending_has(entries.remove(index), entries[index].0),
{
    let removed = entries.remove(index);
    assert forall|i: int, j: int| 0 <= i < j < removed.len() implies removed[i].0 < removed[j].0 by {
        if i < index {
            if j >= index {
                assert(removed[j] == entries[j + 1]);
            }
        } else {
            assert(removed[i] == entries[i + 1]);
            assert(removed[j] == entries[j + 1]);
        }
    }
    assert forall|i: int| 0 <= i < removed.len() implies removed[i].0 != 0 by {
        if i >= index {
            assert(removed[i] == entries[i + 1]);
        }
    }
    assert forall|i: int| 0 <= i < removed.len() implies removed[i].0 != entries[index].0 by {
        if i < index {
        } else {
            assert(removed[i] == entries[i + 1]);
        }
    }
}

proof fn lemma_insert_wf(entries: Seq<(u64, WireKind)>, request_id: u64, kind: WireKind, position: int)
    requires
        pending_wf(entries),
        entries.len() < MAX_PENDING_CONTROL_REQUESTS,
        request_id != 0,
        splits_at(entries, request_id, position),
    ensures
        pending_insert(entries, request_id, kind) == entries.insert(position, (request_id, kind)),
        pending_wf(pending_insert(entries, request_id, kind)),
        pending_lookup(pending_insert(entries, request_id, kind), request_id) == Some(kind),
{
    let chosen = choose|p: int| splits_at(entries, request_id, p);
    lemma_split_unique(entries, request_id, chosen, position);
    let inserted = entries.insert(position, (request_id, kind));
    assert forall|i: int, j: int| 0 <= i < j < inserted.len() implies inserted[i].0 < inserted[j].0 by {
        if j < position {
        } else if j == position {
        } else if i < position {
            assert(inserted[j] == entries[j - 1]);
        } else if i == position {
            assert(inserted[j] == entries[j - 1]);
        } else {
            assert(inserted[i] == entries[i - 1]);
            assert(inserted[j] == entries[j - 1]);
        }
    }
    assert forall|i: int| 0 <= i < inserted.len() implies inserted[i].0 != 0 by {
        if i > position {
            assert(inserted[i] == entries[i - 1]);
        }
    }
    lemma_index_unique(inserted, request_id, position);
}

impl View for PendingControl {
    type V = Seq<(u64, WireKind)>;

    closed spec fn view(&self) -> Seq<(u64, WireKind)> {
        self.entries@
    }
}

impl PendingControl {
    /// An empty window.
    pub fn new() -> (pending: PendingControl)
        ensures
            pending@.len() == 0,
            pending_wf(pending@),
    {
        PendingControl { entries: Vec::new() }
    }

    /// Number of awaited responses.
    pub fn len(&self) -> (count: usize)
        ensures
            count == self@.len(),
    {
        self.entries.len()
    }

    /// Index of `request_id` in the window.
    fn position(&self, request_id: u64) -> (found: Option<usize>)
        requires
            pending_wf(self@),
        ensures
            match found {
                Some(index) => index < self@.len() && self@[index as int].0 == request_id
                    && pending_has(self@, request_id) && pending_index(self@, request_id) == index,
                None => !pending_has(self@, request_id),
            },
    {
        let mut index: usize = 0;
        while index < self.entries.len()
            invariant
                0 <= index <= self@.len(),
                pending_wf(self@),
                forall|j: int| 0 <= j < index ==> self@[j].0 != request_id,
            decreases self@.len() - index,
        {
            if self.entries[index].0 == request_id {
                proof {
                    lemma_index_unique(self@, request_id, index as int);
                }
                return Some(index);
            }
            index = index + 1;
        }
        None
    }

    /// The response kind awaited for `request_id`, if any.
    pub fn expected(&self, request_id: u64) -> (kind: Option<WireKind>)
        requires
            pending_wf(self@),
        ensures
            kind == pending_lookup(self@, request_id),
    {
        match self.position(request_id) {
            Some(index) => Some(self.entries[index].1),
            None => None,
        }
    }

    /// Admits one forwarded control request at its ordered place: its ID must
    /// be non-zero and not already awaited, and the window must have room.
    pub fn retain(&mut self, request_id: u64, response_kind: WireKind) -> (result: Result<(), DaemonError>)
        requires
            pending_wf(old(self)@),
        ensures
            pending_wf(final(self)@),
            match result {
                Ok(()) => request_id != 0 && !pending_has(old(self)@, request_id)
                    && old(self)@.len() < MAX_PENDING_CONTROL_REQUESTS
                    && final(self)@ == pending_insert(old(self)@, request_id, response_kind),
                Err(error) => final(self)@ == old(self)@ && (
                    ((request_id == 0 || pending_has(old(self)@, request_id)) && error.kind == DomainErrorKind::MalformedFrame)
                    || (request_id != 0 && !pending_has(old(self)@, request_id)
                        && old(self)@.len() >= MAX_PENDING_CONTROL_REQUESTS && error.kind == DomainErrorKind::ResourceExhausted)),
            },
    {
        if request_id == 0 || self.position(request_id).is_some() {
            return Err(DaemonError::new(DomainErrorKind::MalformedFrame, "attachment control request_id must be unique and non-zero"));
        }
        if self.entries.len() >= MAX_PENDING_CONTROL_REQUESTS {
            return Err(DaemonError::new(DomainErrorKind::ResourceExhausted, "attachment control response window is full"));
        }
        let mut position: usize = 0;
        while position < self.entries.len() && self.entries[position].0 < request_id
            invariant
                0 <= position <= self@.len(),
                pending_wf(self@),
                !pending_has(self@, request_id),
                forall|j: int| 0 <= j < position ==> self@[j].0 < request_id,
            decreases self@.len() - position,
        {
            position = position + 1;
        }
        proof {
            assert forall|i: int| position <= i < self@.len() implies self@[i].0 > request_id by {
                assert(self@[position as int].0 != request_id);
                if i > position {
                    assert(self@[position as int].0 < self@[i].0);
                }
            }
            lemma_insert_wf(self@, request_id, response_kind, position as int);
        }
        self.entries.insert(position, (request_id, response_kind));
        Ok(())
    }

    /// Reaps the pending cell of a correlated response, returning its expected kind.
    pub fn take(&mut self, request_id: u64) -> (kind: Option<WireKind>)
        requires
            pending_wf(old(self)@),
        ensures
            pending_wf(final(self)@),
            kind == pending_lookup(old(self)@, request_id),
            final(self)@ == pending_remove(old(self)@, request_id),
    {
        match self.position(request_id) {
            Some(index) => {
                proof {
                    lemma_remove_wf(self@, index as int);
                }
                let entry = self.entries.remove(index);
                Some(entry.1)
            },
            None => None,
        }
    }

    /// Empties the window, returning the awaited responses in ascending request-ID order.
    pub fn drain(&mut self) -> (entries: Vec<(u64, WireKind)>)
        ensures
            entries@ == old(self)@,
            final(self)@.len() == 0,
            pending_wf(final(self)@),
    {
        let mut entries: Vec<(u64, WireKind)> = Vec::new();
        std::mem::swap(&mut entries, &mut self.entries);
        entries
    }
}

/// Law: the control window admits exactly its bound of distinct non-zero
/// requests; a retained request is found again with its response kind, and
/// reaping a correlated response frees exactly one slot and forgets it.
pub proof fn law_pending_window_is_exact(entries: Seq<(u64, WireKind)>, request_id: u64, kind: WireKind)
    requires
        pending_wf(entries),
    ensures
        entries.len() <= MAX_PENDING_CONTROL_REQUESTS,
        pending_has(entries, request_id) ==> pending_wf(pending_remove(entries, request_id))
            && pending_remove(entries, request_id).len() + 1 == entries.len()
            && pending_lookup(pending_remove(entries, request_id), request_id) is None,
        (request_id != 0 && !pending_has(entries, request_id) && entries.len() < MAX_PENDING_CONTROL_REQUESTS) ==> {
            let inserted = pending_insert(entries, request_id, kind);
            &&& pending_wf(inserted)
            &&& inserted.len() == entries.len() + 1
            &&& pending_lookup(inserted, request_id) == Some(kind)
        },
{
    if pending_has(entries, request_id) {
        let index = pending_index(entries, request_id);
        lemma_remove_wf(entries, index);
    }
    if request_id != 0 && !pending_has(entries, request_id) && entries.len() < MAX_PENDING_CONTROL_REQUESTS {
        let position = lemma_split_exists(entries, request_id);
        lemma_insert_wf(entries, request_id, kind, position);
    }
}

/// The error a pending request receives when its epoch ends before the
/// response arrives, or `None` for a kind that is never retained.
pub open spec fn spec_pending_failure(response_kind: WireKind, transport_error: DomainErrorKind) -> Option<DomainErrorKind> {
    match response_kind {
        WireKind::SessionOperationLeaseResponse | WireKind::TerminalHistoryPage => Some(transport_error),
        WireKind::SessionMutateResponse => Some(DomainErrorKind::OperationOutcomeUnknown),
        _ => None,
    }
}

/// Category with which a stranded control request is failed locally: leases
/// and history pages report the epoch's transport failure, and a takeover
/// whose result was lost has an unknown outcome.
pub fn pending_failure(response_kind: WireKind, transport_error: DomainErrorKind) -> (result: Result<DomainErrorKind, DaemonError>)
    ensures
        match result {
            Ok(kind) => spec_pending_failure(response_kind, transport_error) == Some(kind),
            Err(error) => spec_pending_failure(response_kind, transport_error) is None && error.kind == DomainErrorKind::MalformedFrame,
        },
{
    match response_kind {
        WireKind::SessionOperationLeaseResponse | WireKind::TerminalHistoryPage => Ok(transport_error),
        WireKind::SessionMutateResponse => Ok(DomainErrorKind::OperationOutcomeUnknown),
        _ => Err(DaemonError::new(DomainErrorKind::MalformedFrame, "remote attachment retained an unsupported control response kind")),
    }
}

/// Service error categories after which an attachment view ends.
pub open spec fn spec_is_fatal_service_error(kind: DomainErrorKind) -> bool {
    kind == DomainErrorKind::Unauthorized || kind == DomainErrorKind::AuthorizationRevoked
        || kind == DomainErrorKind::WireMajorMismatch || kind == DomainErrorKind::UnknownKind
        || kind == DomainErrorKind::FrameTooLarge || kind == DomainErrorKind::ControlPayloadTooLarge
        || kind == DomainErrorKind::MalformedFrame || kind == DomainErrorKind::ServiceNotImplemented
        || kind == DomainErrorKind::SessionNotFound || kind == DomainErrorKind::LeaseLost
}

/// Whether a correlated remote service error ends the attachment view.
pub fn is_fatal_attachment_service_error(kind: DomainErrorKind) -> (fatal: bool)
    ensures
        fatal == spec_is_fatal_service_error(kind),
{
    match kind {
        DomainErrorKind::Unauthorized
        | DomainErrorKind::AuthorizationRevoked
        | DomainErrorKind::WireMajorMismatch
        | DomainErrorKind::UnknownKind
        | DomainErrorKind::FrameTooLarge
        | DomainErrorKind::ControlPayloadTooLarge
        | DomainErrorKind::MalformedFrame
        | DomainErrorKind::ServiceNotImplemented
        | DomainErrorKind::SessionNotFound
        | DomainErrorKind::LeaseLost => true,
        _ => false,
    }
}

/// Transport failure categories after which the bridge reconnects.
pub open spec fn spec_is_temporary_transport(kind: DomainErrorKind) -> bool {
    kind == DomainErrorKind::TransportUnavailable || kind == DomainErrorKind::AddressUnavailable
        || kind == DomainErrorKind::DeadlineExceeded || kind == DomainErrorKind::DaemonStopped
}

/// Whether a failure is a temporary transport condition that reconnects.
pub fn is_temporary_transport(kind: DomainErrorKind) -> (temporary: bool)
    ensures
        temporary == spec_is_temporary_transport(kind),
{
    match kind {
        DomainErrorKind::TransportUnavailable
        | DomainErrorKind::AddressUnavailable
        | DomainErrorKind::DeadlineExceeded
        | DomainErrorKind::DaemonStopped => true,
        _ => false,
    }
}

/// Law: no failure both reconnects the bridge and ends the view as fatal.
pub proof fn law_reconnect_and_fatal_are_disjoint(kind: DomainErrorKind)
    ensures
        !(spec_is_temporary_transport(kind) && spec_is_fatal_service_error(kind)),
{
}

/// A `SessionOccupied` rejection is retried only on a resume of a view that
/// was once active on a frozen session; the first attach is terminal.
pub fn should_retry_resume_occupied(ever_active: bool, frozen_session_id: Option<u128>, kind: DomainErrorKind) -> (retry: bool)
    ensures
        retry == (ever_active && frozen_session_id is Some && kind == DomainErrorKind::SessionOccupied),
{
    ever_active && frozen_session_id.is_some() && kind == DomainErrorKind::SessionOccupied
}

/// Freezes the daemon-lifetime session of a view on its first snapshot; a
/// later snapshot naming another session ends the view as `SessionNotFound`.
pub fn freeze_session(frozen: &mut Option<u128>, session_id: u128) -> (result: Result<(), DaemonError>)
    ensures
        match *old(frozen) {
            Some(current) => if current != session_id {
                result matches Err(error) && error.kind == DomainErrorKind::SessionNotFound && *final(frozen) == *old(frozen)
            } else {
                result is Ok && *final(frozen) == *old(frozen)
            },
            None => result is Ok && *final(frozen) == Some(session_id),
        },
{
    match *frozen {
        Some(current) => {
            if current != session_id {
                Err(DaemonError::new(DomainErrorKind::SessionNotFound, "remote reconnect resolved a different daemon-lifetime session"))
            } else {
                Ok(())
            }
        },
        None => {
            *frozen = Some(session_id);
            Ok(())
        },
    }
}

/// A full re-synchronization must keep the epoch's remote attachment ID.
pub fn require_expected_remote_attachment(actual: u128, expected: Option<u128>) -> (result: Result<(), DaemonError>)
    ensures
        match result {
            Ok(()) => expected is None || expected == Some(actual),
            Err(error) => expected is Some && expected != Some(actual) && error.kind == DomainErrorKind::MalformedFrame,
        },
{
    match expected {
        Some(expected) => {
            if expected == actual {
                Ok(())
            } else {
                Err(DaemonError::new(DomainErrorKind::MalformedFrame, "remote full synchronization changed the current stream attachment_id"))
            }
        },
        None => Ok(()),
    }
}

/// Whether a delta continues exactly from the known revision.
pub open spec fn delta_continues(known: u64, from_revision: u64, to_revision: u64) -> bool {
    from_revision == known && to_revision >= from_revision
}

/// Whether a delta continues exactly from the known revision without going backwards.
pub fn continues_from(known: u64, from_revision: u64, to_revision: u64) -> (continues: bool)
    ensures
        continues == delta_continues(known, from_revision, to_revision),
{
    from_revision == known && to_revision >= from_revision
}

/// How the first update of a resumed epoch is taken.
#[derive(Clone, Copy, Debug, PartialEq, Eq, Structural)]
pub enum InitialDelta {
    /// The delta continues the local view: forward it; the view reaches `revision`.
    Accepted { revision: u64 },
    /// The delta does not continue the local view: request a full snapshot from `known_revision`.
    RequiresFull { known_revision: u64 },
}

/// Decides the initial resume delta of an epoch: it needs a local baseline,
/// and is forwarded only on a frozen session when it continues the baseline.
pub fn initial_resume_delta(frozen: bool, known_revision: Option<u64>, from_revision: u64, to_revision: u64) -> (result: Result<InitialDelta, DaemonError>)
    ensures
        match known_revision {
            None => result matches Err(error) && error.kind == DomainErrorKind::MalformedFrame,
            Some(known) => if !frozen || !delta_continues(known, from_revision, to_revision) {
                result == Ok::<InitialDelta, DaemonError>(InitialDelta::RequiresFull { known_revision: known })
            } else {
                result == Ok::<InitialDelta, DaemonError>(InitialDelta::Accepted { revision: to_revision })
            },
        },
{
    let known = match known_revision {
        Some(known) => known,
        None => return Err(DaemonError::new(DomainErrorKind::MalformedFrame, "an initial resume delta has no local baseline")),
    };
    if !frozen || !continues_from(known, from_revision, to_revision) {
        return Ok(InitialDelta::RequiresFull { known_revision: known });
    }
    Ok(InitialDelta::Accepted { revision: to_revision })
}

/// Synchronization phase of one stream epoch.
#[derive(Clone, Copy, Debug, PartialEq, Eq, Structural)]
pub enum EpochPhase {
    /// Waiting for the local view to apply the snapshot at `expected`.
    Synchronizing { expected: u64, acknowledged: bool, needs_takeover: bool },
    /// Live updates flow in both directions.
    Active,
}

/// Whether lease and takeover control requests may be forwarded in `phase`.
pub open spec fn spec_control_allowed(phase: EpochPhase) -> bool {
    match phase {
        EpochPhase::Active => true,
        EpochPhase::Synchronizing { acknowledged, needs_takeover, .. } => acknowledged && needs_takeover,
    }
}

/// Lease and takeover requests are forwarded only while active, or once the
/// snapshot was acknowledged on an epoch that still needs its takeover.
pub fn control_allowed(phase: EpochPhase) -> (allowed: bool)
    ensures
        allowed == spec_control_allowed(phase),
{
    match phase {
        EpochPhase::Active => true,
        EpochPhase::Synchronizing { acknowledged, needs_takeover, .. } => acknowledged && needs_takeover,
    }
}

/// Result of a local snapshot acknowledgement.
#[derive(Clone, Copy, Debug, PartialEq, Eq, Structural)]
pub enum SnapshotAck {
    /// Ignored: not synchronizing, already acknowledged, or another revision.
    Ignored,
    /// Forward it; the view now knows `revision`; activate unless a takeover is still needed.
    Forward { revision: u64, activate: bool },
}

/// Decides a local `TerminalSnapshotApplied` for `revision`.
pub fn snapshot_applied(phase: EpochPhase, revision: u64) -> (ack: SnapshotAck)
    ensures
        ack == (match phase {
            EpochPhase::Synchronizing { expected, acknowledged, needs_takeover } =>
                if acknowledged || revision != expected { SnapshotAck::Ignored } else { SnapshotAck::Forward { revision: expected, activate: !needs_takeover } },
            EpochPhase::Active => SnapshotAck::Ignored,
        }),
{
    match phase {
        EpochPhase::Synchronizing { expected, acknowledged, needs_takeover } => {
            if acknowledged || revision != expected {
                SnapshotAck::Ignored
            } else {
                SnapshotAck::Forward { revision: expected, activate: !needs_takeover }
            }
        },
        EpochPhase::Active => SnapshotAck::Ignored,
    }
}

/// The phase that a new snapshot or sync marker at `expected` opens,
/// keeping a pending takeover requirement.
pub fn resynchronizing(phase: EpochPhase, expected: u64) -> (next: EpochPhase)
    ensures
        next == (EpochPhase::Synchronizing {
            expected,
            acknowledged: false,
            needs_takeover: (phase matches EpochPhase::Synchronizing { needs_takeover: true, .. }),
        }),
{
    let needs_takeover = match phase {
        EpochPhase::Synchronizing { needs_takeover, .. } => needs_takeover,
        EpochPhase::Active => false,
    };
    EpochPhase::Synchronizing { expected, acknowledged: false, needs_takeover }
}

/// What an active epoch does with a remote delta.
#[derive(Clone, Copy, Debug, PartialEq, Eq, Structural)]
pub enum RemoteDeltaStep {
    /// Forward it; the view reaches `revision`.
    Forward { revision: u64 },
    /// Request a full snapshot from `known_revision` and resynchronize.
    RequestFullSync { known_revision: u64 },
}

/// Decides a remote delta during an active epoch: a revision gap requests a
/// full synchronization from the known revision (zero when none).
pub fn remote_delta(known_revision: Option<u64>, from_revision: u64, to_revision: u64) -> (step: RemoteDeltaStep)
    ensures
        ({
            let known = match known_revision { Some(known) => known, None => 0 };
            step == if delta_continues(known, from_revision, to_revision) {
                RemoteDeltaStep::Forward { revision: to_revision }
            } else {
                RemoteDeltaStep::RequestFullSync { known_revision: known }
            }
        }),
{
    let known = match known_revision {
        Some(known) => known,
        None => 0,
    };
    if continues_from(known, from_revision, to_revision) {
        RemoteDeltaStep::Forward { revision: to_revision }
    } else {
        RemoteDeltaStep::RequestFullSync { known_revision: known }
    }
}

/// Law: a delta is forwarded only when it continues exactly from the view's
/// known revision; any gap or regression turns into a full-sync request from
/// the revision the view already has.
pub proof fn law_revision_gaps_request_full_sync(known: u64, from_revision: u64, to_revision: u64)
    ensures
        !delta_continues(known, from_revision, to_revision) ==> to_revision < from_revision || from_revision != known,
        delta_continues(known, from_revision, to_revision) ==> to_revision >= known,
{
}

/// Desired-view phase announced to the local client.
#[derive(Clone, Copy, Debug, PartialEq, Eq, Structural)]
pub enum DesiredViewPhase {
    Preparing,
    Synchronizing,
    Active,
    Reconnecting,
}

/// Enters `target`, reporting whether the transition must be announced:
/// a phase is announced only when it changes.
pub fn enter_phase(current: DesiredViewPhase, target: DesiredViewPhase) -> (step: (DesiredViewPhase, bool))
    ensures
        step == (target, current != target),
{
    (target, current != target)
}

/// Terminal viewport dimensions.
#[derive(Clone, Copy, Debug, PartialEq, Eq, Structural)]
pub struct Viewport {
    pub rows: u32,
    pub columns: u32,
}

/// The view state that shapes each re-issued attach request.
#[derive(Clone, Copy, Debug, PartialEq, Eq, Structural)]
pub struct ResumeState {
    pub frozen_session_id: Option<u128>,
    pub known_revision: Option<u64>,
    pub latest_viewport: Option<Viewport>,
    pub force_full: bool,
    pub ever_active: bool,
    pub requested_takeover: bool,
}

/// The fields of the attach request re-issued for a new epoch.
#[derive(Clone, Copy, Debug, PartialEq, Eq, Structural)]
pub struct AttachPlan {
    /// Revision offered for a resume delta, unless a full snapshot is forced.
    pub known_revision: Option<u64>,
    /// Viewport sent with the attach; a frozen session keeps its own.
    pub viewport: Option<Viewport>,
    /// The frozen session to resume, if any.
    pub session_id: Option<u128>,
    /// Whether the requested session name is kept.
    pub keep_session_name: bool,
    /// Whether a missing main session may be created.
    pub create_main: bool,
    /// Whether the attach takes over the session.
    pub takeover: bool,
}

/// Plans the attach request of a new epoch: a frozen session is resumed by
/// identity, never recreated, and taken over only before the view was ever
/// active; a forced full sync offers no known revision.
pub fn plan_attach(state: ResumeState, request_create_main: bool) -> (plan: AttachPlan)
    ensures
        plan.known_revision == (if state.force_full { None } else { state.known_revision }),
        match state.frozen_session_id {
            Some(session) => plan.session_id == Some(session) && plan.viewport is None && !plan.keep_session_name
                && !plan.create_main && plan.takeover == (state.requested_takeover && !state.ever_active),
            None => plan.session_id is None && plan.viewport == state.latest_viewport && plan.keep_session_name
                && plan.create_main == request_create_main && plan.takeover == state.requested_takeover,
        },
{
    let known_revision = if state.force_full { None } else { state.known_revision };
    match state.frozen_session_id {
        Some(session) => AttachPlan {
            known_revision,
            viewport: None,
            session_id: Some(session),
            keep_session_name: false,
            create_main: false,
            takeover: state.requested_takeover && !state.ever_active,
        },
        None => AttachPlan {
            known_revision,
            viewport: state.latest_viewport,
            session_id: None,
            keep_session_name: true,
            create_main: request_create_main,
            takeover: state.requested_takeover,
        },
    }
}

/// Direction of a history page request.
#[derive(Clone, Copy, Debug, PartialEq, Eq, Structural)]
pub enum HistoryDirection {
    Unspecified,
    Newest,
    Older,
    Newer,
}

/// Validates a history request: a known direction and a row bound within `1..=max_rows`.
pub fn validate_history_request(direction: Option<HistoryDirection>, maximum_rows: u32, max_rows: usize) -> (result: Result<(), DaemonError>)
    ensures
        match result {
            Ok(()) => direction matches Some(d) && d != HistoryDirection::Unspecified && 0 < maximum_rows && maximum_rows <= max_rows,
            Err(error) => error.kind == DomainErrorKind::MalformedFrame
                && !(direction matches Some(d) && d != HistoryDirection::Unspecified && 0 < maximum_rows && maximum_rows <= max_rows),
        },
{
    match direction {
        Some(HistoryDirection::Newest) | Some(HistoryDirection::Older) | Some(HistoryDirection::Newer) => {},
        _ => return Err(DaemonError::new(DomainErrorKind::MalformedFrame, "terminal history direction is invalid")),
    }
    if maximum_rows == 0 || maximum_rows as usize > max_rows {
        return Err(DaemonError::new(DomainErrorKind::MalformedFrame, "terminal history page bound is outside the allowed range"));
    }
    Ok(())
}

/// Outcome carried by a history page.
#[derive(Clone, Copy, Debug, PartialEq, Eq, Structural)]
pub enum HistoryOutcome {
    Unspecified,
    Complete,
    Changed,
    Gap,
}

/// Cursor of a history page.
#[derive(Clone, Copy, Debug, PartialEq, Eq, Structural)]
pub struct HistoryCursor {
    pub row_count: u64,
    pub epoch: u64,
    pub revision: u64,
}

/// The shape of a history page that the bridge checks.
#[derive(Clone, Copy, Debug, PartialEq, Eq, Structural)]
pub struct HistoryPageShape {
    pub outcome: Option<HistoryOutcome>,
    pub row_count: usize,
    pub cursor: Option<HistoryCursor>,
    pub current_epoch: u64,
    pub current_revision: u64,
}

/// Whether a history page is consistent.
pub open spec fn spec_history_page_valid(page: HistoryPageShape, max_rows: usize) -> bool {
    page.row_count <= max_rows && match page.outcome {
        Some(HistoryOutcome::Complete) => page.cursor matches Some(cursor)
            && cursor.row_count == page.row_count && cursor.epoch == page.current_epoch && cursor.revision == page.current_revision,
        Some(HistoryOutcome::Changed) | Some(HistoryOutcome::Gap) => page.cursor is None && page.row_count == 0,
        _ => false,
    }
}

/// Validates a history page: rows within the bound, a cursor that matches a
/// complete page, and no content on a Changed or Gap page.
pub fn validate_history_page(page: HistoryPageShape, max_rows: usize) -> (result: Result<(), DaemonError>)
    ensures
        match result {
            Ok(()) => spec_history_page_valid(page, max_rows),
            Err(error) => !spec_history_page_valid(page, max_rows) && error.kind == DomainErrorKind::MalformedFrame,
        },
{
    let outcome = match page.outcome {
        Some(outcome) => outcome,
        None => return Err(DaemonError::new(DomainErrorKind::MalformedFrame, "terminal history outcome is invalid")),
    };
    if page.row_count > max_rows {
        return Err(DaemonError::new(DomainErrorKind::MalformedFrame, "terminal history page exceeded the row bound"));
    }
    match outcome {
        HistoryOutcome::Complete => match page.cursor {
            Some(cursor) => {
                if cursor.row_count != page.row_count as u64 || cursor.epoch != page.current_epoch
                    || cursor.revision != page.current_revision {
                    return Err(DaemonError::new(DomainErrorKind::MalformedFrame, "terminal history page cursor is inconsistent"));
                }
                Ok(())
            },
            None => Err(DaemonError::new(DomainErrorKind::MalformedFrame, "terminal history page omitted its cursor")),
        },
        HistoryOutcome::Changed | HistoryOutcome::Gap => {
            if page.cursor.is_some() || page.row_count != 0 {
                return Err(DaemonError::new(DomainErrorKind::MalformedFrame, "terminal history reset outcome retained page content"));
            }
            Ok(())
        },
        HistoryOutcome::Unspecified => Err(DaemonError::new(DomainErrorKind::MalformedFrame, "terminal history outcome is invalid")),
    }
}

} // verus!
