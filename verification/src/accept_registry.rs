//! Bounded replay registry of local pair-accept operations.
//!
//! Each accept operation owns one cell keyed by its ephemeral operation
//! identifier. A reused identifier with the same fingerprint joins or replays
//! the cell; one with another fingerprint has an unknown outcome. Completed
//! cells are retired oldest-first into bounded, ticket-free tombstones when
//! room is needed for a fresh operation.

use vstd::prelude::*;

use crate::error::{DaemonError, DomainErrorKind};

verus! {

/// Successful outcome of one outbound pairing.
#[derive(Debug)]
pub struct PairAcceptResult {
    pub device_id: [u8; 32],
    pub alias: String,
    pub remote_name: String,
    pub authorization_generation: u64,
    pub verified_relay: Option<String>,
}

/// Specification value of an accept result.
pub struct AcceptResultView {
    pub device_id: [u8; 32],
    pub alias: Seq<char>,
    pub remote_name: Seq<char>,
    pub authorization_generation: u64,
    pub verified_relay: Option<Seq<char>>,
}

/// Specification value of an accept outcome: the result, or the error's category and detail.
pub type AcceptOutcomeView = Result<AcceptResultView, (DomainErrorKind, Seq<char>)>;

/// Outcome of one accept operation.
pub type AcceptOutcome = Result<PairAcceptResult, DaemonError>;

/// Specification value of an outcome.
pub open spec fn accept_outcome_view(outcome: AcceptOutcome) -> AcceptOutcomeView {
    match outcome {
        Ok(result) => Ok(AcceptResultView {
            device_id: result.device_id,
            alias: result.alias@,
            remote_name: result.remote_name@,
            authorization_generation: result.authorization_generation,
            verified_relay: match result.verified_relay {
                Some(relay) => Some(relay@),
                None => None,
            },
        }),
        Err(error) => Err((error.kind, error.detail@)),
    }
}

/// An independent copy of an outcome.
pub fn duplicate_accept_outcome(outcome: &AcceptOutcome) -> (copy: AcceptOutcome)
    ensures
        accept_outcome_view(copy) == accept_outcome_view(*outcome),
{
    match outcome {
        Ok(result) => Ok(PairAcceptResult {
            device_id: result.device_id,
            alias: result.alias.clone(),
            remote_name: result.remote_name.clone(),
            authorization_generation: result.authorization_generation,
            verified_relay: match &result.verified_relay {
                Some(relay) => Some(relay.clone()),
                None => None,
            },
        }),
        Err(error) => Err(DaemonError { kind: error.kind, detail: error.detail.clone() }),
    }
}

/// One accept operation cell.
#[derive(Debug)]
pub struct AcceptCell {
    pub operation_id: u128,
    pub fingerprint: [u8; 32],
    pub serial: u64,
    pub outcome: Option<AcceptOutcome>,
}

/// Specification value of a cell.
pub struct AcceptCellView {
    pub operation_id: u128,
    pub fingerprint: [u8; 32],
    pub serial: u64,
    pub outcome: Option<AcceptOutcomeView>,
}

impl View for AcceptCell {
    type V = AcceptCellView;

    open spec fn view(&self) -> AcceptCellView {
        AcceptCellView {
            operation_id: self.operation_id,
            fingerprint: self.fingerprint,
            serial: self.serial,
            outcome: match self.outcome {
                Some(outcome) => Some(accept_outcome_view(outcome)),
                None => None,
            },
        }
    }
}

/// A retired, ticket-free accept outcome.
#[derive(Debug)]
pub struct RetiredAccept {
    pub operation_id: u128,
    pub fingerprint: [u8; 32],
    pub outcome: AcceptOutcome,
}

/// Specification value of a retired accept.
pub struct RetiredAcceptView {
    pub operation_id: u128,
    pub fingerprint: [u8; 32],
    pub outcome: AcceptOutcomeView,
}

impl View for RetiredAccept {
    type V = RetiredAcceptView;

    open spec fn view(&self) -> RetiredAcceptView {
        RetiredAcceptView {
            operation_id: self.operation_id,
            fingerprint: self.fingerprint,
            outcome: accept_outcome_view(self.outcome),
        }
    }
}

/// Specification value of the registry.
#[verifier::ext_equal]
pub struct AcceptRegistryView {
    pub maximum: nat,
    pub cells: Seq<AcceptCellView>,
    pub completed_order: Seq<u128>,
    pub retired: Seq<RetiredAcceptView>,
    pub next_serial: nat,
}

/// Index of the newest cell for `id`, or -1.
pub open spec fn cell_index(cells: Seq<AcceptCellView>, id: u128) -> int
    decreases cells.len(),
{
    if cells.len() == 0 {
        -1
    } else if cells.last().operation_id == id {
        cells.len() - 1
    } else {
        cell_index(cells.drop_last(), id)
    }
}

/// Index of the newest retired outcome for `id`, or -1.
pub open spec fn retired_index(retired: Seq<RetiredAcceptView>, id: u128) -> int
    decreases retired.len(),
{
    if retired.len() == 0 {
        -1
    } else if retired.last().operation_id == id {
        retired.len() - 1
    } else {
        retired_index(retired.drop_last(), id)
    }
}

/// The newest `maximum` retired outcomes.
pub open spec fn keep_newest_retired(retired: Seq<RetiredAcceptView>, maximum: nat) -> Seq<RetiredAcceptView> {
    if retired.len() > maximum {
        retired.subrange(retired.len() - maximum, retired.len() as int)
    } else {
        retired
    }
}

/// How a known operation identifier is answered.
pub enum ReplayView {
    /// The operation is still running; wait for its cell.
    Live { serial: u64 },
    /// The operation finished; its outcome replays.
    Complete(AcceptOutcomeView),
}

/// The answer for a known identifier, or `None` for a fresh one; an
/// identifier reused with another fingerprint has an unknown outcome.
pub open spec fn spec_existing(v: AcceptRegistryView, id: u128, fingerprint: [u8; 32]) -> Result<Option<ReplayView>, DomainErrorKind> {
    let index = cell_index(v.cells, id);
    if index >= 0 {
        let cell = v.cells[index];
        if cell.fingerprint@ != fingerprint@ {
            Err(DomainErrorKind::PairOutcomeUnknown)
        } else {
            match cell.outcome {
                Some(outcome) => Ok(Some(ReplayView::Complete(outcome))),
                None => Ok(Some(ReplayView::Live { serial: cell.serial })),
            }
        }
    } else {
        let retired = retired_index(v.retired, id);
        if retired >= 0 {
            if v.retired[retired].fingerprint@ != fingerprint@ {
                Err(DomainErrorKind::PairOutcomeUnknown)
            } else {
                Ok(Some(ReplayView::Complete(v.retired[retired].outcome)))
            }
        } else {
            Ok(None)
        }
    }
}

/// The registry after retiring the oldest completed cell, and whether one was retired.
pub open spec fn spec_retire_oldest(v: AcceptRegistryView) -> (AcceptRegistryView, bool)
    decreases v.completed_order.len(),
{
    if v.completed_order.len() == 0 {
        (v, false)
    } else {
        let id = v.completed_order.first();
        let popped = AcceptRegistryView { completed_order: v.completed_order.drop_first(), ..v };
        let index = cell_index(popped.cells, id);
        if index >= 0 && popped.cells[index].outcome is Some {
            let cell = popped.cells[index];
            (
                AcceptRegistryView {
                    cells: popped.cells.remove(index),
                    retired: keep_newest_retired(
                        popped.retired.push(RetiredAcceptView {
                            operation_id: id,
                            fingerprint: cell.fingerprint,
                            outcome: cell.outcome->Some_0,
                        }),
                        popped.maximum,
                    ),
                    ..popped
                },
                true,
            )
        } else {
            spec_retire_oldest(popped)
        }
    }
}

/// What the index of an operation identifier says about the cells.
pub proof fn lemma_cell_index(cells: Seq<AcceptCellView>, id: u128)
    ensures
        -1 <= cell_index(cells, id) < cells.len(),
        cell_index(cells, id) >= 0 ==> cells[cell_index(cells, id)].operation_id == id,
    decreases cells.len(),
{
    if cells.len() > 0 {
        lemma_cell_index(cells.drop_last(), id);
    }
}

/// Retiring the oldest completed cell removes exactly one cell when it succeeds.
pub proof fn lemma_retire_oldest(v: AcceptRegistryView)
    ensures
        spec_retire_oldest(v).1 ==> spec_retire_oldest(v).0.cells.len() + 1 == v.cells.len(),
        !spec_retire_oldest(v).1 ==> spec_retire_oldest(v).0.cells == v.cells,
        spec_retire_oldest(v).0.maximum == v.maximum,
        spec_retire_oldest(v).0.next_serial == v.next_serial,
        accept_registry_wf(v) ==> accept_registry_wf(spec_retire_oldest(v).0),
    decreases v.completed_order.len(),
{
    if v.completed_order.len() > 0 {
        let popped = AcceptRegistryView { completed_order: v.completed_order.drop_first(), ..v };
        lemma_cell_index(popped.cells, v.completed_order.first());
        lemma_retire_oldest(popped);
    }
}

/// How an accept operation is admitted.
pub enum AdmissionView {
    /// A fresh cell was allocated under `serial`; the caller runs the operation.
    Created { serial: u64 },
    /// The operation is still running; wait for its cell.
    Live { serial: u64 },
    /// The operation finished; its outcome replays.
    Complete(AcceptOutcomeView),
}

/// The registry after admitting operation `id` with `fingerprint`, and the admission.
pub open spec fn spec_admit_accept(v: AcceptRegistryView, id: u128, fingerprint: [u8; 32]) -> (AcceptRegistryView, Result<AdmissionView, DomainErrorKind>) {
    match spec_existing(v, id, fingerprint) {
        Err(kind) => (v, Err(kind)),
        Ok(Some(ReplayView::Live { serial })) => (v, Ok(AdmissionView::Live { serial })),
        Ok(Some(ReplayView::Complete(outcome))) => (v, Ok(AdmissionView::Complete(outcome))),
        Ok(None) => {
            let (room, made) = if v.cells.len() >= v.maximum { spec_retire_oldest(v) } else { (v, true) };
            if !made {
                (room, Err(DomainErrorKind::ResourceExhausted))
            } else {
                (
                    AcceptRegistryView {
                        cells: room.cells.push(AcceptCellView {
                            operation_id: id,
                            fingerprint,
                            serial: room.next_serial as u64,
                            outcome: None,
                        }),
                        next_serial: if room.next_serial >= u64::MAX { 0 } else { room.next_serial + 1 },
                        ..room
                    },
                    Ok(AdmissionView::Created { serial: room.next_serial as u64 }),
                )
            }
        },
    }
}

/// The registry after the operation `id` under `serial` completed with `outcome`.
pub open spec fn spec_complete_accept(v: AcceptRegistryView, id: u128, serial: u64, outcome: AcceptOutcomeView) -> AcceptRegistryView {
    let index = cell_index(v.cells, id);
    if index >= 0 && v.cells[index].serial == serial {
        AcceptRegistryView {
            cells: v.cells.update(index, AcceptCellView { outcome: Some(outcome), ..v.cells[index] }),
            completed_order: v.completed_order.push(id),
            ..v
        }
    } else {
        v
    }
}

/// Well-formedness: live cells and retired outcomes within the bound.
pub open spec fn accept_registry_wf(v: AcceptRegistryView) -> bool {
    &&& v.cells.len() <= v.maximum
    &&& v.retired.len() <= v.maximum
}

/// How an accept operation is admitted.
#[derive(Debug)]
pub enum AcceptAdmission {
    /// A fresh cell was allocated under `serial`; the caller runs the operation.
    Created { serial: u64 },
    /// The operation is still running; wait for its cell.
    Live { serial: u64 },
    /// The operation finished; its outcome replays.
    Complete(AcceptOutcome),
}

/// Specification value of an admission.
pub open spec fn admission_view(admission: AcceptAdmission) -> AdmissionView {
    match admission {
        AcceptAdmission::Created { serial } => AdmissionView::Created { serial },
        AcceptAdmission::Live { serial } => AdmissionView::Live { serial },
        AcceptAdmission::Complete(outcome) => AdmissionView::Complete(accept_outcome_view(outcome)),
    }
}

/// How a known accept operation replays.
#[derive(Debug)]
pub enum AcceptReplay {
    /// The operation is still running; wait for its cell.
    Live { serial: u64 },
    /// The operation finished; its outcome replays.
    Complete(AcceptOutcome),
}

/// Specification value of a replay.
pub open spec fn replay_view(replay: AcceptReplay) -> ReplayView {
    match replay {
        AcceptReplay::Live { serial } => ReplayView::Live { serial },
        AcceptReplay::Complete(outcome) => ReplayView::Complete(accept_outcome_view(outcome)),
    }
}

/// Error for an operation identifier reused with different arguments.
fn reused_operation() -> (error: DaemonError)
    ensures
        error.kind == DomainErrorKind::PairOutcomeUnknown,
{
    DaemonError::new(DomainErrorKind::PairOutcomeUnknown, "pair accept operation ID was reused for different arguments")
}

/// Bounded owner of accept operation cells and their retired outcomes.
pub struct AcceptRegistry {
    maximum: usize,
    cells: Vec<AcceptCell>,
    completed_order: Vec<u128>,
    retired: Vec<RetiredAccept>,
    next_serial: u64,
}

impl View for AcceptRegistry {
    type V = AcceptRegistryView;

    closed spec fn view(&self) -> AcceptRegistryView {
        AcceptRegistryView {
            maximum: self.maximum as nat,
            cells: self.cells@.map_values(|cell: AcceptCell| cell@),
            completed_order: self.completed_order@,
            retired: self.retired@.map_values(|entry: RetiredAccept| entry@),
            next_serial: self.next_serial as nat,
        }
    }
}

impl AcceptRegistry {
    /// Well-formedness: live cells and retired outcomes within the bound.
    pub open spec fn wf(&self) -> bool {
        accept_registry_wf(self@)
    }

    /// An empty registry holding at most `maximum` cells and `maximum` retired outcomes.
    pub fn new(maximum: usize) -> (registry: AcceptRegistry)
        ensures
            registry.wf(),
            registry@.maximum == maximum,
            registry@.cells.len() == 0,
            registry@.completed_order.len() == 0,
            registry@.retired.len() == 0,
    {
        let registry = AcceptRegistry {
            maximum,
            cells: Vec::new(),
            completed_order: Vec::new(),
            retired: Vec::new(),
            next_serial: 0,
        };
        assert(registry@.cells =~= Seq::<AcceptCellView>::empty());
        assert(registry@.retired =~= Seq::<RetiredAcceptView>::empty());
        registry
    }

    /// Number of live cells.
    pub fn cell_count(&self) -> (count: usize)
        ensures
            count == self@.cells.len(),
    {
        self.cells.len()
    }

    /// Number of retired outcomes.
    pub fn retired_count(&self) -> (count: usize)
        ensures
            count == self@.retired.len(),
    {
        self.retired.len()
    }

    /// Whether a retired outcome of operation `id` is retained.
    pub fn is_retired(&self, id: u128) -> (retired: bool)
        ensures
            retired == (retired_index(self@.retired, id) >= 0),
    {
        self.find_retired(id).is_some()
    }

    /// Index of the newest cell for `id`.
    fn find_cell(&self, id: u128) -> (found: Option<usize>)
        ensures
            match found {
                Some(index) => index as int == cell_index(self@.cells, id) && index < self@.cells.len(),
                None => cell_index(self@.cells, id) == -1,
            },
    {
        let ghost cells = self@.cells;
        let mut index: usize = self.cells.len();
        assert(cells.subrange(0, index as int) =~= cells);
        while index > 0
            invariant
                0 <= index <= cells.len(),
                cells == self@.cells,
                cells.len() == self.cells@.len(),
                cell_index(cells, id) == cell_index(cells.subrange(0, index as int), id),
            decreases index,
        {
            proof {
                assert(cells.subrange(0, index as int).drop_last() =~= cells.subrange(0, index - 1));
                assert(cells[index - 1] == self.cells@[index - 1]@);
            }
            if self.cells[index - 1].operation_id == id {
                return Some(index - 1);
            }
            index = index - 1;
        }
        None
    }

    /// Index of the newest retired outcome for `id`.
    fn find_retired(&self, id: u128) -> (found: Option<usize>)
        ensures
            match found {
                Some(index) => index as int == retired_index(self@.retired, id) && index < self@.retired.len(),
                None => retired_index(self@.retired, id) == -1,
            },
    {
        let ghost retired = self@.retired;
        let mut index: usize = self.retired.len();
        assert(retired.subrange(0, index as int) =~= retired);
        while index > 0
            invariant
                0 <= index <= retired.len(),
                retired == self@.retired,
                retired.len() == self.retired@.len(),
                retired_index(retired, id) == retired_index(retired.subrange(0, index as int), id),
            decreases index,
        {
            proof {
                assert(retired.subrange(0, index as int).drop_last() =~= retired.subrange(0, index - 1));
                assert(retired[index - 1] == self.retired@[index - 1]@);
            }
            if self.retired[index - 1].operation_id == id {
                return Some(index - 1);
            }
            index = index - 1;
        }
        None
    }

    /// Answers a known operation identifier without allocating: a running
    /// cell, a replayed outcome, or an unknown outcome for a reused identifier.
    pub fn existing_accept(&self, id: u128, fingerprint: [u8; 32]) -> (answer: Result<Option<AcceptReplay>, DaemonError>)
        ensures
            match answer {
                Ok(Some(replay)) => spec_existing(self@, id, fingerprint) == Ok::<Option<ReplayView>, DomainErrorKind>(Some(replay_view(replay))),
                Ok(None) => spec_existing(self@, id, fingerprint) == Ok::<Option<ReplayView>, DomainErrorKind>(None),
                Err(error) => spec_existing(self@, id, fingerprint) == Err::<Option<ReplayView>, DomainErrorKind>(error.kind),
            },
    {
        match self.find_cell(id) {
            Some(index) => {
                let cell = &self.cells[index];
                assert(self@.cells[index as int] == cell@);
                if !crate::bytes::bytes32_eq(&cell.fingerprint, &fingerprint) {
                    return Err(reused_operation());
                }
                match &cell.outcome {
                    Some(outcome) => Ok(Some(AcceptReplay::Complete(duplicate_accept_outcome(outcome)))),
                    None => Ok(Some(AcceptReplay::Live { serial: cell.serial })),
                }
            },
            None => match self.find_retired(id) {
                Some(index) => {
                    let entry = &self.retired[index];
                    assert(self@.retired[index as int] == entry@);
                    if !crate::bytes::bytes32_eq(&entry.fingerprint, &fingerprint) {
                        return Err(reused_operation());
                    }
                    Ok(Some(AcceptReplay::Complete(duplicate_accept_outcome(&entry.outcome))))
                },
                None => Ok(None),
            },
        }
    }

    /// Retires the oldest completed cell into the bounded retired outcomes.
    fn retire_oldest(&mut self) -> (retired: bool)
        requires
            old(self).wf(),
        ensures
            final(self).wf(),
            (final(self)@, retired) == spec_retire_oldest(old(self)@),
    {
        let ghost target = spec_retire_oldest(self@);
        while self.completed_order.len() > 0
            invariant
                spec_retire_oldest(self@) == target,
                target == spec_retire_oldest(old(self)@),
                self.wf(),
            decreases self.completed_order@.len(),
        {
            let ghost before = self@;
            let id = self.completed_order.remove(0);
            proof {
                assert(id == before.completed_order.first());
                assert(self@ =~= AcceptRegistryView { completed_order: before.completed_order.drop_first(), ..before });
            }
            match self.find_cell(id) {
                Some(index) => {
                    if self.cells[index].outcome.is_some() {
                        let ghost popped = self@;
                        let cell = self.cells.remove(index);
                        proof {
                            assert(popped.cells[index as int] == cell@);
                            assert(self.cells@.map_values(|cell: AcceptCell| cell@) =~= popped.cells.remove(index as int));
                        }
                        let outcome = match cell.outcome {
                            Some(outcome) => outcome,
                            None => return false,
                        };
                        let ghost retired_before = self.retired@;
                        self.retired.push(RetiredAccept { operation_id: id, fingerprint: cell.fingerprint, outcome });
                        let ghost raw = self.retired@;
                        let ghost mid = self@;
                        let ghost pushed = mid.retired;
                        proof {
                            assert(pushed =~= retired_before.map_values(|entry: RetiredAccept| entry@).push(RetiredAcceptView {
                                operation_id: id,
                                fingerprint: cell.fingerprint,
                                outcome: cell@.outcome->Some_0,
                            }));
                            assert(raw.subrange(0, raw.len() as int) =~= raw);
                        }
                        let ghost mut dropped: int = 0;
                        while self.retired.len() > self.maximum
                            invariant
                                0 <= dropped <= raw.len(),
                                dropped == 0 || raw.len() - dropped >= self.maximum,
                                self.retired@ == raw.subrange(dropped, raw.len() as int),
                                pushed == raw.map_values(|entry: RetiredAccept| entry@),
                                self.cells@.map_values(|cell: AcceptCell| cell@) == mid.cells,
                                self.completed_order@ == mid.completed_order,
                                self.maximum == mid.maximum,
                                self.next_serial == mid.next_serial,
                            decreases self.retired@.len(),
                        {
                            self.retired.remove(0);
                            proof {
                                dropped = dropped + 1;
                                assert(self.retired@ =~= raw.subrange(dropped, raw.len() as int));
                            }
                        }
                        proof {
                            assert(self.retired@.map_values(|entry: RetiredAccept| entry@) =~= pushed.subrange(dropped, pushed.len() as int));
                            if pushed.len() > self.maximum {
                                assert(dropped == pushed.len() - self.maximum);
                            } else {
                                assert(dropped == 0);
                            }
                            assert(self@.retired =~= keep_newest_retired(pushed, self@.maximum));
                            assert(self@ =~= AcceptRegistryView { retired: keep_newest_retired(pushed, mid.maximum), ..mid });
                            lemma_cell_index(popped.cells, id);
                            assert(popped == AcceptRegistryView { completed_order: before.completed_order.drop_first(), ..before });
                            assert(mid.cells == popped.cells.remove(index as int));
                            assert(self@ =~= AcceptRegistryView {
                                cells: popped.cells.remove(index as int),
                                retired: keep_newest_retired(popped.retired.push(RetiredAcceptView {
                                    operation_id: id,
                                    fingerprint: popped.cells[index as int].fingerprint,
                                    outcome: popped.cells[index as int].outcome->Some_0,
                                }), popped.maximum),
                                ..popped
                            });
                            assert((self@, true) == spec_retire_oldest(before));
                        }
                        return true;
                    }
                    proof {
                        assert(self@.cells[index as int] == self.cells@[index as int]@);
                    }
                },
                None => {},
            }
        }
        false
    }

    /// Admits accept operation `id` with `fingerprint`: joins or replays a
    /// known identifier, rejects a reused one, retires the oldest completed
    /// cell when the live bound is reached, and allocates a fresh cell.
    pub fn admit_accept(&mut self, id: u128, fingerprint: [u8; 32]) -> (admission: Result<AcceptAdmission, DaemonError>)
        requires
            old(self).wf(),
        ensures
            final(self).wf(),
            final(self)@ == spec_admit_accept(old(self)@, id, fingerprint).0,
            match admission {
                Ok(admission) => spec_admit_accept(old(self)@, id, fingerprint).1 == Ok::<AdmissionView, DomainErrorKind>(admission_view(admission)),
                Err(error) => spec_admit_accept(old(self)@, id, fingerprint).1 == Err::<AdmissionView, DomainErrorKind>(error.kind),
            },
    {
        match self.existing_accept(id, fingerprint) {
            Err(error) => return Err(error),
            Ok(Some(AcceptReplay::Live { serial })) => return Ok(AcceptAdmission::Live { serial }),
            Ok(Some(AcceptReplay::Complete(outcome))) => return Ok(AcceptAdmission::Complete(outcome)),
            Ok(None) => {},
        }
        proof {
            lemma_retire_oldest(self@);
        }
        if self.cells.len() >= self.maximum {
            if !self.retire_oldest() {
                return Err(DaemonError::new(DomainErrorKind::ResourceExhausted, "pair accept operation capacity is exhausted"));
            }
        }
        let serial = self.next_serial;
        self.next_serial = if serial == u64::MAX { 0 } else { serial + 1 };
        let ghost before = self.cells@;
        self.cells.push(AcceptCell { operation_id: id, fingerprint, serial, outcome: None });
        proof {
            assert(self.cells@.map_values(|cell: AcceptCell| cell@) =~= before.map_values(|cell: AcceptCell| cell@).push(AcceptCellView {
                operation_id: id,
                fingerprint,
                serial,
                outcome: None,
            }));
        }
        Ok(AcceptAdmission::Created { serial })
    }

    /// Records that the operation `id` under `serial` completed with
    /// `outcome`, queueing its cell for retirement.
    pub fn complete_accept(&mut self, id: u128, serial: u64, outcome: AcceptOutcome)
        requires
            old(self).wf(),
        ensures
            final(self).wf(),
            final(self)@ == spec_complete_accept(old(self)@, id, serial, accept_outcome_view(outcome)),
    {
        proof {
            lemma_cell_index(self@.cells, id);
        }
        let index = match self.find_cell(id) {
            Some(index) => index,
            None => return,
        };
        assert(self@.cells[index as int] == self.cells@[index as int]@);
        if self.cells[index].serial != serial {
            return;
        }
        let fingerprint = self.cells[index].fingerprint;
        let ghost before = self.cells@;
        self.cells.set(index, AcceptCell { operation_id: id, fingerprint, serial, outcome: Some(outcome) });
        self.completed_order.push(id);
        proof {
            assert(self.cells@.map_values(|cell: AcceptCell| cell@) =~= before.map_values(|cell: AcceptCell| cell@).update(
                index as int,
                self.cells@[index as int]@,
            ));
            assert(self@ =~= spec_complete_accept(old(self)@, id, serial, accept_outcome_view(outcome)));
        }
    }
}

/// Law: an admitted accept operation that completed replays exactly its
/// outcome to a later request with the same identifier and fingerprint.
pub proof fn law_completed_accept_replays(v: AcceptRegistryView, id: u128, fingerprint: [u8; 32], outcome: AcceptOutcomeView)
    requires
        accept_registry_wf(v),
        spec_admit_accept(v, id, fingerprint).1 is Ok,
        spec_admit_accept(v, id, fingerprint).1->Ok_0 is Created,
    ensures
        ({
            let admitted = spec_admit_accept(v, id, fingerprint);
            let serial = admitted.1->Ok_0->Created_serial;
            spec_existing(spec_complete_accept(admitted.0, id, serial, outcome), id, fingerprint)
                == Ok::<Option<ReplayView>, DomainErrorKind>(Some(ReplayView::Complete(outcome)))
        }),
{
    let admitted = spec_admit_accept(v, id, fingerprint);
    let v1 = admitted.0;
    let last = v1.cells.len() - 1;
    assert(v1.cells.last().operation_id == id);
    assert(cell_index(v1.cells, id) == last);
    let serial = admitted.1->Ok_0->Created_serial;
    let v2 = spec_complete_accept(v1, id, serial, outcome);
    assert(v2.cells.last().operation_id == id);
    assert(cell_index(v2.cells, id) == last);
}

/// Law: an operation identifier reused with another fingerprint, while its
/// cell or retired outcome is known, never joins or replays: its outcome is unknown.
pub proof fn law_reused_accept_identifier_is_rejected(v: AcceptRegistryView, id: u128, fingerprint: [u8; 32])
    requires
        (cell_index(v.cells, id) >= 0 && v.cells[cell_index(v.cells, id)].fingerprint@ != fingerprint@)
        || (cell_index(v.cells, id) < 0 && retired_index(v.retired, id) >= 0
            && v.retired[retired_index(v.retired, id)].fingerprint@ != fingerprint@),
    ensures
        spec_existing(v, id, fingerprint) == Err::<Option<ReplayView>, DomainErrorKind>(DomainErrorKind::PairOutcomeUnknown),
        spec_admit_accept(v, id, fingerprint) == (v, Err::<AdmissionView, DomainErrorKind>(DomainErrorKind::PairOutcomeUnknown)),
{
}

/// Law: a repeated accept with the same identifier and fingerprint, while the
/// first is still running, joins that operation: it is told to wait for the
/// same serial and allocates nothing, so only one operation does the work.
pub proof fn law_repeated_accept_joins_the_running_operation(v: AcceptRegistryView, id: u128, fingerprint: [u8; 32])
    requires
        accept_registry_wf(v),
        spec_admit_accept(v, id, fingerprint).1 is Ok,
        spec_admit_accept(v, id, fingerprint).1->Ok_0 is Created,
    ensures
        ({
            let admitted = spec_admit_accept(v, id, fingerprint);
            let serial = admitted.1->Ok_0->Created_serial;
            spec_admit_accept(admitted.0, id, fingerprint)
                == (admitted.0, Ok::<AdmissionView, DomainErrorKind>(AdmissionView::Live { serial }))
        }),
{
    let admitted = spec_admit_accept(v, id, fingerprint);
    let v1 = admitted.0;
    let last = v1.cells.len() - 1;
    assert(v1.cells.last().operation_id == id);
    assert(cell_index(v1.cells, id) == last);
}

} // verus!
