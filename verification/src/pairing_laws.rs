//! Laws of the pairing offer registry: what every transition keeps, what a
//! rollback undoes, and what can never happen twice.

use vstd::prelude::*;

use crate::offer_registry::{
    AdmissionView, ConsumeRequest, IssuedOffer, LiveOfferState, OfferRecord, OperationView, RegistryView,
    count_consuming, count_error, count_ready, spec_snapshot, expiry_survivors, expiry_victim, expiry_victims, held_by, insertion_point,
    issued_record, lemma_expire_wf, lemma_insertion_point, lemma_offer_index, lemma_operation_index,
    lemma_retire_each_offers, lemma_survivors, offer_expired, offer_index, offer_lookup, offers_sorted,
    operation_index, registry_wf, retire_operation, ReadyOffer, spec_ready, spec_offer_state, spec_admit, spec_commit, spec_complete, spec_consume,
    spec_expire, spec_install, spec_rollback, with_offers,
};
use crate::pairing::{PairTicketError, PairingError, PairingNow, PairOfferState, PairingSnapshot};
use crate::tombstones::{Tombstone, lemma_log_insert_lookup, log_lookup};

verus! {

/// With no victim among the offers, a sweep keeps the offers and removes nothing.
proof fn lemma_no_victims(offers: Seq<OfferRecord>, now: PairingNow)
    requires
        forall|i: int| 0 <= i < offers.len() ==> !expiry_victim(#[trigger] offers[i], now),
    ensures
        expiry_survivors(offers, now) == offers,
        expiry_victims(offers, now).len() == 0,
    decreases offers.len(),
{
    if offers.len() > 0 {
        let rest = offers.drop_last();
        assert forall|i: int| 0 <= i < rest.len() implies !expiry_victim(#[trigger] rest[i], now) by {
            assert(rest[i] == offers[i]);
        }
        lemma_no_victims(rest, now);
        assert(!expiry_victim(offers[offers.len() - 1], now));
        assert(rest.push(offers.last()) =~= offers);
    }
}

/// A sweep with no victim leaves the registry unchanged.
proof fn lemma_sweep_noop(v: RegistryView, now: PairingNow)
    requires
        forall|i: int| 0 <= i < v.offers.len() ==> !expiry_victim(#[trigger] v.offers[i], now),
    ensures
        spec_expire(v, now) == v,
{
    lemma_no_victims(v.offers, now);
    assert(expiry_victims(v.offers, now) =~= Seq::<OfferRecord>::empty());
    assert(with_offers(v, v.offers) =~= v);
}

/// After a sweep at `now`, no live offer is a victim at `now`.
proof fn lemma_swept_clean(v: RegistryView, now: PairingNow)
    ensures
        forall|i: int| 0 <= i < spec_expire(v, now).offers.len() ==> !expiry_victim(#[trigger] spec_expire(v, now).offers[i], now),
        spec_expire(v, now).offers == expiry_survivors(v.offers, now),
{
    lemma_survivors(v.offers, now);
    let start = with_offers(v, expiry_survivors(v.offers, now));
    lemma_retire_each_offers(start, expiry_victims(v.offers, now), PairingError::TicketExpired, expiry_survivors(v.offers, now));
}

/// Offers that survive a sweep are still found by identifier; victims are gone.
proof fn lemma_survivors_lookup(offers: Seq<OfferRecord>, now: PairingNow, id: u128)
    requires
        offers_sorted(offers),
    ensures
        match offer_lookup(offers, id) {
            Some(record) => if expiry_victim(record, now) {
                offer_lookup(expiry_survivors(offers, now), id) is None
            } else {
                offer_lookup(expiry_survivors(offers, now), id) == Some(record)
            },
            None => offer_lookup(expiry_survivors(offers, now), id) is None,
        },
    decreases offers.len(),
{
    lemma_offer_index(offers, id);
    lemma_survivors(offers, now);
    let kept = expiry_survivors(offers, now);
    lemma_offer_index(kept, id);
    if offers.len() > 0 {
        let rest = offers.drop_last();
        let last = offers.last();
        assert(offers_sorted(rest));
        lemma_survivors_lookup(rest, now, id);
        let rest_kept = expiry_survivors(rest, now);
        lemma_survivors(rest, now);
        lemma_offer_index(rest_kept, id);
        lemma_offer_index(rest, id);
        if !expiry_victim(last, now) {
            assert(rest_kept.push(last).drop_last() =~= rest_kept);
        }
        if last.offer_id == id {
            assert forall|j: int| 0 <= j < rest.len() implies rest[j].offer_id != id by {
                assert(rest[j] == offers[j]);
                assert(offers[j].offer_id < offers[offers.len() - 1].offer_id);
            }
            assert(offer_index(rest, id) == -1);
        } else {
            if offer_index(rest, id) >= 0 {
                assert(offers[offer_index(rest, id)] == rest[offer_index(rest, id)]);
            }
            if !expiry_victim(last, now) && offer_index(rest_kept, id) >= 0 {
                assert(kept[offer_index(rest_kept, id)] == rest_kept[offer_index(rest_kept, id)]);
            }
        }
    }
}

/// Replacing an offer by one with the same identifier keeps every lookup index.
proof fn lemma_index_update(offers: Seq<OfferRecord>, index: int, record: OfferRecord, id: u128)
    requires
        0 <= index < offers.len(),
        record.offer_id == offers[index].offer_id,
    ensures
        offer_index(offers.update(index, record), id) == offer_index(offers, id),
    decreases offers.len(),
{
    let updated = offers.update(index, record);
    if index == offers.len() - 1 {
        assert(updated.drop_last() =~= offers.drop_last());
    } else {
        assert(updated.drop_last() =~= offers.drop_last().update(index, record));
        lemma_index_update(offers.drop_last(), index, record, id);
    }
}

/// Removing the only offer with identifier `id` leaves none with it.
proof fn lemma_index_remove(offers: Seq<OfferRecord>, index: int)
    requires
        offers_sorted(offers),
        0 <= index < offers.len(),
    ensures
        offer_index(offers.remove(index), offers[index].offer_id) == -1,
{
    let id = offers[index].offer_id;
    let removed = offers.remove(index);
    lemma_offer_index(removed, id);
    if offer_index(removed, id) >= 0 {
        let k = offer_index(removed, id);
        if k < index {
            assert(removed[k] == offers[k]);
        } else {
            assert(removed[k] == offers[k + 1]);
        }
    }
}

/// Updating offers in place with identifiers unchanged keeps them ascending.
proof fn lemma_update_sorted(offers: Seq<OfferRecord>, index: int, record: OfferRecord)
    requires
        offers_sorted(offers),
        0 <= index < offers.len(),
        record.offer_id == offers[index].offer_id,
    ensures
        offers_sorted(offers.update(index, record)),
{
    let updated = offers.update(index, record);
    assert forall|i: int, j: int| 0 <= i < j < updated.len() implies updated[i].offer_id < updated[j].offer_id by {
        assert(updated[i].offer_id == offers[i].offer_id);
        assert(updated[j].offer_id == offers[j].offer_id);
    }
}

/// Law: while one controller holds an offer, every other attempt to consume
/// it with the same ticket is answered `OfferConsuming`, at any later time and
/// whatever its proof.
pub proof fn law_consuming_offer_excludes_other_consumers(
    v: RegistryView,
    now: PairingNow,
    request: ConsumeRequest,
    proof_valid: bool,
    later: PairingNow,
    other: ConsumeRequest,
    other_proof_valid: bool,
)
    requires
        registry_wf(v),
        spec_consume(v, now, request, proof_valid).1 is Ok,
        other.offer_id == request.offer_id,
        other.ticket_digest@ == request.ticket_digest@,
    ensures
        spec_consume(spec_consume(v, now, request, proof_valid).0, later, other, other_proof_valid).1
            == Err::<(), PairingError>(PairingError::OfferConsuming),
{
    let id = request.offer_id;
    lemma_expire_wf(v, now);
    let ve = spec_expire(v, now);
    lemma_offer_index(ve.offers, id);
    let index = offer_index(ve.offers, id);
    let record = ve.offers[index];
    let held = OfferRecord {
        state: LiveOfferState::Consuming {
            controller_device_id: request.controller_device_id,
            transcript_digest: request.transcript_digest,
        },
        ..record
    };
    let v1 = spec_consume(v, now, request, proof_valid).0;
    assert(v1 == with_offers(ve, ve.offers.update(index, held)));
    lemma_index_update(ve.offers, index, held, id);
    lemma_update_sorted(ve.offers, index, held);
    assert(offer_lookup(v1.offers, id) == Some(held));
    lemma_survivors_lookup(v1.offers, later, id);
    lemma_swept_clean(v1, later);
    let v2 = spec_expire(v1, later);
    lemma_offer_index(v2.offers, id);
}

/// Law: while one controller holds an offer, no new challenge can be prepared
/// for it: at any later time the offer answers `OfferConsuming`.
pub proof fn law_consuming_offer_refuses_new_challenges(
    v: RegistryView,
    now: PairingNow,
    request: ConsumeRequest,
    proof_valid: bool,
    later: PairingNow,
)
    requires
        registry_wf(v),
        spec_consume(v, now, request, proof_valid).1 is Ok,
    ensures
        spec_ready(spec_consume(v, now, request, proof_valid).0, later, request.offer_id)
            == Err::<ReadyOffer, PairingError>(PairingError::OfferConsuming),
        spec_offer_state(spec_consume(v, now, request, proof_valid).0, later, request.offer_id)
            == Ok::<PairOfferState, PairingError>(PairOfferState::Consuming),
{
    let id = request.offer_id;
    lemma_expire_wf(v, now);
    let ve = spec_expire(v, now);
    lemma_offer_index(ve.offers, id);
    let index = offer_index(ve.offers, id);
    let record = ve.offers[index];
    let held = OfferRecord {
        state: LiveOfferState::Consuming {
            controller_device_id: request.controller_device_id,
            transcript_digest: request.transcript_digest,
        },
        ..record
    };
    let v1 = spec_consume(v, now, request, proof_valid).0;
    assert(v1 == with_offers(ve, ve.offers.update(index, held)));
    lemma_index_update(ve.offers, index, held, id);
    lemma_update_sorted(ve.offers, index, held);
    assert(offer_lookup(v1.offers, id) == Some(held));
    lemma_survivors_lookup(v1.offers, later, id);
    lemma_swept_clean(v1, later);
}

/// Law: rolling back a successful consumption, before either clock of the
/// offer elapses (or when the clock cannot be read), restores the registry
/// exactly as it was after the sweep that preceded the consumption.
pub proof fn law_rollback_undoes_consume(
    v: RegistryView,
    now: PairingNow,
    request: ConsumeRequest,
    proof_valid: bool,
    later: Option<PairingNow>,
)
    requires
        registry_wf(v),
        spec_consume(v, now, request, proof_valid).1 is Ok,
        match later {
            Some(t) => !offer_expired(spec_expire(v, now).offers[offer_index(spec_expire(v, now).offers, request.offer_id)], t),
            None => true,
        },
    ensures
        spec_rollback(
            spec_consume(v, now, request, proof_valid).0,
            later,
            request.offer_id,
            request.controller_device_id,
            request.transcript_digest,
        ) == (spec_expire(v, now), Ok::<PairOfferState, PairingError>(PairOfferState::Ready)),
{
    let id = request.offer_id;
    lemma_expire_wf(v, now);
    let ve = spec_expire(v, now);
    lemma_offer_index(ve.offers, id);
    let index = offer_index(ve.offers, id);
    let record = ve.offers[index];
    let held = OfferRecord {
        state: LiveOfferState::Consuming {
            controller_device_id: request.controller_device_id,
            transcript_digest: request.transcript_digest,
        },
        ..record
    };
    let v1 = spec_consume(v, now, request, proof_valid).0;
    assert(v1 == with_offers(ve, ve.offers.update(index, held)));
    lemma_index_update(ve.offers, index, held, id);
    assert(held_by(held, request.controller_device_id, request.transcript_digest));
    let restored = v1.offers.update(index, OfferRecord { state: LiveOfferState::Ready, ..held });
    assert(OfferRecord { state: LiveOfferState::Ready, ..held } == record);
    assert(restored =~= ve.offers);
    assert(with_offers(v1, restored) =~= ve);
}

/// Law: a committed offer is retired as consumed; a second commit of the same
/// offer is refused as `TicketConsumed`, and releasing any permit for it
/// reports `Consumed`, while the registry keeps at least one tombstone.
pub proof fn law_commit_is_final(
    v: RegistryView,
    offer_id: u128,
    controller_device_id: [u8; 32],
    transcript_digest: [u8; 32],
    transcript: Seq<u8>,
    generation: u64,
    later: Option<PairingNow>,
    other_controller: [u8; 32],
    other_digest: [u8; 32],
    other_transcript: Seq<u8>,
    other_generation: u64,
)
    requires
        registry_wf(v),
        v.max_live > 0,
        spec_commit(v, offer_id, controller_device_id, transcript_digest, transcript, generation).1 is Ok,
        other_generation > 0,
    ensures
        ({
            let committed = spec_commit(v, offer_id, controller_device_id, transcript_digest, transcript, generation).0;
            &&& offer_lookup(committed.offers, offer_id) is None
            &&& spec_commit(committed, offer_id, other_controller, other_digest, other_transcript, other_generation).1
                == Err::<[u8; 32], PairingError>(PairingError::TicketConsumed)
            &&& spec_rollback(committed, later, offer_id, other_controller, other_digest).1
                == Ok::<PairOfferState, PairingError>(PairOfferState::Consumed)
        }),
{
    lemma_offer_index(v.offers, offer_id);
    let index = offer_index(v.offers, offer_id);
    let record = v.offers[index];
    lemma_index_remove(v.offers, index);
    let removed = with_offers(v, v.offers.remove(index));
    let retired_ops = retire_operation(removed, record.operation_id, record.fingerprint, PairingError::TicketConsumed);
    lemma_log_insert_lookup(
        retired_ops.retired_offers,
        retired_ops.max_live,
        Tombstone { key: offer_id, fingerprint: record.fingerprint, error: PairingError::TicketConsumed },
    );
}

/// Law: an offer that is Ready and expired at `now` can never be moved to
/// Consuming at `now`; the attempt only performs the expiry sweep.
pub proof fn law_expired_offer_is_not_consumed(v: RegistryView, now: PairingNow, request: ConsumeRequest, proof_valid: bool)
    requires
        registry_wf(v),
        offer_lookup(v.offers, request.offer_id) matches Some(record) && expiry_victim(record, now),
    ensures
        spec_consume(v, now, request, proof_valid).1 is Err,
        spec_consume(v, now, request, proof_valid).0 == spec_expire(v, now),
{
    lemma_survivors_lookup(v.offers, now, request.offer_id);
    lemma_swept_clean(v, now);
    lemma_offer_index(spec_expire(v, now).offers, request.offer_id);
}

/// Law: no challenge is ever prepared for an offer whose wall-clock or
/// monotonic expiry has passed while it was Ready.
pub proof fn law_expired_offer_gets_no_challenge(v: RegistryView, now: PairingNow, offer_id: u128)
    requires
        registry_wf(v),
        offer_lookup(v.offers, offer_id) matches Some(record) && record.state is Ready && offer_expired(record, now),
    ensures
        spec_ready(v, now, offer_id) is Err,
{
    lemma_survivors_lookup(v.offers, now, offer_id);
    lemma_swept_clean(v, now);
}

/// Law: a local create replays exactly: once an admitted create installed its
/// offer and completed, the same operation with the same fingerprint replays
/// the very ticket that was created. The admission, the installation and the
/// replay may each read their own clock instant, so long as no live offer has
/// expired by the later instants.
pub proof fn law_create_replays_exact_ticket(
    v: RegistryView,
    now: PairingNow,
    operation_id: u128,
    fingerprint: [u8; 32],
    install_now: PairingNow,
    offer: IssuedOffer,
    later: PairingNow,
)
    requires
        registry_wf(v),
        spec_admit(v, now, operation_id, fingerprint).1 matches Ok(AdmissionView::Created { .. }),
        install_now == now || forall|i: int| 0 <= i < spec_admit(v, now, operation_id, fingerprint).0.offers.len()
            ==> !expiry_victim(#[trigger] spec_admit(v, now, operation_id, fingerprint).0.offers[i], install_now),
        spec_install(spec_admit(v, now, operation_id, fingerprint).0, install_now, offer).1 is Installed,
        later == install_now || forall|i: int| 0 <= i < spec_install(spec_admit(v, now, operation_id, fingerprint).0, install_now, offer).0.offers.len()
            ==> !expiry_victim(#[trigger] spec_install(spec_admit(v, now, operation_id, fingerprint).0, install_now, offer).0.offers[i], later),
    ensures
        ({
            let admitted = spec_admit(v, now, operation_id, fingerprint);
            let serial = admitted.1->Ok_0->Created_serial;
            let installed = spec_install(admitted.0, install_now, offer);
            let created = installed.1->Installed_0;
            let completed = spec_complete(installed.0, operation_id, serial, Ok(created));
            spec_admit(completed, later, operation_id, fingerprint).1
                == Ok::<AdmissionView, PairingError>(AdmissionView::Replay(Ok(created)))
        }),
{
    let admitted = spec_admit(v, now, operation_id, fingerprint);
    let serial = admitted.1->Ok_0->Created_serial;
    let ve = spec_expire(v, now);
    lemma_expire_wf(v, now);
    lemma_swept_clean(v, now);
    lemma_operation_index(ve.operations, operation_id);
    let v1 = admitted.0;
    assert(v1.offers == ve.offers);
    lemma_sweep_noop(v1, now);
    if install_now != now {
        lemma_sweep_noop(v1, install_now);
    }
    let installed = spec_install(v1, install_now, offer);
    let created = installed.1->Installed_0;
    let record = issued_record(offer);
    let point = insertion_point(v1.offers, offer.offer_id) as int;
    lemma_offer_index(v1.offers, offer.offer_id);
    lemma_insertion_point(v1.offers, offer.offer_id);
    let v2 = installed.0;
    assert(v2 == with_offers(v1, v1.offers.insert(point, record)));
    let last = v1.operations.len() - 1;
    assert(v2.operations.drop_last() =~= ve.operations);
    assert(operation_index(v2.operations, operation_id) == last);
    let cell = v2.operations[last];
    assert(cell.serial == serial);
    assert(cell.outcome is None);
    let v3 = spec_complete(v2, operation_id, serial, Ok(created));
    let completed_cell = OperationView { outcome: Some(Ok(created)), ..cell };
    assert(v3.operations == v2.operations.update(last, completed_cell));
    assert forall|i: int| 0 <= i < v3.offers.len() implies !expiry_victim(#[trigger] v3.offers[i], install_now) by {
        if i < point {
            assert(v3.offers[i] == v1.offers[i]);
        } else if i > point {
            assert(v3.offers[i] == v1.offers[i - 1]);
        }
    }
    if later != install_now {
        assert forall|i: int| 0 <= i < v3.offers.len() implies !expiry_victim(#[trigger] v3.offers[i], later) by {
            assert(v3.offers[i] == v2.offers[i]);
        }
    }
    lemma_sweep_noop(v3, later);
    assert(v3.operations.drop_last() =~= v2.operations.drop_last());
    assert(operation_index(v3.operations, operation_id) == last);
}

/// Law: a challenge is prepared from the offer exactly as it was installed:
/// right after an offer is installed, and at any later instant at which no
/// live offer has expired, the Ready offer carries the installed identifier,
/// the installed Unix expiry and the installed ticket digest.
pub proof fn law_ready_offer_is_the_installed_offer(v: RegistryView, now: PairingNow, offer: IssuedOffer, later: PairingNow)
    requires
        registry_wf(v),
        spec_install(v, now, offer).1 is Installed,
        later == now || forall|i: int| 0 <= i < spec_install(v, now, offer).0.offers.len()
            ==> !expiry_victim(#[trigger] spec_install(v, now, offer).0.offers[i], later),
    ensures
        spec_ready(spec_install(v, now, offer).0, later, offer.offer_id) == Ok::<ReadyOffer, PairingError>(ReadyOffer {
            offer_id: offer.offer_id,
            expires_at_unix: offer.expires_at_unix,
            ticket_digest: offer.ticket_digest,
        }),
        spec_offer_state(spec_install(v, now, offer).0, later, offer.offer_id) == Ok::<PairOfferState, PairingError>(PairOfferState::Ready),
{
    let v1 = spec_expire(v, now);
    lemma_expire_wf(v, now);
    lemma_swept_clean(v, now);
    let record = issued_record(offer);
    let id = offer.offer_id;
    lemma_offer_index(v1.offers, id);
    lemma_insertion_point(v1.offers, id);
    let point = insertion_point(v1.offers, id) as int;
    let v2 = spec_install(v, now, offer).0;
    assert(v2 == with_offers(v1, v1.offers.insert(point, record)));
    assert(v2.offers[point] == record);
    assert forall|i: int| 0 <= i < v2.offers.len() implies !expiry_victim(#[trigger] v2.offers[i], now) by {
        if i < point {
            assert(v2.offers[i] == v1.offers[i]);
        } else if i > point {
            assert(v2.offers[i] == v1.offers[i - 1]);
        }
    }
    lemma_sweep_noop(v2, later);
    lemma_offer_index(v2.offers, id);
    let index = offer_index(v2.offers, id);
    if index < point {
        assert(v2.offers[point].offer_id == id);
    } else if index > point {
        assert(v2.offers[index] == v1.offers[index - 1]);
    }
    assert(index == point);
}

/// Law: the snapshot counts every live offer exactly once, and at any instant
/// every count it reports stays within the live-offer bound: Ready plus
/// Consuming offers, operation cells, retired operations, and consumed plus
/// expired tombstones. A fresh registry reports all zeros.
pub proof fn law_snapshot_counts_live_offers(v: RegistryView, now: PairingNow)
    requires
        registry_wf(v),
    ensures
        count_ready(v.offers) + count_consuming(v.offers) == v.offers.len(),
        count_ready(v.offers) + count_consuming(v.offers) <= v.max_live,
        ({
            let s = spec_snapshot(spec_expire(v, now));
            &&& s.ready_offers + s.consuming_offers <= v.max_live
            &&& s.operation_cells <= v.max_live
            &&& s.retired_operation_tombstones <= v.max_live
            &&& s.consumed_tombstones + s.expired_tombstones <= v.max_live
        }),
        (v.offers.len() == 0 && v.operations.len() == 0 && v.retired_offers.len() == 0
            && v.retired_operations.len() == 0) ==> spec_snapshot(v) == empty_snapshot(),
{
    lemma_counts(v.offers);
    let w = spec_expire(v, now);
    lemma_expire_wf(v, now);
    lemma_counts(w.offers);
    lemma_tombstone_counts(w.retired_offers);
}

/// The snapshot of a registry that holds nothing.
pub open spec fn empty_snapshot() -> PairingSnapshot {
    PairingSnapshot {
        ready_offers: 0,
        consuming_offers: 0,
        operation_cells: 0,
        retired_operation_tombstones: 0,
        consumed_tombstones: 0,
        expired_tombstones: 0,
    }
}

/// Consumed and expired tombstones are counted among the retired offers.
proof fn lemma_tombstone_counts(log: Seq<Tombstone>)
    ensures
        count_error(log, PairingError::TicketConsumed) + count_error(log, PairingError::TicketExpired) <= log.len(),
    decreases log.len(),
{
    if log.len() > 0 {
        lemma_tombstone_counts(log.drop_last());
    }
}

proof fn lemma_counts(offers: Seq<OfferRecord>)
    ensures
        count_ready(offers) + count_consuming(offers) == offers.len(),
    decreases offers.len(),
{
    if offers.len() > 0 {
        lemma_counts(offers.drop_last());
    }
}

} // verus!
