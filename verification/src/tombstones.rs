//! Bounded first-in-first-out tombstones of retired pairing identifiers.

use vstd::prelude::*;

use crate::pairing::PairingError;

verus! {

/// A retired identifier with the semantic fingerprint and terminal error it ended with.
#[derive(Clone, Copy, Debug)]
pub struct Tombstone {
    pub key: u128,
    pub fingerprint: [u8; 32],
    pub error: PairingError,
}

/// The log with every tombstone for `key` removed, order otherwise preserved.
pub open spec fn without_key(log: Seq<Tombstone>, key: u128) -> Seq<Tombstone>
    decreases log.len(),
{
    if log.len() == 0 {
        log
    } else {
        let rest = without_key(log.drop_last(), key);
        if log.last().key == key {
            rest
        } else {
            rest.push(log.last())
        }
    }
}

/// The newest `maximum` tombstones of the log.
pub open spec fn keep_newest(log: Seq<Tombstone>, maximum: nat) -> Seq<Tombstone> {
    if log.len() > maximum {
        log.subrange(log.len() - maximum, log.len() as int)
    } else {
        log
    }
}

/// The log after retiring `tombstone`: older entries for its key are dropped,
/// it becomes the newest entry, and the oldest entries beyond `maximum` are evicted.
pub open spec fn log_insert(log: Seq<Tombstone>, maximum: nat, tombstone: Tombstone) -> Seq<Tombstone> {
    keep_newest(without_key(log, tombstone.key).push(tombstone), maximum)
}

/// The newest tombstone recorded for `key`, if any.
pub open spec fn log_lookup(log: Seq<Tombstone>, key: u128) -> Option<Tombstone>
    decreases log.len(),
{
    if log.len() == 0 {
        None
    } else if log.last().key == key {
        Some(log.last())
    } else {
        log_lookup(log.drop_last(), key)
    }
}

/// Whether any tombstone for `key` is recorded.
pub open spec fn log_has(log: Seq<Tombstone>, key: u128) -> bool {
    log_lookup(log, key) is Some
}

/// The inserted tombstone is the newest lookup result for its key, when the log keeps anything.
pub proof fn lemma_log_insert_lookup(log: Seq<Tombstone>, maximum: nat, tombstone: Tombstone)
    requires
        maximum > 0,
    ensures
        log_lookup(log_insert(log, maximum, tombstone), tombstone.key) == Some(tombstone),
        log_insert(log, maximum, tombstone).len() <= maximum,
{
    let pushed = without_key(log, tombstone.key).push(tombstone);
    assert(pushed.drop_last() =~= without_key(log, tombstone.key));
    let kept = keep_newest(pushed, maximum);
    if pushed.len() > maximum {
        assert(kept.last() == pushed.last());
    }
}

/// Retires `tombstone` into a log holding at most `maximum` entries.
pub fn insert_tombstone(log: &mut Vec<Tombstone>, maximum: usize, tombstone: Tombstone)
    ensures
        final(log)@ == log_insert(old(log)@, maximum as nat, tombstone),
{
    let ghost initial = log@;
    let mut kept: Vec<Tombstone> = Vec::new();
    let mut index: usize = 0;
    while index < log.len()
        invariant
            0 <= index <= log@.len(),
            log@ == initial,
            kept@ == without_key(initial.subrange(0, index as int), tombstone.key),
        decreases log@.len() - index,
    {
        let entry = log[index];
        proof {
            assert(initial.subrange(0, index + 1).drop_last() =~= initial.subrange(0, index as int));
        }
        if entry.key != tombstone.key {
            kept.push(entry);
        }
        index = index + 1;
    }
    assert(initial.subrange(0, initial.len() as int) =~= initial);
    kept.push(tombstone);
    let ghost pushed = kept@;
    let mut start: usize = 0;
    if kept.len() > maximum {
        start = kept.len() - maximum;
    }
    let mut newest: Vec<Tombstone> = Vec::new();
    let mut position: usize = start;
    while position < kept.len()
        invariant
            start <= position <= kept@.len(),
            kept@ == pushed,
            newest@ == pushed.subrange(start as int, position as int),
        decreases kept@.len() - position,
    {
        newest.push(kept[position]);
        position = position + 1;
        assert(newest@ =~= pushed.subrange(start as int, position as int));
    }
    assert(newest@ =~= keep_newest(pushed, maximum as nat));
    *log = newest;
}

/// Finds the newest tombstone recorded for `key`.
pub fn lookup_tombstone(log: &Vec<Tombstone>, key: u128) -> (found: Option<Tombstone>)
    ensures
        found == log_lookup(log@, key),
{
    let mut index: usize = log.len();
    assert(log@.subrange(0, index as int) =~= log@);
    while index > 0
        invariant
            0 <= index <= log@.len(),
            log_lookup(log@, key) == log_lookup(log@.subrange(0, index as int), key),
        decreases index,
    {
        let entry = log[index - 1];
        proof {
            assert(log@.subrange(0, index as int).drop_last() =~= log@.subrange(0, index - 1));
        }
        if entry.key == key {
            return Some(entry);
        }
        index = index - 1;
    }
    None
}

} // verus!
