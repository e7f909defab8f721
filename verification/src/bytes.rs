//! Fixed-width byte identifiers compared by value.

use vstd::prelude::*;

verus! {

/// Compares two 32-byte values element by element.
pub fn bytes32_eq(left: &[u8; 32], right: &[u8; 32]) -> (equal: bool)
    ensures
        equal == (left@ == right@),
{
    let mut index: usize = 0;
    while index < 32
        invariant
            0 <= index <= 32,
            left@.len() == 32,
            right@.len() == 32,
            forall|j: int| 0 <= j < index ==> left@[j] == right@[j],
        decreases 32 - index,
    {
        if left[index] != right[index] {
            return false;
        }
        index = index + 1;
    }
    assert(left@ =~= right@);
    true
}

/// Compares two byte strings element by element.
pub fn bytes_eq(left: &[u8], right: &[u8]) -> (equal: bool)
    ensures
        equal == (left@ == right@),
{
    if left.len() != right.len() {
        return false;
    }
    let mut index: usize = 0;
    while index < left.len()
        invariant
            0 <= index <= left@.len(),
            left@.len() == right@.len(),
            forall|j: int| 0 <= j < index ==> left@[j] == right@[j],
        decreases left@.len() - index,
    {
        if left[index] != right[index] {
            return false;
        }
        index = index + 1;
    }
    assert(left@ =~= right@);
    true
}

/// Copies a byte string into a fresh vector.
pub fn copy_bytes(source: &[u8]) -> (copy: Vec<u8>)
    ensures
        copy@ == source@,
{
    let mut copy: Vec<u8> = Vec::new();
    let mut index: usize = 0;
    while index < source.len()
        invariant
            0 <= index <= source@.len(),
            copy@ == source@.subrange(0, index as int),
        decreases source@.len() - index,
    {
        copy.push(source[index]);
        index = index + 1;
        assert(copy@ =~= source@.subrange(0, index as int));
    }
    assert(copy@ =~= source@);
    copy
}

} // verus!
