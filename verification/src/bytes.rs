//! Byte strings: comparing and copying them.

use vstd::prelude::*;

verus! {

/// Whether two byte strings are the same.
pub fn bytes_equal(first: &Vec<u8>, second: &Vec<u8>) -> (same: bool)
    ensures
        same == (first@ == second@),
{
    if first.len() != second.len() {
        return false;
    }
    let mut index: usize = 0;
    while index < first.len()
        invariant
            first@.len() == second@.len(),
            index <= first@.len(),
            first@.take(index as int) == second@.take(index as int),
        decreases first@.len() - index,
    {
        if first[index] != second[index] {
            return false;
        }
        proof {
            assert(first@.take(index + 1) == first@.take(index as int).push(first@[index as int]));
            assert(second@.take(index + 1) == second@.take(index as int).push(
                second@[index as int],
            ));
        }
        index = index + 1;
    }
    proof {
        assert(first@.take(index as int) == first@);
        assert(second@.take(index as int) == second@);
    }
    true
}

/// A copy of a byte string.
pub fn copy_bytes(bytes: &Vec<u8>) -> (copy: Vec<u8>)
    ensures
        copy@ == bytes@,
{
    let mut copy: Vec<u8> = Vec::new();
    let mut index: usize = 0;
    while index < bytes.len()
        invariant
            index <= bytes@.len(),
            copy@ == bytes@.take(index as int),
        decreases bytes@.len() - index,
    {
        copy.push(bytes[index]);
        proof {
            assert(bytes@.take(index + 1) == bytes@.take(index as int).push(bytes@[index as int]));
        }
        index = index + 1;
    }
    proof {
        assert(bytes@.take(index as int) == bytes@);
    }
    copy
}

} // verus!
