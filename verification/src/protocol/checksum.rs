//! Checksum of a frame: the sum of its payload bytes modulo 256.

use vstd::prelude::*;

verus! {

/// Sum of the bytes of a sequence.
pub open spec fn spec_byte_sum(data: Seq<u8>) -> nat
    decreases data.len(),
{
    if data.len() == 0 {
        0
    } else {
        spec_byte_sum(data.drop_last()) + data.last() as nat
    }
}

/// Checksum of a payload: the sum of its bytes modulo 256.
pub open spec fn spec_checksum(data: Seq<u8>) -> u8 {
    (spec_byte_sum(data) % 256) as u8
}

/// Whether the last byte of a sequence is the checksum of the bytes before it.
pub open spec fn spec_validate_checksum(data: Seq<u8>) -> bool {
    data.len() > 0 && data.last() == spec_checksum(data.drop_last())
}

/// Checksum of a payload: the sum of its bytes modulo 256.
pub fn calculate_checksum(data: &[u8]) -> (checksum: u8)
    ensures
        checksum == spec_checksum(data@),
{
    let mut acc: u8 = 0;
    let mut i: usize = 0;
    while i < data.len()
        invariant
            i <= data.len(),
            acc == spec_checksum(data@.take(i as int)),
        decreases data.len() - i,
    {
        proof {
            assert(data@.take(i + 1).drop_last() =~= data@.take(i as int));
        }
        acc = ((acc as u16 + data[i] as u16) % 256) as u8;
        i = i + 1;
    }
    proof {
        assert(data@.take(i as int) =~= data@);
    }
    acc
}

/// Whether the last byte of `data` is the checksum of the bytes before it.
/// Empty data carries no checksum and is not valid.
pub fn validate_checksum(data: &[u8]) -> (valid: bool)
    ensures
        valid == spec_validate_checksum(data@),
{
    if data.len() == 0 {
        return false;
    }
    let last = data.len() - 1;
    let expected = calculate_checksum(&data[0..last]);
    proof {
        assert(data@.subrange(0, last as int) =~= data@.drop_last());
    }
    data[last] == expected
}

} // verus!
