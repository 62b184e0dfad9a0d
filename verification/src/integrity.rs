//! The pluggable integrity function computed over every segment payload.

use vstd::prelude::*;

verus! {

/// Which integrity function a session runs over segment payloads.
///
/// `Stub` is the placeholder that accepts every payload: with it every
/// segment trivially passes verification, so it gives no integrity
/// guarantee and exists only as the default to be replaced. `ByteSum`
/// sums the payload bytes modulo `2^32`, which catches any single
/// flipped bit.
#[derive(Clone, Copy, Debug, PartialEq, Eq, Structural)]
pub enum Integrity {
    Stub,
    ByteSum,
}

/// The sum of the bytes of `data`, wrapping modulo `2^32`.
pub open spec fn spec_byte_sum(data: Seq<u8>) -> u32
    decreases data.len(),
{
    if data.len() == 0 {
        0u32
    } else {
        vstd::wrapping::u32_specs::wrapping_add(spec_byte_sum(data.drop_last()), data.last() as u32)
    }
}

/// The value the chosen integrity function assigns to `data`.
pub open spec fn spec_checksum(kind: Integrity, data: Seq<u8>) -> u32 {
    match kind {
        Integrity::Stub => 0u32,
        Integrity::ByteSum => spec_byte_sum(data),
    }
}

impl Integrity {
    /// Computes this integrity function over `data`.
    pub fn checksum(&self, data: &[u8]) -> (r: u32)
        ensures
            r == spec_checksum(*self, data@),
    {
        match self {
            Integrity::Stub => 0,
            Integrity::ByteSum => byte_sum(data),
        }
    }
}

/// Sums the bytes of `data`, wrapping modulo `2^32`.
pub fn byte_sum(data: &[u8]) -> (r: u32)
    ensures
        r == spec_byte_sum(data@),
{
    let mut sum: u32 = 0;
    let mut i: usize = 0;
    while i < data.len()
        invariant
            i <= data@.len(),
            sum == spec_byte_sum(data@.take(i as int)),
        decreases data@.len() - i,
    {
        proof {
            assert(data@.take(i + 1).drop_last() =~= data@.take(i as int));
        }
        sum = sum.wrapping_add(data[i] as u32);
        i = i + 1;
    }
    proof {
        assert(data@.take(data@.len() as int) =~= data@);
    }
    sum
}

/// Corrupting a single byte of a payload — in particular flipping one
/// of its bits — always changes the ByteSum checksum: two payloads of
/// equal length that agree everywhere but at one index have different
/// checksums, so a segment corrupted that way never matches its
/// header's checksum and the receiver refuses it.
pub proof fn lemma_byte_sum_detects_byte_change(a: Seq<u8>, b: Seq<u8>, i: int)
    requires
        a.len() == b.len(),
        0 <= i < a.len(),
        a[i] != b[i],
        forall|j: int| 0 <= j < a.len() && j != i ==> a[j] == b[j],
    ensures
        spec_checksum(Integrity::ByteSum, a) != spec_checksum(Integrity::ByteSum, b),
    decreases a.len(),
{
    if i == a.len() - 1 {
        assert(a.drop_last() =~= b.drop_last());
    } else {
        lemma_byte_sum_detects_byte_change(a.drop_last(), b.drop_last(), i);
        assert(a.last() == b.last());
    }
}

/// The placeholder integrity function of the reference configuration:
/// it maps every payload to zero, so it confirms every segment.
pub fn default_checksum(data: &[u8]) -> (r: u32)
    ensures
        r == spec_checksum(Integrity::Stub, data@),
        r == 0,
{
    let _ = data;
    0
}

} // verus!
