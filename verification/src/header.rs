//! The fixed-layout header that precedes every segment on the wire.

use vstd::prelude::*;
use vstd::bytes::*;
use vstd::slice::{slice_index_get, slice_subrange};

verus! {

/// Byte length of an encoded header on the wire.
pub const HEADER_SIZE: usize = 32;

/// Flag bit: the segment is an acknowledgment, not data.
pub const RESPONSE_FLAG: u8 = 0x01;

/// Flag bit: the logical message spans more than one segment.
pub const SLICED_FLAG: u8 = 0x02;

/// Flag bit: the receiver confirms the segment's integrity check passed.
pub const CORRECT_FLAG: u8 = 0x10;

/// Metadata for one segment of one logical message.
///
/// `begin` is the segment's byte offset within the logical message,
/// `length` the byte count of its payload, and `whole_length` the byte
/// count of the whole logical message; `check` is the integrity value
/// computed over the payload alone.
#[derive(Clone, Copy, Debug, PartialEq, Eq, Structural)]
pub struct MessageHeader {
    pub version: u8,
    pub flag: u8,
    pub reserved: u16,
    pub begin: u64,
    pub length: u64,
    pub whole_length: u64,
    pub check: u32,
}

impl MessageHeader {
    /// True when the response bit is set.
    pub open spec fn spec_is_response(self) -> bool {
        self.flag & RESPONSE_FLAG != 0
    }

    /// True when the sliced bit is set.
    pub open spec fn spec_is_sliced(self) -> bool {
        self.flag & SLICED_FLAG != 0
    }

    /// True when the integrity-confirmed bit is set.
    pub open spec fn spec_is_correct(self) -> bool {
        self.flag & CORRECT_FLAG != 0
    }

    /// Whether this header marks an acknowledgment rather than data.
    pub fn is_response(&self) -> (r: bool)
        ensures
            r == self.spec_is_response(),
    {
        self.flag & RESPONSE_FLAG != 0
    }

    /// Whether the logical message is split into multiple segments.
    pub fn is_sliced(&self) -> (r: bool)
        ensures
            r == self.spec_is_sliced(),
    {
        self.flag & SLICED_FLAG != 0
    }

    /// Whether the receiver confirmed the segment's integrity check.
    pub fn is_correct(&self) -> (r: bool)
        ensures
            r == self.spec_is_correct(),
    {
        self.flag & CORRECT_FLAG != 0
    }

    /// Sets the response bit, leaving every other bit alone.
    pub fn set_response(&mut self)
        ensures
            final(self).flag == old(self).flag | RESPONSE_FLAG,
            *final(self) == (MessageHeader { flag: final(self).flag, ..*old(self) }),
    {
        self.flag = self.flag | RESPONSE_FLAG;
    }

    /// Sets the sliced bit, leaving every other bit alone.
    pub fn set_sliced(&mut self)
        ensures
            final(self).flag == old(self).flag | SLICED_FLAG,
            *final(self) == (MessageHeader { flag: final(self).flag, ..*old(self) }),
    {
        self.flag = self.flag | SLICED_FLAG;
    }

    /// Sets the integrity-confirmed bit, leaving every other bit alone.
    pub fn set_correct(&mut self)
        ensures
            final(self).flag == old(self).flag | CORRECT_FLAG,
            *final(self) == (MessageHeader { flag: final(self).flag, ..*old(self) }),
    {
        self.flag = self.flag | CORRECT_FLAG;
    }
}

impl Default for MessageHeader {
    /// A version-1 data header with no flags and all counters zero.
    fn default() -> (r: Self)
        ensures
            r == (MessageHeader {
                version: 1u8,
                flag: 0u8,
                reserved: 0u16,
                begin: 0u64,
                length: 0u64,
                whole_length: 0u64,
                check: 0u32,
            }),
    {
        MessageHeader {
            version: 1,
            flag: 0,
            reserved: 0,
            begin: 0,
            length: 0,
            whole_length: 0,
            check: 0,
        }
    }
}

/// The fixed wire image of a header: the two single-byte fields, then
/// each counter in little-endian order at its fixed offset and width.
pub open spec fn spec_header_bytes(h: MessageHeader) -> Seq<u8> {
    seq![h.version, h.flag] + spec_u16_to_le_bytes(h.reserved) + spec_u64_to_le_bytes(h.begin)
        + spec_u64_to_le_bytes(h.length) + spec_u64_to_le_bytes(h.whole_length)
        + spec_u32_to_le_bytes(h.check)
}

/// The header a 32-byte wire image decodes to. Every 32-byte image
/// decodes: no field has an invalid bit pattern.
pub open spec fn spec_header_from_bytes(b: Seq<u8>) -> MessageHeader {
    MessageHeader {
        version: b[0],
        flag: b[1],
        reserved: spec_u16_from_le_bytes(b.subrange(2, 4)),
        begin: spec_u64_from_le_bytes(b.subrange(4, 12)),
        length: spec_u64_from_le_bytes(b.subrange(12, 20)),
        whole_length: spec_u64_from_le_bytes(b.subrange(20, 28)),
        check: spec_u32_from_le_bytes(b.subrange(28, 32)),
    }
}

impl MessageHeader {
    /// Encodes the header as its fixed 32-byte wire image.
    pub fn to_bytes(&self) -> (r: Vec<u8>)
        ensures
            r@ == spec_header_bytes(*self),
            r@.len() == HEADER_SIZE,
    {
        let mut out: Vec<u8> = Vec::new();
        out.push(self.version);
        out.push(self.flag);
        let mut reserved = u16_to_le_bytes(self.reserved);
        out.append(&mut reserved);
        let mut begin = u64_to_le_bytes(self.begin);
        out.append(&mut begin);
        let mut length = u64_to_le_bytes(self.length);
        out.append(&mut length);
        let mut whole_length = u64_to_le_bytes(self.whole_length);
        out.append(&mut whole_length);
        let mut check = u32_to_le_bytes(self.check);
        out.append(&mut check);
        proof {
            assert(out@ =~= spec_header_bytes(*self));
        }
        out
    }

    /// Decodes a 32-byte wire image back into a header.
    pub fn from_bytes(bytes: &[u8]) -> (r: MessageHeader)
        requires
            bytes@.len() == HEADER_SIZE,
        ensures
            r == spec_header_from_bytes(bytes@),
    {
        let version = *slice_index_get(bytes, 0);
        let flag = *slice_index_get(bytes, 1);
        let reserved = u16_from_le_bytes(slice_subrange(bytes, 2, 4));
        let begin = u64_from_le_bytes(slice_subrange(bytes, 4, 12));
        let length = u64_from_le_bytes(slice_subrange(bytes, 12, 20));
        let whole_length = u64_from_le_bytes(slice_subrange(bytes, 20, 28));
        let check = u32_from_le_bytes(slice_subrange(bytes, 28, 32));
        MessageHeader { version, flag, reserved, begin, length, whole_length, check }
    }
}

/// Encoding then decoding a header reproduces every field exactly.
pub proof fn lemma_header_round_trip(h: MessageHeader)
    ensures
        spec_header_from_bytes(spec_header_bytes(h)) == h,
{
    lemma_auto_spec_u16_to_from_le_bytes();
    lemma_auto_spec_u32_to_from_le_bytes();
    lemma_auto_spec_u64_to_from_le_bytes();
    let b = spec_header_bytes(h);
    assert(b.subrange(2, 4) =~= spec_u16_to_le_bytes(h.reserved));
    assert(b.subrange(4, 12) =~= spec_u64_to_le_bytes(h.begin));
    assert(b.subrange(12, 20) =~= spec_u64_to_le_bytes(h.length));
    assert(b.subrange(20, 28) =~= spec_u64_to_le_bytes(h.whole_length));
    assert(b.subrange(28, 32) =~= spec_u32_to_le_bytes(h.check));
}

/// Decoding then encoding a 32-byte wire image reproduces it byte for
/// byte: the encoding is a bijection between headers and 32-byte images.
pub proof fn lemma_header_bytes_round_trip(b: Seq<u8>)
    requires
        b.len() == HEADER_SIZE,
    ensures
        spec_header_bytes(spec_header_from_bytes(b)) == b,
{
    lemma_auto_spec_u16_to_from_le_bytes();
    lemma_auto_spec_u32_to_from_le_bytes();
    lemma_auto_spec_u64_to_from_le_bytes();
    let h = spec_header_from_bytes(b);
    assert(spec_header_bytes(h) =~= b);
}

/// Setting one flag never clears another: each of the three test bits
/// keeps its value when a different bit is set by bitwise OR.
pub proof fn lemma_flag_or_preserves_others(flag: u8, set_bit: u8, test_bit: u8)
    requires
        set_bit == RESPONSE_FLAG || set_bit == SLICED_FLAG || set_bit == CORRECT_FLAG,
        test_bit == RESPONSE_FLAG || test_bit == SLICED_FLAG || test_bit == CORRECT_FLAG,
        set_bit != test_bit,
    ensures
        ((flag | set_bit) & test_bit != 0) == (flag & test_bit != 0),
{
    assert(((flag | set_bit) & test_bit != 0) == (flag & test_bit != 0)) by (bit_vector)
        requires
            set_bit == 0x01u8 || set_bit == 0x02u8 || set_bit == 0x10u8,
            test_bit == 0x01u8 || test_bit == 0x02u8 || test_bit == 0x10u8,
            set_bit != test_bit,
    ;
}

} // verus!
