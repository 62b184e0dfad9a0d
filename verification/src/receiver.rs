//! The receiving half of the stop-and-wait segment protocol.

use vstd::prelude::*;
use crate::error::ProtocolError;
use crate::header::{MessageHeader, RESPONSE_FLAG, CORRECT_FLAG};
use crate::integrity::{Integrity, spec_checksum};

verus! {

/// Reassembles one logical message from the segments the peer sends.
///
/// The caller (the I/O loop) reads one header and then exactly the
/// payload length that header declares, hands both to `process`, and
/// writes the returned acknowledgment back to the peer; it repeats this
/// until `done`, then takes the accumulated message.
pub struct SegmentReceiver {
    acc: Vec<u8>,
    integrity: Integrity,
    finished: bool,
    whole: Option<u64>,
}

impl SegmentReceiver {
    /// The message bytes accepted so far.
    pub closed spec fn received(&self) -> Seq<u8> {
        self.acc@
    }

    /// The integrity function checksums are verified with.
    pub closed spec fn kind(&self) -> Integrity {
        self.integrity
    }

    /// Whether the final segment of the message has been accepted.
    pub closed spec fn is_finished(&self) -> bool {
        self.finished
    }

    /// The whole-message length the first well-formed header declared,
    /// which every later header of the message must repeat.
    pub closed spec fn declared_whole(&self) -> Option<u64> {
        self.whole
    }

    /// Whether `h` is consistent with the message so far: its offset
    /// continues the bytes accepted, its segment stays inside its
    /// declared whole-message length, and that length agrees with the
    /// one declared before.
    pub open spec fn header_fits(&self, h: MessageHeader) -> bool {
        &&& h.begin == self.received().len()
        &&& h.begin + h.length <= h.whole_length
        &&& (self.declared_whole() matches Some(w) ==> h.whole_length == w)
    }

    /// Starts receiving one logical message with an empty accumulator.
    pub fn new(integrity: Integrity) -> (r: Self)
        ensures
            r.received() == Seq::<u8>::empty(),
            r.kind() == integrity,
            !r.is_finished(),
            r.declared_whole() is None,
    {
        let acc: Vec<u8> = Vec::new();
        proof {
            assert(acc@ =~= Seq::<u8>::empty());
        }
        SegmentReceiver { acc, integrity, finished: false, whole: None }
    }

    /// Whether the final segment of the message has been accepted.
    pub fn done(&self) -> (r: bool)
        ensures
            r == self.is_finished(),
    {
        self.finished
    }

    /// Consumes one segment. A header that does not fit the bytes
    /// accepted so far is fatal for the message. Otherwise the payload's
    /// checksum decides: on a match the payload is appended and the
    /// returned acknowledgment confirms it; on a mismatch nothing is
    /// kept and the acknowledgment, lacking the confirmed flag, asks the
    /// peer to resend the same segment. The message is complete when the
    /// accepted segment ends exactly at the declared whole length.
    pub fn process(&mut self, h: &MessageHeader, payload: Vec<u8>) -> (r: Result<
        MessageHeader,
        ProtocolError,
    >)
        requires
            !old(self).is_finished(),
            payload@.len() == h.length,
        ensures
            final(self).kind() == old(self).kind(),
            r.is_ok() <==> old(self).header_fits(*h),
            r is Err ==> r == Err::<MessageHeader, ProtocolError>(ProtocolError::MalformedHeader)
                && *final(self) == *old(self),
            r is Ok ==> final(self).declared_whole() == Some(h.whole_length),
            r matches Ok(ack) ==> {
                &&& ack.version == 1
                &&& ack.reserved == 0
                &&& ack.begin == h.begin
                &&& ack.length == h.length
                &&& ack.whole_length == 0
                &&& ack.check == 0
                &&& ack.flag == (if spec_checksum(old(self).kind(), payload@) == h.check {
                    RESPONSE_FLAG | CORRECT_FLAG
                } else {
                    RESPONSE_FLAG
                })
                &&& ack.spec_is_response()
                &&& !ack.spec_is_sliced()
                &&& (ack.spec_is_correct() <==> spec_checksum(old(self).kind(), payload@)
                    == h.check)
                &&& (spec_checksum(old(self).kind(), payload@) == h.check ==> {
                    &&& final(self).received() == old(self).received() + payload@
                    &&& (final(self).is_finished() <==> h.begin + h.length == h.whole_length)
                })
                &&& (spec_checksum(old(self).kind(), payload@) != h.check ==> final(self).received()
                    == old(self).received() && final(self).is_finished() == old(
                    self,
                ).is_finished())
            },
    {
        if !(h.begin == self.acc.len() as u64 && h.begin <= h.whole_length && h.length
            <= h.whole_length - h.begin) {
            return Err(ProtocolError::MalformedHeader);
        }
        if let Some(w) = self.whole {
            if h.whole_length != w {
                return Err(ProtocolError::MalformedHeader);
            }
        }
        self.whole = Some(h.whole_length);
        proof {
            assert(RESPONSE_FLAG & 0x01u8 != 0 && RESPONSE_FLAG & 0x02u8 == 0 && RESPONSE_FLAG
                & 0x10u8 == 0 && (RESPONSE_FLAG | CORRECT_FLAG) & 0x01u8 != 0 && (RESPONSE_FLAG
                | CORRECT_FLAG) & 0x02u8 == 0 && (RESPONSE_FLAG | CORRECT_FLAG) & 0x10u8 != 0)
                by (bit_vector);
        }
        let mut payload = payload;
        let good = self.integrity.checksum(payload.as_slice()) == h.check;
        let flag: u8 = if good {
            RESPONSE_FLAG | CORRECT_FLAG
        } else {
            RESPONSE_FLAG
        };
        if good {
            self.acc.append(&mut payload);
            self.finished = h.begin + h.length == h.whole_length;
        }
        Ok(
            MessageHeader {
                version: 1,
                flag,
                reserved: 0,
                begin: h.begin,
                length: h.length,
                whole_length: 0,
                check: 0,
            },
        )
    }

    /// Gives up the reassembled message.
    pub fn into_message(self) -> (r: Vec<u8>)
        ensures
            r@ == self.received(),
    {
        self.acc
    }

    /// The bytes accepted so far, borrowed in place.
    pub fn message(&self) -> (r: &Vec<u8>)
        ensures
            r@ == self.received(),
    {
        &self.acc
    }
}

} // verus!
