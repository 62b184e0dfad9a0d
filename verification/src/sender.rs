//! The sending half of the stop-and-wait segment protocol.

use vstd::prelude::*;
use vstd::slice::{slice_subrange, slice_to_vec};
use crate::error::ProtocolError;
use crate::header::{MessageHeader, SLICED_FLAG};
use crate::integrity::{Integrity, spec_checksum};

verus! {

/// The reference maximum payload size of one segment.
pub const DEFAULT_SEGMENT_SIZE: usize = 1024;

/// How many refused deliveries of one segment are retried before the
/// link is reported unreliable.
pub const RETRY_LIMIT: u32 = 16;

/// How many segments carry a message of `len` bytes when each segment
/// holds at most `s` payload bytes: an empty message still takes one
/// (empty) segment, so that the receiver sees one header exchange.
pub open spec fn spec_segment_count(len: nat, s: nat) -> nat {
    if len == 0 {
        1
    } else {
        ((len + s - 1) / (s as int)) as nat
    }
}

/// Drives one logical message through the per-segment
/// send / await-acknowledgment / retry exchange.
///
/// The caller (the I/O loop) repeatedly takes `current_header` and
/// `current_payload`, writes both to the transport, reads one header
/// back as the acknowledgment and hands it to `acknowledge`, until
/// `done`. A rejected segment leaves the cursor alone, so the same
/// segment is offered again, at most `RETRY_LIMIT` times: a persistently
/// corrupting link is reported as unreliable instead of being retried
/// for ever.
pub struct SegmentSender {
    msg: Vec<u8>,
    seg_size: usize,
    integrity: Integrity,
    cursor: usize,
    finished: bool,
    acked: usize,
    retries_left: u32,
}

impl SegmentSender {
    /// The logical message being sent.
    pub closed spec fn msg_seq(&self) -> Seq<u8> {
        self.msg@
    }

    /// The maximum payload size of one segment.
    pub closed spec fn seg_limit(&self) -> nat {
        self.seg_size as nat
    }

    /// The integrity function checksums are computed with.
    pub closed spec fn kind(&self) -> Integrity {
        self.integrity
    }

    /// How many message bytes have been acknowledged so far.
    pub closed spec fn sent(&self) -> nat {
        self.cursor as nat
    }

    /// Whether the whole message has been acknowledged.
    pub closed spec fn is_finished(&self) -> bool {
        self.finished
    }

    /// How many segments have been acknowledged so far.
    pub closed spec fn acked_count(&self) -> nat {
        self.acked as nat
    }

    /// How many more refusals of the current segment are tolerated.
    pub closed spec fn spec_retries_left(&self) -> nat {
        self.retries_left as nat
    }

    /// The payload size of the segment currently on offer.
    pub open spec fn spec_seg_len(&self) -> nat {
        if self.msg_seq().len() - self.sent() < self.seg_limit() {
            (self.msg_seq().len() - self.sent()) as nat
        } else {
            self.seg_limit()
        }
    }

    /// The sender's invariant: the cursor never passes the message end,
    /// every acknowledged segment before the last was full, and on
    /// completion exactly `spec_segment_count` segments were exchanged.
    pub open spec fn wf(&self) -> bool {
        &&& self.seg_limit() >= 1
        &&& self.sent() <= self.msg_seq().len()
        &&& (self.is_finished() ==> self.sent() == self.msg_seq().len())
        &&& (!self.is_finished() ==> self.sent() == self.acked_count() * self.seg_limit())
        &&& (!self.is_finished() && self.msg_seq().len() > 0 ==> self.sent()
            < self.msg_seq().len())
        &&& (self.is_finished() ==> self.acked_count() == spec_segment_count(
            self.msg_seq().len(),
            self.seg_limit(),
        ))
    }

    /// Starts sending `msg` in segments of at most `seg_size` bytes.
    pub fn new(msg: Vec<u8>, seg_size: usize, integrity: Integrity) -> (r: Self)
        requires
            seg_size >= 1,
        ensures
            r.wf(),
            r.msg_seq() == msg@,
            r.seg_limit() == seg_size,
            r.kind() == integrity,
            r.sent() == 0,
            !r.is_finished(),
            r.acked_count() == 0,
            r.spec_retries_left() == RETRY_LIMIT,
    {
        SegmentSender {
            msg,
            seg_size,
            integrity,
            cursor: 0,
            finished: false,
            acked: 0,
            retries_left: RETRY_LIMIT,
        }
    }

    /// Whether every byte of the message has been acknowledged.
    pub fn done(&self) -> (r: bool)
        ensures
            r == self.is_finished(),
    {
        self.finished
    }

    /// How many segments have been acknowledged so far; once `done`,
    /// that is exactly `spec_segment_count` of the message, one even for
    /// an empty message.
    pub fn segments_acknowledged(&self) -> (r: usize)
        ensures
            r == self.acked_count(),
    {
        self.acked
    }

    /// The header of the segment currently on offer: its offset, length
    /// and whole-message length, the checksum of its payload, and the
    /// sliced flag exactly when the message is longer than one segment.
    pub fn current_header(&self) -> (r: MessageHeader)
        requires
            self.wf(),
            !self.is_finished(),
        ensures
            r.version == 1,
            r.reserved == 0,
            r.begin == self.sent(),
            r.length == self.spec_seg_len(),
            r.whole_length == self.msg_seq().len(),
            r.check == spec_checksum(
                self.kind(),
                self.msg_seq().subrange(
                    self.sent() as int,
                    self.sent() + self.spec_seg_len() as int,
                ),
            ),
            r.flag == (if self.msg_seq().len() > self.seg_limit() {
                SLICED_FLAG
            } else {
                0u8
            }),
            !r.spec_is_response(),
            !r.spec_is_correct(),
            r.spec_is_sliced() <==> self.msg_seq().len() > self.seg_limit(),
    {
        let seg_len = self.current_seg_len();
        let flag: u8 = if self.msg.len() > self.seg_size {
            SLICED_FLAG
        } else {
            0
        };
        proof {
            assert(SLICED_FLAG & 0x01u8 == 0 && SLICED_FLAG & 0x10u8 == 0 && SLICED_FLAG & 0x02u8
                != 0 && 0u8 & 0x01u8 == 0 && 0u8 & 0x10u8 == 0 && 0u8 & 0x02u8 == 0)
                by (bit_vector);
        }
        let payload = slice_subrange(self.msg.as_slice(), self.cursor, self.cursor + seg_len);
        let check = self.integrity.checksum(payload);
        MessageHeader {
            version: 1,
            flag,
            reserved: 0,
            begin: self.cursor as u64,
            length: seg_len as u64,
            whole_length: self.msg.len() as u64,
            check,
        }
    }

    /// A copy of the payload bytes of the segment currently on offer.
    pub fn current_payload(&self) -> (r: Vec<u8>)
        requires
            self.wf(),
            !self.is_finished(),
        ensures
            r@ == self.msg_seq().subrange(self.sent() as int, self.sent() + self.spec_seg_len() as int),
    {
        let seg_len = self.current_seg_len();
        let end = self.msg.len();
        proof {
            assert(self.cursor + seg_len <= end);
        }
        slice_to_vec(slice_subrange(self.msg.as_slice(), self.cursor, self.cursor + seg_len))
    }

    /// Consumes the acknowledgment header read back from the peer. An
    /// acknowledgment carrying both the response and the
    /// integrity-confirmed flags accepts the segment on offer, moves the
    /// cursor past it and restores the retry budget; any other header
    /// leaves the cursor alone, so the same segment is offered again,
    /// until the budget runs out and the link is reported unreliable.
    pub fn acknowledge(&mut self, ack: &MessageHeader) -> (r: Result<(), ProtocolError>)
        requires
            old(self).wf(),
            !old(self).is_finished(),
        ensures
            final(self).wf(),
            final(self).msg_seq() == old(self).msg_seq(),
            final(self).seg_limit() == old(self).seg_limit(),
            final(self).kind() == old(self).kind(),
            ack.spec_is_response() && ack.spec_is_correct() ==> {
                &&& r is Ok
                &&& final(self).sent() == old(self).sent() + old(self).spec_seg_len()
                &&& final(self).acked_count() == old(self).acked_count() + 1
                &&& (final(self).is_finished() <==> final(self).sent() == old(
                    self,
                ).msg_seq().len())
                &&& final(self).spec_retries_left() == RETRY_LIMIT
            },
            !(ack.spec_is_response() && ack.spec_is_correct()) ==> {
                &&& final(self).sent() == old(self).sent()
                &&& final(self).is_finished() == old(self).is_finished()
                &&& final(self).acked_count() == old(self).acked_count()
                &&& (old(self).spec_retries_left() > 0 ==> r is Ok
                    && final(self).spec_retries_left() == old(self).spec_retries_left() - 1)
                &&& (old(self).spec_retries_left() == 0 ==> r == Err::<(), ProtocolError>(
                    ProtocolError::LinkUnreliable,
                ) && *final(self) == *old(self))
            },
    {
        if ack.is_response() && ack.is_correct() {
            let seg_len = self.current_seg_len();
            let end = self.msg.len();
            proof {
                assert(self.cursor + seg_len <= end);
                assert(self.acked <= self.acked * self.seg_size) by (nonlinear_arith)
                    requires
                        self.seg_size >= 1,
                        self.acked >= 0,
                ;
            }
            let ghost prev_acked = self.acked as nat;
            let ghost s = self.seg_size as nat;
            self.cursor = self.cursor + seg_len;
            self.acked = self.acked + 1;
            self.finished = self.cursor == self.msg.len();
            proof {
                if self.finished {
                    if self.msg@.len() == 0 {
                        assert(prev_acked == 0) by (nonlinear_arith)
                            requires
                                prev_acked * s == 0,
                                s >= 1,
                        ;
                    }
                    lemma_segment_count_reached(self.msg@.len(), s, prev_acked, seg_len as nat);
                } else {
                    assert((prev_acked + 1) * s == prev_acked * s + s) by (nonlinear_arith);
                }
            }
            self.retries_left = RETRY_LIMIT;
            Ok(())
        } else if self.retries_left > 0 {
            self.retries_left = self.retries_left - 1;
            Ok(())
        } else {
            Err(ProtocolError::LinkUnreliable)
        }
    }

    /// The payload size of the segment currently on offer.
    fn current_seg_len(&self) -> (r: usize)
        requires
            self.wf(),
            !self.is_finished(),
        ensures
            r == self.spec_seg_len(),
            self.sent() + r <= self.msg_seq().len(),
    {
        if self.msg.len() - self.cursor < self.seg_size {
            self.msg.len() - self.cursor
        } else {
            self.seg_size
        }
    }
}

/// After `k` full segments and one final segment of `seg` bytes, the
/// whole message of `k * s + seg` bytes took exactly
/// `spec_segment_count` segments.
proof fn lemma_segment_count_reached(len: nat, s: nat, k: nat, seg: nat)
    requires
        s >= 1,
        len == k * s + seg,
        len == 0 ==> seg == 0 && k == 0,
        len > 0 ==> 0 < seg <= s,
    ensures
        spec_segment_count(len, s) == k + 1,
{
    if len > 0 {
        assert((len + s - 1) / (s as int) == k + 1) by (nonlinear_arith)
            requires
                s >= 1,
                len == k * s + seg,
                0 < seg <= s,
        ;
    }
}

} // verus!
