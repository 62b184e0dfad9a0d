//! The round-trip law of the protocol, run and proved end to end.

use vstd::prelude::*;
use vstd::pervasive::unreached;
use crate::integrity::Integrity;
use crate::receiver::SegmentReceiver;
use crate::sender::SegmentSender;

verus! {

/// Sends `msg` through a sender and hands every segment, unchanged, to
/// a receiver on the same integrity function, relaying each
/// acknowledgment back: the reassembled message equals the original,
/// whatever its length and whatever the segment size.
///
/// This is the protocol's round-trip law over a lossless exchange; an
/// I/O loop differs from this one only in carrying the same bytes
/// through a transport.
pub fn loopback_transfer(msg: Vec<u8>, seg_size: usize, integrity: Integrity) -> (r: Vec<u8>)
    requires
        seg_size >= 1,
    ensures
        r@ == msg@,
{
    let ghost msg_seq = msg@;
    let mut sender = SegmentSender::new(msg, seg_size, integrity);
    let mut receiver = SegmentReceiver::new(integrity);
    while !sender.done()
        invariant
            seg_size >= 1,
            sender.wf(),
            sender.msg_seq() == msg_seq,
            sender.seg_limit() == seg_size,
            sender.kind() == integrity,
            receiver.kind() == integrity,
            receiver.received() == msg_seq.take(sender.sent() as int),
            receiver.is_finished() == sender.is_finished(),
            receiver.declared_whole() matches Some(w) ==> w == msg_seq.len(),
        decreases msg_seq.len() - sender.sent() + (if sender.is_finished() {
            0int
        } else {
            1int
        }),
    {
        let header = sender.current_header();
        let payload = sender.current_payload();
        let ghost seg_end = sender.sent() + sender.spec_seg_len();
        let ack = match receiver.process(&header, payload) {
            Ok(ack) => ack,
            Err(_) => unreached(),
        };
        match sender.acknowledge(&ack) {
            Ok(()) => (),
            Err(_) => unreached(),
        }
        proof {
            assert(receiver.received() =~= msg_seq.take(seg_end as int));
        }
    }
    proof {
        assert(msg_seq.take(msg_seq.len() as int) =~= msg_seq);
    }
    receiver.into_message()
}

} // verus!
