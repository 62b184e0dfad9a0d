use ptstd::error::ProtocolError;
use ptstd::header::{MessageHeader, HEADER_SIZE};
use ptstd::integrity::{byte_sum, default_checksum, Integrity};
use ptstd::receiver::SegmentReceiver;
use ptstd::sender::{SegmentSender, DEFAULT_SEGMENT_SIZE, RETRY_LIMIT};
use ptstd::transfer::loopback_transfer;

fn sample_message(n: usize) -> Vec<u8> {
    (0..n).map(|i| (i % 251) as u8).collect()
}

#[test]
fn header_round_trip() {
    let h = MessageHeader {
        version: 7,
        flag: 0x13,
        reserved: 0xbeef,
        begin: 0x0123456789abcdef,
        length: 0xfedcba9876543210,
        whole_length: u64::MAX,
        check: 0xdeadbeef,
    };
    let bytes = h.to_bytes();
    assert_eq!(bytes.len(), HEADER_SIZE);
    let back = MessageHeader::from_bytes(&bytes);
    assert_eq!(back, h);
}

#[test]
fn header_wire_layout() {
    let h = MessageHeader {
        version: 1,
        flag: 2,
        reserved: 0x0304,
        begin: 5,
        length: 6,
        whole_length: 7,
        check: 8,
    };
    let b = h.to_bytes();
    assert_eq!(b[0], 1);
    assert_eq!(b[1], 2);
    assert_eq!(&b[2..4], &[0x04, 0x03]);
    assert_eq!(&b[4..12], &[5, 0, 0, 0, 0, 0, 0, 0]);
    assert_eq!(&b[12..20], &[6, 0, 0, 0, 0, 0, 0, 0]);
    assert_eq!(&b[20..28], &[7, 0, 0, 0, 0, 0, 0, 0]);
    assert_eq!(&b[28..32], &[8, 0, 0, 0]);
}

#[test]
fn flags_independent() {
    let mut h = MessageHeader::default();
    assert!(!h.is_response() && !h.is_sliced() && !h.is_correct());
    h.set_sliced();
    assert!(!h.is_response() && h.is_sliced() && !h.is_correct());
    h.set_response();
    assert!(h.is_response() && h.is_sliced() && !h.is_correct());
    h.set_correct();
    assert!(h.is_response() && h.is_sliced() && h.is_correct());
}

#[test]
fn checksum_exact() {
    assert_eq!(byte_sum(&[]), 0);
    assert_eq!(byte_sum(&[1, 2, 3]), 6);
    assert_eq!(byte_sum(&[255, 1]), 256);
    assert_eq!(Integrity::ByteSum.checksum(&[10, 20]), 30);
    assert_eq!(Integrity::Stub.checksum(&[10, 20]), 0);
    assert_eq!(default_checksum(&[9, 9, 9]), 0);
}

#[test]
fn round_trip_all_lengths() {
    let s = DEFAULT_SEGMENT_SIZE;
    for n in [0, 1, s - 1, s, s + 1, 2 * s + 3, 3 * s] {
        let msg = sample_message(n);
        let out = loopback_transfer(msg.clone(), s, Integrity::ByteSum);
        assert_eq!(out, msg);
        let out = loopback_transfer(msg.clone(), s, Integrity::Stub);
        assert_eq!(out, msg);
    }
}

#[test]
fn sliced_flag_boundary() {
    let s = DEFAULT_SEGMENT_SIZE;
    let at_limit = SegmentSender::new(sample_message(s), s, Integrity::ByteSum);
    assert!(!at_limit.current_header().is_sliced());
    let over_limit = SegmentSender::new(sample_message(s + 1), s, Integrity::ByteSum);
    assert!(over_limit.current_header().is_sliced());
}

#[test]
fn zero_length_message() {
    let mut sender = SegmentSender::new(Vec::new(), DEFAULT_SEGMENT_SIZE, Integrity::ByteSum);
    let mut receiver = SegmentReceiver::new(Integrity::ByteSum);
    let mut exchanges = 0;
    while !sender.done() {
        let header = sender.current_header();
        assert_eq!(header.length, 0);
        assert_eq!(header.whole_length, 0);
        let payload = sender.current_payload();
        assert_eq!(payload.len(), 0);
        let ack = receiver.process(&header, payload).unwrap();
        sender.acknowledge(&ack).unwrap();
        exchanges += 1;
    }
    assert_eq!(exchanges, 1);
    assert_eq!(sender.segments_acknowledged(), 1);
    assert!(receiver.done());
    assert_eq!(receiver.into_message(), Vec::<u8>::new());
}

#[test]
fn corruption_triggers_retry() {
    let msg = b"stop and wait".to_vec();
    let seg = 4;
    let mut sender = SegmentSender::new(msg.clone(), seg, Integrity::ByteSum);
    let mut receiver = SegmentReceiver::new(Integrity::ByteSum);
    let mut corrupted_once = false;
    let mut retries = 0;
    while !sender.done() {
        let header = sender.current_header();
        let mut payload = sender.current_payload();
        if !corrupted_once {
            // flip one bit of the first segment on its way over
            payload[0] ^= 0x01;
            corrupted_once = true;
        }
        let ack = receiver.process(&header, payload).unwrap();
        assert!(ack.is_response());
        if !ack.is_correct() {
            retries += 1;
            // the sender must offer the same segment again
            let again = sender.current_header();
            sender.acknowledge(&ack).unwrap();
            let offered = sender.current_header();
            assert_eq!(offered.begin, again.begin);
            assert_eq!(offered.length, again.length);
        } else {
            sender.acknowledge(&ack).unwrap();
        }
    }
    assert_eq!(retries, 1);
    assert!(receiver.done());
    assert_eq!(receiver.into_message(), msg);
}

#[test]
fn corruption_is_caught_only_with_real_integrity() {
    // under the stub every payload passes, which is exactly why the
    // stub gives no integrity guarantee
    let msg = b"abcd".to_vec();
    let mut sender = SegmentSender::new(msg, 8, Integrity::Stub);
    let mut receiver = SegmentReceiver::new(Integrity::Stub);
    let header = sender.current_header();
    let mut payload = sender.current_payload();
    payload[0] ^= 0x01;
    let ack = receiver.process(&header, payload).unwrap();
    assert!(ack.is_correct());
    sender.acknowledge(&ack).unwrap();
    assert!(sender.done());
    assert_eq!(receiver.into_message(), vec![b'a' ^ 0x01, b'b', b'c', b'd']);
}

#[test]
fn two_sequential_messages() {
    let first: Vec<u8> = "hello world".repeat(1024).into_bytes();
    let second: Vec<u8> = b"another".to_vec();
    let out1 = loopback_transfer(first.clone(), DEFAULT_SEGMENT_SIZE, Integrity::ByteSum);
    let out2 = loopback_transfer(second.clone(), DEFAULT_SEGMENT_SIZE, Integrity::ByteSum);
    assert_eq!(out1, first);
    assert_eq!(out2, second);
}

#[test]
fn malformed_header_is_fatal() {
    let mut receiver = SegmentReceiver::new(Integrity::ByteSum);
    // an offset that does not continue the bytes accepted so far
    let mut wrong_offset = MessageHeader::default();
    wrong_offset.begin = 5;
    wrong_offset.length = 1;
    wrong_offset.whole_length = 100;
    let r = receiver.process(&wrong_offset, vec![0u8]);
    assert_eq!(r.unwrap_err(), ProtocolError::MalformedHeader);
    // a segment reaching past the declared whole length
    let mut past_end = MessageHeader::default();
    past_end.begin = 0;
    past_end.length = 8;
    past_end.whole_length = 4;
    let r = receiver.process(&past_end, vec![0u8; 8]);
    assert_eq!(r.unwrap_err(), ProtocolError::MalformedHeader);
    // nothing was accepted either time
    assert_eq!(receiver.message().len(), 0);
}

#[test]
fn changing_whole_length_is_fatal() {
    let mut receiver = SegmentReceiver::new(Integrity::ByteSum);
    let mut first = MessageHeader::default();
    first.length = 2;
    first.whole_length = 4;
    first.check = byte_sum(&[1, 2]);
    let ack = receiver.process(&first, vec![1, 2]).unwrap();
    assert!(ack.is_correct());
    // the second segment declares a different whole-message length
    let mut second = MessageHeader::default();
    second.begin = 2;
    second.length = 2;
    second.whole_length = 6;
    second.check = byte_sum(&[3, 4]);
    let r = receiver.process(&second, vec![3, 4]);
    assert_eq!(r.unwrap_err(), ProtocolError::MalformedHeader);
    assert_eq!(receiver.message(), &vec![1, 2]);
}

#[test]
fn rejected_segment_is_not_kept() {
    let mut receiver = SegmentReceiver::new(Integrity::ByteSum);
    let mut header = MessageHeader::default();
    header.length = 3;
    header.whole_length = 3;
    header.check = 999;  // wrong for any 3 bytes summing otherwise
    let ack = receiver.process(&header, vec![1, 2, 3]).unwrap();
    assert!(ack.is_response());
    assert!(!ack.is_correct());
    assert!(!receiver.done());
    assert_eq!(receiver.message().len(), 0);
}

#[test]
fn persistent_corruption_exhausts_retries() {
    let msg = b"doomed".to_vec();
    let mut sender = SegmentSender::new(msg, 8, Integrity::ByteSum);
    let mut receiver = SegmentReceiver::new(Integrity::ByteSum);
    let mut refusals = 0;
    let outcome = loop {
        let header = sender.current_header();
        let mut payload = sender.current_payload();
        payload[0] ^= 0x80;
        let ack = receiver.process(&header, payload).unwrap();
        assert!(!ack.is_correct());
        refusals += 1;
        if let Err(e) = sender.acknowledge(&ack) {
            break e;
        }
        assert!(refusals <= RETRY_LIMIT + 1, "the retry budget must run out");
    };
    assert_eq!(outcome, ProtocolError::LinkUnreliable);
    assert_eq!(refusals, RETRY_LIMIT + 1);
    assert!(!sender.done());
    assert_eq!(receiver.message().len(), 0);
}
