use fwupd::apl::{AplMessage, AplOutcome, AplRequestType, AplStream};
use fwupd::error::Error;

#[test]
fn new_session_starts_at_block_zero() {
    let s = AplStream::new();
    assert_eq!(s.block_number, 0);
    assert_eq!(s.retries, 0);
    assert_eq!(s.max_retries, 3);
    assert_eq!(s.max_reconnects, 3);
}

#[test]
fn data_with_expected_block_advances_and_acks() {
    let mut s = AplStream::new();
    let msg = AplMessage::new(AplRequestType::Data, 0, vec![0xAA, 0xBB]);
    match s.process_message(msg) {
        Ok(AplOutcome::DataAccepted { ack, payload }) => {
            assert_eq!(ack.packet_type, AplRequestType::Ack);
            assert_eq!(ack.block_number, 0);
            assert!(ack.data.is_empty());
            assert_eq!(payload, vec![0xAA, 0xBB]);
        }
        other => panic!("unexpected outcome: {:?}", other),
    }
    assert_eq!(s.block_number, 1);
    assert_eq!(s.retries, 0);
}

#[test]
fn data_with_wrong_block_is_rejected() {
    let mut s = AplStream::new();
    let msg = AplMessage::new(AplRequestType::Data, 5, vec![]);
    assert!(s.process_message(msg).is_err());
    assert_eq!(s.block_number, 0);
}

#[test]
fn ack_with_expected_block_advances() {
    let mut s = AplStream::new();
    let msg = AplMessage::new(AplRequestType::Ack, 0, vec![]);
    match s.process_message(msg) {
        Ok(AplOutcome::AckAccepted) => {}
        other => panic!("unexpected outcome: {:?}", other),
    }
    assert_eq!(s.block_number, 1);
}

#[test]
fn successive_acks_count_up_by_one() {
    let mut s = AplStream::new();
    for expected in 0u16..10 {
        assert_eq!(s.block_number, expected);
        let msg = AplMessage::new(AplRequestType::Ack, expected, vec![]);
        s.process_message(msg).unwrap();
        assert_eq!(s.block_number, expected + 1);
    }
}

#[test]
fn ack_with_wrong_block_is_rejected() {
    let mut s = AplStream::new();
    let msg = AplMessage::new(AplRequestType::Ack, 1, vec![]);
    assert!(s.process_message(msg).is_err());
    assert_eq!(s.block_number, 0);
}

#[test]
fn error_packet_consumes_a_retry_then_ack_resets() {
    // A server-side error on the first exchange, then success: the counter
    // moves to one and the retry counter is reset.
    let mut s = AplStream::new();
    let err = AplMessage::new(AplRequestType::Error, 0, vec![0x07, b'n', b'o']);
    match s.process_message(err) {
        Ok(AplOutcome::Retry { code, message }) => {
            assert_eq!(code, 0x07);
            assert_eq!(message, b"no".to_vec());
        }
        other => panic!("unexpected outcome: {:?}", other),
    }
    assert_eq!(s.retries, 1);
    assert_eq!(s.block_number, 0);
    let ack = AplMessage::new(AplRequestType::Ack, 0, vec![]);
    s.process_message(ack).unwrap();
    assert_eq!(s.block_number, 1);
    assert_eq!(s.retries, 0);
}

#[test]
fn retries_are_exhausted_after_three_errors() {
    let mut s = AplStream::new();
    for _ in 0..3 {
        let err = AplMessage::new(AplRequestType::Error, 0, vec![1]);
        match s.process_message(err) {
            Ok(AplOutcome::Retry { .. }) => {}
            other => panic!("unexpected outcome: {:?}", other),
        }
    }
    assert_eq!(s.retries, 3);
    let err = AplMessage::new(AplRequestType::Error, 0, vec![1]);
    assert!(s.process_message(err).is_err());
}

#[test]
fn unsupported_types_are_rejected() {
    let mut s = AplStream::new();
    for t in [AplRequestType::Null, AplRequestType::ReadRequest, AplRequestType::WriteRequest] {
        let msg = AplMessage::new(t, 0, vec![]);
        assert!(s.process_message(msg).is_err());
        assert_eq!(s.block_number, 0);
    }
}

#[test]
fn timeouts_count_against_the_retry_budget() {
    let mut s = AplStream::new();
    assert!(s.register_timeout().is_ok());
    assert!(s.register_timeout().is_ok());
    assert!(s.register_timeout().is_ok());
    assert_eq!(s.retries, 3);
    match s.register_timeout() {
        Err(Error::Timeout) => {}
        other => panic!("unexpected outcome: {:?}", other),
    }
}
