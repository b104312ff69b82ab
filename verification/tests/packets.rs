use fwupd::apl::{
    AplAckPacket, AplDataPacket, AplErrorPacket, AplHeader, AplMessage, AplRequestPacket,
    AplRequestType, AplStream,
};
use fwupd::error::Error;

#[test]
fn request_type_from_valid_codes() {
    assert_eq!(AplRequestType::try_from_u8(0).unwrap(), AplRequestType::Null);
    assert_eq!(AplRequestType::try_from_u8(1).unwrap(), AplRequestType::ReadRequest);
    assert_eq!(AplRequestType::try_from_u8(2).unwrap(), AplRequestType::WriteRequest);
    assert_eq!(AplRequestType::try_from_u8(3).unwrap(), AplRequestType::Data);
    assert_eq!(AplRequestType::try_from_u8(4).unwrap(), AplRequestType::Ack);
    assert_eq!(AplRequestType::try_from_u8(5).unwrap(), AplRequestType::Error);
}

#[test]
fn request_type_from_invalid_code() {
    match AplRequestType::try_from_u8(6) {
        Err(Error::InvalidPacket(6)) => {}
        other => panic!("unexpected result: {:?}", other),
    }
    assert!(AplRequestType::try_from_u8(255).is_err());
}

#[test]
fn message_to_bytes_layout() {
    let m = AplMessage::new(AplRequestType::Data, 0x0105, vec![0x09, 0x0A]);
    // Header byte: type 3 in the high three bits; block number little-endian.
    assert_eq!(m.to_bytes(), vec![0x60, 0x05, 0x01, 0x09, 0x0A]);
}

#[test]
fn message_round_trip() {
    let m = AplMessage::new(AplRequestType::Ack, 7, vec![]);
    let bytes = m.to_bytes();
    let back = AplMessage::from_bytes(&bytes).unwrap();
    assert_eq!(back.packet_type, AplRequestType::Ack);
    assert_eq!(back.block_number, 7);
    assert!(back.data.is_empty());
}

#[test]
fn message_from_bytes_rejects_short_and_invalid() {
    assert!(AplMessage::from_bytes(&[0x60, 0x00]).is_err());
    // Type code 7 in the high bits is invalid.
    match AplMessage::from_bytes(&[0xE0, 0x00, 0x00]) {
        Err(Error::InvalidPacket(7)) => {}
        other => panic!("unexpected result: {:?}", other),
    }
}

#[test]
fn data_packet_round_trip() {
    let p = AplDataPacket {
        header: AplHeader { type_id: 0x60 },
        block_number: 0x0201,
        data: vec![1, 2, 3],
    };
    let bytes = p.to_bytes();
    assert_eq!(bytes, vec![0x60, 0x01, 0x02, 1, 2, 3]);
    let back = AplDataPacket::from_bytes(&bytes).unwrap();
    assert_eq!(back.header.type_id, 0x60);
    assert_eq!(back.block_number, 0x0201);
    assert_eq!(back.data, vec![1, 2, 3]);
    assert!(AplDataPacket::from_bytes(&[0x60, 0x01]).is_err());
}

#[test]
fn ack_packet_round_trip() {
    let p = AplAckPacket { header: AplHeader { type_id: 0x80 }, block_number: 9 };
    let bytes = p.to_bytes();
    assert_eq!(bytes, vec![0x80, 0x09, 0x00]);
    let back = AplAckPacket::from_bytes(&bytes).unwrap();
    assert_eq!(back.block_number, 9);
    assert!(AplAckPacket::from_bytes(&[0x80]).is_err());
}

#[test]
fn error_packet_round_trip() {
    let p = AplErrorPacket {
        header: AplHeader { type_id: 0xA0 },
        block_number: 3,
        error_code: 0x42,
        error_message: b"boom".to_vec(),
    };
    let bytes = p.to_bytes();
    assert_eq!(bytes, vec![0xA0, 0x03, 0x00, 0x42, b'b', b'o', b'o', b'm']);
    let back = AplErrorPacket::from_bytes(&bytes).unwrap();
    assert_eq!(back.error_code, 0x42);
    assert_eq!(back.error_message, b"boom".to_vec());
    assert!(AplErrorPacket::from_bytes(&[0xA0, 0x03, 0x00]).is_err());
}

#[test]
fn request_packet_is_fourteen_bytes() {
    let p = AplRequestPacket {
        header: AplHeader { type_id: 0x20 },
        block_size: 0x0200,
        timeout: 0x1234,
        command: 6,
        offset: 0x08000000,
        length: 0x00010000,
    };
    let bytes = p.to_bytes();
    assert_eq!(
        bytes,
        vec![0x20, 0x00, 0x02, 0x34, 0x12, 0x06, 0x00, 0x00, 0x00, 0x08, 0x00, 0x00, 0x01, 0x00]
    );
    let back = AplRequestPacket::from_bytes(&bytes).unwrap();
    assert_eq!(back.block_size, 0x0200);
    assert_eq!(back.timeout, 0x1234);
    assert_eq!(back.command, 6);
    assert_eq!(back.offset, 0x08000000);
    assert_eq!(back.length, 0x00010000);
    // Thirteen bytes are not a request.
    assert!(AplRequestPacket::from_bytes(&bytes[..13]).is_err());
}

#[test]
fn create_request_serializes_like_a_request_packet() {
    let mut session = AplStream::new();
    let bytes = session.create_request(
        AplRequestType::ReadRequest,
        0x0200,
        0x1234,
        6,
        0x08000000,
        0x00010000,
    );
    assert_eq!(
        bytes,
        vec![0x20, 0x00, 0x02, 0x34, 0x12, 0x06, 0x00, 0x00, 0x00, 0x08, 0x00, 0x00, 0x01, 0x00]
    );
    // The session state is untouched by building a request.
    assert_eq!(session.block_number, 0);
    assert_eq!(session.retries, 0);
}
