use fwupd::apl::{AplMessage, AplRequestPacket, AplRequestType};
use fwupd::crc::calculate_crc32;
use fwupd::dfu::{load_firmware_image, DfuConfig, HexRecord, UpdateMode, INFO_BLOCK_SIZE};
use fwupd::engine::{DfuAction, DfuEngine, DfuEvent};
use fwupd::error::Error;
use fwupd::lpl::decode_frame;

/// Split the bytes of one Send action into frames (at the zero delimiters)
/// and decode each into its application-layer payload.
fn frames_of(bytes: &[u8]) -> Vec<Vec<u8>> {
    let mut out = Vec::new();
    for segment in bytes.split(|&b| b == 0) {
        if !segment.is_empty() {
            out.push(decode_frame(segment).unwrap());
        }
    }
    out
}

fn sent(action: DfuAction) -> Vec<Vec<u8>> {
    match action {
        DfuAction::Send(bytes) => frames_of(&bytes),
        other => panic!("expected a Send action, got {:?}", other),
    }
}

/// The device answers with a Data packet.
fn data_event(block: u16, payload: Vec<u8>) -> DfuEvent {
    DfuEvent::Payload(AplMessage::new(AplRequestType::Data, block, payload).to_bytes())
}

/// The device acknowledges a block.
fn ack_event(block: u16) -> DfuEvent {
    DfuEvent::Payload(AplMessage::new(AplRequestType::Ack, block, vec![]).to_bytes())
}

/// The device reports a retryable error.
fn error_event(block: u16, code: u8) -> DfuEvent {
    DfuEvent::Payload(AplMessage::new(AplRequestType::Error, block, vec![code]).to_bytes())
}

fn request_of(frame: &[u8]) -> AplRequestPacket {
    AplRequestPacket::from_bytes(frame).unwrap()
}

fn is_ack_frame(frame: &[u8], block: u16) -> bool {
    let m = AplMessage::from_bytes(frame).unwrap();
    m.packet_type == AplRequestType::Ack && m.block_number == block
}

/// The packed info block with the interesting fields set.
fn info_bytes(fw_addr: u32, fw_size: u32, max_block_size: u16) -> Vec<u8> {
    let mut b = vec![0u8; INFO_BLOCK_SIZE];
    b[0] = 0x20;
    b[1..3].copy_from_slice(&max_block_size.to_le_bytes());
    b[49..53].copy_from_slice(&fw_addr.to_le_bytes());
    b[53..57].copy_from_slice(&fw_size.to_le_bytes());
    b
}

fn update_config() -> DfuConfig {
    DfuConfig::new()
        .with_uri(String::from("tcp://10.0.0.2:5000"))
        .with_firmware(String::from("fw.hex"))
        .with_block_size(4)
}

#[test]
fn configuration_is_validated_at_construction() {
    match DfuEngine::new(DfuConfig::new(), None) {
        Err(Error::Configuration(_)) => {}
        Err(e) => panic!("unexpected error: {:?}", e),
        Ok(_) => panic!("an empty configuration must be rejected"),
    }
    let no_file = DfuConfig::new().with_uri(String::from("x")).update();
    match DfuEngine::new(no_file, None) {
        Err(Error::Configuration(_)) => {}
        Err(e) => panic!("unexpected error: {:?}", e),
        Ok(_) => panic!("an update without a firmware file must be rejected"),
    }
}

#[test]
fn reboot_then_probe_enters_the_bootloader() {
    let config = DfuConfig::new()
        .with_uri(String::from("serial:///dev/ttyUSB0"))
        .with_update_mode(UpdateMode::Direct)
        .get_info();
    let mut engine = DfuEngine::new(config, None).unwrap();
    // Entering starts by setting the link speed.
    match engine.step(DfuEvent::Start) {
        DfuAction::SetSpeed(9600) => {}
        other => panic!("unexpected action: {:?}", other),
    }
    // Then the first probe goes out: a ReadBootloaderInfo request.
    let probe = sent(engine.step(DfuEvent::SpeedSet));
    assert_eq!(probe.len(), 1);
    let req = request_of(&probe[0]);
    assert_eq!(req.header.type_id >> 5, 1);
    assert_eq!(req.command, 0);
    // No answer: the engine reboots the device and waits a second.
    assert!(matches!(engine.step(DfuEvent::TimedOut), DfuAction::Reboot));
    match engine.step(DfuEvent::Sent) {
        DfuAction::SleepMs(1000) => {}
        other => panic!("unexpected action: {:?}", other),
    }
    // The second probe succeeds and the engine moves on to the info read.
    let probe2 = sent(engine.step(DfuEvent::Slept));
    assert_eq!(request_of(&probe2[0]).command, 0);
    let answer = engine.step(data_event(0, info_bytes(0x0800_0000, 8, 0x0200)));
    let fs = sent(answer);
    assert_eq!(fs.len(), 2);
    assert!(is_ack_frame(&fs[0], 0));
    assert_eq!(request_of(&fs[1]).command, 0);
}

#[test]
fn up_to_date_image_skips_the_write() {
    let records = vec![HexRecord { offset: 0, data: vec![1, 2, 3, 4] }];
    let image = load_firmware_image(&records, 8, 0xFF).unwrap();
    let image_crc = calculate_crc32(&image);
    let mut engine = DfuEngine::new(update_config().update(), Some(records)).unwrap();

    let fs = sent(engine.step(DfuEvent::Start));
    assert_eq!(request_of(&fs[0]).command, 0);
    let fs = sent(engine.step(data_event(0, info_bytes(0x0800_0000, 8, 0x0200))));
    assert_eq!(fs.len(), 2);
    assert!(is_ack_frame(&fs[0], 0));
    assert_eq!(request_of(&fs[1]).command, 3);
    // The device reports the image's own CRC: nothing is written — the only
    // frame that still goes out is the acknowledgement of the CRC data.
    let fs = sent(engine.step(data_event(1, image_crc.to_le_bytes().to_vec())));
    assert_eq!(fs.len(), 1);
    assert!(is_ack_frame(&fs[0], 1));
    assert!(matches!(engine.step(DfuEvent::Sent), DfuAction::Finish));
}

#[test]
fn write_streams_blocks_and_reports_progress() {
    let records = vec![HexRecord { offset: 0, data: vec![1, 2, 3, 4, 5] }];
    let image = load_firmware_image(&records, 8, 0xFF).unwrap();
    let image_crc = calculate_crc32(&image);
    let device_crc = image_crc ^ 0xFFFF_FFFF;
    let mut engine = DfuEngine::new(update_config().update(), Some(records)).unwrap();

    let fs = sent(engine.step(DfuEvent::Start));
    assert_eq!(request_of(&fs[0]).command, 0);
    let fs = sent(engine.step(data_event(0, info_bytes(0x0800_0000, 8, 0x0200))));
    assert_eq!(request_of(&fs[1]).command, 3);
    // A different device CRC: the first write exchange goes out — the ack,
    // the WriteProgramMemory request, and the Data packet with the block.
    let fs = sent(engine.step(data_event(1, device_crc.to_le_bytes().to_vec())));
    assert_eq!(fs.len(), 3);
    assert!(is_ack_frame(&fs[0], 1));
    let req = request_of(&fs[1]);
    assert_eq!(req.command, 6);
    assert_eq!(req.offset, 0x0800_0000);
    assert_eq!(req.length, 4);
    let data = AplMessage::from_bytes(&fs[2]).unwrap();
    assert_eq!(data.packet_type, AplRequestType::Data);
    assert_eq!(data.block_number, 2);
    assert_eq!(data.data, vec![1, 2, 3, 4]);
    // The device acknowledges block 2: the second (short) block follows.
    let fs = sent(engine.step(ack_event(2)));
    assert_eq!(fs.len(), 2);
    let req = request_of(&fs[0]);
    assert_eq!(req.command, 6);
    assert_eq!(req.offset, 0x0800_0004);
    assert_eq!(req.length, 4);
    let data = AplMessage::from_bytes(&fs[1]).unwrap();
    assert_eq!(data.block_number, 3);
    assert_eq!(data.data, vec![5, 0xFF, 0xFF, 0xFF]);
    // The last acknowledgement completes the update.
    assert!(matches!(engine.step(ack_event(3)), DfuAction::Finish));
    assert_eq!(engine.progress, 100);
    assert_eq!(engine.apl.block_number, 4);
    assert_eq!(engine.apl.retries, 0);
}

#[test]
fn server_error_during_write_is_retried() {
    let records = vec![HexRecord { offset: 0, data: vec![1, 2, 3, 4] }];
    let image = load_firmware_image(&records, 4, 0xFF).unwrap();
    let device_crc = calculate_crc32(&image) ^ 1;
    let mut engine = DfuEngine::new(update_config().update(), Some(records)).unwrap();

    sent(engine.step(DfuEvent::Start));
    sent(engine.step(data_event(0, info_bytes(0x0800_0000, 4, 0x0200))));
    let first = match engine.step(data_event(1, device_crc.to_le_bytes().to_vec())) {
        DfuAction::Send(bytes) => bytes,
        other => panic!("unexpected action: {:?}", other),
    };
    // The device rejects the exchange: the engine re-sends it unchanged
    // (without the ack prefix of the first transmission).
    let resent = match engine.step(error_event(0, 0x11)) {
        DfuAction::Send(bytes) => bytes,
        other => panic!("unexpected action: {:?}", other),
    };
    assert_eq!(engine.apl.retries, 1);
    assert!(first.ends_with(&resent));
    // Then the device acknowledges: the session advances and the retry
    // counter resets.
    assert!(matches!(engine.step(ack_event(2)), DfuAction::Finish));
    assert_eq!(engine.apl.block_number, 3);
    assert_eq!(engine.apl.retries, 0);
}

#[test]
fn verification_mismatch_fails_without_quitting() {
    let records = vec![HexRecord { offset: 0, data: vec![1, 2, 3, 4] }];
    let config = update_config().verify();
    let mut engine = DfuEngine::new(config, Some(records)).unwrap();

    let fs = sent(engine.step(DfuEvent::Start));
    assert_eq!(request_of(&fs[0]).command, 0);
    let fs = sent(engine.step(data_event(0, info_bytes(0x0800_0000, 8, 0x0200))));
    // Verification only: the CRC query goes straight out.
    assert_eq!(request_of(&fs[1]).command, 3);
    let action = engine.step(data_event(1, 0xDEADBEEFu32.to_le_bytes().to_vec()));
    match action {
        DfuAction::Fail(Error::VerificationFailed) => {}
        other => panic!("unexpected action: {:?}", other),
    }
    // Once failed, the engine issues no further request — in particular no
    // BootloaderQuit.
    assert!(matches!(engine.step(DfuEvent::Sent), DfuAction::Fail(_)));
}

#[test]
fn verification_match_succeeds() {
    let records = vec![HexRecord { offset: 0, data: vec![1, 2, 3, 4] }];
    let image = load_firmware_image(&records, 8, 0xFF).unwrap();
    let image_crc = calculate_crc32(&image);
    let mut engine = DfuEngine::new(update_config().verify(), Some(records)).unwrap();

    sent(engine.step(DfuEvent::Start));
    sent(engine.step(data_event(0, info_bytes(0x0800_0000, 8, 0x0200))));
    let fs = sent(engine.step(data_event(1, image_crc.to_le_bytes().to_vec())));
    assert_eq!(fs.len(), 1);
    assert!(is_ack_frame(&fs[0], 1));
    assert!(matches!(engine.step(DfuEvent::Sent), DfuAction::Finish));
}

#[test]
fn quit_is_a_fire_and_forget_write_request() {
    let config = DfuConfig::new().with_uri(String::from("x"));
    let mut engine = DfuEngine::new(quit_selected(config), None).unwrap();
    let fs = sent(engine.step(DfuEvent::Start));
    assert_eq!(fs.len(), 1);
    let req = request_of(&fs[0]);
    assert_eq!(req.header.type_id >> 5, 2);
    assert_eq!(req.command, 5);
    assert!(matches!(engine.step(DfuEvent::Sent), DfuAction::Finish));
}

/// The quit stage has no builder of its own in the configuration surface;
/// set the field directly.
fn quit_selected(mut config: DfuConfig) -> DfuConfig {
    config.quit = true;
    config
}

#[test]
fn info_only_run_reads_and_finishes() {
    let config = DfuConfig::new().with_uri(String::from("x")).get_info();
    let mut engine = DfuEngine::new(config, None).unwrap();
    let fs = sent(engine.step(DfuEvent::Start));
    assert_eq!(request_of(&fs[0]).command, 0);
    let fs = sent(engine.step(data_event(0, info_bytes(0x0800_0000, 8, 0x0200))));
    assert_eq!(fs.len(), 1);
    assert!(is_ack_frame(&fs[0], 0));
    assert!(matches!(engine.step(DfuEvent::Sent), DfuAction::Finish));
    let info = engine.info.unwrap();
    assert_eq!(info.memmap.firmware_address, 0x0800_0000);
}

#[test]
fn timeouts_exhaust_the_retry_budget() {
    let config = DfuConfig::new().with_uri(String::from("x")).get_info();
    let mut engine = DfuEngine::new(config, None).unwrap();
    sent(engine.step(DfuEvent::Start));
    for _ in 0..3 {
        match engine.step(DfuEvent::TimedOut) {
            DfuAction::Send(_) => {}
            other => panic!("unexpected action: {:?}", other),
        }
    }
    match engine.step(DfuEvent::TimedOut) {
        DfuAction::Fail(Error::Timeout) => {}
        other => panic!("unexpected action: {:?}", other),
    }
}

#[test]
fn finished_engine_keeps_reporting_completion() {
    let config = DfuConfig::new().with_uri(String::from("x"));
    let mut engine = DfuEngine::new(config, None).unwrap();
    // No stage selected: the update completes immediately...
    assert!(matches!(engine.step(DfuEvent::Start), DfuAction::Finish));
    // ...and every later event only repeats the outcome; nothing is sent.
    assert!(matches!(engine.step(DfuEvent::Sent), DfuAction::Finish));
    assert!(matches!(engine.step(DfuEvent::TimedOut), DfuAction::Finish));
}

#[test]
fn failed_engine_issues_no_further_requests() {
    let config = DfuConfig::new()
        .with_uri(String::from("x"))
        .with_update_mode(UpdateMode::Link)
        .get_info();
    let mut engine = DfuEngine::new(config, None).unwrap();
    engine.step(DfuEvent::Start);
    sent(engine.step(DfuEvent::SpeedSet));
    engine.step(DfuEvent::TimedOut);
    engine.step(DfuEvent::Sent);
    sent(engine.step(DfuEvent::Slept));
    assert!(matches!(
        engine.step(DfuEvent::TimedOut),
        DfuAction::Fail(Error::BootloaderNotDetected)
    ));
    // Once failed, even a late reply provokes no traffic.
    assert!(matches!(
        engine.step(data_event(0, info_bytes(0x0800_0000, 8, 0x0200))),
        DfuAction::Fail(_)
    ));
}

#[test]
fn verify_without_a_file_fails_once_info_arrives() {
    // Verification alone passes validation, but without a firmware source
    // there is nothing to compare against.
    let config = DfuConfig::new().with_uri(String::from("x")).verify();
    let mut engine = DfuEngine::new(config, None).unwrap();
    sent(engine.step(DfuEvent::Start));
    match engine.step(data_event(0, info_bytes(0x0800_0000, 8, 0x0200))) {
        DfuAction::Fail(Error::NoFirmwareFile) => {}
        other => panic!("unexpected action: {:?}", other),
    }
}

#[test]
fn image_without_the_device_uid_is_rejected() {
    // From bootloader version 0x30 on, an image that does not embed the
    // device's unique id must not be written.
    let records = vec![HexRecord { offset: 0, data: vec![1, 2, 3, 4] }];
    let mut engine = DfuEngine::new(update_config().update(), Some(records)).unwrap();
    sent(engine.step(DfuEvent::Start));
    let mut info = info_bytes(0x0800_0000, 64, 0x0200);
    info[0] = 0x30;
    info[7..23].copy_from_slice(&[9u8; 16]);
    match engine.step(data_event(0, info)) {
        DfuAction::Fail(Error::InvalidDeviceId) => {}
        other => panic!("unexpected action: {:?}", other),
    }
}

#[test]
fn record_past_the_firmware_area_is_rejected() {
    let records = vec![HexRecord { offset: 6, data: vec![1, 2, 3, 4] }];
    let mut engine = DfuEngine::new(update_config().update(), Some(records)).unwrap();
    sent(engine.step(DfuEvent::Start));
    match engine.step(data_event(0, info_bytes(0x0800_0000, 8, 0x0200))) {
        DfuAction::Fail(Error::HexFileError(_)) => {}
        other => panic!("unexpected action: {:?}", other),
    }
}

#[test]
fn reconnect_restarts_the_outstanding_request() {
    let config = DfuConfig::new().with_uri(String::from("x")).get_info();
    let mut engine = DfuEngine::new(config, None).unwrap();
    let first = match engine.step(DfuEvent::Start) {
        DfuAction::Send(bytes) => bytes,
        other => panic!("unexpected action: {:?}", other),
    };
    // Three breakdowns are tolerated; each rebuild re-sends the info
    // request unchanged.
    for round in 0..3 {
        assert!(matches!(engine.step(DfuEvent::ConnectionLost), DfuAction::Reconnect));
        assert_eq!(engine.reconnects, round + 1);
        match engine.step(DfuEvent::Reconnected) {
            DfuAction::Send(bytes) => assert_eq!(bytes, first),
            other => panic!("unexpected action: {:?}", other),
        }
    }
    // The fourth breakdown exhausts the budget.
    match engine.step(DfuEvent::ConnectionLost) {
        DfuAction::Fail(Error::Connection(_)) => {}
        other => panic!("unexpected action: {:?}", other),
    }
}

#[test]
fn second_probe_timeout_means_no_bootloader() {
    let config = DfuConfig::new()
        .with_uri(String::from("x"))
        .with_update_mode(UpdateMode::Link)
        .get_info();
    let mut engine = DfuEngine::new(config, None).unwrap();
    engine.step(DfuEvent::Start);
    sent(engine.step(DfuEvent::SpeedSet));
    engine.step(DfuEvent::TimedOut);
    engine.step(DfuEvent::Sent);
    sent(engine.step(DfuEvent::Slept));
    match engine.step(DfuEvent::TimedOut) {
        DfuAction::Fail(Error::BootloaderNotDetected) => {}
        other => panic!("unexpected action: {:?}", other),
    }
}
