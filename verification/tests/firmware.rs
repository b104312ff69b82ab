use fwupd::dfu::{
    clamp_block_size, load_firmware_image, parse_info_block, progress_percent, should_skip_write,
    total_blocks, validate_firmware, verify_device_id, Command, DeviceId, DeviceMemoryMap,
    HexRecord, InfoBlockV2, Region, INFO_BLOCK_SIZE,
};
use fwupd::error::Error;

/// The packed info block bytes for a handful of interesting fields; every
/// byte not set below is zero.
fn info_bytes(
    version: u8,
    max_block_size: u16,
    id: u16,
    rev: u16,
    uid: [u8; 16],
    fw_addr: u32,
    fw_size: u32,
) -> Vec<u8> {
    let mut b = vec![0u8; INFO_BLOCK_SIZE];
    b[0] = version;
    b[1..3].copy_from_slice(&max_block_size.to_le_bytes());
    b[3..5].copy_from_slice(&id.to_le_bytes());
    b[5..7].copy_from_slice(&rev.to_le_bytes());
    b[7..23].copy_from_slice(&uid);
    b[49..53].copy_from_slice(&fw_addr.to_le_bytes());
    b[53..57].copy_from_slice(&fw_size.to_le_bytes());
    b
}

#[test]
fn info_block_parses_packed_fields() {
    let uid: [u8; 16] = [0, 1, 2, 3, 4, 5, 6, 7, 8, 9, 10, 11, 12, 13, 14, 15];
    let mut bytes = info_bytes(0x30, 0x0200, 0xABCD, 0x0001, uid, 0x08000000, 0x00010000);
    bytes[65..67].copy_from_slice(&0x0100u16.to_le_bytes());
    bytes[67..71].copy_from_slice(&7u32.to_le_bytes());
    bytes[71..75].copy_from_slice(&64u32.to_le_bytes());
    let info = parse_info_block(&bytes).unwrap();
    assert_eq!(info.version, 0x30);
    assert_eq!(info.max_block_size, 0x0200);
    assert_eq!(info.device.id, 0xABCD);
    assert_eq!(info.device.rev, 0x0001);
    assert_eq!(info.device.uid, uid);
    assert_eq!(info.memmap.firmware_address, 0x08000000);
    assert_eq!(info.memmap.firmware_size, 0x00010000);
    assert_eq!(info.memmap.flash_write_blocksize, 0x0100);
    assert_eq!(info.memmap.regions[0].count, 7);
    assert_eq!(info.memmap.regions[0].size, 64);
    assert_eq!(info.memmap.regions[4].count, 0);
}

#[test]
fn info_block_too_short_is_rejected() {
    assert!(parse_info_block(&[0u8; 106]).is_err());
}

#[test]
fn command_codes_on_the_wire() {
    assert_eq!(Command::ReadBootloaderInfo.code(), 0);
    assert_eq!(Command::ReadProgramCrc.code(), 3);
    assert_eq!(Command::BootloaderQuit.code(), 5);
    assert_eq!(Command::WriteProgramMemory.code(), 6);
}

#[test]
fn image_gaps_keep_the_fill_byte() {
    let records = vec![HexRecord { offset: 2, data: vec![0x01, 0x02] }];
    let image = load_firmware_image(&records, 8, 0xFF).unwrap();
    assert_eq!(image, vec![0xFF, 0xFF, 0x01, 0x02, 0xFF, 0xFF, 0xFF, 0xFF]);
}

#[test]
fn image_with_custom_gap_byte() {
    let records = vec![HexRecord { offset: 0, data: vec![0xAA] }];
    let image = load_firmware_image(&records, 4, 0x00).unwrap();
    assert_eq!(image, vec![0xAA, 0x00, 0x00, 0x00]);
}

#[test]
fn later_record_wins_on_overlap() {
    let records = vec![
        HexRecord { offset: 0, data: vec![1, 1, 1, 1] },
        HexRecord { offset: 1, data: vec![9, 9] },
    ];
    let image = load_firmware_image(&records, 4, 0xFF).unwrap();
    assert_eq!(image, vec![1, 9, 9, 1]);
}

#[test]
fn record_outside_the_buffer_is_an_error() {
    let records = vec![HexRecord { offset: 7, data: vec![1, 2] }];
    match load_firmware_image(&records, 8, 0xFF) {
        Err(Error::HexFileError(_)) => {}
        other => panic!("unexpected result: {:?}", other),
    }
}

#[test]
fn empty_records_give_a_fully_padded_image() {
    let image = load_firmware_image(&vec![], 3, 0x55).unwrap();
    assert_eq!(image, vec![0x55, 0x55, 0x55]);
}

#[test]
fn block_size_is_clamped_by_the_device() {
    assert_eq!(clamp_block_size(1024, 0x0200), 512);
    assert_eq!(clamp_block_size(256, 0x0200), 256);
    assert_eq!(clamp_block_size(512, 512), 512);
}

#[test]
fn skip_rule() {
    assert!(should_skip_write(0x1234, 0x1234, false));
    assert!(!should_skip_write(0x1234, 0x1234, true));
    assert!(!should_skip_write(0x1234, 0x5678, false));
}

#[test]
fn block_counting() {
    assert_eq!(total_blocks(0, 4), 0);
    assert_eq!(total_blocks(1, 4), 1);
    assert_eq!(total_blocks(4, 4), 1);
    assert_eq!(total_blocks(5, 4), 2);
    assert_eq!(total_blocks(8, 4), 2);
}

#[test]
fn progress_is_rounded_down_percent() {
    assert_eq!(progress_percent(0, 3), 33);
    assert_eq!(progress_percent(1, 3), 66);
    assert_eq!(progress_percent(2, 3), 100);
    assert_eq!(progress_percent(0, 1), 100);
}

fn small_info(version: u8, fw_size: u32, uid: [u8; 16]) -> InfoBlockV2 {
    InfoBlockV2 {
        version,
        max_block_size: 0x0200,
        device: DeviceId { id: 1, rev: 1, uid },
        unused: [0; 18],
        memmap: DeviceMemoryMap {
            metadata_address: 0,
            metadata_size: 0,
            firmware_address: 0x08000000,
            firmware_size: fw_size,
            flash_address: 0,
            flash_size: 0,
            flash_write_blocksize: 0,
            regions: [Region { count: 0, size: 0 }; 5],
        },
    }
}

#[test]
fn oversized_firmware_is_rejected() {
    let info = small_info(0x20, 4, [0; 16]);
    match validate_firmware(&[0u8; 5], &info, false) {
        Err(Error::FirmwareTooLarge) => {}
        other => panic!("unexpected result: {:?}", other),
    }
}

#[test]
fn device_id_must_be_embedded_from_version_30() {
    let uid: [u8; 16] = [9; 16];
    let info = small_info(0x30, 64, uid);
    // An image without the uid is rejected...
    match validate_firmware(&[0u8; 32], &info, false) {
        Err(Error::InvalidDeviceId) => {}
        other => panic!("unexpected result: {:?}", other),
    }
    // ...unless overwrite is set, or the version is older.
    assert!(validate_firmware(&[0u8; 32], &info, true).is_ok());
    let old = small_info(0x2F, 64, uid);
    assert!(validate_firmware(&[0u8; 32], &old, false).is_ok());
    // An image embedding the uid passes.
    let mut fw = vec![0u8; 32];
    fw[10..26].copy_from_slice(&uid);
    assert!(validate_firmware(&fw, &info, false).is_ok());
}

#[test]
fn uid_search_finds_contiguous_occurrences_only() {
    assert!(verify_device_id(&[1, 2, 3, 4], &[2, 3]).is_ok());
    assert!(verify_device_id(&[1, 2, 3, 4], &[2, 4]).is_err());
    assert!(verify_device_id(&[1, 2], &[1, 2, 3]).is_err());
    assert!(verify_device_id(&[5, 5], &[5]).is_ok());
}
