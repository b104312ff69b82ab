use fwupd::dfu::{DfuConfig, UpdateMode};
use fwupd::new_config;

#[test]
fn defaults() {
    let c = new_config();
    assert_eq!(c.uri, "");
    assert!(c.filename.is_none());
    assert_eq!(c.block_size, 1024);
    assert!(!c.get_info && !c.update && !c.overwrite && !c.verify && !c.quit);
    assert_eq!(c.dev_netid, 0);
    assert_eq!(c.dev_speed, 9600);
    assert_eq!(c.upd_speed, 115200);
    assert_eq!(c.lnk_speed, 9600);
    assert_eq!(c.upd_mode, UpdateMode::Off);
    assert_eq!(c.gap_filling, 0xFF);
}

#[test]
fn builders_set_their_fields() {
    let c = DfuConfig::new()
        .with_uri(String::from("serial:///dev/ttyUSB0"))
        .with_firmware(String::from("firmware.hex"))
        .with_block_size(512)
        .with_update_mode(UpdateMode::Direct)
        .with_device_speed(19200)
        .with_update_speed(230400)
        .with_link_speed(38400)
        .get_info()
        .update()
        .verify()
        .overwrite();
    assert_eq!(c.uri, "serial:///dev/ttyUSB0");
    assert_eq!(c.filename.as_deref(), Some("firmware.hex"));
    assert_eq!(c.block_size, 512);
    assert_eq!(c.upd_mode, UpdateMode::Direct);
    assert_eq!(c.dev_speed, 19200);
    assert_eq!(c.upd_speed, 230400);
    assert_eq!(c.lnk_speed, 38400);
    assert!(c.get_info && c.update && c.verify && c.overwrite);
    assert!(!c.quit);
}

#[test]
fn validate_requires_a_uri() {
    let c = DfuConfig::new();
    assert_eq!(c.validate(), Err("URI must be specified"));
    let c = DfuConfig::new().with_uri(String::from("tcp://10.0.0.2:5000"));
    assert!(c.validate().is_ok());
}

#[test]
fn validate_requires_a_file_for_update() {
    let c = DfuConfig::new().with_uri(String::from("tcp://10.0.0.2:5000")).update();
    assert_eq!(c.validate(), Err("Firmware file must be specified for update"));
    let c = c.with_firmware(String::from("fw.hex"));
    assert!(c.validate().is_ok());
}

#[test]
fn verify_alone_needs_no_file_to_validate() {
    let c = DfuConfig::new().with_uri(String::from("tcp://10.0.0.2:5000")).verify();
    assert!(c.validate().is_ok());
}
