use annepro2_tools::error::AP2FlashError;
use annepro2_tools::frame::{build_report, parse_response, ResponseFrame, HID_REPORT_SIZE};
use annepro2_tools::layout::{
    expect_success, read_firmware_image, validate_image_span, FirmwareLayout,
};
use annepro2_tools::target::{AP2Target, KeyCommand, L2Command};
use annepro2_tools::text::format_transfer_progress;

#[test]
fn builds_ble_write_report() {
    let mut args = Vec::from(0x25fe0u32.to_le_bytes());
    args.extend(0u8..32);
    let report = build_report(
        AP2Target::McuBle,
        L2Command::Firmware.as_u8(),
        KeyCommand::IapWriteMemory.as_u8(),
        &args,
    )
    .unwrap();

    assert_eq!(report.len(), 65);
    assert_eq!(
        &report[..15],
        &[0x00, 0x7b, 0x10, 0x51, 0x10, 0x26, 0, 0, 0x7d, 0x02, 0x31, 0xe0, 0x5f, 0x02, 0]
    );
}

#[test]
fn builds_official_iap_layout_request() {
    let report = build_report(
        AP2Target::McuMain,
        L2Command::Firmware.as_u8(),
        KeyCommand::IapGetFwVersion.as_u8(),
        &[],
    )
    .unwrap();

    assert_eq!(
        &report[..11],
        &[0x00, 0x7b, 0x10, 0x31, 0x10, 0x02, 0, 0, 0x7d, 0x02, 0x03]
    );
}

#[test]
fn parses_recorded_success_response() {
    let mut report = [0u8; HID_REPORT_SIZE];
    report[..11].copy_from_slice(&[0x7b, 0x10, 0x15, 0x10, 0x03, 0, 0, 0x7d, 0x02, 0x31, 0]);

    let parsed = parse_response(&report).unwrap();
    assert_eq!(
        parsed,
        ResponseFrame {
            source: AP2Target::McuBle.as_u8(),
            destination: AP2Target::UsbHost.as_u8(),
            command: L2Command::Firmware.as_u8(),
            key: KeyCommand::IapWriteMemory.as_u8(),
            body: vec![0],
        }
    );
}

#[test]
fn parses_recorded_error_response() {
    let mut report = [0u8; HID_REPORT_SIZE];
    report[..11].copy_from_slice(&[0x7b, 0x10, 0x15, 0x10, 0x03, 0, 0, 0x7d, 0x02, 0x31, 1]);

    let parsed = parse_response(&report).unwrap();
    let error = expect_success(
        AP2Target::McuBle,
        KeyCommand::IapWriteMemory.as_u8(),
        &parsed.body,
    )
    .unwrap_err();
    assert!(matches!(
        error,
        AP2FlashError::DeviceRejected {
            target: AP2Target::McuBle,
            command: 0x31,
            status: 1
        }
    ));
}

#[test]
fn extracts_official_partition_offsets() {
    let mut body = [0u8; 26];
    body[2..6].copy_from_slice(&0x4000u32.to_le_bytes());
    body[12..16].copy_from_slice(&0x2000u32.to_le_bytes());
    body[22..26].copy_from_slice(&0x8000u32.to_le_bytes());

    assert_eq!(
        FirmwareLayout::from_response(&body).unwrap(),
        FirmwareLayout {
            main_base: 0x4000,
            led_base: 0x2000,
            ble_base: 0x8000,
        }
    );
}

#[test]
fn rejects_truncated_frames() {
    let error = parse_response(&[0x7b, 0x10]).unwrap_err();
    assert!(matches!(error, AP2FlashError::Protocol(_)));
}

#[test]
fn rejects_explicit_base_mismatch() {
    let layout = FirmwareLayout {
        main_base: 0x4000,
        led_base: 0x2000,
        ble_base: 0x8000,
    };
    assert_eq!(layout.base_for(AP2Target::McuBle).unwrap(), 0x8000);
    assert!(matches!(
        layout.base_for(AP2Target::UsbHost),
        Err(AP2FlashError::UnsupportedTarget(AP2Target::UsbHost))
    ));
}

#[test]
fn rejects_empty_firmware_before_erase() {
    let empty: Vec<u8> = Vec::new();
    let error = read_firmware_image(Ok(empty)).unwrap_err();
    assert!(matches!(error, AP2FlashError::Protocol(_)));
    assert!(error.message().contains("refusing to erase"));
}

#[test]
fn rejects_image_address_overflow() {
    let error = validate_image_span(AP2Target::McuBle, u32::MAX - 15, 16).unwrap_err();
    assert!(matches!(error, AP2FlashError::Protocol(_)));
}

#[test]
fn formats_transfer_progress() {
    assert_eq!(
        format_transfer_progress(4096, 16384, 0x5000),
        "Writing [======------------------]  25% 4.0 KiB/16.0 KiB (next 0x00005000)"
    );
    assert_eq!(
        format_transfer_progress(16384, 16384, 0x8000),
        "Writing [========================] 100% 16.0 KiB/16.0 KiB (next 0x00008000)"
    );
}
