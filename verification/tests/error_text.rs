use annepro2_tools::error::AP2FlashError;
use annepro2_tools::target::AP2Target;

#[test]
fn every_error_reads_as_the_tool_prints_it() {
    let cases = [
        (AP2FlashError::NoDeviceFound, "no Anne Pro 2 IAP device found"),
        (
            AP2FlashError::MultipleDevicesFound(3),
            "found 3 Anne Pro 2 IAP devices; connect only one",
        ),
        (AP2FlashError::Usb("gone".to_owned()), "USB error: gone"),
        (AP2FlashError::Io("denied".to_owned()), "I/O error: denied"),
        (AP2FlashError::Protocol("odd".to_owned()), "protocol error: odd"),
        (
            AP2FlashError::Timeout {
                target: AP2Target::McuLed,
                command: 0x43,
            },
            "timed out waiting for LED MCU command 0x43",
        ),
        (
            AP2FlashError::DeviceRejected {
                target: AP2Target::McuBle,
                command: 0x31,
                status: 0x0a,
            },
            "BLE MCU rejected command 0x31 with status 0x0a",
        ),
        (
            AP2FlashError::BaseMismatch {
                target: AP2Target::McuMain,
                requested: 0x4000,
                detected: 0xdead_beef,
            },
            "main MCU base mismatch: requested 0x00004000, device reports 0xdeadbeef",
        ),
        (
            AP2FlashError::UnsupportedTarget(AP2Target::BleHost),
            "no firmware partition is defined for BLE host",
        ),
    ];
    for (error, text) in cases {
        assert_eq!(error.message(), text);
    }
}

#[test]
fn targets_have_names_and_codes() {
    let all = [
        (AP2Target::Reserved, "reserved", 0),
        (AP2Target::UsbHost, "USB host", 1),
        (AP2Target::BleHost, "BLE host", 2),
        (AP2Target::McuMain, "main MCU", 3),
        (AP2Target::McuLed, "LED MCU", 4),
        (AP2Target::McuBle, "BLE MCU", 5),
    ];
    for (target, name, code) in all {
        assert_eq!(target.name(), name);
        assert_eq!(target.as_u8(), code);
    }
}
