use annepro2_tools::device::{is_iap_device, seconds_left, select_device, PID_C15, PID_C18};
use annepro2_tools::error::AP2FlashError;

#[test]
fn iap_interfaces_are_recognised() {
    assert!(is_iap_device(0x04d9, PID_C15, 1));
    assert!(!is_iap_device(0x04d9, PID_C15, 0));
    assert!(is_iap_device(0x04d9, PID_C18, 0));
    assert!(is_iap_device(0x04d9, PID_C18, -1));
    assert!(!is_iap_device(0x04d8, PID_C18, 0));
    assert!(!is_iap_device(0x04d9, 0x8007, 1));
}

#[test]
fn device_count_decides_what_happens() {
    assert_eq!(select_device(1, false).unwrap(), true);
    assert_eq!(select_device(1, true).unwrap(), true);
    assert_eq!(select_device(0, false).unwrap(), false);
    assert!(matches!(select_device(0, true), Err(AP2FlashError::NoDeviceFound)));
    assert!(matches!(
        select_device(2, false),
        Err(AP2FlashError::MultipleDevicesFound(2))
    ));
}

#[test]
fn waits_round_up_to_seconds() {
    assert_eq!(seconds_left(0, 0), 0);
    assert_eq!(seconds_left(0, 1), 1);
    assert_eq!(seconds_left(19, 999_999_999), 20);
    assert_eq!(seconds_left(20, 0), 20);
}
