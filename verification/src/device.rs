//! Finding the keyboard's IAP interface among the HID devices.

use vstd::prelude::*;

use crate::error::AP2FlashError;

verus! {

pub const ANNEPRO2_VID: u16 = 0x04d9;
pub const PID_C15: u16 = 0x8008;
pub const PID_C18: u16 = 0x8009;

/// How long the keyboard is waited for to appear in IAP mode, in seconds.
pub const DEVICE_WAIT_SECS: u64 = 20;

/// How often the HID devices are listed while waiting, in seconds.
pub const DEVICE_POLL_SECS: u64 = 1;

/// An HID interface of an Anne Pro 2 in IAP mode: the C15's second
/// interface, or the C18.
pub open spec fn spec_is_iap_device(vendor_id: u16, product_id: u16, interface_number: i32) -> bool {
    vendor_id == ANNEPRO2_VID && ((product_id == PID_C15 && interface_number == 1) || product_id
        == PID_C18)
}

/// Whether an HID interface belongs to an Anne Pro 2 in IAP mode.
pub fn is_iap_device(vendor_id: u16, product_id: u16, interface_number: i32) -> (found: bool)
    ensures
        found == spec_is_iap_device(vendor_id, product_id, interface_number),
{
    vendor_id == ANNEPRO2_VID && ((product_id == PID_C15 && interface_number == 1) || product_id
        == PID_C18)
}

/// Decides on the IAP interfaces found: exactly one is used (`Ok(true)`),
/// several are an error, none is an error once `give_up` holds and otherwise
/// means waiting on (`Ok(false)`).
pub fn select_device(count: usize, give_up: bool) -> (decision: Result<bool, AP2FlashError>)
    ensures
        count == 1 ==> decision == Ok::<bool, AP2FlashError>(true),
        count > 1 ==> decision == Err::<bool, AP2FlashError>(
            AP2FlashError::MultipleDevicesFound(count),
        ),
        count == 0 && give_up ==> decision == Err::<bool, AP2FlashError>(
            AP2FlashError::NoDeviceFound,
        ),
        count == 0 && !give_up ==> decision == Ok::<bool, AP2FlashError>(false),
{
    if count == 1 {
        Ok(true)
    } else if count > 1 {
        Err(AP2FlashError::MultipleDevicesFound(count))
    } else if give_up {
        Err(AP2FlashError::NoDeviceFound)
    } else {
        Ok(false)
    }
}

/// Whole seconds left of a wait of `secs` seconds and `subsec_nanos`
/// nanoseconds, rounded up.
pub fn seconds_left(secs: u64, subsec_nanos: u32) -> (seconds: u64)
    requires
        secs < u64::MAX,
    ensures
        seconds == secs + if subsec_nanos > 0 {
            1int
        } else {
            0int
        },
{
    secs + if subsec_nanos > 0 {
        1
    } else {
        0
    }
}

} // verus!
