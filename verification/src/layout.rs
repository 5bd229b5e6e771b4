//! The firmware partitions that the loader reports, and the checks made on an
//! image and on the loader's replies before and while it is written.

use vstd::prelude::*;
use vstd::string::*;

use crate::error::{AP2FlashError, hex2};
use crate::frame::{le_u32, read_u32_le};
use crate::target::AP2Target;
use crate::text::{decimal, push_decimal, push_hex};
use vstd::slice::slice_subrange;

verus! {

/// Where each microcontroller's application starts in its flash, as the IAP
/// loader reports it.
#[derive(Debug, Copy, Clone, PartialEq, Eq, Structural)]
pub struct FirmwareLayout {
    pub main_base: u32,
    pub led_base: u32,
    pub ble_base: u32,
}

impl FirmwareLayout {
    /// The partition base of a flashable target; `None` for the other nodes.
    pub open spec fn partition_base(self, target: AP2Target) -> Option<u32> {
        match target {
            AP2Target::McuMain => Some(self.main_base),
            AP2Target::McuLed => Some(self.led_base),
            AP2Target::McuBle => Some(self.ble_base),
            _ => None,
        }
    }

    /// The partition base of `target`; the three microcontrollers have one,
    /// the other nodes are refused.
    pub fn base_for(&self, target: AP2Target) -> (base: Result<u32, AP2FlashError>)
        ensures
            match self.partition_base(target) {
                Some(b) => base == Ok::<u32, AP2FlashError>(b),
                None => base == Err::<u32, AP2FlashError>(
                    AP2FlashError::UnsupportedTarget(target),
                ),
            },
    {
        match target {
            AP2Target::McuMain => Ok(self.main_base),
            AP2Target::McuLed => Ok(self.led_base),
            AP2Target::McuBle => Ok(self.ble_base),
            _ => Err(AP2FlashError::UnsupportedTarget(target)),
        }
    }

    /// The layout that a reply to the firmware-version request states: the
    /// three bases are the little-endian words at bytes 2..6, 12..16 and
    /// 22..26 of its body.
    pub open spec fn from_body(body: Seq<u8>) -> FirmwareLayout {
        FirmwareLayout {
            main_base: le_u32(body[2], body[3], body[4], body[5]),
            led_base: le_u32(body[12], body[13], body[14], body[15]),
            ble_base: le_u32(body[22], body[23], body[24], body[25]),
        }
    }

    /// Reads the layout from the body of the reply to the firmware-version
    /// request; a body shorter than 26 bytes is refused.
    pub fn from_response(body: &[u8]) -> (layout: Result<Self, AP2FlashError>)
        ensures
            body@.len() >= 26 ==> layout == Ok::<FirmwareLayout, AP2FlashError>(
                Self::from_body(body@),
            ),
            body@.len() < 26 ==> (layout matches Err(e) && e.is_protocol(
                "firmware layout response is too short: "@ + decimal(body@.len()) + " bytes"@,
            )),
    {
        if body.len() < 26 {
            let mut text = String::from_str("firmware layout response is too short: ");
            push_decimal(&mut text, body.len() as u128);
            text.append(" bytes");
            return Err(AP2FlashError::Protocol(text));
        }
        Ok(
            Self {
                main_base: read_u32_le(slice_subrange(body, 2, 6)),
                led_base: read_u32_le(slice_subrange(body, 12, 16)),
                ble_base: read_u32_le(slice_subrange(body, 22, 26)),
            },
        )
    }
}

/// How many image bytes one write request carries for `target`.
pub open spec fn write_unit(target: AP2Target) -> nat {
    if target == AP2Target::McuBle {
        32
    } else {
        48
    }
}

/// How many image bytes one write request carries for `target`: 32 for the
/// BLE MCU, 48 otherwise.
pub fn chunk_size(target: AP2Target) -> (size: usize)
    ensures
        size == write_unit(target),
{
    if target == AP2Target::McuBle {
        32
    } else {
        48
    }
}

/// `size` rounded up to whole write units of `target`: the bytes that the
/// write requests cover.
pub open spec fn padded_size(target: AP2Target, size: nat) -> nat {
    (size + write_unit(target) - 1) as nat / write_unit(target) * write_unit(target)
}

/// Why an image of `size` bytes cannot be written at `base` on `target`, if
/// it cannot: rounding its size up to whole write units overflows `usize`,
/// or the rounded image runs past the end of the 32-bit address space.
pub open spec fn image_span_fault(target: AP2Target, base: u32, size: nat) -> Option<Seq<char>> {
    if size + write_unit(target) - 1 > usize::MAX {
        Some("firmware image size overflow"@)
    } else if padded_size(target, size) > u32::MAX || base + padded_size(target, size)
        > u32::MAX {
        Some("firmware image exceeds the IAP address space"@)
    } else {
        None
    }
}

/// An image is refused for its span exactly when rounding it up to whole
/// write units overflows `usize`, or when the rounded image, placed at
/// `base`, runs past the last 32-bit address 0xffff_ffff. `rounded` is the
/// image size rounded up to a whole number of write units.
pub proof fn law_span_refused_only_past_4gib(target: AP2Target, base: u32, size: nat, rounded: nat)
    requires
        rounded % write_unit(target) == 0,
        size <= rounded < size + write_unit(target),
    ensures
        image_span_fault(target, base, size) is None <==> (size + write_unit(target) - 1
            <= usize::MAX && base + rounded <= 0xffff_ffff),
{
    let unit = write_unit(target);
    let n = (size + unit - 1) as nat;
    let k = rounded / unit;
    vstd::arithmetic::div_mod::lemma_fundamental_div_mod(rounded as int, unit as int);
    assert(rounded == k * unit) by (nonlinear_arith)
        requires
            rounded == unit * (rounded / unit) + rounded % unit,
            rounded % unit == 0,
            k == rounded / unit,
    ;
    let r = (n - rounded) as int;
    assert(0 <= r < unit);
    vstd::arithmetic::div_mod::lemma_fundamental_div_mod_converse_div(
        n as int,
        unit as int,
        k as int,
        r,
    );
    assert(padded_size(target, size) == rounded);
}

/// Checks that an image of `image_size` bytes, written in whole units, fits
/// in the address space above `base`.
pub fn validate_image_span(target: AP2Target, base: u32, image_size: usize) -> (checked: Result<
    (),
    AP2FlashError,
>)
    ensures
        match image_span_fault(target, base, image_size as nat) {
            Some(text) => checked matches Err(e) && e.is_protocol(text),
            None => checked is Ok,
        },
{
    let write_size = chunk_size(target);
    if image_size > usize::MAX - (write_size - 1) {
        return Err(AP2FlashError::Protocol(String::from_str("firmware image size overflow")));
    }
    let padded = (image_size + (write_size - 1)) / write_size * write_size;
    assert(padded <= image_size + write_size - 1) by (nonlinear_arith)
        requires
            padded == (image_size + write_size - 1) as int / write_size as int * write_size,
            write_size > 0,
    ;
    if padded > u32::MAX as usize || base > u32::MAX - padded as u32 {
        return Err(
            AP2FlashError::Protocol(
                String::from_str("firmware image exceeds the IAP address space"),
            ),
        );
    }
    Ok(())
}

/// Takes the outcome of reading a firmware image: a read error becomes an
/// I/O error with its text, an empty image is refused before anything is
/// erased, any other image is handed back unchanged.
pub fn read_firmware_image(read: Result<Vec<u8>, String>) -> (image: Result<Vec<u8>, AP2FlashError>)
    ensures
        match read {
            Err(text) => image matches Err(e) && e.is_io(text@),
            Ok(bytes) => if bytes@.len() == 0 {
                image matches Err(e) && e.is_protocol(
                    "firmware image is empty; refusing to erase the target"@,
                )
            } else {
                image matches Ok(v) && v@ == bytes@
            },
        },
{
    match read {
        Err(text) => Err(AP2FlashError::Io(text)),
        Ok(bytes) => {
            if bytes.len() == 0 {
                Err(
                    AP2FlashError::Protocol(
                        String::from_str("firmware image is empty; refusing to erase the target"),
                    ),
                )
            } else {
                Ok(bytes)
            }
        },
    }
}

/// Checks the status byte that starts the reply to `command` sent to
/// `target`: zero is success, any other value is the device's refusal, and a
/// reply without a status byte is a protocol error.
pub fn expect_success(target: AP2Target, command: u8, body: &[u8]) -> (checked: Result<
    (),
    AP2FlashError,
>)
    ensures
        body@.len() == 0 ==> (checked matches Err(e) && e.is_protocol(
            target.spoken_name() + " command 0x"@ + hex2(command)
                + " response has no status byte"@,
        )),
        body@.len() > 0 && body@[0] == 0 ==> checked is Ok,
        body@.len() > 0 && body@[0] != 0 ==> checked == Err::<(), AP2FlashError>(
            AP2FlashError::DeviceRejected { target, command, status: body@[0] },
        ),
{
    if body.len() == 0 {
        let mut text = String::from_str(target.name());
        text.append(" command 0x");
        push_hex(&mut text, command as u32, 2);
        text.append(" response has no status byte");
        return Err(AP2FlashError::Protocol(text));
    }
    let status = body[0];
    if status == 0 {
        Ok(())
    } else {
        Err(AP2FlashError::DeviceRejected { target, command, status })
    }
}

/// Reads the IAP mode byte that starts the reply to the mode request sent to
/// `target`; a reply without it is a protocol error.
pub fn iap_mode_from_reply(target: AP2Target, body: &[u8]) -> (mode: Result<u8, AP2FlashError>)
    ensures
        body@.len() == 0 ==> (mode matches Err(e) && e.is_protocol(
            target.spoken_name() + " IAP mode response has no mode byte"@,
        )),
        body@.len() > 0 ==> mode == Ok::<u8, AP2FlashError>(body@[0]),
{
    if body.len() == 0 {
        let mut text = String::from_str(target.name());
        text.append(" IAP mode response has no mode byte");
        return Err(AP2FlashError::Protocol(text));
    }
    Ok(body[0])
}

/// The loader's only "not in IAP" mode is 2; the C18 reports mode 1 while it
/// is ready for writes.
pub open spec fn ready_mode(mode: u8) -> bool {
    mode != 2
}

/// Refuses to flash a target whose loader reports that it is not in IAP
/// mode.
pub fn check_iap_mode(target: AP2Target, mode: u8) -> (checked: Result<(), AP2FlashError>)
    ensures
        ready_mode(mode) ==> checked is Ok,
        !ready_mode(mode) ==> (checked matches Err(e) && e.is_protocol(
            target.spoken_name() + " is not in IAP mode (reported mode "@ + decimal(mode as nat)
                + ")"@,
        )),
{
    if mode == 2 {
        let mut text = String::from_str(target.name());
        text.append(" is not in IAP mode (reported mode ");
        push_decimal(&mut text, mode as u128);
        text.append(")");
        return Err(AP2FlashError::Protocol(text));
    }
    Ok(())
}

} // verus!
