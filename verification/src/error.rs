//! The ways a transfer can fail, and how each is told to people.

use vstd::prelude::*;
use vstd::string::*;

use crate::target::AP2Target;
use crate::text::{decimal, hex_digits, push_decimal, push_hex};

verus! {

/// Why talking to the keyboard or flashing it failed.
#[derive(Debug)]
pub enum AP2FlashError {
    NoDeviceFound,
    MultipleDevicesFound(usize),
    Usb(String),
    Io(String),
    Protocol(String),
    Timeout { target: AP2Target, command: u8 },
    DeviceRejected { target: AP2Target, command: u8, status: u8 },
    BaseMismatch { target: AP2Target, requested: u32, detected: u32 },
    UnsupportedTarget(AP2Target),
}

/// Two lower-case hexadecimal digits, as `{:02x}` prints a byte.
pub open spec fn hex2(n: u8) -> Seq<char> {
    hex_digits(n as nat, 2)
}

/// Eight lower-case hexadecimal digits, as `{:08x}` prints a `u32`.
pub open spec fn hex8(n: u32) -> Seq<char> {
    hex_digits(n as nat, 8)
}

impl AP2FlashError {
    /// This is a protocol error with the text `text`.
    pub open spec fn is_protocol(self, text: Seq<char>) -> bool {
        match self {
            AP2FlashError::Protocol(m) => m@ == text,
            _ => false,
        }
    }

    /// This is a USB error with the text `text`.
    pub open spec fn is_usb(self, text: Seq<char>) -> bool {
        match self {
            AP2FlashError::Usb(m) => m@ == text,
            _ => false,
        }
    }

    /// This is an I/O error with the text `text`.
    pub open spec fn is_io(self, text: Seq<char>) -> bool {
        match self {
            AP2FlashError::Io(m) => m@ == text,
            _ => false,
        }
    }

    /// What is shown to people for this error.
    pub open spec fn text(self) -> Seq<char> {
        match self {
            AP2FlashError::NoDeviceFound => "no Anne Pro 2 IAP device found"@,
            AP2FlashError::MultipleDevicesFound(count) => "found "@ + decimal(count as nat)
                + " Anne Pro 2 IAP devices; connect only one"@,
            AP2FlashError::Usb(m) => "USB error: "@ + m@,
            AP2FlashError::Io(m) => "I/O error: "@ + m@,
            AP2FlashError::Protocol(m) => "protocol error: "@ + m@,
            AP2FlashError::Timeout { target, command } => "timed out waiting for "@
                + target.spoken_name() + " command 0x"@ + hex2(command),
            AP2FlashError::DeviceRejected { target, command, status } => target.spoken_name()
                + " rejected command 0x"@ + hex2(command) + " with status 0x"@ + hex2(status),
            AP2FlashError::BaseMismatch { target, requested, detected } => target.spoken_name()
                + " base mismatch: requested 0x"@ + hex8(requested) + ", device reports 0x"@
                + hex8(detected),
            AP2FlashError::UnsupportedTarget(target) => "no firmware partition is defined for "@
                + target.spoken_name(),
        }
    }

    /// What is shown to people for this error.
    pub fn message(&self) -> (text: String)
        ensures
            text@ == self.text(),
    {
        match self {
            AP2FlashError::NoDeviceFound => String::from_str("no Anne Pro 2 IAP device found"),
            AP2FlashError::MultipleDevicesFound(count) => {
                let mut text = String::from_str("found ");
                push_decimal(&mut text, *count as u128);
                text.append(" Anne Pro 2 IAP devices; connect only one");
                text
            },
            AP2FlashError::Usb(m) => {
                let mut text = String::from_str("USB error: ");
                text.append(m.as_str());
                text
            },
            AP2FlashError::Io(m) => {
                let mut text = String::from_str("I/O error: ");
                text.append(m.as_str());
                text
            },
            AP2FlashError::Protocol(m) => {
                let mut text = String::from_str("protocol error: ");
                text.append(m.as_str());
                text
            },
            AP2FlashError::Timeout { target, command } => {
                let mut text = String::from_str("timed out waiting for ");
                text.append(target.name());
                text.append(" command 0x");
                push_hex(&mut text, *command as u32, 2);
                text
            },
            AP2FlashError::DeviceRejected { target, command, status } => {
                let mut text = String::from_str(target.name());
                text.append(" rejected command 0x");
                push_hex(&mut text, *command as u32, 2);
                text.append(" with status 0x");
                push_hex(&mut text, *status as u32, 2);
                text
            },
            AP2FlashError::BaseMismatch { target, requested, detected } => {
                let mut text = String::from_str(target.name());
                text.append(" base mismatch: requested 0x");
                push_hex(&mut text, *requested, 8);
                text.append(", device reports 0x");
                push_hex(&mut text, *detected, 8);
                text
            },
            AP2FlashError::UnsupportedTarget(target) => {
                let mut text = String::from_str("no firmware partition is defined for ");
                text.append(target.name());
                text
            },
        }
    }
}

} // verus!
