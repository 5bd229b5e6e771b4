//! Verified core of a firmware update tool for the Anne Pro 2 keyboard.
//!
//! The tool talks to the keyboard's USB in-application-programming (IAP)
//! loader through HID reports framed in the "Liana" protocol. This crate holds
//! everything that decides what is sent and how replies are read: report
//! framing and parsing, the firmware partition layout, the checks made before
//! anything is erased, the flashing sequence, the progress line and the
//! command-line value parsers. The HID transport itself lives outside.

pub mod cli;
pub mod device;
pub mod error;
pub mod frame;
pub mod layout;
pub mod session;
pub mod target;
pub mod text;
