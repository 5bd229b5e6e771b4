//! The addressable parts of the keyboard and the command codes of the IAP
//! protocol.

use vstd::prelude::*;

verus! {

/// A node on the keyboard's internal bus: the hosts at either end of a
/// transfer and the three microcontrollers that can be flashed.
#[derive(Debug, Copy, Clone, PartialEq, Eq, Structural)]
pub enum AP2Target {
    Reserved,
    UsbHost,
    BleHost,
    McuMain,
    McuLed,
    McuBle,
}

impl AP2Target {
    /// The node's address on the bus.
    pub open spec fn code(self) -> u8 {
        match self {
            AP2Target::Reserved => 0,
            AP2Target::UsbHost => 1,
            AP2Target::BleHost => 2,
            AP2Target::McuMain => 3,
            AP2Target::McuLed => 4,
            AP2Target::McuBle => 5,
        }
    }

    /// The node's address on the bus.
    pub fn as_u8(&self) -> (code: u8)
        ensures
            code == self.code(),
    {
        match self {
            AP2Target::Reserved => 0,
            AP2Target::UsbHost => 1,
            AP2Target::BleHost => 2,
            AP2Target::McuMain => 3,
            AP2Target::McuLed => 4,
            AP2Target::McuBle => 5,
        }
    }

    /// The name shown to people.
    pub open spec fn spoken_name(self) -> Seq<char> {
        match self {
            AP2Target::Reserved => "reserved"@,
            AP2Target::UsbHost => "USB host"@,
            AP2Target::BleHost => "BLE host"@,
            AP2Target::McuMain => "main MCU"@,
            AP2Target::McuLed => "LED MCU"@,
            AP2Target::McuBle => "BLE MCU"@,
        }
    }

    /// The name shown to people.
    pub fn name(&self) -> (name: &'static str)
        ensures
            name@ == self.spoken_name(),
    {
        match self {
            AP2Target::Reserved => "reserved",
            AP2Target::UsbHost => "USB host",
            AP2Target::BleHost => "BLE host",
            AP2Target::McuMain => "main MCU",
            AP2Target::McuLed => "LED MCU",
            AP2Target::McuBle => "BLE MCU",
        }
    }
}

/// The command classes of the protocol's second layer.
#[derive(Debug, Copy, Clone, PartialEq, Eq, Structural)]
pub enum L2Command {
    Global,
    Firmware,
    Keyboard,
    Led,
    Macro,
    Ble,
}

impl L2Command {
    /// The command's code on the wire.
    pub open spec fn code(self) -> u8 {
        match self {
            L2Command::Global => 1,
            L2Command::Firmware => 2,
            L2Command::Keyboard => 16,
            L2Command::Led => 32,
            L2Command::Macro => 48,
            L2Command::Ble => 64,
        }
    }

    /// The command's code on the wire.
    pub fn as_u8(&self) -> (code: u8)
        ensures
            code == self.code(),
    {
        match self {
            L2Command::Global => 1,
            L2Command::Firmware => 2,
            L2Command::Keyboard => 16,
            L2Command::Led => 32,
            L2Command::Macro => 48,
            L2Command::Ble => 64,
        }
    }
}

/// The keys of the firmware command class.
#[derive(Debug, Copy, Clone, PartialEq, Eq, Structural)]
pub enum KeyCommand {
    Reserved,
    IapMode,
    IapGetMode,
    IapGetFwVersion,
    IapWriteMemory,
    IapWriteApFlag,
    IapEraseMemory,
}

impl KeyCommand {
    /// The key's code on the wire.
    pub open spec fn code(self) -> u8 {
        match self {
            KeyCommand::Reserved => 0,
            KeyCommand::IapMode => 1,
            KeyCommand::IapGetMode => 2,
            KeyCommand::IapGetFwVersion => 3,
            KeyCommand::IapWriteMemory => 0x31,
            KeyCommand::IapWriteApFlag => 0x32,
            KeyCommand::IapEraseMemory => 0x43,
        }
    }

    /// The key's code on the wire.
    pub fn as_u8(&self) -> (code: u8)
        ensures
            code == self.code(),
    {
        match self {
            KeyCommand::Reserved => 0,
            KeyCommand::IapMode => 1,
            KeyCommand::IapGetMode => 2,
            KeyCommand::IapGetFwVersion => 3,
            KeyCommand::IapWriteMemory => 0x31,
            KeyCommand::IapWriteApFlag => 0x32,
            KeyCommand::IapEraseMemory => 0x43,
        }
    }
}

} // verus!
