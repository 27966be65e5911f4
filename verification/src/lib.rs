//! Driver for a 12-channel capacitive touch controller on a two-wire serial
//! bus.
//!
//! The driver brings the chip from power-on to a known configuration and then
//! reads touch and measurement state. Bus access goes through the [`bus::Bus`]
//! trait, whose implementors supply the raw write and write-then-read
//! transactions; [`mock::MockBus`] is a register-accurate simulation used by
//! the tests.
//!
//! Every bus operation of the driver carries a contract over the sequence of
//! transactions it puts on the bus, so the mode-switching protocol (writes to
//! most registers must be bracketed by a stop-mode entry and a restore of the
//! previous mode) is machine-checked.

use vstd::prelude::*;

pub mod bus;
pub mod communications;
pub mod mock;
pub mod mpr121;
pub mod registers;

use registers::Register;

verus! {

/// Errors the driver can report.
#[derive(Clone, Copy, Debug, PartialEq, Eq, PartialOrd, Ord, Structural)]
pub enum Mpr121Error {
    /// An operation exceeds the channel count (12).
    ChannelExceed,
    /// A read operation failed; carries the register whose read failed.
    ReadError(Register),
    /// A read value could not be narrowed into its documented width; carries
    /// the register whose value failed to convert.
    DataConversionError(Register),
    /// A write operation failed; carries the register whose write failed.
    WriteError(Register),
    /// Sending the reset signal failed; carries the register that failed and
    /// whether the failing sub-operation was a read.
    ResetFailed { was_read: bool, reg: Register },
    /// The post-reset configuration check did not match. If
    /// `over_current_protection` is set, the chip reports a short-circuit
    /// fault on its electrodes.
    InitFailed { over_current_protection: bool },
    /// A verification register did not read back its documented default:
    /// a wrong or absent device is on the bus.
    WrongDevice { mismatched_register: Register, expected: u8, actual: u8 },
}

/// The four bus addresses the sensor can be strapped to. The address is
/// selected by where the chip's `ADDR` pin is wired; `Default` is used for no
/// connection or a connection to `VSS`.
#[derive(Clone, Copy, Debug, PartialEq, Eq, PartialOrd, Ord, Structural)]
pub enum Mpr121Address {
    Default,
    Vdd,
    Sda,
    Scl,
}

impl Mpr121Address {
    /// The byte the device answers to on the bus.
    pub open spec fn spec_value(self) -> u8 {
        match self {
            Mpr121Address::Default => 0x5a,
            Mpr121Address::Vdd => 0x5b,
            Mpr121Address::Sda => 0x5c,
            Mpr121Address::Scl => 0x5d,
        }
    }

    /// Returns the byte the device answers to on the bus.
    pub fn value(self) -> (r: u8)
        ensures
            r == self.spec_value(),
    {
        match self {
            Mpr121Address::Default => 0x5a,
            Mpr121Address::Vdd => 0x5b,
            Mpr121Address::Sda => 0x5c,
            Mpr121Address::Scl => 0x5d,
        }
    }
}

/// The channels of the sensor, used to address per-channel registers.
#[derive(Clone, Copy, Debug, PartialEq, Eq, PartialOrd, Ord, Structural)]
pub enum Channel {
    Zero,
    One,
    Two,
    Three,
    Four,
    Five,
    Six,
    Seven,
    Eight,
    Nine,
    Ten,
    Eleven,
}

impl Channel {
    /// How many touch channels the chip has.
    pub const NUM_CHANNELS: u8 = 12;

    /// The index of the channel, 0 to 11.
    pub open spec fn spec_index(self) -> u8 {
        match self {
            Channel::Zero => 0,
            Channel::One => 1,
            Channel::Two => 2,
            Channel::Three => 3,
            Channel::Four => 4,
            Channel::Five => 5,
            Channel::Six => 6,
            Channel::Seven => 7,
            Channel::Eight => 8,
            Channel::Nine => 9,
            Channel::Ten => 10,
            Channel::Eleven => 11,
        }
    }

    /// The channel with the given index, if the index is in range.
    pub open spec fn spec_from_index(i: u8) -> Option<Channel> {
        if i == 0 { Some(Channel::Zero) }
        else if i == 1 { Some(Channel::One) }
        else if i == 2 { Some(Channel::Two) }
        else if i == 3 { Some(Channel::Three) }
        else if i == 4 { Some(Channel::Four) }
        else if i == 5 { Some(Channel::Five) }
        else if i == 6 { Some(Channel::Six) }
        else if i == 7 { Some(Channel::Seven) }
        else if i == 8 { Some(Channel::Eight) }
        else if i == 9 { Some(Channel::Nine) }
        else if i == 10 { Some(Channel::Ten) }
        else if i == 11 { Some(Channel::Eleven) }
        else { None }
    }

    /// Returns the index of the channel, 0 to 11.
    pub fn index(self) -> (r: u8)
        ensures
            r == self.spec_index(),
    {
        match self {
            Channel::Zero => 0,
            Channel::One => 1,
            Channel::Two => 2,
            Channel::Three => 3,
            Channel::Four => 4,
            Channel::Five => 5,
            Channel::Six => 6,
            Channel::Seven => 7,
            Channel::Eight => 8,
            Channel::Nine => 9,
            Channel::Ten => 10,
            Channel::Eleven => 11,
        }
    }

    /// Returns the channel with the given index, or `None` when the index
    /// exceeds the channel count.
    pub fn from_index(i: u8) -> (r: Option<Channel>)
        ensures
            r == Channel::spec_from_index(i),
            r is Some <==> i < 12,
            r matches Some(c) ==> c.spec_index() == i,
    {
        match i {
            0 => Some(Channel::Zero),
            1 => Some(Channel::One),
            2 => Some(Channel::Two),
            3 => Some(Channel::Three),
            4 => Some(Channel::Four),
            5 => Some(Channel::Five),
            6 => Some(Channel::Six),
            7 => Some(Channel::Seven),
            8 => Some(Channel::Eight),
            9 => Some(Channel::Nine),
            10 => Some(Channel::Ten),
            11 => Some(Channel::Eleven),
            _ => None,
        }
    }

    /// Returns the bit mask associated with the selected channel.
    pub fn get_bit_mask(self) -> (r: u16)
        ensures
            r == 1u16 << self.spec_index(),
    {
        let i = self.index();
        assert(i < 12);
        1u16 << i
    }
}

/// The number of consecutive readings a touch or release must persist before
/// the chip reports it; the chip holds a 3-bit count for each.
#[derive(Clone, Copy, Debug, PartialEq, Eq, PartialOrd, Ord, Structural)]
pub enum DebounceNumber {
    Zero,
    One,
    Two,
    Three,
    Four,
    Five,
    Six,
    Seven,
}

impl DebounceNumber {
    /// The debounce count as an integer, 0 to 7.
    pub open spec fn spec_value(self) -> u8 {
        match self {
            DebounceNumber::Zero => 0,
            DebounceNumber::One => 1,
            DebounceNumber::Two => 2,
            DebounceNumber::Three => 3,
            DebounceNumber::Four => 4,
            DebounceNumber::Five => 5,
            DebounceNumber::Six => 6,
            DebounceNumber::Seven => 7,
        }
    }

    /// Returns the debounce count as an integer, 0 to 7.
    pub fn value(self) -> (r: u8)
        ensures
            r == self.spec_value(),
            r < 8,
    {
        match self {
            DebounceNumber::Zero => 0,
            DebounceNumber::One => 1,
            DebounceNumber::Two => 2,
            DebounceNumber::Three => 3,
            DebounceNumber::Four => 4,
            DebounceNumber::Five => 5,
            DebounceNumber::Six => 6,
            DebounceNumber::Seven => 7,
        }
    }
}

} // verus!
