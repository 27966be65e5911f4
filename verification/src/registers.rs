//! The chip's register map: every addressable register, its address, whether
//! accessing it requires the chip to be in stop mode, and its documented
//! reset-default value.

use vstd::prelude::*;

use crate::Channel;

verus! {

/// Auto-configuration charge limits, derived from a 3.3 V supply as the data
/// sheet prescribes: `up = ((Vdd - 0.7) / Vdd) * 256`, `target = up * 0.9`,
/// `low = up * 0.65`, each truncated to an 8-bit integer.
pub const UP_SIDE: u8 = 201;
/// Low-side auto-configuration limit, `UP_SIDE * 0.65` truncated.
pub const LOW_SIDE: u8 = 130;
/// Auto-configuration target level, `UP_SIDE * 0.9` truncated.
pub const TARGET_LEVEL: u8 = 180;

/// Every addressable register of the chip.
#[derive(Debug, Copy, Clone, Eq, PartialEq, PartialOrd, Ord, Structural)]
pub enum Register {
    TouchStatus0_7,
    TouchStatus8_11,
    OORStatus,
    EleproxOORStatus,
    FiltData0MSB,
    FiltData0LSB,
    FiltData1MSB,
    FiltData1LSB,
    FiltData2MSB,
    FiltData2LSB,
    FiltData3MSB,
    FiltData3LSB,
    FiltData4MSB,
    FiltData4LSB,
    FiltData5MSB,
    FiltData5LSB,
    FiltData6MSB,
    FiltData6LSB,
    FiltData7MSB,
    FiltData7LSB,
    FiltData8MSB,
    FiltData8LSB,
    FiltData9MSB,
    FiltData9LSB,
    FiltData10MSB,
    FiltData10LSB,
    FiltData11MSB,
    FiltData11LSB,
    BaseLine0,
    BaseLine1,
    BaseLine2,
    BaseLine3,
    BaseLine4,
    BaseLine5,
    BaseLine6,
    BaseLine7,
    BaseLine8,
    BaseLine9,
    BaseLine10,
    BaseLine11,
    EleproxBaseLine,
    MaximumHalfDeltaRising,
    NoiseHalfDataRising,
    NoiseCountLimitRising,
    FilterDelayCountLimitRising,
    MaximmHalfDeltaFalling,
    NoiseHalfDeltaFalling,
    NoiseCountLimitFalling,
    FilterDelayCountFalling,
    NoiseHalfDeltaTouched,
    NoiseCountLimitTouched,
    FilterDelayCountLimitTouched,
    TouchThreshold0,
    ReleaseThreshold0,
    TouchThreshold1,
    ReleaseThreshold1,
    TouchThreshold2,
    ReleaseThreshold2,
    TouchThreshold3,
    ReleaseThreshold3,
    TouchThreshold4,
    ReleaseThreshold4,
    TouchThreshold5,
    ReleaseThreshold5,
    TouchThreshold6,
    ReleaseThreshold6,
    TouchThreshold7,
    ReleaseThreshold7,
    TouchThreshold8,
    ReleaseThreshold8,
    TouchThreshold9,
    ReleaseThreshold9,
    TouchThreshold10,
    ReleaseThreshold10,
    TouchThreshold11,
    ReleaseThreshold11,
    Debounce,
    GlobalChargeDischargeCurrentConfig,
    GlobalChargeDischargeTimeConfig,
    ChargeCurr0,
    ChargeTime1,
    Ecr,
    AutoConfig0,
    AutoConfig1,
    UpSideLimit,
    LowSideLimit,
    TargetLevel,
    SoftReset,
    GpioControl0,
    GpioControl1,
    GpioData,
    GpioDirection,
    GpioEnable,
    GpioDataSet,
    GpioDataClear,
    GpioDataToggle,
}

impl Register {
    /// The byte address of the register on the chip.
    pub open spec fn spec_addr(self) -> u8 {
        match self {
            Register::TouchStatus0_7 => 0x00,
            Register::TouchStatus8_11 => 0x01,
            Register::OORStatus => 0x02,
            Register::EleproxOORStatus => 0x03,
            Register::FiltData0MSB => 0x04,
            Register::FiltData0LSB => 0x05,
            Register::FiltData1MSB => 0x06,
            Register::FiltData1LSB => 0x07,
            Register::FiltData2MSB => 0x08,
            Register::FiltData2LSB => 0x09,
            Register::FiltData3MSB => 0x0a,
            Register::FiltData3LSB => 0x0b,
            Register::FiltData4MSB => 0x0c,
            Register::FiltData4LSB => 0x0d,
            Register::FiltData5MSB => 0x0e,
            Register::FiltData5LSB => 0x0f,
            Register::FiltData6MSB => 0x10,
            Register::FiltData6LSB => 0x11,
            Register::FiltData7MSB => 0x12,
            Register::FiltData7LSB => 0x13,
            Register::FiltData8MSB => 0x14,
            Register::FiltData8LSB => 0x15,
            Register::FiltData9MSB => 0x16,
            Register::FiltData9LSB => 0x17,
            Register::FiltData10MSB => 0x18,
            Register::FiltData10LSB => 0x19,
            Register::FiltData11MSB => 0x1a,
            Register::FiltData11LSB => 0x1b,
            Register::BaseLine0 => 0x1e,
            Register::BaseLine1 => 0x1f,
            Register::BaseLine2 => 0x20,
            Register::BaseLine3 => 0x21,
            Register::BaseLine4 => 0x22,
            Register::BaseLine5 => 0x23,
            Register::BaseLine6 => 0x24,
            Register::BaseLine7 => 0x25,
            Register::BaseLine8 => 0x26,
            Register::BaseLine9 => 0x27,
            Register::BaseLine10 => 0x28,
            Register::BaseLine11 => 0x29,
            Register::EleproxBaseLine => 0x2a,
            Register::MaximumHalfDeltaRising => 0x2b,
            Register::NoiseHalfDataRising => 0x2c,
            Register::NoiseCountLimitRising => 0x2d,
            Register::FilterDelayCountLimitRising => 0x2e,
            Register::MaximmHalfDeltaFalling => 0x2f,
            Register::NoiseHalfDeltaFalling => 0x30,
            Register::NoiseCountLimitFalling => 0x31,
            Register::FilterDelayCountFalling => 0x32,
            Register::NoiseHalfDeltaTouched => 0x33,
            Register::NoiseCountLimitTouched => 0x34,
            Register::FilterDelayCountLimitTouched => 0x35,
            Register::TouchThreshold0 => 0x41,
            Register::ReleaseThreshold0 => 0x42,
            Register::TouchThreshold1 => 0x43,
            Register::ReleaseThreshold1 => 0x44,
            Register::TouchThreshold2 => 0x45,
            Register::ReleaseThreshold2 => 0x46,
            Register::TouchThreshold3 => 0x47,
            Register::ReleaseThreshold3 => 0x48,
            Register::TouchThreshold4 => 0x49,
            Register::ReleaseThreshold4 => 0x4a,
            Register::TouchThreshold5 => 0x4b,
            Register::ReleaseThreshold5 => 0x4c,
            Register::TouchThreshold6 => 0x4d,
            Register::ReleaseThreshold6 => 0x4e,
            Register::TouchThreshold7 => 0x4f,
            Register::ReleaseThreshold7 => 0x50,
            Register::TouchThreshold8 => 0x51,
            Register::ReleaseThreshold8 => 0x52,
            Register::TouchThreshold9 => 0x53,
            Register::ReleaseThreshold9 => 0x54,
            Register::TouchThreshold10 => 0x55,
            Register::ReleaseThreshold10 => 0x56,
            Register::TouchThreshold11 => 0x57,
            Register::ReleaseThreshold11 => 0x58,
            Register::Debounce => 0x5b,
            Register::GlobalChargeDischargeCurrentConfig => 0x5c,
            Register::GlobalChargeDischargeTimeConfig => 0x5d,
            Register::ChargeCurr0 => 0x5f,
            Register::ChargeTime1 => 0x6c,
            Register::Ecr => 0x5e,
            Register::AutoConfig0 => 0x7b,
            Register::AutoConfig1 => 0x7c,
            Register::UpSideLimit => 0x7d,
            Register::LowSideLimit => 0x7e,
            Register::TargetLevel => 0x7f,
            Register::SoftReset => 0x80,
            Register::GpioControl0 => 0x73,
            Register::GpioControl1 => 0x74,
            Register::GpioData => 0x75,
            Register::GpioDirection => 0x76,
            Register::GpioEnable => 0x77,
            Register::GpioDataSet => 0x78,
            Register::GpioDataClear => 0x79,
            Register::GpioDataToggle => 0x7a,
        }
    }

    /// Returns the byte address of the register on the chip.
    pub fn addr(self) -> (r: u8)
        ensures
            r == self.spec_addr(),
    {
        match self {
            Register::TouchStatus0_7 => 0x00,
            Register::TouchStatus8_11 => 0x01,
            Register::OORStatus => 0x02,
            Register::EleproxOORStatus => 0x03,
            Register::FiltData0MSB => 0x04,
            Register::FiltData0LSB => 0x05,
            Register::FiltData1MSB => 0x06,
            Register::FiltData1LSB => 0x07,
            Register::FiltData2MSB => 0x08,
            Register::FiltData2LSB => 0x09,
            Register::FiltData3MSB => 0x0a,
            Register::FiltData3LSB => 0x0b,
            Register::FiltData4MSB => 0x0c,
            Register::FiltData4LSB => 0x0d,
            Register::FiltData5MSB => 0x0e,
            Register::FiltData5LSB => 0x0f,
            Register::FiltData6MSB => 0x10,
            Register::FiltData6LSB => 0x11,
            Register::FiltData7MSB => 0x12,
            Register::FiltData7LSB => 0x13,
            Register::FiltData8MSB => 0x14,
            Register::FiltData8LSB => 0x15,
            Register::FiltData9MSB => 0x16,
            Register::FiltData9LSB => 0x17,
            Register::FiltData10MSB => 0x18,
            Register::FiltData10LSB => 0x19,
            Register::FiltData11MSB => 0x1a,
            Register::FiltData11LSB => 0x1b,
            Register::BaseLine0 => 0x1e,
            Register::BaseLine1 => 0x1f,
            Register::BaseLine2 => 0x20,
            Register::BaseLine3 => 0x21,
            Register::BaseLine4 => 0x22,
            Register::BaseLine5 => 0x23,
            Register::BaseLine6 => 0x24,
            Register::BaseLine7 => 0x25,
            Register::BaseLine8 => 0x26,
            Register::BaseLine9 => 0x27,
            Register::BaseLine10 => 0x28,
            Register::BaseLine11 => 0x29,
            Register::EleproxBaseLine => 0x2a,
            Register::MaximumHalfDeltaRising => 0x2b,
            Register::NoiseHalfDataRising => 0x2c,
            Register::NoiseCountLimitRising => 0x2d,
            Register::FilterDelayCountLimitRising => 0x2e,
            Register::MaximmHalfDeltaFalling => 0x2f,
            Register::NoiseHalfDeltaFalling => 0x30,
            Register::NoiseCountLimitFalling => 0x31,
            Register::FilterDelayCountFalling => 0x32,
            Register::NoiseHalfDeltaTouched => 0x33,
            Register::NoiseCountLimitTouched => 0x34,
            Register::FilterDelayCountLimitTouched => 0x35,
            Register::TouchThreshold0 => 0x41,
            Register::ReleaseThreshold0 => 0x42,
            Register::TouchThreshold1 => 0x43,
            Register::ReleaseThreshold1 => 0x44,
            Register::TouchThreshold2 => 0x45,
            Register::ReleaseThreshold2 => 0x46,
            Register::TouchThreshold3 => 0x47,
            Register::ReleaseThreshold3 => 0x48,
            Register::TouchThreshold4 => 0x49,
            Register::ReleaseThreshold4 => 0x4a,
            Register::TouchThreshold5 => 0x4b,
            Register::ReleaseThreshold5 => 0x4c,
            Register::TouchThreshold6 => 0x4d,
            Register::ReleaseThreshold6 => 0x4e,
            Register::TouchThreshold7 => 0x4f,
            Register::ReleaseThreshold7 => 0x50,
            Register::TouchThreshold8 => 0x51,
            Register::ReleaseThreshold8 => 0x52,
            Register::TouchThreshold9 => 0x53,
            Register::ReleaseThreshold9 => 0x54,
            Register::TouchThreshold10 => 0x55,
            Register::ReleaseThreshold10 => 0x56,
            Register::TouchThreshold11 => 0x57,
            Register::ReleaseThreshold11 => 0x58,
            Register::Debounce => 0x5b,
            Register::GlobalChargeDischargeCurrentConfig => 0x5c,
            Register::GlobalChargeDischargeTimeConfig => 0x5d,
            Register::ChargeCurr0 => 0x5f,
            Register::ChargeTime1 => 0x6c,
            Register::Ecr => 0x5e,
            Register::AutoConfig0 => 0x7b,
            Register::AutoConfig1 => 0x7c,
            Register::UpSideLimit => 0x7d,
            Register::LowSideLimit => 0x7e,
            Register::TargetLevel => 0x7f,
            Register::SoftReset => 0x80,
            Register::GpioControl0 => 0x73,
            Register::GpioControl1 => 0x74,
            Register::GpioData => 0x75,
            Register::GpioDirection => 0x76,
            Register::GpioEnable => 0x77,
            Register::GpioDataSet => 0x78,
            Register::GpioDataClear => 0x79,
            Register::GpioDataToggle => 0x7a,
        }
    }

    /// The touch-threshold register of the channel.
    pub open spec fn spec_treshold_register(channel: Channel) -> Register {
        match channel {
            Channel::Zero => Register::TouchThreshold0,
            Channel::One => Register::TouchThreshold1,
            Channel::Two => Register::TouchThreshold2,
            Channel::Three => Register::TouchThreshold3,
            Channel::Four => Register::TouchThreshold4,
            Channel::Five => Register::TouchThreshold5,
            Channel::Six => Register::TouchThreshold6,
            Channel::Seven => Register::TouchThreshold7,
            Channel::Eight => Register::TouchThreshold8,
            Channel::Nine => Register::TouchThreshold9,
            Channel::Ten => Register::TouchThreshold10,
            Channel::Eleven => Register::TouchThreshold11,
        }
    }

    /// Returns the touch-threshold register associated with the channel.
    pub fn get_treshold_register(channel: Channel) -> (r: Register)
        ensures
            r == Register::spec_treshold_register(channel),
    {
        match channel {
            Channel::Zero => Register::TouchThreshold0,
            Channel::One => Register::TouchThreshold1,
            Channel::Two => Register::TouchThreshold2,
            Channel::Three => Register::TouchThreshold3,
            Channel::Four => Register::TouchThreshold4,
            Channel::Five => Register::TouchThreshold5,
            Channel::Six => Register::TouchThreshold6,
            Channel::Seven => Register::TouchThreshold7,
            Channel::Eight => Register::TouchThreshold8,
            Channel::Nine => Register::TouchThreshold9,
            Channel::Ten => Register::TouchThreshold10,
            Channel::Eleven => Register::TouchThreshold11,
        }
    }

    /// The release-threshold register of the channel.
    pub open spec fn spec_release_register(channel: Channel) -> Register {
        match channel {
            Channel::Zero => Register::ReleaseThreshold0,
            Channel::One => Register::ReleaseThreshold1,
            Channel::Two => Register::ReleaseThreshold2,
            Channel::Three => Register::ReleaseThreshold3,
            Channel::Four => Register::ReleaseThreshold4,
            Channel::Five => Register::ReleaseThreshold5,
            Channel::Six => Register::ReleaseThreshold6,
            Channel::Seven => Register::ReleaseThreshold7,
            Channel::Eight => Register::ReleaseThreshold8,
            Channel::Nine => Register::ReleaseThreshold9,
            Channel::Ten => Register::ReleaseThreshold10,
            Channel::Eleven => Register::ReleaseThreshold11,
        }
    }

    /// Returns the release-threshold register associated with the channel.
    pub fn get_release_register(channel: Channel) -> (r: Register)
        ensures
            r == Register::spec_release_register(channel),
    {
        match channel {
            Channel::Zero => Register::ReleaseThreshold0,
            Channel::One => Register::ReleaseThreshold1,
            Channel::Two => Register::ReleaseThreshold2,
            Channel::Three => Register::ReleaseThreshold3,
            Channel::Four => Register::ReleaseThreshold4,
            Channel::Five => Register::ReleaseThreshold5,
            Channel::Six => Register::ReleaseThreshold6,
            Channel::Seven => Register::ReleaseThreshold7,
            Channel::Eight => Register::ReleaseThreshold8,
            Channel::Nine => Register::ReleaseThreshold9,
            Channel::Ten => Register::ReleaseThreshold10,
            Channel::Eleven => Register::ReleaseThreshold11,
        }
    }

    /// The filtered-data most-significant-byte register of the channel.
    pub open spec fn spec_filtered_data_msb(channel: Channel) -> Register {
        match channel {
            Channel::Zero => Register::FiltData0MSB,
            Channel::One => Register::FiltData1MSB,
            Channel::Two => Register::FiltData2MSB,
            Channel::Three => Register::FiltData3MSB,
            Channel::Four => Register::FiltData4MSB,
            Channel::Five => Register::FiltData5MSB,
            Channel::Six => Register::FiltData6MSB,
            Channel::Seven => Register::FiltData7MSB,
            Channel::Eight => Register::FiltData8MSB,
            Channel::Nine => Register::FiltData9MSB,
            Channel::Ten => Register::FiltData10MSB,
            Channel::Eleven => Register::FiltData11MSB,
        }
    }

    /// Returns the most-significant-byte register of the channel's filtered
    /// data.
    pub fn get_filtered_data_msb(channel: Channel) -> (r: Register)
        ensures
            r == Register::spec_filtered_data_msb(channel),
    {
        match channel {
            Channel::Zero => Register::FiltData0MSB,
            Channel::One => Register::FiltData1MSB,
            Channel::Two => Register::FiltData2MSB,
            Channel::Three => Register::FiltData3MSB,
            Channel::Four => Register::FiltData4MSB,
            Channel::Five => Register::FiltData5MSB,
            Channel::Six => Register::FiltData6MSB,
            Channel::Seven => Register::FiltData7MSB,
            Channel::Eight => Register::FiltData8MSB,
            Channel::Nine => Register::FiltData9MSB,
            Channel::Ten => Register::FiltData10MSB,
            Channel::Eleven => Register::FiltData11MSB,
        }
    }

    /// The baseline register of the channel.
    pub open spec fn spec_baseline_register(channel: Channel) -> Register {
        match channel {
            Channel::Zero => Register::BaseLine0,
            Channel::One => Register::BaseLine1,
            Channel::Two => Register::BaseLine2,
            Channel::Three => Register::BaseLine3,
            Channel::Four => Register::BaseLine4,
            Channel::Five => Register::BaseLine5,
            Channel::Six => Register::BaseLine6,
            Channel::Seven => Register::BaseLine7,
            Channel::Eight => Register::BaseLine8,
            Channel::Nine => Register::BaseLine9,
            Channel::Ten => Register::BaseLine10,
            Channel::Eleven => Register::BaseLine11,
        }
    }

    /// Returns the baseline register associated with the channel.
    pub fn get_baseline(channel: Channel) -> (r: Register)
        ensures
            r == Register::spec_baseline_register(channel),
    {
        match channel {
            Channel::Zero => Register::BaseLine0,
            Channel::One => Register::BaseLine1,
            Channel::Two => Register::BaseLine2,
            Channel::Three => Register::BaseLine3,
            Channel::Four => Register::BaseLine4,
            Channel::Five => Register::BaseLine5,
            Channel::Six => Register::BaseLine6,
            Channel::Seven => Register::BaseLine7,
            Channel::Eight => Register::BaseLine8,
            Channel::Nine => Register::BaseLine9,
            Channel::Ten => Register::BaseLine10,
            Channel::Eleven => Register::BaseLine11,
        }
    }

    /// Whether accessing the register requires the chip to be in stop mode.
    /// Only the mode-control register and the GPIO block can be accessed
    /// while the chip is running.
    pub open spec fn spec_require_stop(self) -> bool {
        !matches!(
            self,
            Register::Ecr
                | Register::GpioControl0
                | Register::GpioControl1
                | Register::GpioData
                | Register::GpioDirection
                | Register::GpioEnable
                | Register::GpioDataSet
                | Register::GpioDataClear
                | Register::GpioDataToggle
        )
    }

    /// Returns whether the sensor must be put in stop mode before the
    /// register can be written.
    pub fn require_stop(&self) -> (r: bool)
        ensures
            r == self.spec_require_stop(),
    {
        !matches!(
            self,
            Register::Ecr
                | Register::GpioControl0
                | Register::GpioControl1
                | Register::GpioData
                | Register::GpioDirection
                | Register::GpioEnable
                | Register::GpioDataSet
                | Register::GpioDataClear
                | Register::GpioDataToggle
        )
    }

    /// The documented reset-default value of the register: 0x00 for all but
    /// the two global charge/discharge configuration registers, whose
    /// well-known defaults serve to verify that the right device answered.
    pub open spec fn spec_initial_value(self) -> u8 {
        match self {
            Register::GlobalChargeDischargeCurrentConfig => 0x10,
            Register::GlobalChargeDischargeTimeConfig => 0x24,
            _ => 0x00,
        }
    }

    /// Returns the reset-default value of the register.
    pub fn get_initial_value(&self) -> (r: u8)
        ensures
            r == self.spec_initial_value(),
    {
        match self {
            Register::GlobalChargeDischargeCurrentConfig => 0x10,
            Register::GlobalChargeDischargeTimeConfig => 0x24,
            _ => 0x00,
        }
    }
}

/// The four per-channel registers follow fixed address arithmetic: touch
/// thresholds sit at odd addresses from 0x41, release thresholds at even
/// addresses from 0x42, filtered-data high bytes at even addresses from 0x04,
/// and baselines consecutively from 0x1e.
pub proof fn lemma_channel_register_addresses(c: Channel)
    ensures
        Register::spec_treshold_register(c).spec_addr() == 0x41 + 2 * c.spec_index(),
        Register::spec_release_register(c).spec_addr() == 0x42 + 2 * c.spec_index(),
        Register::spec_filtered_data_msb(c).spec_addr() == 0x04 + 2 * c.spec_index(),
        Register::spec_baseline_register(c).spec_addr() == 0x1e + c.spec_index(),
{
}

/// Distinct channels derive distinct registers of each kind: no two channels
/// alias the same touch-threshold, release-threshold, filtered-data or
/// baseline register.
pub proof fn lemma_channel_registers_distinct(c1: Channel, c2: Channel)
    requires
        c1 != c2,
    ensures
        Register::spec_treshold_register(c1) != Register::spec_treshold_register(c2),
        Register::spec_release_register(c1) != Register::spec_release_register(c2),
        Register::spec_filtered_data_msb(c1) != Register::spec_filtered_data_msb(c2),
        Register::spec_baseline_register(c1) != Register::spec_baseline_register(c2),
{
    assert(c1.spec_index() != c2.spec_index());
    lemma_channel_register_addresses(c1);
    lemma_channel_register_addresses(c2);
}

/// Stop mode is required for exactly the registers outside the mode-control
/// register (address 0x5e) and the GPIO block (addresses 0x73 through 0x7a).
pub proof fn lemma_require_stop_characterization(r: Register)
    ensures
        r.spec_require_stop() <==> !(r.spec_addr() == 0x5e
            || (0x73 <= r.spec_addr() && r.spec_addr() <= 0x7a)),
{
}

} // verus!
