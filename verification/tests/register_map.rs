use mpr121_hal::registers::{Register, LOW_SIDE, TARGET_LEVEL, UP_SIDE};
use mpr121_hal::Channel;

fn channels() -> Vec<Channel> {
    (0..12u8).map(|i| Channel::from_index(i).unwrap()).collect()
}

#[test]
fn test_channel_register_addresses() {
    for (i, c) in channels().into_iter().enumerate() {
        let i = i as u8;
        assert_eq!(c.index(), i);
        assert_eq!(Register::get_treshold_register(c).addr(), 0x41 + 2 * i);
        assert_eq!(Register::get_release_register(c).addr(), 0x42 + 2 * i);
        assert_eq!(Register::get_filtered_data_msb(c).addr(), 0x04 + 2 * i);
        assert_eq!(Register::get_baseline(c).addr(), 0x1e + i);
    }
}

#[test]
fn test_channel_registers_distinct() {
    let cs = channels();
    for &c1 in &cs {
        for &c2 in &cs {
            if c1 != c2 {
                assert_ne!(
                    Register::get_treshold_register(c1),
                    Register::get_treshold_register(c2)
                );
                assert_ne!(
                    Register::get_release_register(c1),
                    Register::get_release_register(c2)
                );
                assert_ne!(
                    Register::get_filtered_data_msb(c1),
                    Register::get_filtered_data_msb(c2)
                );
                assert_ne!(Register::get_baseline(c1), Register::get_baseline(c2));
            }
        }
    }
}

#[test]
fn test_from_index_bounds() {
    assert_eq!(Channel::from_index(3), Some(Channel::Three));
    assert_eq!(Channel::from_index(11), Some(Channel::Eleven));
    assert_eq!(Channel::from_index(12), None);
    assert_eq!(Channel::from_index(255), None);
}

#[test]
fn test_bit_masks() {
    assert_eq!(Channel::Zero.get_bit_mask(), 0x0001);
    assert_eq!(Channel::Five.get_bit_mask(), 0x0020);
    assert_eq!(Channel::Eleven.get_bit_mask(), 0x0800);
}

#[test]
fn test_require_stop_is_false_exactly_for_ecr_and_gpio() {
    // The mode-control register and the eight GPIO registers can be written
    // while the chip runs.
    let free = [
        Register::Ecr,
        Register::GpioControl0,
        Register::GpioControl1,
        Register::GpioData,
        Register::GpioDirection,
        Register::GpioEnable,
        Register::GpioDataSet,
        Register::GpioDataClear,
        Register::GpioDataToggle,
    ];
    for r in free {
        assert!(!r.require_stop());
        assert!(r.addr() == 0x5e || (0x73..=0x7a).contains(&r.addr()));
    }
    // Everything else requires stop mode.
    let gated = [
        Register::TouchStatus0_7,
        Register::TouchStatus8_11,
        Register::FiltData0MSB,
        Register::BaseLine0,
        Register::MaximumHalfDeltaRising,
        Register::NoiseHalfDeltaTouched,
        Register::TouchThreshold0,
        Register::ReleaseThreshold11,
        Register::Debounce,
        Register::GlobalChargeDischargeCurrentConfig,
        Register::GlobalChargeDischargeTimeConfig,
        Register::ChargeCurr0,
        Register::ChargeTime1,
        Register::AutoConfig0,
        Register::AutoConfig1,
        Register::UpSideLimit,
        Register::LowSideLimit,
        Register::TargetLevel,
        Register::SoftReset,
    ];
    for r in gated {
        assert!(r.require_stop());
        assert!(r.addr() != 0x5e && !(0x73..=0x7a).contains(&r.addr()));
    }
}

#[test]
fn test_initial_values() {
    assert_eq!(
        Register::GlobalChargeDischargeCurrentConfig.get_initial_value(),
        0x10
    );
    assert_eq!(
        Register::GlobalChargeDischargeTimeConfig.get_initial_value(),
        0x24
    );
    assert_eq!(Register::Ecr.get_initial_value(), 0x00);
    assert_eq!(Register::TouchThreshold0.get_initial_value(), 0x00);
    assert_eq!(Register::SoftReset.get_initial_value(), 0x00);
}

#[test]
fn test_fixed_addresses() {
    assert_eq!(Register::TouchStatus0_7.addr(), 0x00);
    assert_eq!(Register::TouchStatus8_11.addr(), 0x01);
    assert_eq!(Register::Debounce.addr(), 0x5b);
    assert_eq!(Register::Ecr.addr(), 0x5e);
    assert_eq!(Register::AutoConfig0.addr(), 0x7b);
    assert_eq!(Register::SoftReset.addr(), 0x80);
}

#[test]
fn test_auto_config_limits_for_3v3_supply() {
    // up = ((3.3 - 0.7) / 3.3) * 256, target = up * 0.9, low = up * 0.65,
    // each truncated to an 8-bit integer.
    assert_eq!(UP_SIDE, (((3.3f64 - 0.7) / 3.3) * 256.0) as u8);
    assert_eq!(TARGET_LEVEL, (UP_SIDE as f64 * 0.9) as u8);
    assert_eq!(LOW_SIDE, (UP_SIDE as f64 * 0.65) as u8);
}
