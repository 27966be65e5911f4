use mpr121_hal::bus::Tx;
use mpr121_hal::mock::{MockBus, MockDelay};
use mpr121_hal::mpr121::{decode_baseline, Mpr121};
use mpr121_hal::registers::Register;
use mpr121_hal::{Channel, DebounceNumber, Mpr121Address, Mpr121Error};

const DEV: u8 = 0x5a;

fn fresh_device() -> Mpr121<MockBus> {
    Mpr121 { bus: MockBus::new(), addr: Mpr121Address::Default }
}

fn trace_of(dev: &Mpr121<MockBus>) -> Vec<Tx> {
    (0..dev.bus.trace_len()).map(|i| dev.bus.trace_at(i)).collect()
}

#[test]
fn test_new() {
    let mut delay = MockDelay::new();
    let sensor = Mpr121::new(MockBus::new(), Mpr121Address::Default, &mut delay, true, true);
    assert!(sensor.is_ok());
    // Exactly one settle wait of 100 microseconds, right after the reset.
    assert_eq!(delay.waited_len(), 1);
    assert_eq!(delay.waited_at(0), 100);
}

#[test]
fn test_new_default() {
    let mut delay = MockDelay::new();
    let sensor = Mpr121::new_default(MockBus::new(), &mut delay);
    assert!(sensor.is_ok());
}

#[test]
fn test_is_over_current_set() {
    let mut delay = MockDelay::new();
    let mut sensor =
        Mpr121::new(MockBus::new(), Mpr121Address::Default, &mut delay, true, true)
            .expect("Sensor Initialisation should not fail");
    let over_current_flag = sensor
        .is_over_current_set()
        .expect("Communication with sensor should not fail");
    assert!(!over_current_flag);
}

#[test]
fn test_get_touched() {
    let mut delay = MockDelay::new();
    let mut sensor =
        Mpr121::new(MockBus::new(), Mpr121Address::Default, &mut delay, true, true)
            .expect("Sensor Initialisation should not fail");
    // Nothing should be triggered on a chip whose electrodes see nothing.
    assert!(sensor.get_touched().expect("Communication should not fail") == 0);
}

#[test]
fn test_guarded_write_round_trip() {
    // A write to a stop-gated register with the mode register holding M must
    // put exactly three writes on the bus, in order: mode = 0, the register,
    // mode = M — bracketed by the single read of the previous mode.
    let mut dev = fresh_device();
    dev.bus.set_reg(0x5e, 0x8c);
    dev.write_register(Register::TouchThreshold0, 42).unwrap();
    let trace = trace_of(&dev);
    assert_eq!(
        trace,
        vec![
            Tx::Read8 { addr: DEV, reg: 0x5e, value: 0x8c },
            Tx::Write { addr: DEV, reg: 0x5e, value: 0x00 },
            Tx::Write { addr: DEV, reg: 0x41, value: 42 },
            Tx::Write { addr: DEV, reg: 0x5e, value: 0x8c },
        ]
    );
    // The register took the value and the previous mode was restored.
    assert_eq!(dev.bus.reg(0x41), 42);
    assert_eq!(dev.bus.reg(0x5e), 0x8c);
}

#[test]
fn test_unguarded_write_is_direct() {
    let mut dev = fresh_device();
    dev.write_register(Register::Ecr, 0x0c).unwrap();
    dev.write_register(Register::GpioData, 0x55).unwrap();
    let trace = trace_of(&dev);
    assert_eq!(
        trace,
        vec![
            Tx::Write { addr: DEV, reg: 0x5e, value: 0x0c },
            Tx::Write { addr: DEV, reg: 0x75, value: 0x55 },
        ]
    );
}

#[test]
fn test_set_debounce() {
    // trigger = 3, release = 5 packs to (5 << 4) | 3 = 0x53.
    let mut dev = fresh_device();
    dev.set_debounce(DebounceNumber::Three, DebounceNumber::Five).unwrap();
    let trace = trace_of(&dev);
    assert_eq!(trace[2], Tx::Write { addr: DEV, reg: 0x5b, value: 0x53 });
    assert_eq!(dev.bus.reg(0x5b), 0x53);
}

#[test]
fn test_set_thresholds_order_and_values() {
    let mut dev = fresh_device();
    dev.set_thresholds(12, 6).unwrap();
    let trace = trace_of(&dev);
    // 12 channels, two guarded writes each, four transactions per write.
    assert_eq!(trace.len(), 96);
    // Channel 0: touch threshold first, then release threshold.
    assert_eq!(
        trace[0..8].to_vec(),
        vec![
            Tx::Read8 { addr: DEV, reg: 0x5e, value: 0 },
            Tx::Write { addr: DEV, reg: 0x5e, value: 0 },
            Tx::Write { addr: DEV, reg: 0x41, value: 12 },
            Tx::Write { addr: DEV, reg: 0x5e, value: 0 },
            Tx::Read8 { addr: DEV, reg: 0x5e, value: 0 },
            Tx::Write { addr: DEV, reg: 0x5e, value: 0 },
            Tx::Write { addr: DEV, reg: 0x42, value: 6 },
            Tx::Write { addr: DEV, reg: 0x5e, value: 0 },
        ]
    );
    // Ascending channel order: the guarded payload writes hit 0x41..=0x58.
    for i in 0..24 {
        assert_eq!(
            trace[4 * i + 2],
            Tx::Write {
                addr: DEV,
                reg: 0x41 + i as u8,
                value: if i % 2 == 0 { 12 } else { 6 },
            }
        );
    }
    for i in 0..12u8 {
        assert_eq!(dev.bus.reg(0x41 + 2 * i), 12);
        assert_eq!(dev.bus.reg(0x42 + 2 * i), 6);
    }
}

#[test]
fn test_set_thresholds_aborts_on_failure() {
    let mut dev = fresh_device();
    // Channel 2's touch-threshold register refuses writes.
    dev.bus.fail_writes_to(0x45);
    let err = dev.set_thresholds(12, 6).unwrap_err();
    assert_eq!(err, Mpr121Error::WriteError(Register::TouchThreshold2));
    // Earlier channels were written and stay in place.
    assert_eq!(dev.bus.reg(0x41), 12);
    assert_eq!(dev.bus.reg(0x44), 6);
    // The failing channel and the later ones were not.
    assert_eq!(dev.bus.reg(0x45), 0);
    assert_eq!(dev.bus.reg(0x47), 0);
    // Two complete channel blocks, then only the failed attempt's mode read
    // and stop write: nothing after the failure.
    assert_eq!(dev.bus.trace_len(), 2 * 8 + 2);
    assert_eq!(dev.bus.trace_at(16), Tx::Read8 { addr: DEV, reg: 0x5e, value: 0 });
    assert_eq!(dev.bus.trace_at(17), Tx::Write { addr: DEV, reg: 0x5e, value: 0 });
}

#[test]
fn test_get_touched_masks_to_12_bits() {
    // A raw status word of 0xf123 must come back masked to 0x0123.
    let mut dev = fresh_device();
    dev.bus.set_reg(0x00, 0x23);
    dev.bus.set_reg(0x01, 0xf1);
    assert_eq!(dev.get_touched().unwrap(), 0x0123);
}

#[test]
fn test_get_sensor_touch() {
    let mut dev = fresh_device();
    // Bits 0, 1, 5 and 8 touched.
    dev.bus.set_reg(0x00, 0x23);
    dev.bus.set_reg(0x01, 0x01);
    assert!(dev.get_sensor_touch(Channel::Zero).unwrap());
    assert!(dev.get_sensor_touch(Channel::One).unwrap());
    assert!(!dev.get_sensor_touch(Channel::Two).unwrap());
    assert!(dev.get_sensor_touch(Channel::Five).unwrap());
    assert!(dev.get_sensor_touch(Channel::Eight).unwrap());
    assert!(!dev.get_sensor_touch(Channel::Eleven).unwrap());
}

#[test]
fn test_get_filtered() {
    let mut dev = fresh_device();
    dev.bus.set_reg(0x04, 0x34);
    dev.bus.set_reg(0x05, 0x02);
    assert_eq!(dev.get_filtered(Channel::Zero).unwrap(), 0x0234);
    // Another channel's filtered data sits two addresses further.
    dev.bus.set_reg(0x06, 0xff);
    dev.bus.set_reg(0x07, 0x03);
    assert_eq!(dev.get_filtered(Channel::One).unwrap(), 0x03ff);
}

#[test]
fn test_decode_baseline() {
    // 0x0155 masks to 0x0154, shifts to 0x0550: too wide for 8 bits.
    assert_eq!(decode_baseline(0x0155), None);
    // 0x0044 masks to 0x0044, shifts to 0x0110: still too wide.
    assert_eq!(decode_baseline(0x0044), None);
    // 0x0020 masks to 0x0020, shifts to 0x0080 = 128: fits.
    assert_eq!(decode_baseline(0x0020), Some(128));
}

#[test]
fn test_get_baseline() {
    let mut dev = fresh_device();
    // Raw word 0x0020: decodes to 128.
    dev.bus.set_reg(0x1e, 0x20);
    dev.bus.set_reg(0x1f, 0x00);
    assert_eq!(dev.get_baseline(Channel::Zero).unwrap(), 128);
    // Raw word 0x0155: the shifted value 0x0550 cannot fit 8 bits.
    dev.bus.set_reg(0x1e, 0x55);
    dev.bus.set_reg(0x1f, 0x01);
    assert_eq!(
        dev.get_baseline(Channel::Zero).unwrap_err(),
        Mpr121Error::DataConversionError(Register::BaseLine0)
    );
    // Raw word 0x0044 on channel 1: 0x0110 is too wide as well.
    dev.bus.set_reg(0x1f, 0x44);
    dev.bus.set_reg(0x20, 0x00);
    assert_eq!(
        dev.get_baseline(Channel::One).unwrap_err(),
        Mpr121Error::DataConversionError(Register::BaseLine1)
    );
}

#[test]
fn test_over_current_flag() {
    let mut dev = fresh_device();
    assert!(!dev.is_over_current_set().unwrap());
    dev.bus.set_reg(0x01, 0x80);
    assert!(dev.is_over_current_set().unwrap());
    dev.bus.set_reg(0x01, 0x7f);
    assert!(!dev.is_over_current_set().unwrap());
}

#[test]
fn test_bring_up_ends_in_run_mode() {
    let mut delay = MockDelay::new();
    let dev = Mpr121::new(MockBus::new(), Mpr121Address::Default, &mut delay, false, true)
        .expect("bring-up on a chip holding its defaults succeeds");
    // The whole bring-up: 4 reset transactions, 2 verification reads, the
    // stop write, the configuration read-back, 96 threshold transactions,
    // 14 guarded initialization writes, and the final mode write.
    let trace = trace_of(&dev);
    assert_eq!(trace.len(), 4 + 2 + 1 + 1 + 96 + 4 * 14 + 1);
    // The very last transaction enables the 12 electrodes with the
    // calibration lock bit set.
    assert_eq!(
        *trace.last().unwrap(),
        Tx::Write { addr: DEV, reg: 0x5e, value: 0x8c }
    );
    assert_eq!(dev.bus.reg(0x5e), 0x8c);
    // The defaults written during bring-up.
    assert_eq!(dev.bus.reg(0x41), 12);
    assert_eq!(dev.bus.reg(0x42), 6);
    assert_eq!(dev.bus.reg(0x5b), 0x00);
    assert_eq!(dev.bus.reg(0x5c), 0x10);
    assert_eq!(dev.bus.reg(0x5d), 0x20);
    // Each rising filter register is written once: maximum half delta,
    // noise half delta, noise count limit, filter delay count limit.
    assert_eq!(dev.bus.reg(0x2b), 0x01);
    assert_eq!(dev.bus.reg(0x2c), 0x01);
    assert_eq!(dev.bus.reg(0x2d), 0x0e);
    assert_eq!(dev.bus.reg(0x2e), 0x00);
    // The payload writes of the first three initialization steps.
    let init_base = 4 + 2 + 1 + 1 + 96;
    assert_eq!(trace[init_base + 2], Tx::Write { addr: DEV, reg: 0x2b, value: 0x01 });
    assert_eq!(trace[init_base + 6], Tx::Write { addr: DEV, reg: 0x2c, value: 0x01 });
    assert_eq!(trace[init_base + 10], Tx::Write { addr: DEV, reg: 0x2d, value: 0x0e });
}

#[test]
fn test_bring_up_with_auto_config_writes_limits() {
    let mut delay = MockDelay::new();
    let dev = Mpr121::new(MockBus::new(), Mpr121Address::Default, &mut delay, true, true)
        .expect("bring-up on a chip holding its defaults succeeds");
    // Four more guarded writes than a bring-up without auto-configuration.
    assert_eq!(dev.bus.trace_len(), 4 + 2 + 1 + 1 + 96 + 4 * 18 + 1);
    assert_eq!(dev.bus.reg(0x7b), 0x0b);
    assert_eq!(dev.bus.reg(0x7d), 201);
    assert_eq!(dev.bus.reg(0x7f), 180);
    assert_eq!(dev.bus.reg(0x7e), 130);
}

#[test]
fn test_wrong_device_first_register() {
    let mut delay = MockDelay::new();
    let mut mock = MockBus::new();
    mock.set_reg(0x5c, 0x11);
    let err = Mpr121::new(mock, Mpr121Address::Default, &mut delay, false, true).unwrap_err();
    assert_eq!(
        err,
        Mpr121Error::WrongDevice {
            mismatched_register: Register::GlobalChargeDischargeCurrentConfig,
            expected: 0x10,
            actual: 0x11,
        }
    );
}

#[test]
fn test_wrong_device_second_register() {
    let mut delay = MockDelay::new();
    let mut mock = MockBus::new();
    mock.set_reg(0x5d, 0x00);
    let err = Mpr121::new(mock, Mpr121Address::Default, &mut delay, false, true).unwrap_err();
    assert_eq!(
        err,
        Mpr121Error::WrongDevice {
            mismatched_register: Register::GlobalChargeDischargeTimeConfig,
            expected: 0x24,
            actual: 0x00,
        }
    );
}

#[test]
fn test_init_failed_reports_over_current() {
    // The configuration register verifies right after reset but decays
    // before the post-stop check: the bring-up reports InitFailed, carrying
    // the over-current flag read from the chip.
    let mut delay = MockDelay::new();
    let mut mock = MockBus::new();
    mock.set_reg_after_read(0x5d, 0x00);
    let err = Mpr121::new(mock, Mpr121Address::Default, &mut delay, false, true).unwrap_err();
    assert_eq!(err, Mpr121Error::InitFailed { over_current_protection: false });

    let mut mock = MockBus::new();
    mock.set_reg_after_read(0x5d, 0x00);
    mock.set_reg(0x01, 0x80);
    let err = Mpr121::new(mock, Mpr121Address::Default, &mut delay, false, true).unwrap_err();
    assert_eq!(err, Mpr121Error::InitFailed { over_current_protection: true });
}

#[test]
fn test_init_check_can_be_skipped() {
    // With the post-stop configuration check off, the same decay goes
    // unnoticed and bring-up succeeds.
    let mut delay = MockDelay::new();
    let mut mock = MockBus::new();
    mock.set_reg_after_read(0x5d, 0x00);
    assert!(Mpr121::new(mock, Mpr121Address::Default, &mut delay, false, false).is_ok());
}

#[test]
fn test_reset_failed_on_write() {
    let mut dev = fresh_device();
    dev.bus.fail_writes_to(0x80);
    let err = dev.reset().unwrap_err();
    assert_eq!(
        err,
        Mpr121Error::ResetFailed { was_read: false, reg: Register::SoftReset }
    );
    // The mode read and the stop write went through before the failure;
    // the restore step was never attempted, so the chip stays stopped.
    assert_eq!(
        trace_of(&dev),
        vec![
            Tx::Read8 { addr: DEV, reg: 0x5e, value: 0 },
            Tx::Write { addr: DEV, reg: 0x5e, value: 0 },
        ]
    );
}

#[test]
fn test_reset_not_reached_skips_settle_wait() {
    // A failing reset aborts bring-up before the settle wait.
    let mut delay = MockDelay::new();
    let mut mock = MockBus::new();
    mock.fail_writes_to(0x80);
    let err = Mpr121::new(mock, Mpr121Address::Default, &mut delay, false, true).unwrap_err();
    assert_eq!(
        err,
        Mpr121Error::ResetFailed { was_read: false, reg: Register::SoftReset }
    );
    assert_eq!(delay.waited_len(), 0);
}

#[test]
fn test_reset_failed_on_read() {
    let mut dev = fresh_device();
    dev.bus.fail_reads_of(0x5e);
    let err = dev.reset().unwrap_err();
    assert_eq!(
        err,
        Mpr121Error::ResetFailed { was_read: true, reg: Register::Ecr }
    );
}

#[test]
fn test_read_error_names_register() {
    let mut dev = fresh_device();
    dev.bus.fail_reads_of(0x00);
    assert_eq!(
        dev.get_touched().unwrap_err(),
        Mpr121Error::ReadError(Register::TouchStatus0_7)
    );
}

#[test]
fn test_reset_writes_soft_reset_value() {
    let mut dev = fresh_device();
    dev.reset().unwrap();
    let trace = trace_of(&dev);
    assert_eq!(trace[2], Tx::Write { addr: DEV, reg: 0x80, value: 0x63 });
}

#[test]
fn test_other_device_addresses() {
    let mut delay = MockDelay::new();
    let dev = Mpr121::new(MockBus::new(), Mpr121Address::Scl, &mut delay, false, true)
        .expect("bring-up succeeds at any strap address");
    let trace = trace_of(&dev);
    assert!(trace.iter().all(|t| match *t {
        Tx::Write { addr, .. } => addr == 0x5d,
        Tx::Read8 { addr, .. } => addr == 0x5d,
        Tx::Read16 { addr, .. } => addr == 0x5d,
    }));
}

#[test]
fn test_device_addresses() {
    assert_eq!(Mpr121Address::Default.value(), 0x5a);
    assert_eq!(Mpr121Address::Vdd.value(), 0x5b);
    assert_eq!(Mpr121Address::Sda.value(), 0x5c);
    assert_eq!(Mpr121Address::Scl.value(), 0x5d);
}

#[test]
fn test_debounce_values() {
    assert_eq!(DebounceNumber::Zero.value(), 0);
    assert_eq!(DebounceNumber::Three.value(), 3);
    assert_eq!(DebounceNumber::Seven.value(), 7);
}

#[test]
fn test_guarded_write_fails_on_mode_register() {
    // When the mode-control register itself refuses writes, a guarded write
    // cannot even stop the chip: the error names the mode register, and the
    // target register is never written.
    let mut dev = fresh_device();
    dev.bus.fail_writes_to(0x5e);
    let err = dev.write_register(Register::Debounce, 0x11).unwrap_err();
    assert_eq!(err, Mpr121Error::WriteError(Register::Ecr));
    assert_eq!(dev.bus.reg(0x5b), 0x00);
    // Only the mode read went through before the failure.
    assert_eq!(dev.bus.trace_len(), 1);
    assert_eq!(dev.bus.trace_at(0), Tx::Read8 { addr: DEV, reg: 0x5e, value: 0 });
}

#[test]
fn test_guarded_write_fails_on_mode_read() {
    let mut dev = fresh_device();
    dev.bus.fail_reads_of(0x5e);
    let err = dev.write_register(Register::Debounce, 0x11).unwrap_err();
    assert_eq!(err, Mpr121Error::ReadError(Register::Ecr));
    assert_eq!(dev.bus.trace_len(), 0);
}
