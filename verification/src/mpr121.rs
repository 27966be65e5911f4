//! The device itself: bring-up, configuration, and measurement reads.

use vstd::prelude::*;

use crate::bus::{guarded_write_txs, word_from_le, Bus, Delay, Tx};
use crate::communications::spec_failed_guarded_write;
use crate::registers::Register;
use crate::{Channel, DebounceNumber, Mpr121Address, Mpr121Error};

verus! {

/// The touch-status word masked to the low 12 bits, one per channel.
pub open spec fn touched_mask(raw: u16) -> u16 {
    raw & 0x0fff
}

/// The baseline decode: the chip exposes the 8 most significant bits of its
/// 10-bit baseline in bits 2 through 9 of the 16-bit read, so the raw word is
/// masked to those bits and shifted left by two to align with the 10-bit
/// electrode data.
pub open spec fn baseline_shift(raw: u16) -> u16 {
    (raw & 0x03fc) << 2u16
}

/// Bit 7 of the high touch-status byte: the over-current fault flag.
pub open spec fn over_current_flag(status: u8) -> bool {
    status & 0x80 > 0
}

/// The debounce register byte: two 3-bit counts, release in the high nibble
/// and trigger in the low one.
pub open spec fn debounce_byte(trigger: DebounceNumber, release: DebounceNumber) -> u8 {
    (release.spec_value() << 4u8) | trigger.spec_value()
}

/// The channel with index `i`, for `i` in range.
pub open spec fn spec_channel(i: int) -> Channel {
    Channel::spec_from_index(i as u8).unwrap()
}

/// The `j`-th register/value pair of the fixed initialization sequence:
/// the rising, falling and touched filter parameters, the debounce counts,
/// and the global charge/discharge configuration, followed (when
/// auto-configuration is in use) by its enable byte and the three charge
/// limits.
pub open spec fn init_pair(j: int) -> (Register, u8) {
    if j == 0 { (Register::MaximumHalfDeltaRising, 0x01) }
    else if j == 1 { (Register::NoiseHalfDataRising, 0x01) }
    else if j == 2 { (Register::NoiseCountLimitRising, 0x0e) }
    else if j == 3 { (Register::FilterDelayCountLimitRising, 0x00) }
    else if j == 4 { (Register::MaximmHalfDeltaFalling, 0x01) }
    else if j == 5 { (Register::NoiseHalfDeltaFalling, 0x05) }
    else if j == 6 { (Register::NoiseCountLimitFalling, 0x01) }
    else if j == 7 { (Register::FilterDelayCountFalling, 0x00) }
    else if j == 8 { (Register::NoiseHalfDeltaTouched, 0x00) }
    else if j == 9 { (Register::NoiseCountLimitTouched, 0x00) }
    else if j == 10 { (Register::FilterDelayCountLimitTouched, 0x00) }
    else if j == 11 { (Register::Debounce, 0x00) }
    else if j == 12 { (Register::GlobalChargeDischargeCurrentConfig, 0x10) }
    else if j == 13 { (Register::GlobalChargeDischargeTimeConfig, 0x20) }
    else if j == 14 { (Register::AutoConfig0, 0x0b) }
    else if j == 15 { (Register::UpSideLimit, crate::registers::UP_SIDE) }
    else if j == 16 { (Register::TargetLevel, crate::registers::TARGET_LEVEL) }
    else { (Register::LowSideLimit, crate::registers::LOW_SIDE) }
}

/// How many register/value pairs the initialization sequence writes.
pub open spec fn init_len(use_auto_config: bool) -> int {
    if use_auto_config { 18 } else { 14 }
}

/// Whether `log` carries, at offset `base + 4 * j`, the guarded write of the
/// `j`-th pair of the initialization sequence.
pub open spec fn init_block_for(log: Seq<Tx>, base: int, a: u8, j: int) -> bool {
    crate::bus::is_guarded_write(
        log.subrange(base + 4 * j, base + 4 * j + 4),
        a,
        init_pair(j).0.spec_addr(),
        init_pair(j).1,
    )
}

/// Whether `log` carries, at offset `base + 8 * i`, the guarded writes of
/// `touch` to channel `i`'s touch-threshold register followed by `release` to
/// its release-threshold register.
pub open spec fn threshold_blocks_for(
    log: Seq<Tx>,
    base: int,
    a: u8,
    i: int,
    touch: u8,
    release: u8,
) -> bool {
    &&& crate::bus::is_guarded_write(
        log.subrange(base + 8 * i, base + 8 * i + 4),
        a,
        Register::spec_treshold_register(spec_channel(i)).spec_addr(),
        touch,
    )
    &&& crate::bus::is_guarded_write(
        log.subrange(base + 8 * i + 4, base + 8 * i + 8),
        a,
        Register::spec_release_register(spec_channel(i)).spec_addr(),
        release,
    )
}

/// The traffic a threshold sweep that failed while writing channel `k`'s
/// touch threshold leaves behind: the channels before `k` are fully written
/// (touch then release), and after them stands only the failed guarded
/// write's own prefix — nothing was attempted after the failure, and nothing
/// already written is rolled back.
pub open spec fn spec_thresholds_failed_at_touch(
    pre: Seq<Tx>,
    post: Seq<Tx>,
    a: u8,
    k: int,
    touch: u8,
    release: u8,
    e: Mpr121Error,
) -> bool {
    let base = pre.len() as int;
    &&& 0 <= k < 12
    &&& (forall|j: int| 0 <= j < k ==> #[trigger] threshold_blocks_for(
        post, base, a, j, touch, release))
    &&& spec_failed_guarded_write(
        post.subrange(0, base + 8 * k),
        post,
        a,
        Register::spec_treshold_register(spec_channel(k)),
        touch,
        e,
    )
}

/// As [`spec_thresholds_failed_at_touch`], but the failure struck channel
/// `k`'s release-threshold write: its touch threshold was already written.
pub open spec fn spec_thresholds_failed_at_release(
    pre: Seq<Tx>,
    post: Seq<Tx>,
    a: u8,
    k: int,
    touch: u8,
    release: u8,
    e: Mpr121Error,
) -> bool {
    let base = pre.len() as int;
    &&& 0 <= k < 12
    &&& (forall|j: int| 0 <= j < k ==> #[trigger] threshold_blocks_for(
        post, base, a, j, touch, release))
    &&& crate::bus::is_guarded_write(
        post.subrange(base + 8 * k, base + 8 * k + 4),
        a,
        Register::spec_treshold_register(spec_channel(k)).spec_addr(),
        touch,
    )
    &&& spec_failed_guarded_write(
        post.subrange(0, base + 8 * k + 4),
        post,
        a,
        Register::spec_release_register(spec_channel(k)),
        release,
        e,
    )
}

/// How many transactions a successful bring-up puts on the bus: the guarded
/// reset write, the two verification reads, the stop-mode write, the optional
/// post-stop configuration read, the 24 guarded threshold writes, the guarded
/// initialization writes, and the final mode write.
pub open spec fn spec_bring_up_len(use_auto_config: bool, check_reset_flags: bool) -> int {
    7 + (if check_reset_flags { 1int } else { 0 }) + 96 + 4 * init_len(use_auto_config) + 1
}

/// The guarded threshold writes of channel `i` stand at their place in the
/// bring-up traffic: at offset `pre.len() + 7` (one more with the post-stop
/// configuration read), channel blocks of eight transactions each.
pub open spec fn spec_bring_up_threshold_at(
    pre: Seq<Tx>,
    post: Seq<Tx>,
    a: u8,
    check_reset_flags: bool,
    i: int,
) -> bool {
    threshold_blocks_for(
        post,
        pre.len() + 7 + (if check_reset_flags { 1int } else { 0 }),
        a,
        i,
        12,
        6,
    )
}

/// The guarded write of the `j`-th initialization pair stands at its place
/// in the bring-up traffic, right after the 96 threshold transactions.
pub open spec fn spec_bring_up_init_at(
    pre: Seq<Tx>,
    post: Seq<Tx>,
    a: u8,
    check_reset_flags: bool,
    j: int,
) -> bool {
    init_block_for(
        post,
        pre.len() + 7 + (if check_reset_flags { 1int } else { 0 }) + 96,
        a,
        j,
    )
}

/// The exact traffic of a successful bring-up of the device at address byte
/// `a`: `post` extends `pre` with, in order, the guarded soft-reset write of
/// 0x63, the two verification reads returning their documented defaults, the
/// write of 0x00 to the mode-control register, the post-stop configuration
/// read (when asked for), the guarded threshold writes of all 12 channels
/// with the default touch and release thresholds, the guarded initialization
/// sequence, and — last — the mode write that enables the 12 electrodes with
/// the calibration lock bit set.
pub open spec fn spec_bring_up_log(
    pre: Seq<Tx>,
    post: Seq<Tx>,
    a: u8,
    use_auto_config: bool,
    check_reset_flags: bool,
) -> bool {
    let n0 = pre.len() as int;
    let t0 = n0 + 7 + (if check_reset_flags { 1int } else { 0 });
    let i0 = t0 + 96;
    &&& pre.is_prefix_of(post)
    &&& post.len() == n0 + spec_bring_up_len(use_auto_config, check_reset_flags)
    &&& crate::bus::is_guarded_write(
        post.subrange(n0, n0 + 4), a, Register::SoftReset.spec_addr(), 0x63)
    &&& post[n0 + 4] == (Tx::Read8 {
        addr: a,
        reg: Register::GlobalChargeDischargeCurrentConfig.spec_addr(),
        value: 0x10,
    })
    &&& post[n0 + 5] == (Tx::Read8 {
        addr: a,
        reg: Register::GlobalChargeDischargeTimeConfig.spec_addr(),
        value: 0x24,
    })
    &&& post[n0 + 6] == (Tx::Write { addr: a, reg: Register::Ecr.spec_addr(), value: 0x00 })
    &&& (check_reset_flags ==> post[n0 + 7] == (Tx::Read8 {
        addr: a,
        reg: Register::GlobalChargeDischargeTimeConfig.spec_addr(),
        value: 0x24,
    }))
    &&& forall|i: int| 0 <= i < 12 ==> #[trigger] spec_bring_up_threshold_at(
        pre, post, a, check_reset_flags, i)
    &&& forall|j: int| 0 <= j < init_len(use_auto_config) ==> #[trigger] spec_bring_up_init_at(
        pre, post, a, check_reset_flags, j)
    &&& post.last() == (Tx::Write { addr: a, reg: Register::Ecr.spec_addr(), value: 0x8c })
}

/// Instantiates the quantified threshold clause of [`spec_bring_up_log`] at
/// one channel: the bring-up traffic carries, at the channel's offset, the
/// guarded writes of the default touch and release thresholds.
pub proof fn lemma_bring_up_thresholds(
    pre: Seq<Tx>,
    post: Seq<Tx>,
    a: u8,
    use_auto_config: bool,
    check_reset_flags: bool,
    i: int,
)
    requires
        spec_bring_up_log(pre, post, a, use_auto_config, check_reset_flags),
        0 <= i < 12,
    ensures
        threshold_blocks_for(
            post,
            pre.len() + 7 + (if check_reset_flags { 1int } else { 0 }),
            a,
            i,
            12,
            6,
        ),
{
    assert(spec_bring_up_threshold_at(pre, post, a, check_reset_flags, i));
}

/// Instantiates the quantified initialization clause of
/// [`spec_bring_up_log`] at one step: the bring-up traffic carries, at the
/// step's offset, the guarded write of that step's register and value.
pub proof fn lemma_bring_up_init_blocks(
    pre: Seq<Tx>,
    post: Seq<Tx>,
    a: u8,
    use_auto_config: bool,
    check_reset_flags: bool,
    j: int,
)
    requires
        spec_bring_up_log(pre, post, a, use_auto_config, check_reset_flags),
        0 <= j < init_len(use_auto_config),
    ensures
        init_block_for(
            post,
            pre.len() + 7 + (if check_reset_flags { 1int } else { 0 }) + 96,
            a,
            j,
        ),
{
    assert(spec_bring_up_init_at(pre, post, a, check_reset_flags, j));
}

/// The registers a bring-up reads: the mode-control register during every
/// guarded write, the two verification registers, and — only when the
/// post-stop configuration check runs — the high touch-status byte for the
/// over-current flag.
pub open spec fn spec_bring_up_read_reg(rg: Register, check_reset_flags: bool) -> bool {
    ||| rg == Register::Ecr
    ||| rg == Register::GlobalChargeDischargeCurrentConfig
    ||| rg == Register::GlobalChargeDischargeTimeConfig
    ||| (check_reset_flags && rg == Register::TouchStatus8_11)
}

/// The registers a bring-up writes (a failed soft-reset write reports as
/// `ResetFailed`, not `WriteError`): the mode-control register, the 24
/// per-channel threshold registers, and the initialization sequence's
/// registers.
pub open spec fn spec_bring_up_write_reg(rg: Register, use_auto_config: bool) -> bool {
    ||| rg == Register::Ecr
    ||| (exists|c: Channel| rg == #[trigger] Register::spec_treshold_register(c))
    ||| (exists|c: Channel| rg == #[trigger] Register::spec_release_register(c))
    ||| (exists|j: int| 0 <= j < init_len(use_auto_config)
        && rg == (#[trigger] init_pair(j)).0)
}

/// The sensor: owns the bus handle and the selected device address.
///
/// The device's current mode (stop or run) is not tracked as state: it is
/// read back and restored transiently during guarded writes, and assumed to
/// be run mode once initialization completes.
#[derive(Debug)]
pub struct Mpr121<B: Bus> {
    pub bus: B,
    pub addr: Mpr121Address,
}

impl<B: Bus> Mpr121<B> {
    /// What a successful bring-up guarantees: the returned device holds the
    /// selected address, and the bus carried exactly the documented bring-up
    /// traffic (see [`spec_bring_up_log`]) after whatever it held before.
    pub open spec fn spec_bring_up_ok(
        pre: Seq<Tx>,
        dev: Mpr121<B>,
        addr: Mpr121Address,
        use_auto_config: bool,
        check_reset_flags: bool,
    ) -> bool {
        &&& dev.addr == addr
        &&& spec_bring_up_log(
            pre, dev.bus.log(), addr.spec_value(), use_auto_config, check_reset_flags)
    }

    /// The errors bring-up can report: a failed reset, a verification
    /// register that did not read back its documented default (with the
    /// expected and actual bytes), the post-reset configuration check (only
    /// when it was asked for), or a failed read or write of one of the
    /// registers bring-up actually touches.
    pub open spec fn spec_bring_up_err(
        e: Mpr121Error,
        use_auto_config: bool,
        check_reset_flags: bool,
    ) -> bool {
        ||| e matches Mpr121Error::ResetFailed { .. }
        ||| (e matches Mpr121Error::WrongDevice { mismatched_register, expected, actual }
            && (mismatched_register == Register::GlobalChargeDischargeCurrentConfig
                || mismatched_register == Register::GlobalChargeDischargeTimeConfig)
            && expected == mismatched_register.spec_initial_value()
            && actual != expected)
        ||| (check_reset_flags && e matches Mpr121Error::InitFailed { .. })
        ||| (e matches Mpr121Error::ReadError(rg)
            && spec_bring_up_read_reg(rg, check_reset_flags))
        ||| (e matches Mpr121Error::WriteError(rg)
            && spec_bring_up_write_reg(rg, use_auto_config))
    }

    /// Creates the driver for the given bus handle and device address,
    /// resets and verifies the chip, and initializes it: thresholds first,
    /// then the fixed register sequence, ending with the transition to run
    /// mode.
    ///
    /// If `use_auto_config` is set, the chip's auto-configuration routine is
    /// enabled with charge limits derived from the supply voltage. If
    /// `check_reset_flags` is set, the global charge/discharge time
    /// configuration register is read back once more after the chip is
    /// stopped; a mismatch is reported as `InitFailed` carrying whether the
    /// chip asserts its over-current fault, which distinguishes a miswired
    /// chip from shorted electrodes.
    ///
    /// This is a one-shot operation: running it again wipes the chip back to
    /// defaults.
    pub fn new<D: Delay>(
        bus: B,
        addr: Mpr121Address,
        delay: &mut D,
        use_auto_config: bool,
        check_reset_flags: bool,
    ) -> (r: Result<Mpr121<B>, Mpr121Error>)
        ensures
            r matches Ok(dev) ==> Self::spec_bring_up_ok(
                bus.log(), dev, addr, use_auto_config, check_reset_flags),
            r matches Err(e) ==> Self::spec_bring_up_err(
                e, use_auto_config, check_reset_flags),
            r is Ok ==> final(delay).waits() == old(delay).waits().push(100u32),
            r matches Err(e) ==> ((e is ResetFailed
                && final(delay).waits() == old(delay).waits())
                || (!(e is ResetFailed)
                    && final(delay).waits() == old(delay).waits().push(100u32))),
    {
        let ghost l0 = bus.log();
        let mut dev = Mpr121 { bus, addr };
        match dev.reset_verify(delay) {
            Ok(_) => {},
            Err(e) => { return Err(e); },
        }
        let ghost l1 = dev.bus.log();
        // Stop the chip while it is being configured.
        match dev.write_register(Register::Ecr, 0x00) {
            Ok(_) => {},
            Err(e) => { return Err(e); },
        }
        let ghost l2 = dev.bus.log();
        if check_reset_flags {
            let config = match dev.read_reg8(Register::GlobalChargeDischargeTimeConfig) {
                Ok(v) => v,
                Err(e) => { return Err(e); },
            };
            if config != Register::GlobalChargeDischargeTimeConfig.get_initial_value() {
                // Distinguish a wrong or absent chip from one whose
                // electrodes are in a short-circuit fault.
                let over_current_protection = match dev.is_over_current_set() {
                    Ok(b) => b,
                    Err(e) => { return Err(e); },
                };
                return Err(Mpr121Error::InitFailed { over_current_protection });
            }
        }
        let ghost l3 = dev.bus.log();
        match dev.set_thresholds(
            Self::DEFAULT_TOUCH_THRESHOLD,
            Self::DEFAULT_RELEASE_THRESOLD,
        ) {
            Ok(_) => {},
            Err(e) => { return Err(e); },
        }
        let ghost l4 = dev.bus.log();
        match dev.initialise_registers(use_auto_config) {
            Ok(_) => {},
            Err(e) => { return Err(e); },
        }
        proof {
            let a = addr.spec_value();
            let l5 = dev.bus.log();
            let n0 = l0.len() as int;
            let t0 = n0 + 7 + (if check_reset_flags { 1int } else { 0 });
            let m = choose|m: u8|
                l1 == l0 + guarded_write_txs(a, Register::SoftReset.spec_addr(), 0x63, m)
                    + seq![
                        (Tx::Read8 {
                            addr: a,
                            reg: Register::GlobalChargeDischargeCurrentConfig.spec_addr(),
                            value: 0x10,
                        }),
                        (Tx::Read8 {
                            addr: a,
                            reg: Register::GlobalChargeDischargeTimeConfig.spec_addr(),
                            value: 0x24,
                        }),
                    ];
            // Each step only appended: chain the prefixes up to the final log.
            assert(l1.is_prefix_of(l2)) by {
                assert(l1 =~= l2.subrange(0, l1.len() as int));
            }
            assert(l2.is_prefix_of(l3)) by {
                assert(l2 =~= l3.subrange(0, l2.len() as int));
            }
            crate::bus::lemma_prefix_transitive(l1, l2, l3);
            crate::bus::lemma_prefix_transitive(l1, l3, l4);
            crate::bus::lemma_prefix_transitive(l1, l4, l5);
            crate::bus::lemma_prefix_transitive(l2, l3, l4);
            crate::bus::lemma_prefix_transitive(l2, l4, l5);
            crate::bus::lemma_prefix_transitive(l3, l4, l5);
            crate::bus::lemma_prefix_transitive(l0, l1, l5);
            // The guarded reset block and the two verification reads.
            assert(l1.subrange(n0, n0 + 4) =~= guarded_write_txs(
                a, Register::SoftReset.spec_addr(), 0x63, m));
            assert(l5.subrange(n0, n0 + 4) =~= l1.subrange(n0, n0 + 4));
            assert(l1[n0 + 4] == (Tx::Read8 {
                addr: a,
                reg: Register::GlobalChargeDischargeCurrentConfig.spec_addr(),
                value: 0x10,
            }));
            assert(l1[n0 + 5] == (Tx::Read8 {
                addr: a,
                reg: Register::GlobalChargeDischargeTimeConfig.spec_addr(),
                value: 0x24,
            }));
            assert(l5[n0 + 4] == l1[n0 + 4]);
            assert(l5[n0 + 5] == l1[n0 + 5]);
            // The stop-mode write and the optional configuration read-back.
            assert(l2[n0 + 6] == (Tx::Write {
                addr: a,
                reg: Register::Ecr.spec_addr(),
                value: 0x00,
            }));
            assert(l5[n0 + 6] == l2[n0 + 6]);
            if check_reset_flags {
                assert(l3[n0 + 7] == (Tx::Read8 {
                    addr: a,
                    reg: Register::GlobalChargeDischargeTimeConfig.spec_addr(),
                    value: 0x24,
                }));
                assert(l5[n0 + 7] == l3[n0 + 7]);
            }
            // The threshold blocks sit where set_thresholds left them.
            assert(l3.len() as int == t0);
            assert forall|i: int| 0 <= i < 12 implies threshold_blocks_for(
                l5, t0, a, i, 12, 6,
            ) by {
                assert(threshold_blocks_for(l4, t0, a, i, 12, 6));
                assert(l5.subrange(t0 + 8 * i, t0 + 8 * i + 4) =~= l4.subrange(
                    t0 + 8 * i, t0 + 8 * i + 4));
                assert(l5.subrange(t0 + 8 * i + 4, t0 + 8 * i + 8) =~= l4.subrange(
                    t0 + 8 * i + 4, t0 + 8 * i + 8));
            }
            // The initialization blocks sit where initialise_registers left
            // them, at the end of the log.
            assert(l4.len() as int == t0 + 96);
        }
        Ok(dev)
    }

    /// Initializes the driver assuming the sensor answers at the default
    /// address, with auto-configuration off and the post-reset configuration
    /// check on.
    pub fn new_default<D: Delay>(bus: B, delay: &mut D) -> (r: Result<Mpr121<B>, Mpr121Error>)
        ensures
            r matches Ok(dev) ==> Self::spec_bring_up_ok(
                bus.log(), dev, Mpr121Address::Default, false, true),
            r matches Err(e) ==> Self::spec_bring_up_err(e, false, true),
            r is Ok ==> final(delay).waits() == old(delay).waits().push(100u32),
            r matches Err(e) ==> ((e is ResetFailed
                && final(delay).waits() == old(delay).waits())
                || (!(e is ResetFailed)
                    && final(delay).waits() == old(delay).waits().push(100u32))),
    {
        Self::new(bus, Mpr121Address::Default, delay, false, true)
    }

    /// Default touch threshold written during bring-up.
    pub const DEFAULT_TOUCH_THRESHOLD: u8 = 12;

    /// Default release threshold written during bring-up.
    pub const DEFAULT_RELEASE_THRESOLD: u8 = 6;

    /// The value whose write to the soft-reset register triggers a reset.
    pub const SOFT_RESET_VALUE: u8 = 0x63;

    /// Writes the fixed, ordered initialization sequence — filter and noise
    /// parameters, debounce, global charge/discharge configuration and, when
    /// asked for, the auto-configuration registers — then enables the 12
    /// electrodes with the calibration lock bit set, which transitions the
    /// chip from stop to run mode. That final mode write must come last.
    fn initialise_registers(&mut self, use_auto_config: bool) -> (r: Result<(), Mpr121Error>)
        ensures
            final(self).addr == old(self).addr,
            old(self).bus.log().is_prefix_of(final(self).bus.log()),
            r is Ok ==> ({
                &&& final(self).bus.log().len() == old(self).bus.log().len()
                    + 4 * init_len(use_auto_config) + 1
                &&& forall|j: int| 0 <= j < init_len(use_auto_config)
                    ==> #[trigger] init_block_for(
                        final(self).bus.log(),
                        old(self).bus.log().len() as int,
                        old(self).addr.spec_value(),
                        j,
                    )
                &&& final(self).bus.log().last() == (Tx::Write {
                    addr: old(self).addr.spec_value(),
                    reg: Register::Ecr.spec_addr(),
                    value: 0x8c,
                })
            }),
            r matches Err(e) ==> (e == Mpr121Error::ReadError(Register::Ecr)
                || e == Mpr121Error::WriteError(Register::Ecr)
                || exists|j: int| 0 <= j < init_len(use_auto_config)
                    && e == Mpr121Error::WriteError((#[trigger] init_pair(j)).0)),
    {
        let mut seq_writes: Vec<(Register, u8)> = Vec::new();
        // Filter parameters; MHD = maximum half delta, NHD = noise half
        // delta, NCL = noise count limit, FDL = filter delay count limit.
        seq_writes.push((Register::MaximumHalfDeltaRising, 0x01));
        seq_writes.push((Register::NoiseHalfDataRising, 0x01));
        seq_writes.push((Register::NoiseCountLimitRising, 0x0e));
        seq_writes.push((Register::FilterDelayCountLimitRising, 0x00));
        seq_writes.push((Register::MaximmHalfDeltaFalling, 0x01));
        seq_writes.push((Register::NoiseHalfDeltaFalling, 0x05));
        seq_writes.push((Register::NoiseCountLimitFalling, 0x01));
        seq_writes.push((Register::FilterDelayCountFalling, 0x00));
        seq_writes.push((Register::NoiseHalfDeltaTouched, 0x00));
        seq_writes.push((Register::NoiseCountLimitTouched, 0x00));
        seq_writes.push((Register::FilterDelayCountLimitTouched, 0x00));
        seq_writes.push((Register::Debounce, 0x00));
        seq_writes.push((Register::GlobalChargeDischargeCurrentConfig, 0x10));
        seq_writes.push((Register::GlobalChargeDischargeTimeConfig, 0x20));
        if use_auto_config {
            seq_writes.push((Register::AutoConfig0, 0x0b));
            seq_writes.push((Register::UpSideLimit, crate::registers::UP_SIDE));
            seq_writes.push((Register::TargetLevel, crate::registers::TARGET_LEVEL));
            seq_writes.push((Register::LowSideLimit, crate::registers::LOW_SIDE));
        }
        proof {
            assert(seq_writes@.len() == init_len(use_auto_config));
            assert(forall|j: int| 0 <= j < seq_writes@.len()
                ==> seq_writes@[j] == init_pair(j));
        }
        let ghost l0 = self.bus.log();
        let ghost av = self.addr.spec_value();
        let n = seq_writes.len();
        for k in 0..n
            invariant
                n == seq_writes@.len(),
                seq_writes@.len() == init_len(use_auto_config),
                forall|j: int| 0 <= j < seq_writes@.len() ==> seq_writes@[j] == init_pair(j),
                self.addr == old(self).addr,
                l0 == old(self).bus.log(),
                av == old(self).addr.spec_value(),
                self.bus.log().len() == l0.len() + 4 * (k as int),
                l0.is_prefix_of(self.bus.log()),
                forall|j: int| 0 <= j < k as int ==> #[trigger] init_block_for(
                    self.bus.log(), l0.len() as int, av, j,
                ),
        {
            let pair = seq_writes[k];
            proof {
                assert(pair == init_pair(k as int));
                assert(pair.0.spec_require_stop());
            }
            let ghost pre = self.bus.log();
            match self.write_register(pair.0, pair.1) {
                Ok(_) => {},
                Err(e) => {
                    proof {
                        crate::bus::lemma_prefix_transitive(l0, pre, self.bus.log());
                    }
                    return Err(e);
                },
            }
            proof {
                let cur = self.bus.log();
                let ra = pair.0.spec_addr();
                let m = choose|m: u8| cur == pre + guarded_write_txs(av, ra, pair.1, m);
                assert forall|j: int| 0 <= j < k as int + 1 implies init_block_for(
                    cur, l0.len() as int, av, j,
                ) by {
                    let base = l0.len() as int;
                    if j < k as int {
                        assert(init_block_for(pre, base, av, j));
                        assert(cur.subrange(base + 4 * j, base + 4 * j + 4) =~= pre.subrange(
                            base + 4 * j, base + 4 * j + 4,
                        ));
                    } else {
                        assert(cur.subrange(base + 4 * j, base + 4 * j + 4)
                            =~= guarded_write_txs(av, ra, pair.1, m));
                    }
                }
                assert(l0 =~= cur.subrange(0, l0.len() as int));
            }
        }
        // Enable the electrodes and return to run mode: bit 7 locks the
        // calibration, the low bits count the enabled electrodes.
        let ecr_setting: u8 = 0x80 + Channel::NUM_CHANNELS;
        let ghost before_ecr = self.bus.log();
        match self.write_register(Register::Ecr, ecr_setting) {
            Ok(_) => {},
            Err(e) => {
                proof {
                    crate::bus::lemma_prefix_transitive(l0, before_ecr, self.bus.log());
                }
                return Err(e);
            },
        }
        proof {
            let cur = self.bus.log();
            assert(cur == before_ecr.push(
                (Tx::Write { addr: av, reg: Register::Ecr.spec_addr(), value: 0x8c }),
            ));
            assert forall|j: int| 0 <= j < init_len(use_auto_config) implies init_block_for(
                cur, l0.len() as int, av, j,
            ) by {
                let base = l0.len() as int;
                assert(init_block_for(before_ecr, base, av, j));
                assert(cur.subrange(base + 4 * j, base + 4 * j + 4) =~= before_ecr.subrange(
                    base + 4 * j, base + 4 * j + 4,
                ));
            }
            assert(l0 =~= cur.subrange(0, l0.len() as int));
        }
        Ok(())
    }

    /// Performs a software reset, returning the chip to its default
    /// configuration. A failure of either sub-operation of the guarded write
    /// is reported as `ResetFailed`, tagging whether the failing operation
    /// was a read and which register was involved.
    pub fn reset(&mut self) -> (r: Result<(), Mpr121Error>)
        ensures
            final(self).addr == old(self).addr,
            old(self).bus.log().is_prefix_of(final(self).bus.log()),
            final(self).bus.log().len() <= old(self).bus.log().len() + 4,
            r is Ok ==> exists|m: u8|
                final(self).bus.log() == old(self).bus.log() + #[trigger] guarded_write_txs(
                    old(self).addr.spec_value(),
                    Register::SoftReset.spec_addr(),
                    0x63,
                    m,
                ),
            r matches Err(e) ==> (e matches Mpr121Error::ResetFailed { was_read, reg }
                && (reg == Register::Ecr || reg == Register::SoftReset)
                && (was_read ==> reg == Register::Ecr)
                && spec_failed_guarded_write(
                    old(self).bus.log(),
                    final(self).bus.log(),
                    old(self).addr.spec_value(),
                    Register::SoftReset,
                    0x63,
                    if was_read { Mpr121Error::ReadError(reg) } else {
                        Mpr121Error::WriteError(reg)
                    },
                )),
    {
        match self.write_register(Register::SoftReset, Self::SOFT_RESET_VALUE) {
            Ok(_) => {
                proof {
                    assert(old(self).bus.log().is_prefix_of(self.bus.log()));
                }
                Ok(())
            },
            Err(e) => match e {
                Mpr121Error::ReadError(reg) => Err(
                    Mpr121Error::ResetFailed { was_read: true, reg },
                ),
                Mpr121Error::WriteError(reg) => Err(
                    Mpr121Error::ResetFailed { was_read: false, reg },
                ),
                _ => {
                    proof { assert(false); }
                    Err(e)
                },
            },
        }
    }

    /// Resets the chip and verifies that the expected device answered: after
    /// the reset settle time, the two global charge/discharge configuration
    /// registers must read back their documented factory defaults. A mismatch
    /// is reported as `WrongDevice` with the expected and actual bytes.
    /// Resetting wipes any configuration already applied.
    fn reset_verify<D: Delay>(&mut self, delay: &mut D) -> (r: Result<(), Mpr121Error>)
        ensures
            final(self).addr == old(self).addr,
            old(self).bus.log().is_prefix_of(final(self).bus.log()),
            r is Ok ==> exists|m: u8|
                final(self).bus.log() == old(self).bus.log() + #[trigger] guarded_write_txs(
                    old(self).addr.spec_value(),
                    Register::SoftReset.spec_addr(),
                    0x63,
                    m,
                ) + seq![
                    (Tx::Read8 {
                        addr: old(self).addr.spec_value(),
                        reg: Register::GlobalChargeDischargeCurrentConfig.spec_addr(),
                        value: 0x10,
                    }),
                    (Tx::Read8 {
                        addr: old(self).addr.spec_value(),
                        reg: Register::GlobalChargeDischargeTimeConfig.spec_addr(),
                        value: 0x24,
                    }),
                ],
            r is Ok ==> final(delay).waits() == old(delay).waits().push(100u32),
            r matches Err(e) ==> ({
                let a = old(self).addr.spec_value();
                let pre = old(self).bus.log();
                let post = final(self).bus.log();
                // A failed reset happens before the settle wait; every later
                // failure happens after the single 100 microsecond wait, and
                // the traffic shows exactly how far the verification got:
                // the first verification register is checked before the
                // second, and a WrongDevice error carries the very byte the
                // logged readback returned.
                ||| (e matches Mpr121Error::ResetFailed { was_read, reg }
                    && (reg == Register::Ecr || reg == Register::SoftReset)
                    && (was_read ==> reg == Register::Ecr)
                    && spec_failed_guarded_write(pre, post, a, Register::SoftReset, 0x63,
                        if was_read { Mpr121Error::ReadError(reg) } else {
                            Mpr121Error::WriteError(reg)
                        })
                    && final(delay).waits() == old(delay).waits())
                ||| (final(delay).waits() == old(delay).waits().push(100u32) && ({
                    ||| (e == Mpr121Error::ReadError(
                            Register::GlobalChargeDischargeCurrentConfig)
                        && exists|m: u8| post == pre + #[trigger] guarded_write_txs(
                            a, Register::SoftReset.spec_addr(), 0x63, m))
                    ||| (e matches Mpr121Error::WrongDevice {
                            mismatched_register, expected, actual }
                        && mismatched_register
                            == Register::GlobalChargeDischargeCurrentConfig
                        && expected == mismatched_register.spec_initial_value()
                        && actual != expected
                        && exists|m: u8| post == pre + #[trigger] guarded_write_txs(
                            a, Register::SoftReset.spec_addr(), 0x63, m) + seq![
                            (Tx::Read8 {
                                addr: a,
                                reg: Register::GlobalChargeDischargeCurrentConfig.spec_addr(),
                                value: actual,
                            }),
                        ])
                    ||| (e == Mpr121Error::ReadError(
                            Register::GlobalChargeDischargeTimeConfig)
                        && exists|m: u8| post == pre + #[trigger] guarded_write_txs(
                            a, Register::SoftReset.spec_addr(), 0x63, m) + seq![
                            (Tx::Read8 {
                                addr: a,
                                reg: Register::GlobalChargeDischargeCurrentConfig.spec_addr(),
                                value: 0x10,
                            }),
                        ])
                    ||| (e matches Mpr121Error::WrongDevice {
                            mismatched_register, expected, actual }
                        && mismatched_register == Register::GlobalChargeDischargeTimeConfig
                        && expected == mismatched_register.spec_initial_value()
                        && actual != expected
                        && exists|m: u8| post == pre + #[trigger] guarded_write_txs(
                            a, Register::SoftReset.spec_addr(), 0x63, m) + seq![
                            (Tx::Read8 {
                                addr: a,
                                reg: Register::GlobalChargeDischargeCurrentConfig.spec_addr(),
                                value: 0x10,
                            }),
                            (Tx::Read8 {
                                addr: a,
                                reg: Register::GlobalChargeDischargeTimeConfig.spec_addr(),
                                value: actual,
                            }),
                        ])
                }))
            }),
    {
        match self.reset() {
            Ok(_) => {},
            Err(e) => { return Err(e); },
        }
        // The chip is not responsive immediately after reset.
        delay.delay_us(100);
        let ghost after_reset = self.bus.log();
        let register_1 = Register::GlobalChargeDischargeCurrentConfig;
        let read_register_1_config = match self.read_reg8(register_1) {
            Ok(v) => v,
            Err(e) => {
                proof {
                    crate::bus::lemma_prefix_transitive(
                        old(self).bus.log(), after_reset, self.bus.log(),
                    );
                }
                return Err(e);
            },
        };
        if read_register_1_config != register_1.get_initial_value() {
            proof {
                assert(after_reset.is_prefix_of(self.bus.log()));
                crate::bus::lemma_prefix_transitive(
                    old(self).bus.log(), after_reset, self.bus.log(),
                );
                let av = old(self).addr.spec_value();
                let m = choose|m: u8|
                    after_reset == old(self).bus.log() + guarded_write_txs(
                        av, Register::SoftReset.spec_addr(), 0x63, m,
                    );
                assert(self.bus.log() =~= old(self).bus.log() + guarded_write_txs(
                    av, Register::SoftReset.spec_addr(), 0x63, m,
                ) + seq![
                    (Tx::Read8 {
                        addr: av,
                        reg: Register::GlobalChargeDischargeCurrentConfig.spec_addr(),
                        value: read_register_1_config,
                    }),
                ]);
            }
            return Err(Mpr121Error::WrongDevice {
                mismatched_register: register_1,
                expected: register_1.get_initial_value(),
                actual: read_register_1_config,
            });
        }
        let register_2 = Register::GlobalChargeDischargeTimeConfig;
        let read_register_2_config = match self.read_reg8(register_2) {
            Ok(v) => v,
            Err(e) => {
                proof {
                    assert(after_reset.is_prefix_of(self.bus.log()));
                    crate::bus::lemma_prefix_transitive(
                        old(self).bus.log(), after_reset, self.bus.log(),
                    );
                    let av = old(self).addr.spec_value();
                    let m = choose|m: u8|
                        after_reset == old(self).bus.log() + guarded_write_txs(
                            av, Register::SoftReset.spec_addr(), 0x63, m,
                        );
                    assert(self.bus.log() =~= old(self).bus.log() + guarded_write_txs(
                        av, Register::SoftReset.spec_addr(), 0x63, m,
                    ) + seq![
                        (Tx::Read8 {
                            addr: av,
                            reg: Register::GlobalChargeDischargeCurrentConfig.spec_addr(),
                            value: 0x10,
                        }),
                    ]);
                }
                return Err(e);
            },
        };
        if read_register_2_config != register_2.get_initial_value() {
            proof {
                assert(after_reset.is_prefix_of(self.bus.log()));
                crate::bus::lemma_prefix_transitive(
                    old(self).bus.log(), after_reset, self.bus.log(),
                );
                let av = old(self).addr.spec_value();
                let m = choose|m: u8|
                    after_reset == old(self).bus.log() + guarded_write_txs(
                        av, Register::SoftReset.spec_addr(), 0x63, m,
                    );
                assert(self.bus.log() =~= old(self).bus.log() + guarded_write_txs(
                    av, Register::SoftReset.spec_addr(), 0x63, m,
                ) + seq![
                    (Tx::Read8 {
                        addr: av,
                        reg: Register::GlobalChargeDischargeCurrentConfig.spec_addr(),
                        value: 0x10,
                    }),
                    (Tx::Read8 {
                        addr: av,
                        reg: Register::GlobalChargeDischargeTimeConfig.spec_addr(),
                        value: read_register_2_config,
                    }),
                ]);
            }
            return Err(Mpr121Error::WrongDevice {
                mismatched_register: register_2,
                expected: register_2.get_initial_value(),
                actual: read_register_2_config,
            });
        }
        proof {
            let av = old(self).addr.spec_value();
            let m = choose|m: u8|
                after_reset == old(self).bus.log() + guarded_write_txs(
                    av, Register::SoftReset.spec_addr(), 0x63, m,
                );
            assert(self.bus.log() =~= old(self).bus.log() + guarded_write_txs(
                av, Register::SoftReset.spec_addr(), 0x63, m,
            ) + seq![
                (Tx::Read8 {
                    addr: av,
                    reg: Register::GlobalChargeDischargeCurrentConfig.spec_addr(),
                    value: 0x10,
                }),
                (Tx::Read8 {
                    addr: av,
                    reg: Register::GlobalChargeDischargeTimeConfig.spec_addr(),
                    value: 0x24,
                }),
            ]);
            assert(old(self).bus.log().is_prefix_of(self.bus.log()));
        }
        Ok(())
    }

    /// Sets the debounce counts for touch and release detection: the packed
    /// byte, release count in the high nibble and trigger count in the low
    /// one, goes to the debounce register in a single guarded write.
    pub fn set_debounce(
        &mut self,
        trigger_debounce: DebounceNumber,
        release_debounce: DebounceNumber,
    ) -> (r: Result<(), Mpr121Error>)
        ensures
            final(self).addr == old(self).addr,
            old(self).bus.log().is_prefix_of(final(self).bus.log()),
            r is Ok ==> exists|m: u8|
                final(self).bus.log() == old(self).bus.log() + #[trigger] guarded_write_txs(
                    old(self).addr.spec_value(),
                    Register::Debounce.spec_addr(),
                    debounce_byte(trigger_debounce, release_debounce),
                    m,
                ),
            r matches Err(e) ==> (e == Mpr121Error::ReadError(Register::Ecr)
                || e == Mpr121Error::WriteError(Register::Ecr)
                || e == Mpr121Error::WriteError(Register::Debounce)),
            r matches Err(e) ==> spec_failed_guarded_write(
                old(self).bus.log(),
                final(self).bus.log(),
                old(self).addr.spec_value(),
                Register::Debounce,
                debounce_byte(trigger_debounce, release_debounce),
                e,
            ),
    {
        let bits = (release_debounce.value() << 4u8) | trigger_debounce.value();
        let r = self.write_register(Register::Debounce, bits);
        proof {
            if r is Err {
                assert(bits == debounce_byte(trigger_debounce, release_debounce));
                assert(old(self).bus.log().is_prefix_of(self.bus.log()));
            } else {
                let m = choose|m: u8|
                    self.bus.log() == old(self).bus.log() + guarded_write_txs(
                        old(self).addr.spec_value(),
                        Register::Debounce.spec_addr(),
                        bits,
                        m,
                    );
                assert(bits == debounce_byte(trigger_debounce, release_debounce));
                assert(self.bus.log() == old(self).bus.log() + guarded_write_txs(
                    old(self).addr.spec_value(),
                    Register::Debounce.spec_addr(),
                    debounce_byte(trigger_debounce, release_debounce),
                    m,
                ));
                assert(old(self).bus.log().is_prefix_of(self.bus.log()));
            }
        }
        r
    }

    /// Sets the touch and release thresholds of all 12 channels, in ascending
    /// channel order, touch before release for each channel. A failure aborts
    /// the operation and reports the failing register; earlier writes stay in
    /// place.
    pub fn set_thresholds(&mut self, touch: u8, release: u8) -> (r: Result<(), Mpr121Error>)
        ensures
            final(self).addr == old(self).addr,
            old(self).bus.log().is_prefix_of(final(self).bus.log()),
            r is Ok ==> final(self).bus.log().len() == old(self).bus.log().len() + 96
                && forall|i: int| 0 <= i < 12 ==> #[trigger] threshold_blocks_for(
                    final(self).bus.log(),
                    old(self).bus.log().len() as int,
                    old(self).addr.spec_value(),
                    i,
                    touch,
                    release,
                ),
            r matches Err(e) ==> (e == Mpr121Error::ReadError(Register::Ecr)
                || e == Mpr121Error::WriteError(Register::Ecr)
                || exists|c: Channel| e == Mpr121Error::WriteError(
                    #[trigger] Register::spec_treshold_register(c),
                )
                || exists|c: Channel| e == Mpr121Error::WriteError(
                    #[trigger] Register::spec_release_register(c),
                )),
            r matches Err(e) ==> ((exists|k: int| #[trigger] spec_thresholds_failed_at_touch(
                old(self).bus.log(),
                final(self).bus.log(),
                old(self).addr.spec_value(),
                k,
                touch,
                release,
                e,
            )) || (exists|k: int| #[trigger] spec_thresholds_failed_at_release(
                old(self).bus.log(),
                final(self).bus.log(),
                old(self).addr.spec_value(),
                k,
                touch,
                release,
                e,
            ))),
    {
        let ghost l0 = self.bus.log();
        let ghost av = self.addr.spec_value();
        for i in 0..12u8
            invariant
                self.addr == old(self).addr,
                l0 == old(self).bus.log(),
                av == old(self).addr.spec_value(),
                self.bus.log().len() == l0.len() + 8 * (i as int),
                l0.is_prefix_of(self.bus.log()),
                forall|j: int| 0 <= j < i as int ==> #[trigger] threshold_blocks_for(
                    self.bus.log(), l0.len() as int, av, j, touch, release,
                ),
        {
            let channel = match Channel::from_index(i) {
                Some(c) => c,
                None => {
                    proof { assert(false); }
                    return Err(Mpr121Error::ChannelExceed);
                },
            };
            let ghost pre = self.bus.log();
            match self.write_register(Register::get_treshold_register(channel), touch) {
                Ok(_) => {},
                Err(e) => {
                    proof {
                        let cur = self.bus.log();
                        let base = l0.len() as int;
                        let ki = i as int;
                        assert(channel == spec_channel(ki));
                        crate::bus::lemma_prefix_transitive(l0, pre, cur);
                        assert forall|j: int| 0 <= j < ki implies threshold_blocks_for(
                            cur, base, av, j, touch, release,
                        ) by {
                            assert(threshold_blocks_for(pre, base, av, j, touch, release));
                            assert(cur.subrange(base + 8 * j, base + 8 * j + 4)
                                =~= pre.subrange(base + 8 * j, base + 8 * j + 4));
                            assert(cur.subrange(base + 8 * j + 4, base + 8 * j + 8)
                                =~= pre.subrange(base + 8 * j + 4, base + 8 * j + 8));
                        }
                        assert(pre =~= cur.subrange(0, base + 8 * ki));
                        assert(spec_thresholds_failed_at_touch(
                            l0, cur, av, ki, touch, release, e));
                    }
                    return Err(e);
                },
            }
            let ghost mid = self.bus.log();
            match self.write_register(Register::get_release_register(channel), release) {
                Ok(_) => {},
                Err(e) => {
                    proof {
                        let cur = self.bus.log();
                        let base = l0.len() as int;
                        let ki = i as int;
                        let rt = Register::spec_treshold_register(channel).spec_addr();
                        assert(channel == spec_channel(ki));
                        let m1 = choose|m: u8| mid == pre + guarded_write_txs(
                            av, rt, touch, m);
                        assert(pre.is_prefix_of(mid)) by {
                            assert(pre =~= mid.subrange(0, pre.len() as int));
                        }
                        crate::bus::lemma_prefix_transitive(l0, pre, mid);
                        crate::bus::lemma_prefix_transitive(l0, mid, cur);
                        crate::bus::lemma_prefix_transitive(pre, mid, cur);
                        assert forall|j: int| 0 <= j < ki implies threshold_blocks_for(
                            cur, base, av, j, touch, release,
                        ) by {
                            assert(threshold_blocks_for(pre, base, av, j, touch, release));
                            assert(cur.subrange(base + 8 * j, base + 8 * j + 4)
                                =~= pre.subrange(base + 8 * j, base + 8 * j + 4));
                            assert(cur.subrange(base + 8 * j + 4, base + 8 * j + 8)
                                =~= pre.subrange(base + 8 * j + 4, base + 8 * j + 8));
                        }
                        assert(mid.is_prefix_of(cur));
                        assert(mid.len() == base + 8 * ki + 4);
                        assert(mid =~= cur.subrange(0, base + 8 * ki + 4));
                        assert(mid.subrange(base + 8 * ki, base + 8 * ki + 4)
                            =~= guarded_write_txs(av, rt, touch, m1));
                        assert(cur.subrange(base + 8 * ki, base + 8 * ki + 4)
                            =~= mid.subrange(base + 8 * ki, base + 8 * ki + 4));
                        assert(spec_thresholds_failed_at_release(
                            l0, cur, av, ki, touch, release, e));
                    }
                    return Err(e);
                },
            }
            proof {
                let cur = self.bus.log();
                let rt = Register::spec_treshold_register(channel).spec_addr();
                let rr = Register::spec_release_register(channel).spec_addr();
                let m1 = choose|m: u8| mid == pre + guarded_write_txs(av, rt, touch, m);
                let m2 = choose|m: u8| cur == mid + guarded_write_txs(av, rr, release, m);
                assert(channel == spec_channel(i as int));
                assert forall|j: int| 0 <= j < i as int + 1 implies threshold_blocks_for(
                    cur, l0.len() as int, av, j, touch, release,
                ) by {
                    let base = l0.len() as int;
                    if j < i as int {
                        assert(threshold_blocks_for(pre, base, av, j, touch, release));
                        assert(cur.subrange(base + 8 * j, base + 8 * j + 4) =~= pre.subrange(
                            base + 8 * j, base + 8 * j + 4,
                        ));
                        assert(cur.subrange(base + 8 * j + 4, base + 8 * j + 8) =~= pre.subrange(
                            base + 8 * j + 4, base + 8 * j + 8,
                        ));
                    } else {
                        assert(cur.subrange(base + 8 * j, base + 8 * j + 4)
                            =~= guarded_write_txs(av, rt, touch, m1));
                        assert(cur.subrange(base + 8 * j + 4, base + 8 * j + 8)
                            =~= guarded_write_txs(av, rr, release, m2));
                    }
                }
                assert(l0 =~= self.bus.log().subrange(0, l0.len() as int));
            }
        }
        Ok(())
    }

    /// Returns true when the chip reports over-current on its electrodes;
    /// in that case the circuit itself is likely at fault.
    pub fn is_over_current_set(&mut self) -> (r: Result<bool, Mpr121Error>)
        ensures
            final(self).addr == old(self).addr,
            r matches Ok(b) ==> final(self).bus.log().len() == old(self).bus.log().len() + 1
                && final(self).bus.log().drop_last() == old(self).bus.log()
                && (final(self).bus.log().last() matches Tx::Read8 { addr, reg, value }
                    && addr == old(self).addr.spec_value()
                    && reg == Register::TouchStatus8_11.spec_addr()
                    && b == over_current_flag(value)),
            r is Err ==> r == Err::<bool, Mpr121Error>(
                Mpr121Error::ReadError(Register::TouchStatus8_11),
            ) && final(self).bus.log() == old(self).bus.log(),
    {
        let read = match self.read_reg8(Register::TouchStatus8_11) {
            Ok(v) => v,
            Err(e) => { return Err(e); },
        };
        proof {
            assert(self.bus.log().drop_last() =~= old(self).bus.log());
        }
        Ok(read & 0x80 > 0)
    }

    /// Reads the touched state of all channels: bit `n` of the result is set
    /// exactly when channel `n` is currently touched. The 16-bit status word
    /// is masked to the low 12 bits.
    pub fn get_touched(&mut self) -> (r: Result<u16, Mpr121Error>)
        ensures
            final(self).addr == old(self).addr,
            r matches Ok(v) ==> v <= 0x0fff,
            r matches Ok(v) ==> final(self).bus.log().len() == old(self).bus.log().len() + 1
                && final(self).bus.log().drop_last() == old(self).bus.log()
                && (final(self).bus.log().last() matches Tx::Read16 { addr, reg, lo, hi }
                    && addr == old(self).addr.spec_value()
                    && reg == Register::TouchStatus0_7.spec_addr()
                    && v == touched_mask(word_from_le(lo, hi))),
            r is Err ==> r == Err::<u16, Mpr121Error>(
                Mpr121Error::ReadError(Register::TouchStatus0_7),
            ) && final(self).bus.log() == old(self).bus.log(),
    {
        let unmasked = match self.read_reg16(Register::TouchStatus0_7) {
            Ok(v) => v,
            Err(e) => { return Err(e); },
        };
        let v = unmasked & 0x0fff;
        proof {
            assert(v <= 0x0fff) by (bit_vector)
                requires v == unmasked & 0x0fff;
        }
        Ok(v)
    }

    /// Returns the touch state of the given channel.
    pub fn get_sensor_touch(&mut self, channel: Channel) -> (r: Result<bool, Mpr121Error>)
        ensures
            final(self).addr == old(self).addr,
            r matches Ok(b) ==> final(self).bus.log().len() == old(self).bus.log().len() + 1
                && final(self).bus.log().drop_last() == old(self).bus.log()
                && (final(self).bus.log().last() matches Tx::Read16 { addr, reg, lo, hi }
                    && addr == old(self).addr.spec_value()
                    && reg == Register::TouchStatus0_7.spec_addr()
                    && b == (touched_mask(word_from_le(lo, hi))
                        & (1u16 << channel.spec_index()) > 0)),
            r is Err ==> r == Err::<bool, Mpr121Error>(
                Mpr121Error::ReadError(Register::TouchStatus0_7),
            ) && final(self).bus.log() == old(self).bus.log(),
    {
        let touched = match self.get_touched() {
            Ok(v) => v,
            Err(e) => { return Err(e); },
        };
        Ok(touched & channel.get_bit_mask() > 0)
    }

    /// Reads the channel's filtered data, a combined write-then-read of the
    /// two data bytes decoded little-endian. The chip keeps only the low 10
    /// bits meaningful; the value is returned unmasked, as the chip
    /// guarantees the top bits are zero.
    pub fn get_filtered(&mut self, channel: Channel) -> (r: Result<u16, Mpr121Error>)
        ensures
            final(self).addr == old(self).addr,
            r matches Ok(v) ==> final(self).bus.log().len() == old(self).bus.log().len() + 1
                && final(self).bus.log().drop_last() == old(self).bus.log()
                && (final(self).bus.log().last() matches Tx::Read16 { addr, reg, lo, hi }
                    && addr == old(self).addr.spec_value()
                    && reg == Register::spec_filtered_data_msb(channel).spec_addr()
                    && v == word_from_le(lo, hi)),
            r is Err ==> r == Err::<u16, Mpr121Error>(
                Mpr121Error::ReadError(Register::spec_filtered_data_msb(channel)),
            ) && final(self).bus.log() == old(self).bus.log(),
    {
        let register = Register::get_filtered_data_msb(channel);
        self.read_reg16(register)
    }

    /// Reads the channel's baseline. The register exposes the 8 most
    /// significant bits of a 10-bit quantity, so the value is read as 16
    /// bits, masked to the documented bits and left-shifted by two; a result
    /// that does not fit 8 bits indicates an unexpected chip state and is
    /// rejected rather than silently truncated.
    pub fn get_baseline(&mut self, channel: Channel) -> (r: Result<u8, Mpr121Error>)
        ensures
            final(self).addr == old(self).addr,
            r matches Ok(v) ==> final(self).bus.log().len() == old(self).bus.log().len() + 1
                && final(self).bus.log().drop_last() == old(self).bus.log()
                && (final(self).bus.log().last() matches Tx::Read16 { addr, reg, lo, hi }
                    && addr == old(self).addr.spec_value()
                    && reg == Register::spec_baseline_register(channel).spec_addr()
                    && baseline_shift(word_from_le(lo, hi)) <= 0xff
                    && v == baseline_shift(word_from_le(lo, hi))),
            r matches Err(e) ==> (e == Mpr121Error::ReadError(
                Register::spec_baseline_register(channel),
            ) || e == Mpr121Error::DataConversionError(
                Register::spec_baseline_register(channel),
            )),
            r == Err::<u8, Mpr121Error>(Mpr121Error::ReadError(
                Register::spec_baseline_register(channel),
            )) ==> final(self).bus.log() == old(self).bus.log(),
            r == Err::<u8, Mpr121Error>(Mpr121Error::DataConversionError(
                Register::spec_baseline_register(channel),
            )) ==> final(self).bus.log().len() == old(self).bus.log().len() + 1
                && final(self).bus.log().drop_last() == old(self).bus.log()
                && (final(self).bus.log().last() matches Tx::Read16 { addr, reg, lo, hi }
                    && addr == old(self).addr.spec_value()
                    && reg == Register::spec_baseline_register(channel).spec_addr()
                    && baseline_shift(word_from_le(lo, hi)) > 0xff),
    {
        let register = Register::get_baseline(channel);
        let value = match self.read_reg16(register) {
            Ok(v) => v,
            Err(e) => { return Err(e); },
        };
        match decode_baseline(value) {
            Some(b) => Ok(b),
            None => Err(Mpr121Error::DataConversionError(register)),
        }
    }
}

/// Decode a raw 16-bit baseline register read into the 10-bit-aligned 8-bit
/// baseline value, or `None` when the shifted value does not fit 8 bits.
pub fn decode_baseline(raw: u16) -> (r: Option<u8>)
    ensures
        baseline_shift(raw) <= 0xff ==> r == Some(baseline_shift(raw) as u8),
        baseline_shift(raw) > 0xff ==> r is None,
{
    let masked = raw & 0x03fc;
    let shifted = masked << 2u16;
    if shifted > 0xff {
        None
    } else {
        Some(shifted as u8)
    }
}

} // verus!
