//! The bus transaction protocol: single-register reads and the mode-aware
//! guarded write.
//!
//! Most chip registers are latched and only accept new values while the chip
//! is in stop (non-converting) mode. A write to such a register is therefore
//! bracketed: the current mode is read from the mode-control register, the
//! chip is stopped, the register is written, and the previous mode is
//! restored. Registers that the chip accepts at any time (the mode-control
//! register itself and the GPIO block) are written directly.

use vstd::prelude::*;

use crate::bus::{guarded_write_txs, Bus, Tx};
use crate::mpr121::Mpr121;
use crate::registers::Register;
use crate::Mpr121Error;

verus! {

/// The traffic a failed guarded write of `value` to `reg` leaves behind:
/// `post` extends `pre` with exactly the steps that completed before the
/// failure, and the error names the step that failed. A failing initial
/// mode read appends nothing; a failing stop write appends only the mode
/// read; a failing payload write appends the mode read and the stop write;
/// a failing restore write appends all three earlier steps. No step after
/// the failing one is attempted.
pub open spec fn spec_failed_guarded_write(
    pre: Seq<Tx>,
    post: Seq<Tx>,
    a: u8,
    reg: Register,
    value: u8,
    e: Mpr121Error,
) -> bool {
    let p = pre.len() as int;
    &&& pre.is_prefix_of(post)
    &&& ({
        ||| (e == Mpr121Error::ReadError(Register::Ecr) && post.len() == p)
        ||| (e == Mpr121Error::WriteError(reg) && post.len() == p + 2
            && exists|m: u8| post.subrange(p, p + 2)
                == (#[trigger] guarded_write_txs(a, reg.spec_addr(), value, m)).take(2))
        ||| (e == Mpr121Error::WriteError(Register::Ecr)
            && ((post.len() == p + 1 && exists|m: u8| post.subrange(p, p + 1)
                    == (#[trigger] guarded_write_txs(a, reg.spec_addr(), value, m)).take(1))
                || (post.len() == p + 3 && exists|m: u8| post.subrange(p, p + 3)
                    == (#[trigger] guarded_write_txs(a, reg.spec_addr(), value, m)).take(3))))
    })
}

impl<B: Bus> Mpr121<B> {
    /// Write `value` to `reg`, entering and leaving stop mode around the
    /// write when the register demands it.
    ///
    /// On success the bus carried exactly the guarded four-transaction
    /// sequence (for a stop-gated register) or the single write (for the
    /// others). On failure the register whose access failed is reported, and
    /// the chip's mode may be left inconsistent: a failure after the chip was
    /// stopped is reported even though earlier steps succeeded.
    pub fn write_register(&mut self, reg: Register, value: u8) -> (r: Result<(), Mpr121Error>)
        ensures
            final(self).addr == old(self).addr,
            r is Ok && reg.spec_require_stop() ==> exists|m: u8|
                final(self).bus.log() == old(self).bus.log()
                    + #[trigger] guarded_write_txs(
                        old(self).addr.spec_value(), reg.spec_addr(), value, m),
            r is Ok && !reg.spec_require_stop() ==> final(self).bus.log()
                == old(self).bus.log().push(
                    (Tx::Write {
                        addr: old(self).addr.spec_value(),
                        reg: reg.spec_addr(),
                        value,
                    }),
                ),
            r is Err ==> old(self).bus.log().is_prefix_of(final(self).bus.log())
                && final(self).bus.log().len() <= old(self).bus.log().len() + 3,
            r matches Err(e) ==> (e == Mpr121Error::ReadError(Register::Ecr)
                || e == Mpr121Error::WriteError(Register::Ecr)
                || e == Mpr121Error::WriteError(reg)),
            r matches Err(e) ==> (reg.spec_require_stop() ==> spec_failed_guarded_write(
                old(self).bus.log(),
                final(self).bus.log(),
                old(self).addr.spec_value(),
                reg,
                value,
                e,
            )),
            r is Err && !reg.spec_require_stop() ==> r == Err::<(), Mpr121Error>(
                Mpr121Error::WriteError(reg),
            ) && final(self).bus.log() == old(self).bus.log(),
    {
        let a = self.addr.value();
        let ecr_addr = Register::Ecr.addr();
        if reg.require_stop() {
            // Read the current mode so it can be restored afterwards.
            let m = match self.bus.bus_write_read8(a, ecr_addr) {
                Ok(v) => v,
                Err(_) => {
                    proof {
                        assert(old(self).bus.log().is_prefix_of(self.bus.log()));
                    }
                    return Err(Mpr121Error::ReadError(Register::Ecr));
                },
            };
            let ghost p = old(self).bus.log().len() as int;
            // Stop the chip.
            if let Err(_) = self.bus.bus_write(a, ecr_addr, 0x00) {
                proof {
                    assert(old(self).bus.log().is_prefix_of(self.bus.log()));
                    assert(self.bus.log().subrange(p, p + 1) =~= guarded_write_txs(
                        a, reg.spec_addr(), value, m).take(1));
                }
                return Err(Mpr121Error::WriteError(Register::Ecr));
            }
            // The write the caller asked for.
            if let Err(_) = self.bus.bus_write(a, reg.addr(), value) {
                proof {
                    assert(old(self).bus.log().is_prefix_of(self.bus.log()));
                    assert(self.bus.log().subrange(p, p + 2) =~= guarded_write_txs(
                        a, reg.spec_addr(), value, m).take(2));
                }
                return Err(Mpr121Error::WriteError(reg));
            }
            // Restore the previous mode.
            if let Err(_) = self.bus.bus_write(a, ecr_addr, m) {
                proof {
                    assert(old(self).bus.log().is_prefix_of(self.bus.log()));
                    assert(self.bus.log().subrange(p, p + 3) =~= guarded_write_txs(
                        a, reg.spec_addr(), value, m).take(3));
                }
                return Err(Mpr121Error::WriteError(Register::Ecr));
            }
            proof {
                assert(self.bus.log() =~= old(self).bus.log()
                    + guarded_write_txs(a, reg.spec_addr(), value, m));
            }
            Ok(())
        } else {
            match self.bus.bus_write(a, reg.addr(), value) {
                Ok(_) => Ok(()),
                Err(_) => Err(Mpr121Error::WriteError(reg)),
            }
        }
    }

    /// Read one byte from `reg` in a combined write-then-read transaction.
    pub fn read_reg8(&mut self, reg: Register) -> (r: Result<u8, Mpr121Error>)
        ensures
            final(self).addr == old(self).addr,
            r matches Ok(v) ==> final(self).bus.log() == old(self).bus.log().push(
                (Tx::Read8 {
                    addr: old(self).addr.spec_value(),
                    reg: reg.spec_addr(),
                    value: v,
                }),
            ),
            r is Err ==> r == Err::<u8, Mpr121Error>(Mpr121Error::ReadError(reg))
                && final(self).bus.log() == old(self).bus.log(),
    {
        let a = self.addr.value();
        match self.bus.bus_write_read8(a, reg.addr()) {
            Ok(v) => Ok(v),
            Err(_) => Err(Mpr121Error::ReadError(reg)),
        }
    }

    /// Read two bytes from `reg` in a combined write-then-read transaction
    /// and decode them as a little-endian 16-bit value.
    pub fn read_reg16(&mut self, reg: Register) -> (r: Result<u16, Mpr121Error>)
        ensures
            final(self).addr == old(self).addr,
            r matches Ok(v) ==> ({
                &&& final(self).bus.log().len() == old(self).bus.log().len() + 1
                &&& final(self).bus.log().drop_last() == old(self).bus.log()
                &&& (final(self).bus.log().last() matches Tx::Read16 { addr, reg: rg, lo, hi }
                    && addr == old(self).addr.spec_value()
                    && rg == reg.spec_addr()
                    && v == crate::bus::word_from_le(lo, hi))
            }),
            r is Err ==> r == Err::<u16, Mpr121Error>(Mpr121Error::ReadError(reg))
                && final(self).bus.log() == old(self).bus.log(),
    {
        let a = self.addr.value();
        match self.bus.bus_write_read16(a, reg.addr()) {
            Ok((lo, hi)) => {
                let v: u16 = (lo as u16) | ((hi as u16) << 8u16);
                proof {
                    assert(self.bus.log().drop_last() =~= old(self).bus.log());
                }
                Ok(v)
            },
            Err(_) => Err(Mpr121Error::ReadError(reg)),
        }
    }
}

} // verus!
