//! A register-accurate simulation of the chip on its bus, for tests.
//!
//! The mock holds all 256 register bytes, pre-loaded with the documented
//! reset defaults, records every transaction, and can be told to fail reads
//! or writes of a chosen register to exercise the driver's error paths.

use vstd::prelude::*;

use crate::bus::{Bus, BusFault, Delay, Tx};

verus! {

/// The register byte a freshly reset chip holds at address `i`: zero
/// everywhere except the two global charge/discharge configuration registers,
/// whose well-known defaults serve as the device verification values.
pub open spec fn spec_default_at(i: int) -> u8 {
    if i == 0x5c { 0x10 } else if i == 0x5d { 0x24 } else { 0x00 }
}

/// A simulated chip: a full register file behind the [`Bus`] trait, with a
/// recorded transaction trace and optional failure injection.
#[derive(Debug)]
pub struct MockBus {
    regs: [u8; 256],
    trace: Vec<Tx>,
    fail_write_reg: Option<u8>,
    fail_read_reg: Option<u8>,
    decay_read: Option<(u8, u8)>,
}

impl MockBus {
    /// The simulated register file, one byte per address.
    pub closed spec fn regs_view(self) -> Seq<u8> {
        self.regs@
    }

    /// The register whose writes fail, if failure injection is on.
    pub closed spec fn failing_write(self) -> Option<u8> {
        self.fail_write_reg
    }

    /// The register whose reads fail, if failure injection is on.
    pub closed spec fn failing_read(self) -> Option<u8> {
        self.fail_read_reg
    }

    /// The pending one-shot decay, if any: the register that takes a new
    /// value once its next single-byte read completes.
    pub closed spec fn decaying(self) -> Option<(u8, u8)> {
        self.decay_read
    }

    /// A fresh simulated chip holding the documented reset defaults, with an
    /// empty trace and no failure injection.
    pub fn new() -> (r: MockBus)
        ensures
            r.log() == Seq::<Tx>::empty(),
            r.regs_view().len() == 256,
            forall|i: int| 0 <= i < 256 ==> r.regs_view()[i] == spec_default_at(i),
            r.failing_write() is None,
            r.failing_read() is None,
            r.decaying() is None,
    {
        let mut regs: [u8; 256] = [0u8; 256];
        regs[0x5c] = 0x10;
        regs[0x5d] = 0x24;
        let r = MockBus {
            regs,
            trace: Vec::new(),
            fail_write_reg: None,
            fail_read_reg: None,
            decay_read: None,
        };
        proof {
            assert(forall|i: int| 0 <= i < 256 ==> r.regs_view()[i] == spec_default_at(i));
        }
        r
    }

    /// Overwrite one simulated register, e.g. to present a wrong device or a
    /// fault flag to the driver. Leaves the trace alone.
    pub fn set_reg(&mut self, reg: u8, value: u8)
        ensures
            final(self).regs_view() == old(self).regs_view().update(reg as int, value),
            final(self).log() == old(self).log(),
            final(self).failing_write() == old(self).failing_write(),
            final(self).failing_read() == old(self).failing_read(),
            final(self).decaying() == old(self).decaying(),
    {
        self.regs[reg as usize] = value;
    }

    /// Read one simulated register without touching the trace.
    pub fn reg(&self, reg: u8) -> (r: u8)
        ensures
            r == self.regs_view()[reg as int],
    {
        self.regs[reg as usize]
    }

    /// Make every write of the given register fail from now on.
    pub fn fail_writes_to(&mut self, reg: u8)
        ensures
            final(self).regs_view() == old(self).regs_view(),
            final(self).log() == old(self).log(),
            final(self).failing_write() == Some(reg),
            final(self).failing_read() == old(self).failing_read(),
            final(self).decaying() == old(self).decaying(),
    {
        self.fail_write_reg = Some(reg);
    }

    /// Make every read of the given register fail from now on.
    pub fn fail_reads_of(&mut self, reg: u8)
        ensures
            final(self).regs_view() == old(self).regs_view(),
            final(self).log() == old(self).log(),
            final(self).failing_write() == old(self).failing_write(),
            final(self).failing_read() == Some(reg),
            final(self).decaying() == old(self).decaying(),
    {
        self.fail_read_reg = Some(reg);
    }

    /// Make the register take `value` once its next single-byte read has
    /// completed: the read still returns the current value. This simulates a
    /// device whose state changes between two accesses.
    pub fn set_reg_after_read(&mut self, reg: u8, value: u8)
        ensures
            final(self).regs_view() == old(self).regs_view(),
            final(self).log() == old(self).log(),
            final(self).failing_write() == old(self).failing_write(),
            final(self).failing_read() == old(self).failing_read(),
            final(self).decaying() == Some((reg, value)),
    {
        self.decay_read = Some((reg, value));
    }

    /// How many transactions the trace holds.
    pub fn trace_len(&self) -> (r: usize)
        ensures
            r == self.log().len(),
    {
        self.trace.len()
    }

    /// The `i`-th recorded transaction, oldest first.
    pub fn trace_at(&self, i: usize) -> (r: Tx)
        requires
            i < self.log().len(),
        ensures
            r == self.log()[i as int],
    {
        self.trace[i]
    }
}

impl Bus for MockBus {
    closed spec fn log(&self) -> Seq<Tx> {
        self.trace@
    }

    fn bus_write(&mut self, addr: u8, reg: u8, value: u8) -> (r: Result<(), BusFault>)
        ensures
            r is Ok <==> old(self).failing_write() != Some(reg),
            r is Ok ==> final(self).regs_view() == old(self).regs_view().update(
                reg as int, value,
            ),
            r is Err ==> final(self).regs_view() == old(self).regs_view(),
            final(self).failing_write() == old(self).failing_write(),
            final(self).failing_read() == old(self).failing_read(),
            final(self).decaying() == old(self).decaying(),
    {
        let failing = match self.fail_write_reg {
            Some(fr) => fr == reg,
            None => false,
        };
        if failing {
            return Err(BusFault);
        }
        self.regs[reg as usize] = value;
        self.trace.push(Tx::Write { addr, reg, value });
        Ok(())
    }

    fn bus_write_read8(&mut self, addr: u8, reg: u8) -> (r: Result<u8, BusFault>)
        ensures
            r is Ok <==> old(self).failing_read() != Some(reg),
            r matches Ok(v) ==> v == old(self).regs_view()[reg as int],
            final(self).failing_write() == old(self).failing_write(),
            final(self).failing_read() == old(self).failing_read(),
            r is Err ==> final(self).regs_view() == old(self).regs_view()
                && final(self).decaying() == old(self).decaying(),
            r is Ok ==> (match old(self).decaying() {
                Some(d) => if d.0 == reg {
                    final(self).regs_view() == old(self).regs_view().update(reg as int, d.1)
                        && final(self).decaying() is None
                } else {
                    final(self).regs_view() == old(self).regs_view()
                        && final(self).decaying() == old(self).decaying()
                },
                None => final(self).regs_view() == old(self).regs_view()
                    && final(self).decaying() == old(self).decaying(),
            }),
    {
        let failing = match self.fail_read_reg {
            Some(fr) => fr == reg,
            None => false,
        };
        if failing {
            return Err(BusFault);
        }
        let value = self.regs[reg as usize];
        self.trace.push(Tx::Read8 { addr, reg, value });
        // A pending one-shot decay of this register takes effect now.
        match self.decay_read {
            Some(d) => {
                if d.0 == reg {
                    self.regs[reg as usize] = d.1;
                    self.decay_read = None;
                }
            },
            None => {},
        }
        Ok(value)
    }

    fn bus_write_read16(&mut self, addr: u8, reg: u8) -> (r: Result<(u8, u8), BusFault>)
        ensures
            r is Ok <==> old(self).failing_read() != Some(reg),
            r matches Ok(b) ==> b.0 == old(self).regs_view()[reg as int]
                && b.1 == old(self).regs_view()[((reg as int) + 1) % 256],
            final(self).regs_view() == old(self).regs_view(),
            final(self).failing_write() == old(self).failing_write(),
            final(self).failing_read() == old(self).failing_read(),
            final(self).decaying() == old(self).decaying(),
    {
        let failing = match self.fail_read_reg {
            Some(fr) => fr == reg,
            None => false,
        };
        if failing {
            return Err(BusFault);
        }
        let lo = self.regs[reg as usize];
        let hi = self.regs[((reg as usize) + 1) % 256];
        self.trace.push(Tx::Read16 { addr, reg, lo, hi });
        Ok((lo, hi))
    }
}

/// A delay source for tests: it does not actually wait, but records each
/// requested wait so the driver's use of the settle time can be checked.
pub struct MockDelay {
    waited: Vec<u32>,
}

impl MockDelay {
    /// A fresh delay source with nothing waited yet.
    pub fn new() -> (r: MockDelay)
        ensures
            r.waits() == Seq::<u32>::empty(),
    {
        MockDelay { waited: Vec::new() }
    }

    /// How many waits were requested.
    pub fn waited_len(&self) -> (r: usize)
        ensures
            r == self.waits().len(),
    {
        self.waited.len()
    }

    /// The `i`-th requested wait, in microseconds, oldest first.
    pub fn waited_at(&self, i: usize) -> (r: u32)
        requires
            i < self.waits().len(),
        ensures
            r == self.waits()[i as int],
    {
        self.waited[i]
    }
}

impl Delay for MockDelay {
    closed spec fn waits(&self) -> Seq<u32> {
        self.waited@
    }

    fn delay_us(&mut self, us: u32) {
        self.waited.push(us);
    }
}

} // verus!
