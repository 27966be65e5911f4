//! The two-wire bus port the driver drives, and the model of what a driver
//! puts on it.
//!
//! Implementors of [`Bus`] supply the two raw transactions the chip speaks:
//! a write of a register address followed by one payload byte, and a combined
//! write-then-read. A ghost transaction log ties every verified bus operation
//! of the driver to the exact traffic it produces.

use vstd::prelude::*;

verus! {

/// One transaction on the bus, as an implementor of [`Bus`] records it.
#[derive(Clone, Copy, Debug, PartialEq, Eq, Structural)]
pub enum Tx {
    /// A write of one payload byte to a register: the device address byte,
    /// the register address, the value written.
    Write { addr: u8, reg: u8, value: u8 },
    /// A combined write-then-read of one byte: the device address byte, the
    /// register address, the byte read back.
    Read8 { addr: u8, reg: u8, value: u8 },
    /// A combined write-then-read of two bytes: the device address byte, the
    /// register address, the two bytes read back in bus order.
    Read16 { addr: u8, reg: u8, lo: u8, hi: u8 },
}

/// An opaque transport failure, as the underlying bus reports it.
#[derive(Clone, Copy, Debug, PartialEq, Eq, Structural)]
pub struct BusFault;

/// The transactions the bus carries. Serialized access is the caller's
/// responsibility: the driver issues one transaction at a time and provides
/// no locking of its own.
pub trait Bus: Sized {
    /// The transactions completed on the bus so far, oldest first. This is
    /// the model the contracts speak of; an implementor that keeps no such
    /// model (real hardware) can leave the default in place, since nothing
    /// is proved about its traffic anyway.
    open spec fn log(&self) -> Seq<Tx> {
        Seq::empty()
    }

    /// Write one payload byte to a register of the device at `addr`.
    fn bus_write(&mut self, addr: u8, reg: u8, value: u8) -> (r: Result<(), BusFault>)
        ensures
            r is Ok ==> final(self).log() == old(self).log().push(
                Tx::Write { addr, reg, value },
            ),
            r is Err ==> final(self).log() == old(self).log(),
    ;

    /// Write the register address to the device at `addr`, then read one
    /// byte back, as one combined transaction.
    fn bus_write_read8(&mut self, addr: u8, reg: u8) -> (r: Result<u8, BusFault>)
        ensures
            r matches Ok(v) ==> final(self).log() == old(self).log().push(
                Tx::Read8 { addr, reg, value: v },
            ),
            r is Err ==> final(self).log() == old(self).log(),
    ;

    /// Write the register address to the device at `addr`, then read two
    /// bytes back, as one combined transaction.
    fn bus_write_read16(&mut self, addr: u8, reg: u8) -> (r: Result<(u8, u8), BusFault>)
        ensures
            r matches Ok(b) ==> final(self).log() == old(self).log().push(
                Tx::Read16 { addr, reg, lo: b.0, hi: b.1 },
            ),
            r is Err ==> final(self).log() == old(self).log(),
    ;
}

/// The delay port: a blocking microsecond-granularity wait, used once after
/// chip reset while the chip is not yet responsive.
pub trait Delay: Sized {
    /// The waits performed so far, in microseconds, oldest first. This is
    /// the model the contracts speak of; a verified implementor overrides it,
    /// one that keeps no model (real hardware) leaves the default in place,
    /// since nothing is proved about it anyway.
    open spec fn waits(&self) -> Seq<u32> {
        Seq::empty()
    }

    /// Wait for at least `us` microseconds.
    fn delay_us(&mut self, us: u32)
        ensures
            final(self).waits() == old(self).waits().push(us),
    ;
}

/// The 16-bit value two bus bytes decode to, little-endian.
pub open spec fn word_from_le(lo: u8, hi: u8) -> u16 {
    (lo as u16) | ((hi as u16) << 8)
}

/// The traffic of one guarded register write: the current mode is read from
/// the mode-control register, the chip is stopped, the register is written,
/// and the read-back mode `m` is restored.
pub open spec fn guarded_write_txs(a: u8, reg: u8, value: u8, m: u8) -> Seq<Tx> {
    seq![
        Tx::Read8 { addr: a, reg: 0x5e, value: m },
        Tx::Write { addr: a, reg: 0x5e, value: 0x00 },
        Tx::Write { addr: a, reg, value },
        Tx::Write { addr: a, reg: 0x5e, value: m },
    ]
}

/// Whether `s` is the traffic of one guarded write of `value` to `reg`, for
/// some mode byte read back and restored.
pub open spec fn is_guarded_write(s: Seq<Tx>, a: u8, reg: u8, value: u8) -> bool {
    exists|m: u8| s == #[trigger] guarded_write_txs(a, reg, value, m)
}

/// A prefix of a prefix is a prefix: the driver's multi-step operations only
/// ever append to the transaction log.
pub proof fn lemma_prefix_transitive<T>(a: Seq<T>, b: Seq<T>, c: Seq<T>)
    requires
        a.is_prefix_of(b),
        b.is_prefix_of(c),
    ensures
        a.is_prefix_of(c),
{
    assert(a =~= c.subrange(0, a.len() as int));
}

} // verus!
