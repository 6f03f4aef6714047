//! The CLINT-like timer device: a free-running counter `mtime`, a comparator
//! `mtimecmp`, and a pending-interrupt register `msip` in which only the
//! Machine Timer Interrupt bit is meaningful. All three registers are
//! byte-addressable through `read8` / `write8`.

use crate::err::EmuError;
use crate::utils::ApplyByte;
use crate::utils::apply_byte_u32;
use crate::utils::apply_byte_u64;
use crate::utils::byte_of_u32;
use crate::utils::byte_of_u64;
use vstd::prelude::*;

verus! {

/// The Machine Timer Interrupt Pending bit inside `msip`.
pub const MTIP: u32 = 0x80;

/// First offset of the 4-byte `msip` window.
pub const MSIP_OFFSET: u32 = 0x0000;

/// First offset of the 8-byte `mtimecmp` window.
pub const MTIMECMP_OFFSET: u32 = 0x4000;

/// First offset of the 8-byte `mtime` window, at the high end of the device.
pub const MTIME_OFFSET: u32 = 0xBFF8;

/// The timer device. Owned exclusively by the address space and advanced
/// once per system tick.
pub struct Clint {
    msip: u32,
    mtimecmp: u64,
    mtime: u64,
}

/// The ghost model of the timer: the three registers as plain values.
pub struct ClintModel {
    pub msip: u32,
    pub mtimecmp: u64,
    pub mtime: u64,
}

impl View for Clint {
    type V = ClintModel;

    closed spec fn view(&self) -> ClintModel {
        ClintModel { msip: self.msip, mtimecmp: self.mtimecmp, mtime: self.mtime }
    }
}

/// One tick: `mtime` advances by 1 with wraparound; once `mtime` has reached
/// `mtimecmp`, the Machine Timer Interrupt Pending bit latches into `msip`
/// (and stays set across further ticks).
pub open spec fn spec_clint_tick(c: ClintModel) -> ClintModel {
    let t = c.mtime.wrapping_add(1);
    ClintModel {
        mtime: t,
        msip: if t >= c.mtimecmp {
            c.msip | MTIP
        } else {
            c.msip
        },
        mtimecmp: c.mtimecmp,
    }
}

/// The byte a read at `addr` returns: the three register windows are read by
/// little-endian lane; every other offset reads as zero.
pub open spec fn spec_clint_read8(c: ClintModel, addr: u32) -> u8 {
    if addr < MSIP_OFFSET + 4 {
        byte_of_u32(c.msip, addr)
    } else if MTIMECMP_OFFSET <= addr && addr < MTIMECMP_OFFSET + 8 {
        byte_of_u64(c.mtimecmp, (addr - MTIMECMP_OFFSET) as u32)
    } else if MTIME_OFFSET <= addr && addr < MTIME_OFFSET + 8 {
        byte_of_u64(c.mtime, (addr - MTIME_OFFSET) as u32)
    } else {
        0
    }
}

/// The device after a byte write at `addr`: the addressed lane of the
/// register window is merged, other lanes keep their value, and a write to
/// any byte of `mtimecmp` additionally clears `msip` to zero. Writes to
/// unmapped offsets are discarded.
pub open spec fn spec_clint_write8(c: ClintModel, addr: u32, val: u8) -> ClintModel {
    if addr < MSIP_OFFSET + 4 {
        ClintModel { msip: apply_byte_u32(c.msip, val, addr), ..c }
    } else if MTIMECMP_OFFSET <= addr && addr < MTIMECMP_OFFSET + 8 {
        ClintModel {
            mtimecmp: apply_byte_u64(c.mtimecmp, val, (addr - MTIMECMP_OFFSET) as u32),
            msip: 0,
            ..c
        }
    } else if MTIME_OFFSET <= addr && addr < MTIME_OFFSET + 8 {
        ClintModel { mtime: apply_byte_u64(c.mtime, val, (addr - MTIME_OFFSET) as u32), ..c }
    } else {
        c
    }
}

impl Clint {
    /// A reset timer: all three registers are zero.
    pub fn new() -> (r: Clint)
        ensures
            r@ == (ClintModel { msip: 0, mtimecmp: 0, mtime: 0 }),
    {
        Clint { msip: 0, mtimecmp: 0, mtime: 0 }
    }

    /// The pending-interrupt register.
    pub fn msip(&self) -> (r: u32)
        ensures
            r == self@.msip,
    {
        self.msip
    }

    /// Advance `mtime` by one and latch the pending bit once the comparator
    /// is reached. Never fails; the `Result` mirrors the bus contract that
    /// device ticks may surface a failure.
    pub fn tick(&mut self) -> (r: Result<(), EmuError>)
        ensures
            r == Ok::<(), EmuError>(()),
            final(self)@ == spec_clint_tick(old(self)@),
    {
        self.mtime = self.mtime.wrapping_add(1);
        if self.mtime >= self.mtimecmp {
            self.msip = self.msip | MTIP;
        }
        Ok(())
    }

    /// Read one byte of the device at offset `addr`.
    pub fn read8(&self, addr: u32) -> (r: u8)
        ensures
            r == spec_clint_read8(self@, addr),
    {
        if addr < MSIP_OFFSET + 4 {
            let sh: u32 = 8 * addr;
            ((self.msip >> sh) & 0xFF) as u8
        } else if MTIMECMP_OFFSET <= addr && addr < MTIMECMP_OFFSET + 8 {
            let sh: u32 = 8 * (addr - MTIMECMP_OFFSET);
            ((self.mtimecmp >> sh) & 0xFF) as u8
        } else if MTIME_OFFSET <= addr && addr < MTIME_OFFSET + 8 {
            let sh: u32 = 8 * (addr - MTIME_OFFSET);
            ((self.mtime >> sh) & 0xFF) as u8
        } else {
            0
        }
    }

    /// Write one byte of the device at offset `addr`. Writing any byte of
    /// `mtimecmp` clears `msip`, acknowledging a latched pending interrupt.
    pub fn write8(&mut self, addr: u32, val: u8)
        ensures
            final(self)@ == spec_clint_write8(old(self)@, addr, val),
            MTIMECMP_OFFSET <= addr && addr < MTIMECMP_OFFSET + 8 ==> final(self)@.msip == 0,
    {
        if addr < MSIP_OFFSET + 4 {
            self.msip = ApplyByte::apply_byte(self.msip, val, addr as usize);
        } else if MTIMECMP_OFFSET <= addr && addr < MTIMECMP_OFFSET + 8 {
            self.mtimecmp = ApplyByte::apply_byte(
                self.mtimecmp,
                val,
                (addr - MTIMECMP_OFFSET) as usize,
            );
            self.msip = 0;
        } else if MTIME_OFFSET <= addr && addr < MTIME_OFFSET + 8 {
            self.mtime = ApplyByte::apply_byte(self.mtime, val, (addr - MTIME_OFFSET) as usize);
        }
    }
}

} // verus!
