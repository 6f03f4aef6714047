//! The address space: one contiguous RAM window and the memory-mapped timer,
//! selected by address-range match. Multi-byte accesses compose little-endian
//! from per-byte accesses that go through the same routing as `read8` /
//! `write8`, so wide accesses to the device are delivered correctly.

use crate::err::EmuError;
use crate::timer::Clint;
use crate::timer::ClintModel;
use crate::timer::spec_clint_read8;
use crate::timer::spec_clint_tick;
use crate::timer::spec_clint_write8;
use vstd::prelude::*;

verus! {

/// Bytes of physical RAM.
pub const RAM_SIZE: usize = 0x10000;

/// First physical address routed to RAM.
pub const RAM_BASE: u32 = 0x8000_0000;

/// Last physical address routed to RAM.
pub const RAM_END: u32 = 0x8000_FFFF;

/// First physical address routed to the timer device.
pub const CLINT_BASE: u32 = 0x1100_0000;

/// Last physical address routed to the timer device.
pub const CLINT_END: u32 = 0x1100_BFFF;

/// The bus: owns the RAM and the timer and routes accesses by address range.
/// Addresses outside both windows read as zero and discard writes.
pub struct Bus {
    ram: Vec<u8>,
    clint: Clint,
}

/// The ghost model of the bus: RAM as a byte sequence plus the timer model.
#[verifier::ext_equal]
pub struct BusModel {
    pub ram: Seq<u8>,
    pub clint: ClintModel,
}

impl View for Bus {
    type V = BusModel;

    closed spec fn view(&self) -> BusModel {
        BusModel { ram: self.ram@, clint: self.clint@ }
    }
}

impl BusModel {
    /// The bus is well formed when its RAM has exactly `RAM_SIZE` bytes.
    pub open spec fn wf(self) -> bool {
        self.ram.len() == RAM_SIZE
    }

    /// The byte a read at `addr` returns: routed to the timer window, the RAM
    /// window, or zero for unmapped addresses.
    pub open spec fn read8(self, addr: u32) -> u8 {
        if CLINT_BASE <= addr && addr <= CLINT_END {
            spec_clint_read8(self.clint, (addr - CLINT_BASE) as u32)
        } else if RAM_BASE <= addr && addr <= RAM_END {
            self.ram[addr - RAM_BASE]
        } else {
            0
        }
    }

    /// The bus after a byte write at `addr`: routed like `read8`; writes to
    /// unmapped addresses are discarded.
    pub open spec fn write8(self, addr: u32, val: u8) -> BusModel {
        if CLINT_BASE <= addr && addr <= CLINT_END {
            BusModel { clint: spec_clint_write8(self.clint, (addr - CLINT_BASE) as u32, val), ..self }
        } else if RAM_BASE <= addr && addr <= RAM_END {
            BusModel { ram: self.ram.update(addr - RAM_BASE, val), ..self }
        } else {
            self
        }
    }

    /// A half-word read: two byte reads composed little-endian, the low byte
    /// at `addr`.
    pub open spec fn read16(self, addr: u32) -> u16 {
        (self.read8(addr) as u16) | ((self.read8(addr.wrapping_add(1)) as u16) << 8u16)
    }

    /// A word read: four byte reads composed little-endian, the low byte at
    /// `addr`.
    pub open spec fn read32(self, addr: u32) -> u32 {
        (self.read8(addr) as u32) | ((self.read8(addr.wrapping_add(1)) as u32) << 8u32)
            | ((self.read8(addr.wrapping_add(2)) as u32) << 16u32)
            | ((self.read8(addr.wrapping_add(3)) as u32) << 24u32)
    }

    /// A half-word write: decomposed into two byte writes routed like
    /// `write8`, the low byte at `addr`.
    pub open spec fn write16(self, addr: u32, val: u16) -> BusModel {
        self.write8(addr, (val & 0xFF) as u8).write8(
            addr.wrapping_add(1),
            ((val >> 8u16) & 0xFF) as u8,
        )
    }

    /// A word write: decomposed into four byte writes routed like `write8`,
    /// the low byte at `addr`.
    pub open spec fn write32(self, addr: u32, val: u32) -> BusModel {
        self.write8(addr, (val & 0xFF) as u8).write8(
            addr.wrapping_add(1),
            ((val >> 8u32) & 0xFF) as u8,
        ).write8(addr.wrapping_add(2), ((val >> 16u32) & 0xFF) as u8).write8(
            addr.wrapping_add(3),
            ((val >> 24u32) & 0xFF) as u8,
        )
    }

    /// The bus after one system tick: the timer advances, RAM is untouched.
    pub open spec fn tick(self) -> BusModel {
        BusModel { clint: spec_clint_tick(self.clint), ..self }
    }
}

impl Bus {
    /// Whether the bus is well formed; established by `new` and preserved by
    /// every operation.
    pub open spec fn wf(&self) -> bool {
        self@.wf()
    }

    /// A fresh bus: RAM all zero, timer at reset.
    pub fn new() -> (r: Bus)
        ensures
            r.wf(),
            r@.clint == (ClintModel { msip: 0, mtimecmp: 0, mtime: 0 }),
            forall|i: int| 0 <= i < RAM_SIZE ==> r@.ram[i] == 0,
    {
        Bus { ram: vec![0u8; RAM_SIZE], clint: Clint::new() }
    }

    /// The timer's pending-interrupt register, for interrupt evaluation.
    pub fn msip(&self) -> (r: u32)
        ensures
            r == self@.clint.msip,
    {
        self.clint.msip()
    }

    /// Advance the owned timer by one tick and propagate its result.
    pub fn tick(&mut self) -> (r: Result<(), EmuError>)
        ensures
            r == Ok::<(), EmuError>(()),
            final(self)@ == old(self)@.tick(),
    {
        match self.clint.tick() {
            Ok(()) => {
                proof {
                    assert(self@ =~= old(self)@.tick());
                }
                Ok(())
            },
            Err(e) => Err(e),
        }
    }

    /// Read the byte at `addr`.
    pub fn read8(&self, addr: u32) -> (r: u8)
        requires
            self.wf(),
        ensures
            r == self@.read8(addr),
    {
        if CLINT_BASE <= addr && addr <= CLINT_END {
            self.clint.read8(addr - CLINT_BASE)
        } else if RAM_BASE <= addr && addr <= RAM_END {
            self.ram[(addr - RAM_BASE) as usize]
        } else {
            0
        }
    }

    /// Write `val` at `addr`.
    pub fn write8(&mut self, addr: u32, val: u8)
        requires
            old(self).wf(),
        ensures
            final(self).wf(),
            final(self)@ == old(self)@.write8(addr, val),
    {
        if CLINT_BASE <= addr && addr <= CLINT_END {
            self.clint.write8(addr - CLINT_BASE, val);
        } else if RAM_BASE <= addr && addr <= RAM_END {
            self.ram[(addr - RAM_BASE) as usize] = val;
        }
        proof {
            assert(self@ =~= old(self)@.write8(addr, val));
        }
    }

    /// Read the half-word whose low byte sits at `addr`.
    pub fn read16(&self, addr: u32) -> (r: u16)
        requires
            self.wf(),
        ensures
            r == self@.read16(addr),
    {
        let low = self.read8(addr) as u16;
        let high = self.read8(addr.wrapping_add(1)) as u16;
        low | (high << 8u32)
    }

    /// Write the half-word `val` with its low byte at `addr`, one routed byte
    /// store per lane.
    pub fn write16(&mut self, addr: u32, val: u16)
        requires
            old(self).wf(),
        ensures
            final(self).wf(),
            final(self)@ == old(self)@.write16(addr, val),
    {
        self.write8(addr, (val & 0xFF) as u8);
        self.write8(addr.wrapping_add(1), ((val >> 8u32) & 0xFF) as u8);
    }

    /// Read the word whose low byte sits at `addr`.
    pub fn read32(&self, addr: u32) -> (r: u32)
        requires
            self.wf(),
        ensures
            r == self@.read32(addr),
    {
        let lowest = self.read8(addr) as u32;
        let lower = self.read8(addr.wrapping_add(1)) as u32;
        let higher = self.read8(addr.wrapping_add(2)) as u32;
        let highest = self.read8(addr.wrapping_add(3)) as u32;
        lowest | (lower << 8u32) | (higher << 16u32) | (highest << 24u32)
    }

    /// Write the word `val` with its low byte at `addr`, one routed byte
    /// store per lane.
    pub fn write32(&mut self, addr: u32, val: u32)
        requires
            old(self).wf(),
        ensures
            final(self).wf(),
            final(self)@ == old(self)@.write32(addr, val),
    {
        self.write8(addr, (val & 0xFF) as u8);
        self.write8(addr.wrapping_add(1), ((val >> 8u32) & 0xFF) as u8);
        self.write8(addr.wrapping_add(2), ((val >> 16u32) & 0xFF) as u8);
        self.write8(addr.wrapping_add(3), ((val >> 24u32) & 0xFF) as u8);
    }
}

} // verus!
