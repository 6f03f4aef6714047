//! The hart: register file, program counter, machine-mode CSR set, and the
//! fetch-decode-execute engine, built around the owned address space.
//!
//! Every architectural effect is specified as a pure transition on
//! [`CpuModel`]; `tick` composes them: advance the bus, evaluate interrupts,
//! advance the program counter, fetch, decode by opcode, and execute.

use crate::bus::Bus;
use crate::bus::BusModel;
use crate::err::EmuError;
use vstd::arithmetic::div_mod::lemma_fundamental_div_mod;
use vstd::arithmetic::div_mod::lemma_fundamental_div_mod_converse;
use vstd::arithmetic::div_mod::lemma_mod_multiples_vanish;
use vstd::arithmetic::div_mod::lemma_small_mod;
use vstd::prelude::*;

verus! {

/// The privilege modes of the architecture. Only `Machine` is exercised by
/// the trap logic; the others are tracked but never entered.
#[derive(Clone, Copy, Debug, PartialEq, Eq, Structural)]
pub enum Mode {
    User,
    Supervisor,
    Reserved,
    Machine,
}

/// The two-bit encoding of a privilege mode, as placed into `mstatus.MPP`.
pub open spec fn mode_bits(mode: Mode) -> u32 {
    match mode {
        Mode::User => 0,
        Mode::Supervisor => 1,
        Mode::Reserved => 2,
        Mode::Machine => 3,
    }
}

/// The signed value a 32-bit register holds, read as two's complement.
pub open spec fn to_signed(a: u32) -> int {
    if a >= 0x8000_0000 {
        a - 0x1_0000_0000
    } else {
        a as int
    }
}

/// The representative of `x` modulo `2^32` in `0 .. 2^32`.
pub open spec fn norm32(x: int) -> u32 {
    (x % 0x1_0000_0000) as u32
}

/// The ghost model of the hart: the register file as a sequence, the program
/// counter, the eight machine-mode CSRs, the privilege modes, and the bus.
#[verifier::ext_equal]
pub struct CpuModel {
    pub xr: Seq<u32>,
    pub pc: u32,
    pub mstatus: u32,
    pub mie: u32,
    pub mtvec: u32,
    pub mscratch: u32,
    pub mepc: u32,
    pub mcause: u32,
    pub mtval: u32,
    pub mip: u32,
    pub mode: Mode,
    pub prev_mode: Mode,
    pub bus: BusModel,
}

impl CpuModel {
    /// Well-formedness: 32 register slots, register 0 pinned to zero, and a
    /// well-formed bus.
    pub open spec fn wf(self) -> bool {
        &&& self.xr.len() == 32
        &&& self.xr[0] == 0
        &&& self.bus.wf()
    }

    /// What a register read returns: register 0 always reads zero.
    pub open spec fn get_x(self, i: int) -> u32 {
        if i == 0 {
            0
        } else {
            self.xr[i]
        }
    }

    /// The model after a register write: writes to register 0 are discarded.
    pub open spec fn set_x(self, i: int, val: u32) -> CpuModel {
        if i == 0 {
            self
        } else {
            CpuModel { xr: self.xr.update(i, val), ..self }
        }
    }

    /// The model with the program counter replaced.
    pub open spec fn with_pc(self, pc: u32) -> CpuModel {
        CpuModel { pc, ..self }
    }

    /// The model with the bus replaced.
    pub open spec fn with_bus(self, bus: BusModel) -> CpuModel {
        CpuModel { bus, ..self }
    }
}

/// The hart at reset: registers and CSRs all zero, program counter zero,
/// both privilege modes `Machine`, around the given bus.
pub open spec fn spec_reset(bus: BusModel) -> CpuModel {
    CpuModel {
        xr: Seq::new(32, |i: int| 0u32),
        pc: 0,
        mstatus: 0,
        mie: 0,
        mtvec: 0,
        mscratch: 0,
        mepc: 0,
        mcause: 0,
        mtval: 0,
        mip: 0,
        mode: Mode::Machine,
        prev_mode: Mode::Machine,
        bus,
    }
}

/// The CSR value a read of CSR number `no` returns, or the configuration
/// error for a number outside the fixed machine-mode set.
pub open spec fn spec_get_csr(m: CpuModel, no: u16) -> Result<u32, EmuError> {
    if no == 0x300 {
        Ok(m.mstatus)
    } else if no == 0x304 {
        Ok(m.mie)
    } else if no == 0x305 {
        Ok(m.mtvec)
    } else if no == 0x340 {
        Ok(m.mscratch)
    } else if no == 0x341 {
        Ok(m.mepc)
    } else if no == 0x342 {
        Ok(m.mcause)
    } else if no == 0x343 {
        Ok(m.mtval)
    } else if no == 0x344 {
        Ok(m.mip)
    } else {
        Err(EmuError::UnknownCsr(no))
    }
}

/// The model after a CSR write, or, unchanged, with the configuration error
/// for a number outside the fixed set.
pub open spec fn spec_set_csr(m: CpuModel, no: u16, val: u32) -> (CpuModel, Result<
    (),
    EmuError,
>) {
    if no == 0x300 {
        (CpuModel { mstatus: val, ..m }, Ok(()))
    } else if no == 0x304 {
        (CpuModel { mie: val, ..m }, Ok(()))
    } else if no == 0x305 {
        (CpuModel { mtvec: val, ..m }, Ok(()))
    } else if no == 0x340 {
        (CpuModel { mscratch: val, ..m }, Ok(()))
    } else if no == 0x341 {
        (CpuModel { mepc: val, ..m }, Ok(()))
    } else if no == 0x342 {
        (CpuModel { mcause: val, ..m }, Ok(()))
    } else if no == 0x343 {
        (CpuModel { mtval: val, ..m }, Ok(()))
    } else if no == 0x344 {
        (CpuModel { mip: val, ..m }, Ok(()))
    } else {
        (m, Err(EmuError::UnknownCsr(no)))
    }
}

/// `mstatus` on trap entry to machine mode: `MPIE` (bit 7) receives the old
/// `MIE` (bit 3), `MIE` is cleared, and `MPP` (bits 12:11) records the mode
/// the hart was in; the remaining bits keep their value.
pub open spec fn trap_mstatus(mstatus: u32, mode: Mode) -> u32 {
    (mstatus & !0x1888u32) | ((mstatus & 0x8) << 4u32) | (mode_bits(mode) << 11u32)
}

/// Trap entry for the Machine Timer Interrupt: when bit 0x80 of `it` is set,
/// record the trap in `mtval` / `mepc` / `mcause` / `mstatus`, redirect the
/// program counter to `mtvec`, and record the previous mode as `Machine`.
/// Other pending bits are ignored.
pub open spec fn spec_do_interrupt(m: CpuModel, it: u32) -> CpuModel {
    if it & crate::timer::MTIP == 0 {
        m
    } else {
        CpuModel {
            mtval: 0,
            mepc: m.pc,
            mcause: 0x8000_0007,
            mstatus: trap_mstatus(m.mstatus, m.mode),
            pc: m.mtvec,
            prev_mode: Mode::Machine,
            ..m
        }
    }
}

/// Interrupt evaluation: the timer's pending bits are folded into `mip`;
/// when the global machine-interrupt enable (bit 3 of `mstatus`) is set and
/// an enabled interrupt is pending, the trap is entered.
pub open spec fn spec_check_interrupt(m: CpuModel) -> CpuModel {
    let m1 = CpuModel { mip: m.mip | m.bus.clint.msip, ..m };
    if m1.mstatus & 0x8 > 0 && m1.mie & m1.mip > 0 {
        spec_do_interrupt(m1, m1.mie & m1.mip)
    } else {
        m1
    }
}

/// A decoded instruction: only the fields its format defines are meaningful;
/// the raw word is carried for error reporting. Never persisted past one
/// dispatch.
#[derive(Clone, Copy, Debug, PartialEq, Eq, Structural)]
pub struct Inst {
    pub funct7: u8,
    pub funct5: u8,
    pub rs2: usize,
    pub rs1: usize,
    pub funct3: u8,
    pub rd: usize,
    pub imm12: i16,
    pub imm32: i32,
    pub raw: u32,
}

/// Sign extension of the low 12 bits of a 16-bit value.
pub trait IntoI12 {
    /// The value `into_i12` computes.
    spec fn spec_into_i12(&self) -> i16;

    /// The low 12 bits, sign-extended at bit 11.
    fn into_i12(&self) -> (r: i16)
        ensures
            r == self.spec_into_i12(),
    ;
}

impl IntoI12 for u16 {
    open spec fn spec_into_i12(&self) -> i16 {
        if *self & 0x0800 != 0 {
            ((*self & 0x0FFF) | 0xF000) as i16
        } else {
            (*self & 0x0FFF) as i16
        }
    }

    fn into_i12(&self) -> (r: i16) {
        if *self & 0x0800 > 0 {
            ((*self & 0x0FFF) | 0xF000) as i16
        } else {
            (*self & 0x0FFF) as i16
        }
    }
}

/// The R-format fields of `ir`.
pub open spec fn spec_from_r(ir: u32) -> Inst {
    Inst {
        funct7: ((ir >> 25u32) & 0x7F) as u8,
        funct5: ((ir >> 27u32) & 0x1F) as u8,
        rs2: ((ir >> 20u32) & 0x1F) as usize,
        rs1: ((ir >> 15u32) & 0x1F) as usize,
        funct3: ((ir >> 12u32) & 0x7) as u8,
        rd: ((ir >> 7u32) & 0x1F) as usize,
        imm12: 0,
        imm32: 0,
        raw: ir,
    }
}

/// The I-format fields of `ir`: a 12-bit immediate, sign-extended.
pub open spec fn spec_from_i(ir: u32) -> Inst {
    Inst {
        imm12: (((ir >> 20u32) & 0xFFF) as u16).spec_into_i12(),
        rs1: ((ir >> 15u32) & 0x1F) as usize,
        funct3: ((ir >> 12u32) & 0x7) as u8,
        rd: ((ir >> 7u32) & 0x1F) as usize,
        funct7: ((ir >> 25u32) & 0x7F) as u8,
        funct5: ((ir >> 27u32) & 0x1F) as u8,
        rs2: 0,
        imm32: 0,
        raw: ir,
    }
}

/// The S-format fields of `ir`: immediate bits 4:0 from bits 11:7 and bits
/// 11:5 from bits 31:25, sign-extended.
pub open spec fn spec_from_s(ir: u32) -> Inst {
    Inst {
        rs2: ((ir >> 20u32) & 0x1F) as usize,
        rs1: ((ir >> 15u32) & 0x1F) as usize,
        funct3: ((ir >> 12u32) & 0x7) as u8,
        imm12: ((((ir >> 7u32) & 0x1F) | (((ir >> 25u32) & 0x7F) << 5u32)) as u16).spec_into_i12(),
        funct7: 0,
        funct5: 0,
        rd: 0,
        imm32: 0,
        raw: ir,
    }
}

/// The U-format fields of `ir`: the upper 20 bits as a shifted immediate.
pub open spec fn spec_from_u(ir: u32) -> Inst {
    Inst {
        rd: ((ir >> 7u32) & 0x1F) as usize,
        funct7: 0,
        funct5: 0,
        rs2: 0,
        rs1: 0,
        funct3: 0,
        imm12: 0,
        imm32: ((ir >> 12u32) << 12u32) as i32,
        raw: ir,
    }
}

/// The scattered B-format branch offset of `ir`, reassembled and
/// sign-extended at bit 12 (bit 0 of the offset is zero).
pub open spec fn spec_b_imm(ir: u32) -> i16 {
    let imm = ((((ir >> 8u32) & 0xF) << 1u32) | (((ir >> 25u32) & 0x3F) << 5u32) | (((ir
        >> 7u32) & 0x1) << 11u32) | (((ir >> 31u32) & 0x1) << 12u32)) as u16;
    if imm & 0x1000 != 0 {
        (imm | 0xE000) as i16
    } else {
        imm as i16
    }
}

/// The B-format fields of `ir`.
pub open spec fn spec_from_b(ir: u32) -> Inst {
    Inst {
        rs2: ((ir >> 20u32) & 0x1F) as usize,
        rs1: ((ir >> 15u32) & 0x1F) as usize,
        funct3: ((ir >> 12u32) & 0x7) as u8,
        imm12: spec_b_imm(ir),
        funct7: 0,
        funct5: 0,
        rd: 0,
        imm32: 0,
        raw: ir,
    }
}

/// The scattered J-format jump offset of `ir`, reassembled and sign-extended
/// at bit 20 (bit 0 of the offset is zero).
pub open spec fn spec_j_imm(ir: u32) -> i32 {
    let imm = (((ir >> 21u32) & 0x3FF) << 1u32) | (((ir >> 20u32) & 0x1) << 11u32) | (((ir
        >> 12u32) & 0xFF) << 12u32) | (((ir >> 31u32) & 0x1) << 20u32);
    if imm & 0x100000 != 0 {
        (imm | 0xFFE0_0000) as i32
    } else {
        imm as i32
    }
}

/// The J-format fields of `ir`.
pub open spec fn spec_from_j(ir: u32) -> Inst {
    Inst {
        rd: ((ir >> 7u32) & 0x1F) as usize,
        funct7: 0,
        funct5: 0,
        rs2: 0,
        rs1: 0,
        funct3: 0,
        imm12: 0,
        imm32: spec_j_imm(ir),
        raw: ir,
    }
}

impl Inst {
    /// Decode the R format.
    pub fn from_r(ir: u32) -> (r: Inst)
        ensures
            r == spec_from_r(ir),
            r.rd < 32 && r.rs1 < 32 && r.rs2 < 32,
    {
        proof {
            assert(((ir >> 7u32) & 0x1F) < 32 && ((ir >> 15u32) & 0x1F) < 32 && ((ir >> 20u32)
                & 0x1F) < 32 && ((ir >> 25u32) & 0x7F) < 128 && ((ir >> 27u32) & 0x1F) < 32 && ((ir
                >> 12u32) & 0x7) < 8) by (bit_vector);
        }
        Inst {
            funct7: ((ir >> 25u32) & 0x7F) as u8,
            funct5: ((ir >> 27u32) & 0x1F) as u8,
            rs2: ((ir >> 20u32) & 0x1F) as usize,
            rs1: ((ir >> 15u32) & 0x1F) as usize,
            funct3: ((ir >> 12u32) & 0x7) as u8,
            rd: ((ir >> 7u32) & 0x1F) as usize,
            imm12: 0,
            imm32: 0,
            raw: ir,
        }
    }

    /// Decode the I format.
    pub fn from_i(ir: u32) -> (r: Inst)
        ensures
            r == spec_from_i(ir),
            r.rd < 32 && r.rs1 < 32 && r.rs2 < 32,
    {
        proof {
            assert(((ir >> 7u32) & 0x1F) < 32 && ((ir >> 15u32) & 0x1F) < 32 && ((ir >> 20u32)
                & 0xFFF) < 0x1000 && ((ir >> 25u32) & 0x7F) < 128 && ((ir >> 27u32) & 0x1F) < 32
                && ((ir >> 12u32) & 0x7) < 8) by (bit_vector);
        }
        Inst {
            imm12: (((ir >> 20u32) & 0xFFF) as u16).into_i12(),
            rs1: ((ir >> 15u32) & 0x1F) as usize,
            funct3: ((ir >> 12u32) & 0x7) as u8,
            rd: ((ir >> 7u32) & 0x1F) as usize,
            funct7: ((ir >> 25u32) & 0x7F) as u8,
            funct5: ((ir >> 27u32) & 0x1F) as u8,
            rs2: 0,
            imm32: 0,
            raw: ir,
        }
    }

    /// Decode the S format.
    pub fn from_s(ir: u32) -> (r: Inst)
        ensures
            r == spec_from_s(ir),
            r.rd < 32 && r.rs1 < 32 && r.rs2 < 32,
    {
        proof {
            assert(((ir >> 15u32) & 0x1F) < 32 && ((ir >> 20u32) & 0x1F) < 32 && ((ir >> 12u32)
                & 0x7) < 8 && (((ir >> 7u32) & 0x1F) | (((ir >> 25u32) & 0x7F) << 5u32))
                < 0x1000) by (bit_vector);
        }
        Inst {
            rs2: ((ir >> 20u32) & 0x1F) as usize,
            rs1: ((ir >> 15u32) & 0x1F) as usize,
            funct3: ((ir >> 12u32) & 0x7) as u8,
            imm12: ((((ir >> 7u32) & 0x1F) | (((ir >> 25u32) & 0x7F) << 5u32)) as u16).into_i12(),
            funct7: 0,
            funct5: 0,
            rd: 0,
            imm32: 0,
            raw: ir,
        }
    }

    /// Decode the U format.
    pub fn from_u(ir: u32) -> (r: Inst)
        ensures
            r == spec_from_u(ir),
            r.rd < 32 && r.rs1 < 32 && r.rs2 < 32,
    {
        proof {
            assert(((ir >> 7u32) & 0x1F) < 32) by (bit_vector);
        }
        Inst {
            rd: ((ir >> 7u32) & 0x1F) as usize,
            funct7: 0,
            funct5: 0,
            rs2: 0,
            rs1: 0,
            funct3: 0,
            imm12: 0,
            imm32: ((ir >> 12u32) << 12u32) as i32,
            raw: ir,
        }
    }

    /// Decode the B format.
    pub fn from_b(ir: u32) -> (r: Inst)
        ensures
            r == spec_from_b(ir),
            r.rd < 32 && r.rs1 < 32 && r.rs2 < 32,
    {
        proof {
            assert(((ir >> 15u32) & 0x1F) < 32 && ((ir >> 20u32) & 0x1F) < 32 && ((ir >> 12u32)
                & 0x7) < 8) by (bit_vector);
        }
        let imm: u16 = (((((ir >> 8u32) & 0xF) << 1u32) | (((ir >> 25u32) & 0x3F) << 5u32) | (((ir
            >> 7u32) & 0x1) << 11u32) | (((ir >> 31u32) & 0x1) << 12u32))) as u16;
        let simm: i16 = if imm & 0x1000 != 0 {
            (imm | 0xE000) as i16
        } else {
            imm as i16
        };
        Inst {
            rs2: ((ir >> 20u32) & 0x1F) as usize,
            rs1: ((ir >> 15u32) & 0x1F) as usize,
            funct3: ((ir >> 12u32) & 0x7) as u8,
            imm12: simm,
            funct7: 0,
            funct5: 0,
            rd: 0,
            imm32: 0,
            raw: ir,
        }
    }

    /// Decode the J format.
    pub fn from_j(ir: u32) -> (r: Inst)
        ensures
            r == spec_from_j(ir),
            r.rd < 32 && r.rs1 < 32 && r.rs2 < 32,
    {
        proof {
            assert(((ir >> 7u32) & 0x1F) < 32) by (bit_vector);
        }
        let imm: u32 = (((ir >> 21u32) & 0x3FF) << 1u32) | (((ir >> 20u32) & 0x1) << 11u32) | (((ir
            >> 12u32) & 0xFF) << 12u32) | (((ir >> 31u32) & 0x1) << 20u32);
        let simm: i32 = if imm & 0x100000 != 0 {
            (imm | 0xFFE0_0000) as i32
        } else {
            imm as i32
        };
        Inst {
            rd: ((ir >> 7u32) & 0x1F) as usize,
            funct7: 0,
            funct5: 0,
            rs2: 0,
            rs1: 0,
            funct3: 0,
            imm12: 0,
            imm32: simm,
            raw: ir,
        }
    }
}

/// The hart. Owns the address space; a strict single-owner tree with no
/// aliased mutable state.
pub struct Cpu {
    xr: Vec<u32>,
    pc: u32,
    mstatus: u32,
    mie: u32,
    mtvec: u32,
    mscratch: u32,
    mepc: u32,
    mcause: u32,
    mtval: u32,
    mip: u32,
    mode: Mode,
    prev_mode: Mode,
    bus: Bus,
}

impl View for Cpu {
    type V = CpuModel;

    closed spec fn view(&self) -> CpuModel {
        CpuModel {
            xr: self.xr@,
            pc: self.pc,
            mstatus: self.mstatus,
            mie: self.mie,
            mtvec: self.mtvec,
            mscratch: self.mscratch,
            mepc: self.mepc,
            mcause: self.mcause,
            mtval: self.mtval,
            mip: self.mip,
            mode: self.mode,
            prev_mode: self.prev_mode,
            bus: self.bus@,
        }
    }
}

impl Cpu {
    /// Whether the hart is well formed; established by `new` and preserved by
    /// every operation.
    pub open spec fn wf(&self) -> bool {
        self@.wf()
    }

    /// A hart at reset around the given bus.
    pub fn new(bus: Bus) -> (r: Cpu)
        requires
            bus.wf(),
        ensures
            r.wf(),
            r@ == spec_reset(bus@),
    {
        let r = Cpu {
            xr: vec![0u32; 32],
            pc: 0,
            mstatus: 0,
            mie: 0,
            mtvec: 0,
            mscratch: 0,
            mepc: 0,
            mcause: 0,
            mtval: 0,
            mip: 0,
            mode: Mode::Machine,
            prev_mode: Mode::Machine,
            bus,
        };
        proof {
            assert(r@.xr =~= spec_reset(bus@).xr);
            assert(r@ =~= spec_reset(bus@));
        }
        r
    }

    /// Read general register `i`; register 0 always reads zero.
    pub fn get_x(&self, i: usize) -> (r: u32)
        requires
            i < 32,
            self.wf(),
        ensures
            r == self@.get_x(i as int),
    {
        match i {
            0 => 0,
            x => self.xr[x],
        }
    }

    /// Write general register `i`; writes to register 0 are discarded.
    pub fn set_x(&mut self, i: usize, val: u32)
        requires
            i < 32,
            old(self).wf(),
        ensures
            final(self).wf(),
            final(self)@ == old(self)@.set_x(i as int, val),
    {
        if i != 0 {
            self.xr[i] = val;
        }
        proof {
            assert(self@ =~= old(self)@.set_x(i as int, val));
        }
    }

    /// Register `a0`, by the platform boot convention the hart identifier.
    pub fn get_a0(&self) -> (r: u32)
        requires
            self.wf(),
        ensures
            r == self@.get_x(10),
    {
        self.xr[10]
    }

    /// Place `val` in register `a0`.
    pub fn set_a0(&mut self, val: u32)
        requires
            old(self).wf(),
        ensures
            final(self).wf(),
            final(self)@ == old(self)@.set_x(10, val),
    {
        self.set_x(10, val);
    }

    /// Register `a1`, by the platform boot convention the device-tree address.
    pub fn get_a1(&self) -> (r: u32)
        requires
            self.wf(),
        ensures
            r == self@.get_x(11),
    {
        self.xr[11]
    }

    /// Place `val` in register `a1`.
    pub fn set_a1(&mut self, val: u32)
        requires
            old(self).wf(),
        ensures
            final(self).wf(),
            final(self)@ == old(self)@.set_x(11, val),
    {
        self.set_x(11, val);
    }

    /// The program counter.
    pub fn get_pc(&self) -> (r: u32)
        ensures
            r == self@.pc,
    {
        self.pc
    }

    /// Point the program counter at `pc`, as the external driver does before
    /// the first tick to select where execution starts.
    pub fn set_pc(&mut self, pc: u32)
        requires
            old(self).wf(),
        ensures
            final(self).wf(),
            final(self)@ == old(self)@.with_pc(pc),
    {
        self.pc = pc;
        proof {
            assert(self@ =~= old(self)@.with_pc(pc));
        }
    }

    /// Read CSR number `no` from the fixed machine-mode set; a number outside
    /// the set is a configuration error, surfaced for the caller to judge.
    pub fn get_csr(&self, no: u16) -> (r: Result<u32, EmuError>)
        ensures
            r == spec_get_csr(self@, no),
    {
        match no {
            0x300 => Ok(self.mstatus),
            0x304 => Ok(self.mie),
            0x305 => Ok(self.mtvec),
            0x340 => Ok(self.mscratch),
            0x341 => Ok(self.mepc),
            0x342 => Ok(self.mcause),
            0x343 => Ok(self.mtval),
            0x344 => Ok(self.mip),
            _ => Err(EmuError::UnknownCsr(no)),
        }
    }

    /// Write CSR number `no`; a number outside the fixed set leaves the hart
    /// unchanged and surfaces the configuration error.
    pub fn set_csr(&mut self, no: u16, val: u32) -> (r: Result<(), EmuError>)
        requires
            old(self).wf(),
        ensures
            final(self).wf(),
            final(self)@ == spec_set_csr(old(self)@, no, val).0,
            r == spec_set_csr(old(self)@, no, val).1,
    {
        match no {
            0x300 => {
                self.mstatus = val;
            },
            0x304 => {
                self.mie = val;
            },
            0x305 => {
                self.mtvec = val;
            },
            0x340 => {
                self.mscratch = val;
            },
            0x341 => {
                self.mepc = val;
            },
            0x342 => {
                self.mcause = val;
            },
            0x343 => {
                self.mtval = val;
            },
            0x344 => {
                self.mip = val;
            },
            _ => {
                return Err(EmuError::UnknownCsr(no));
            },
        }
        proof {
            assert(self@ =~= spec_set_csr(old(self)@, no, val).0);
        }
        Ok(())
    }

    /// The two-bit encoding of a privilege mode.
    fn mode_code(mode: Mode) -> (r: u32)
        ensures
            r == mode_bits(mode),
    {
        match mode {
            Mode::User => 0,
            Mode::Supervisor => 1,
            Mode::Reserved => 2,
            Mode::Machine => 3,
        }
    }

    /// Enter the trap handler for the Machine Timer Interrupt when its bit is
    /// among the enabled pending bits `it`; other bits are ignored.
    pub fn do_interrupt(&mut self, it: u32)
        requires
            old(self).wf(),
        ensures
            final(self).wf(),
            final(self)@ == spec_do_interrupt(old(self)@, it),
    {
        if it & crate::timer::MTIP == 0 {
            return ;
        }
        self.mtval = 0;
        self.mepc = self.pc;
        self.mcause = 0x8000_0007;
        self.mstatus = (self.mstatus & !0x1888u32) | ((self.mstatus & 0x8) << 4u32) | (
        Self::mode_code(self.mode) << 11u32);
        self.pc = self.mtvec;
        self.prev_mode = Mode::Machine;
        proof {
            assert(self@ =~= spec_do_interrupt(old(self)@, it));
        }
    }

    /// Fold the timer's pending bits into `mip` and enter the trap handler
    /// when machine interrupts are globally enabled and one is pending.
    pub fn check_interrupt(&mut self)
        requires
            old(self).wf(),
        ensures
            final(self).wf(),
            final(self)@ == spec_check_interrupt(old(self)@),
    {
        let msip = self.bus.msip();
        self.mip = self.mip | msip;
        if self.mstatus & 0x8 > 0 {
            let it = self.mie & self.mip;
            if it > 0 {
                self.do_interrupt(it);
            }
        }
        proof {
            assert(self@ =~= spec_check_interrupt(old(self)@));
        }
    }
}

/// The absolute value of an integer.
pub open spec fn abs_i(x: int) -> int {
    if x < 0 {
        -x
    } else {
        x
    }
}

/// Truncating (round-toward-zero) signed division, as the ISA mandates for
/// DIV.
pub open spec fn trunc_div(x: int, y: int) -> int {
    if (x < 0) == (y < 0) {
        abs_i(x) / abs_i(y)
    } else {
        -(abs_i(x) / abs_i(y))
    }
}

/// The remainder matching `trunc_div`: its magnitude is `|x| % |y|` and its
/// sign follows the dividend.
pub open spec fn trunc_rem(x: int, y: int) -> int {
    if x < 0 {
        -(abs_i(x) % abs_i(y))
    } else {
        abs_i(x) % abs_i(y)
    }
}

/// A byte sign-extended to 32 bits.
pub open spec fn sext8_32(b: u8) -> u32 {
    if b >= 0x80 {
        (b + 0xFFFF_FF00) as u32
    } else {
        b as u32
    }
}

/// A half-word sign-extended to 32 bits.
pub open spec fn sext16_32(h: u16) -> u32 {
    if h >= 0x8000 {
        (h + 0xFFFF_0000) as u32
    } else {
        h as u32
    }
}

/// Arithmetic (sign-propagating) right shift of a register value.
pub open spec fn spec_sra_vals(a: u32, sh: u32) -> u32 {
    ((a as i32) >> sh) as u32
}

/// MULH: the high 32 bits of the 64-bit product of two signed operands.
pub open spec fn spec_mulh_vals(a: u32, b: u32) -> u32 {
    norm32((to_signed(a) * to_signed(b)) / 0x1_0000_0000)
}

/// MULHSU: the high 32 bits of the 64-bit product of a signed and an
/// unsigned operand.
pub open spec fn spec_mulhsu_vals(a: u32, b: u32) -> u32 {
    norm32((to_signed(a) * b) / 0x1_0000_0000)
}

/// MULHU: the high 32 bits of the 64-bit product of two unsigned operands.
pub open spec fn spec_mulhu_vals(a: u32, b: u32) -> u32 {
    norm32((a * b) / 0x1_0000_0000)
}

/// DIV: division by zero yields all ones, the signed-overflow pair yields
/// the dividend back, otherwise the truncating signed quotient.
pub open spec fn spec_div_vals(a: u32, b: u32) -> u32 {
    if b == 0 {
        0xFFFF_FFFF
    } else if a == 0x8000_0000 && b == 0xFFFF_FFFF {
        0x8000_0000
    } else {
        norm32(trunc_div(to_signed(a), to_signed(b)))
    }
}

/// REM: division by zero yields the dividend, the signed-overflow pair
/// yields zero, otherwise the remainder matching `trunc_div`.
pub open spec fn spec_rem_vals(a: u32, b: u32) -> u32 {
    if b == 0 {
        a
    } else if a == 0x8000_0000 && b == 0xFFFF_FFFF {
        0
    } else {
        norm32(trunc_rem(to_signed(a), to_signed(b)))
    }
}

/// DIVU: division by zero yields all ones, otherwise the unsigned quotient.
pub open spec fn spec_divu_vals(a: u32, b: u32) -> u32 {
    if b == 0 {
        0xFFFF_FFFF
    } else {
        a / b
    }
}

/// REMU: division by zero yields the dividend, otherwise the unsigned
/// remainder.
pub open spec fn spec_remu_vals(a: u32, b: u32) -> u32 {
    if b == 0 {
        a
    } else {
        a % b
    }
}

/// A value below `2^32` is its own representative modulo `2^32`.
proof fn lemma_norm32_small(x: int)
    requires
        0 <= x < 0x1_0000_0000,
    ensures
        norm32(x) == x,
{
    lemma_small_mod(x as nat, 0x1_0000_0000 as nat);
}

/// The representative of a negated value below `2^32`.
proof fn lemma_norm32_neg(q: u32)
    requires
        q > 0,
    ensures
        norm32(-(q as int)) == 0x1_0000_0000 - q,
{
    lemma_mod_multiples_vanish(1, -(q as int), 0x1_0000_0000);
    lemma_small_mod((0x1_0000_0000 - q) as nat, 0x1_0000_0000 as nat);
}

/// The 32-bit pattern of an `i16`, read back as a signed register value.
pub proof fn lemma_sext_i16(x: i16)
    ensures
        to_signed(x as u32) == x as int,
{
    assert(((x as u32) >= 0x8000_0000 ==> (x as u32) - 0x1_0000_0000 == x as int) && ((x as u32)
        < 0x8000_0000 ==> (x as u32) as int == x as int)) by (bit_vector);
}

/// Two's-complement signed comparison of register values.
fn signed_lt(a: u32, b: u32) -> (r: bool)
    ensures
        r == (to_signed(a) < to_signed(b)),
{
    let na = a >= 0x8000_0000;
    let nb = b >= 0x8000_0000;
    if na == nb {
        a < b
    } else {
        na
    }
}

/// The magnitude of a register value read as signed.
fn exec_abs(a: u32) -> (r: u32)
    ensures
        r == abs_i(to_signed(a)),
{
    if a >= 0x8000_0000 {
        (0xFFFF_FFFFu32 - a) + 1
    } else {
        a
    }
}

/// Floor division of a 64-bit product by `2^32`, reduced modulo `2^32`.
fn floor_div_hi32(p: i64) -> (r: u32)
    requires
        -0x7FFF_FFFF_FFFF_FFFF <= p,
    ensures
        r == norm32(p as int / 0x1_0000_0000),
{
    if p >= 0 {
        let q = (p as u64) / 0x1_0000_0000u64;
        proof {
            lemma_fundamental_div_mod(p as int, 0x1_0000_0000);
            assert(q < 0x1_0000_0000) by (nonlinear_arith)
                requires
                    p as int == 0x1_0000_0000 * (p as int / 0x1_0000_0000) + p as int
                        % 0x1_0000_0000,
                    0 <= p as int % 0x1_0000_0000,
                    q == p as int / 0x1_0000_0000,
                    p <= 0x7FFF_FFFF_FFFF_FFFF,
            ;
            lemma_norm32_small(q as int);
        }
        q as u32
    } else {
        let up = (-p) as u64;
        let qm = up / 0x1_0000_0000u64;
        let rm = up % 0x1_0000_0000u64;
        proof {
            lemma_fundamental_div_mod(up as int, 0x1_0000_0000);
            assert(qm < 0x1_0000_0000) by (nonlinear_arith)
                requires
                    up as int == 0x1_0000_0000 * (up as int / 0x1_0000_0000) + up as int
                        % 0x1_0000_0000,
                    0 <= up as int % 0x1_0000_0000,
                    qm == up as int / 0x1_0000_0000,
                    up <= 0x7FFF_FFFF_FFFF_FFFF,
            ;
        }
        let qq = if rm == 0 {
            qm
        } else {
            qm + 1
        };
        proof {
            // p == -(qm * 2^32 + rm); identify the floor quotient of p.
            if rm == 0 {
                lemma_fundamental_div_mod_converse(
                    p as int,
                    0x1_0000_0000,
                    -(qm as int),
                    0,
                );
            } else {
                assert(p as int == (-(qm as int) - 1) * 0x1_0000_0000 + (0x1_0000_0000 - rm))
                    by (nonlinear_arith)
                    requires
                        up as int == 0x1_0000_0000 * (qm as int) + rm as int,
                        p as int == -(up as int),
                ;
                lemma_fundamental_div_mod_converse(
                    p as int,
                    0x1_0000_0000,
                    -(qm as int) - 1,
                    0x1_0000_0000 - rm as int,
                );
            }
        }
        if qq == 0 {
            proof {
                lemma_norm32_small(0);
            }
            0
        } else {
            proof {
                lemma_norm32_neg(qq as u32);
            }
            (0xFFFF_FFFFu64 - qq + 1) as u32
        }
    }
}

/// The signed value of a register, widened to a 64-bit machine integer.
fn widen_signed(a: u32) -> (r: i64)
    ensures
        r as int == to_signed(a),
        -0x8000_0000 <= r <= 0x7FFF_FFFF,
{
    if a >= 0x8000_0000 {
        a as i64 - 0x1_0000_0000i64
    } else {
        a as i64
    }
}

/// MULH, computed exactly on 64-bit machine integers.
fn mulh_vals(a: u32, b: u32) -> (r: u32)
    ensures
        r == spec_mulh_vals(a, b),
{
    let sa = widen_signed(a);
    let sb = widen_signed(b);
    proof {
        assert(-0x4000_0000_0000_0000 <= (sa as int) * (sb as int) <= 0x4000_0000_0000_0000)
            by (nonlinear_arith)
            requires
                -0x8000_0000 <= sa as int <= 0x7FFF_FFFF,
                -0x8000_0000 <= sb as int <= 0x7FFF_FFFF,
        ;
    }
    let p = sa * sb;
    floor_div_hi32(p)
}

/// MULHSU, computed exactly on 64-bit machine integers.
fn mulhsu_vals(a: u32, b: u32) -> (r: u32)
    ensures
        r == spec_mulhsu_vals(a, b),
{
    let sa = widen_signed(a);
    let ub = b as i64;
    proof {
        assert(-0x7FFF_FFFF_FFFF_FFFF <= (sa as int) * (ub as int) <= 0x7FFF_FFFF_FFFF_FFFF)
            by (nonlinear_arith)
            requires
                -0x8000_0000 <= sa as int <= 0x7FFF_FFFF,
                0 <= (ub as int) < 0x1_0000_0000,
        ;
    }
    let p = sa * ub;
    floor_div_hi32(p)
}

/// MULHU, computed exactly on 64-bit machine integers.
fn mulhu_vals(a: u32, b: u32) -> (r: u32)
    ensures
        r == spec_mulhu_vals(a, b),
{
    proof {
        assert(0 <= (a as int) * (b as int) < 0xFFFF_FFFF_FFFF_FFFF) by (nonlinear_arith)
            requires
                0 <= (a as int) < 0x1_0000_0000,
                0 <= (b as int) < 0x1_0000_0000,
        ;
    }
    let p = (a as u64) * (b as u64);
    let q = p / 0x1_0000_0000u64;
    proof {
        lemma_fundamental_div_mod(p as int, 0x1_0000_0000);
        assert(q < 0x1_0000_0000) by (nonlinear_arith)
            requires
                p as int == 0x1_0000_0000 * (p as int / 0x1_0000_0000) + p as int % 0x1_0000_0000,
                0 <= p as int % 0x1_0000_0000,
                q == p as int / 0x1_0000_0000,
                p <= 0xFFFF_FFFF_FFFF_FFFF,
        ;
        lemma_norm32_small(q as int);
    }
    q as u32
}

/// DIV, computed on unsigned magnitudes with an explicit sign fix-up.
fn div_vals(a: u32, b: u32) -> (r: u32)
    ensures
        r == spec_div_vals(a, b),
{
    if b == 0 {
        0xFFFF_FFFF
    } else if a == 0x8000_0000 && b == 0xFFFF_FFFF {
        0x8000_0000
    } else {
        let ma = exec_abs(a);
        let mb = exec_abs(b);
        let q = ma / mb;
        let neg = (a >= 0x8000_0000) != (b >= 0x8000_0000);
        proof {
            if neg {
                if q == 0 {
                    lemma_norm32_small(0);
                } else {
                    lemma_norm32_neg(q);
                }
            } else {
                lemma_norm32_small(q as int);
            }
        }
        if neg {
            if q == 0 {
                0
            } else {
                (0xFFFF_FFFFu32 - q) + 1
            }
        } else {
            q
        }
    }
}

/// REM, computed on unsigned magnitudes with an explicit sign fix-up.
fn rem_vals(a: u32, b: u32) -> (r: u32)
    ensures
        r == spec_rem_vals(a, b),
{
    if b == 0 {
        a
    } else if a == 0x8000_0000 && b == 0xFFFF_FFFF {
        0
    } else {
        let ma = exec_abs(a);
        let mb = exec_abs(b);
        let rm = ma % mb;
        proof {
            if a >= 0x8000_0000 {
                if rm == 0 {
                    lemma_norm32_small(0);
                } else {
                    lemma_norm32_neg(rm);
                }
            } else {
                lemma_norm32_small(rm as int);
            }
        }
        if a >= 0x8000_0000 {
            if rm == 0 {
                0
            } else {
                (0xFFFF_FFFFu32 - rm) + 1
            }
        } else {
            rm
        }
    }
}

// ---------------------------------------------------------------------------
// The transition each instruction denotes, as a pure function on the model.
// ---------------------------------------------------------------------------

/// ADDI: `rd := rs1 + imm`, wrapping.
pub open spec fn spec_addi(m: CpuModel, rd: int, rs1: int, imm12: i16) -> CpuModel {
    m.set_x(rd, m.get_x(rs1).wrapping_add(imm12 as u32))
}

/// SLLI: `rd := rs1 << shamt`, the shift amount from the immediate's low
/// five bits.
pub open spec fn spec_slli(m: CpuModel, rd: int, rs1: int, imm12: i16) -> CpuModel {
    let sh = ((imm12 as u32) % 32) as u32;
    m.set_x(rd, m.get_x(rs1) << sh)
}

/// SLTI: `rd := 1` when `rs1 < imm` as signed values, else `0`.
pub open spec fn spec_slti(m: CpuModel, rd: int, rs1: int, imm12: i16) -> CpuModel {
    m.set_x(rd, if to_signed(m.get_x(rs1)) < imm12 as int { 1 } else { 0 })
}

/// SLTIU: `rd := 1` when `rs1` is below the 12-bit immediate zero-extended,
/// else `0`.
pub open spec fn spec_sltiu(m: CpuModel, rd: int, rs1: int, imm12: i16) -> CpuModel {
    m.set_x(rd, if m.get_x(rs1) < (imm12 & 0x0FFF) as u32 { 1 } else { 0 })
}

/// XORI: `rd := rs1 ^ imm`, the immediate's 12 bits zero-extended.
pub open spec fn spec_xori(m: CpuModel, rd: int, rs1: int, imm12: i16) -> CpuModel {
    m.set_x(rd, m.get_x(rs1) ^ ((imm12 & 0x0FFF) as u32))
}

/// SRLI: `rd := rs1 >> shamt`, logical.
pub open spec fn spec_srli(m: CpuModel, rd: int, rs1: int, imm12: i16) -> CpuModel {
    let sh = ((imm12 as u32) % 32) as u32;
    m.set_x(rd, m.get_x(rs1) >> sh)
}

/// SRAI: `rd := rs1 >> shamt`, arithmetic.
pub open spec fn spec_srai(m: CpuModel, rd: int, rs1: int, imm12: i16) -> CpuModel {
    let sh = ((imm12 as u32) % 32) as u32;
    m.set_x(rd, spec_sra_vals(m.get_x(rs1), sh))
}

/// ORI: `rd := rs1 | imm`, the immediate's 12 bits zero-extended.
pub open spec fn spec_ori(m: CpuModel, rd: int, rs1: int, imm12: i16) -> CpuModel {
    m.set_x(rd, m.get_x(rs1) | ((imm12 & 0x0FFF) as u32))
}

/// ANDI: `rd := rs1 & imm`, the immediate's 12 bits zero-extended.
pub open spec fn spec_andi(m: CpuModel, rd: int, rs1: int, imm12: i16) -> CpuModel {
    m.set_x(rd, m.get_x(rs1) & ((imm12 & 0x0FFF) as u32))
}

/// A taken branch adds the sign-extended offset to the program counter; a
/// branch that is not taken changes nothing.
pub open spec fn spec_branch_pc(m: CpuModel, taken: bool, imm12: i16) -> CpuModel {
    if taken {
        m.with_pc(m.pc.wrapping_add(imm12 as u32))
    } else {
        m
    }
}

/// BEQ: taken when the registers are equal (signedness is immaterial).
pub open spec fn spec_beq(m: CpuModel, rs1: int, rs2: int, imm12: i16) -> CpuModel {
    spec_branch_pc(m, m.get_x(rs1) == m.get_x(rs2), imm12)
}

/// BNE: taken when the registers differ.
pub open spec fn spec_bne(m: CpuModel, rs1: int, rs2: int, imm12: i16) -> CpuModel {
    spec_branch_pc(m, m.get_x(rs1) != m.get_x(rs2), imm12)
}

/// BLT: taken when `rs1 < rs2` as signed values.
pub open spec fn spec_blt(m: CpuModel, rs1: int, rs2: int, imm12: i16) -> CpuModel {
    spec_branch_pc(m, to_signed(m.get_x(rs1)) < to_signed(m.get_x(rs2)), imm12)
}

/// BGE: taken when `rs1 >= rs2` as signed values.
pub open spec fn spec_bge(m: CpuModel, rs1: int, rs2: int, imm12: i16) -> CpuModel {
    spec_branch_pc(m, to_signed(m.get_x(rs1)) >= to_signed(m.get_x(rs2)), imm12)
}

/// BLTU: taken when `rs1 < rs2` as unsigned values.
pub open spec fn spec_bltu(m: CpuModel, rs1: int, rs2: int, imm12: i16) -> CpuModel {
    spec_branch_pc(m, m.get_x(rs1) < m.get_x(rs2), imm12)
}

/// BGEU: taken when `rs1 >= rs2` as unsigned values.
pub open spec fn spec_bgeu(m: CpuModel, rs1: int, rs2: int, imm12: i16) -> CpuModel {
    spec_branch_pc(m, m.get_x(rs1) >= m.get_x(rs2), imm12)
}

/// JAL: `rd := pc + 4`, then the program counter advances by the jump
/// offset.
pub open spec fn spec_jal(m: CpuModel, rd: int, imm32: i32) -> CpuModel {
    m.set_x(rd, m.pc.wrapping_add(4)).with_pc(m.pc.wrapping_add(imm32 as u32))
}

/// JALR: `rd := pc + 4`, then the program counter becomes `rs1 + imm` (the
/// base comes from a register, not the program counter).
pub open spec fn spec_jalr(m: CpuModel, rd: int, rs1: int, imm12: i16) -> CpuModel {
    let base = m.get_x(rs1);
    m.set_x(rd, m.pc.wrapping_add(4)).with_pc(base.wrapping_add(imm12 as u32))
}

/// LUI: `rd :=` the upper-20-bits immediate.
pub open spec fn spec_lui(m: CpuModel, rd: int, imm32: i32) -> CpuModel {
    m.set_x(rd, imm32 as u32)
}

/// AUIPC: `rd := pc +` the upper-20-bits immediate.
pub open spec fn spec_auipc(m: CpuModel, rd: int, imm32: i32) -> CpuModel {
    m.set_x(rd, m.pc.wrapping_add(imm32 as u32))
}

/// The effective address of a load or store: base register plus
/// sign-extended offset, wrapping.
pub open spec fn spec_mem_addr(m: CpuModel, rs1: int, imm12: i16) -> u32 {
    m.get_x(rs1).wrapping_add(imm12 as u32)
}

/// LB: load a byte and sign-extend it.
pub open spec fn spec_lb(m: CpuModel, rd: int, rs1: int, imm12: i16) -> CpuModel {
    m.set_x(rd, sext8_32(m.bus.read8(spec_mem_addr(m, rs1, imm12))))
}

/// LH: load a half-word and sign-extend it.
pub open spec fn spec_lh(m: CpuModel, rd: int, rs1: int, imm12: i16) -> CpuModel {
    m.set_x(rd, sext16_32(m.bus.read16(spec_mem_addr(m, rs1, imm12))))
}

/// LW: load a word.
pub open spec fn spec_lw(m: CpuModel, rd: int, rs1: int, imm12: i16) -> CpuModel {
    m.set_x(rd, m.bus.read32(spec_mem_addr(m, rs1, imm12)))
}

/// LBU: load a byte and zero-extend it.
pub open spec fn spec_lbu(m: CpuModel, rd: int, rs1: int, imm12: i16) -> CpuModel {
    m.set_x(rd, m.bus.read8(spec_mem_addr(m, rs1, imm12)) as u32)
}

/// LHU: load a half-word and zero-extend it.
pub open spec fn spec_lhu(m: CpuModel, rd: int, rs1: int, imm12: i16) -> CpuModel {
    m.set_x(rd, m.bus.read16(spec_mem_addr(m, rs1, imm12)) as u32)
}

/// SB: store the low byte of `rs2`.
pub open spec fn spec_sb(m: CpuModel, rs1: int, rs2: int, imm12: i16) -> CpuModel {
    m.with_bus(m.bus.write8(spec_mem_addr(m, rs1, imm12), (m.get_x(rs2) & 0xFF) as u8))
}

/// SH: store the low half-word of `rs2`.
pub open spec fn spec_sh(m: CpuModel, rs1: int, rs2: int, imm12: i16) -> CpuModel {
    m.with_bus(m.bus.write16(spec_mem_addr(m, rs1, imm12), (m.get_x(rs2) & 0xFFFF) as u16))
}

/// SW: store the word in `rs2`.
pub open spec fn spec_sw(m: CpuModel, rs1: int, rs2: int, imm12: i16) -> CpuModel {
    m.with_bus(m.bus.write32(spec_mem_addr(m, rs1, imm12), m.get_x(rs2)))
}

/// ADD: `rd := rs1 + rs2`, wrapping.
pub open spec fn spec_add(m: CpuModel, rd: int, rs1: int, rs2: int) -> CpuModel {
    m.set_x(rd, m.get_x(rs1).wrapping_add(m.get_x(rs2)))
}

/// SUB: `rd := rs1 - rs2`, wrapping.
pub open spec fn spec_sub(m: CpuModel, rd: int, rs1: int, rs2: int) -> CpuModel {
    m.set_x(rd, m.get_x(rs1).wrapping_sub(m.get_x(rs2)))
}

/// SLL: `rd := rs1 << rs2`, the shift amount from the low five bits of
/// `rs2`.
pub open spec fn spec_sll(m: CpuModel, rd: int, rs1: int, rs2: int) -> CpuModel {
    let sh = (m.get_x(rs2) % 32) as u32;
    m.set_x(rd, m.get_x(rs1) << sh)
}

/// SLT: `rd := 1` when `rs1 < rs2` as signed values, else `0`.
pub open spec fn spec_slt(m: CpuModel, rd: int, rs1: int, rs2: int) -> CpuModel {
    m.set_x(rd, if to_signed(m.get_x(rs1)) < to_signed(m.get_x(rs2)) { 1 } else { 0 })
}

/// SLTU: `rd := 1` when `rs1 < rs2` as unsigned values, else `0`.
pub open spec fn spec_sltu(m: CpuModel, rd: int, rs1: int, rs2: int) -> CpuModel {
    m.set_x(rd, if m.get_x(rs1) < m.get_x(rs2) { 1 } else { 0 })
}

/// XOR: `rd := rs1 ^ rs2`.
pub open spec fn spec_xor(m: CpuModel, rd: int, rs1: int, rs2: int) -> CpuModel {
    m.set_x(rd, m.get_x(rs1) ^ m.get_x(rs2))
}

/// SRL: `rd := rs1 >> rs2`, logical, the shift amount from the low five
/// bits of `rs2`.
pub open spec fn spec_srl(m: CpuModel, rd: int, rs1: int, rs2: int) -> CpuModel {
    let sh = (m.get_x(rs2) % 32) as u32;
    m.set_x(rd, m.get_x(rs1) >> sh)
}

/// SRA: `rd := rs1 >> rs2`, arithmetic, the shift amount from the low five
/// bits of `rs2`.
pub open spec fn spec_sra(m: CpuModel, rd: int, rs1: int, rs2: int) -> CpuModel {
    let sh = (m.get_x(rs2) % 32) as u32;
    m.set_x(rd, spec_sra_vals(m.get_x(rs1), sh))
}

/// OR: `rd := rs1 | rs2`.
pub open spec fn spec_or(m: CpuModel, rd: int, rs1: int, rs2: int) -> CpuModel {
    m.set_x(rd, m.get_x(rs1) | m.get_x(rs2))
}

/// AND: `rd := rs1 & rs2`.
pub open spec fn spec_and(m: CpuModel, rd: int, rs1: int, rs2: int) -> CpuModel {
    m.set_x(rd, m.get_x(rs1) & m.get_x(rs2))
}

/// MUL: `rd :=` the low 32 bits of the product, wrapping.
pub open spec fn spec_mul(m: CpuModel, rd: int, rs1: int, rs2: int) -> CpuModel {
    m.set_x(rd, m.get_x(rs1).wrapping_mul(m.get_x(rs2)))
}

/// MULH: `rd :=` the high 32 bits of the signed product.
pub open spec fn spec_mulh(m: CpuModel, rd: int, rs1: int, rs2: int) -> CpuModel {
    m.set_x(rd, spec_mulh_vals(m.get_x(rs1), m.get_x(rs2)))
}

/// MULHSU: `rd :=` the high 32 bits of the signed-by-unsigned product.
pub open spec fn spec_mulhsu(m: CpuModel, rd: int, rs1: int, rs2: int) -> CpuModel {
    m.set_x(rd, spec_mulhsu_vals(m.get_x(rs1), m.get_x(rs2)))
}

/// MULHU: `rd :=` the high 32 bits of the unsigned product.
pub open spec fn spec_mulhu(m: CpuModel, rd: int, rs1: int, rs2: int) -> CpuModel {
    m.set_x(rd, spec_mulhu_vals(m.get_x(rs1), m.get_x(rs2)))
}

/// DIV: `rd :=` the truncating signed quotient, with the mandated special
/// cases for a zero divisor and signed overflow.
pub open spec fn spec_div(m: CpuModel, rd: int, rs1: int, rs2: int) -> CpuModel {
    m.set_x(rd, spec_div_vals(m.get_x(rs1), m.get_x(rs2)))
}

/// DIVU: `rd :=` the unsigned quotient, all ones on a zero divisor.
pub open spec fn spec_divu(m: CpuModel, rd: int, rs1: int, rs2: int) -> CpuModel {
    m.set_x(rd, spec_divu_vals(m.get_x(rs1), m.get_x(rs2)))
}

/// REM: `rd :=` the signed remainder, with the mandated special cases.
pub open spec fn spec_rem(m: CpuModel, rd: int, rs1: int, rs2: int) -> CpuModel {
    m.set_x(rd, spec_rem_vals(m.get_x(rs1), m.get_x(rs2)))
}

/// REMU: `rd :=` the unsigned remainder, the dividend on a zero divisor.
pub open spec fn spec_remu(m: CpuModel, rd: int, rs1: int, rs2: int) -> CpuModel {
    m.set_x(rd, spec_remu_vals(m.get_x(rs1), m.get_x(rs2)))
}

/// CSRRW: `rd :=` the CSR's prior value; the CSR receives the prior `rs1`.
pub open spec fn spec_csrrw(m: CpuModel, rd: int, rs1: int, imm12: i16) -> (CpuModel, Result<
    (),
    EmuError,
>) {
    let no = imm12 as u16;
    match spec_get_csr(m, no) {
        Ok(cv) => {
            let src = m.get_x(rs1);
            (spec_set_csr(m.set_x(rd, cv), no, src).0, Ok(()))
        },
        Err(e) => (m, Err(e)),
    }
}

/// CSRRS: `rd :=` the CSR's prior value; the bits of `rs1` are set in the
/// CSR.
pub open spec fn spec_csrrs(m: CpuModel, rd: int, rs1: int, imm12: i16) -> (CpuModel, Result<
    (),
    EmuError,
>) {
    let no = imm12 as u16;
    match spec_get_csr(m, no) {
        Ok(cv) => {
            let src = m.get_x(rs1);
            (spec_set_csr(m.set_x(rd, cv), no, cv | src).0, Ok(()))
        },
        Err(e) => (m, Err(e)),
    }
}

/// CSRRC: `rd :=` the CSR's prior value; the bits of `rs1` are cleared in
/// the CSR.
pub open spec fn spec_csrrc(m: CpuModel, rd: int, rs1: int, imm12: i16) -> (CpuModel, Result<
    (),
    EmuError,
>) {
    let no = imm12 as u16;
    match spec_get_csr(m, no) {
        Ok(cv) => {
            let src = m.get_x(rs1);
            (spec_set_csr(m.set_x(rd, cv), no, cv & !src).0, Ok(()))
        },
        Err(e) => (m, Err(e)),
    }
}

/// CSRRWI: as CSRRW, the operand being the five-bit `rs1` field itself,
/// zero-extended.
pub open spec fn spec_csrrwi(m: CpuModel, rd: int, rs1: int, imm12: i16) -> (CpuModel, Result<
    (),
    EmuError,
>) {
    let no = imm12 as u16;
    match spec_get_csr(m, no) {
        Ok(cv) => (spec_set_csr(m.set_x(rd, cv), no, rs1 as u32).0, Ok(())),
        Err(e) => (m, Err(e)),
    }
}

/// CSRRSI: as CSRRS, the operand being the five-bit `rs1` field itself.
pub open spec fn spec_csrrsi(m: CpuModel, rd: int, rs1: int, imm12: i16) -> (CpuModel, Result<
    (),
    EmuError,
>) {
    let no = imm12 as u16;
    match spec_get_csr(m, no) {
        Ok(cv) => (spec_set_csr(m.set_x(rd, cv), no, cv | (rs1 as u32)).0, Ok(())),
        Err(e) => (m, Err(e)),
    }
}

/// CSRRCI: as CSRRC, the operand being the five-bit `rs1` field itself.
pub open spec fn spec_csrrci(m: CpuModel, rd: int, rs1: int, imm12: i16) -> (CpuModel, Result<
    (),
    EmuError,
>) {
    let no = imm12 as u16;
    match spec_get_csr(m, no) {
        Ok(cv) => (spec_set_csr(m.set_x(rd, cv), no, cv & !(rs1 as u32)).0, Ok(())),
        Err(e) => (m, Err(e)),
    }
}

/// LR.W: a plain word load; no reservation is tracked on a single hart.
pub open spec fn spec_lrw(m: CpuModel, rd: int, rs1: int) -> CpuModel {
    m.set_x(rd, m.bus.read32(m.get_x(rs1)))
}

/// SC.W: an unconditional word store that always reports success by writing
/// zero to `rd`.
pub open spec fn spec_scw(m: CpuModel, rd: int, rs1: int, rs2: int) -> CpuModel {
    m.with_bus(m.bus.write32(m.get_x(rs1), m.get_x(rs2))).set_x(rd, 0)
}

/// The fetch-and-op shape shared by the AMO family: `rd :=` the word at
/// `rs1`, and that word is replaced by `new`.
pub open spec fn spec_amo_rmw(m: CpuModel, rd: int, rs1: int, new: u32) -> CpuModel {
    let m1 = m.set_x(rd, m.bus.read32(m.get_x(rs1)));
    m1.with_bus(m1.bus.write32(m.get_x(rs1), new))
}

/// AMOSWAP.W.
pub open spec fn spec_amoswapw(m: CpuModel, rd: int, rs1: int, rs2: int) -> CpuModel {
    spec_amo_rmw(m, rd, rs1, m.get_x(rs2))
}

/// AMOADD.W, wrapping.
pub open spec fn spec_amoaddw(m: CpuModel, rd: int, rs1: int, rs2: int) -> CpuModel {
    spec_amo_rmw(m, rd, rs1, m.bus.read32(m.get_x(rs1)).wrapping_add(m.get_x(rs2)))
}

/// AMOXOR.W.
pub open spec fn spec_amoxorw(m: CpuModel, rd: int, rs1: int, rs2: int) -> CpuModel {
    spec_amo_rmw(m, rd, rs1, m.bus.read32(m.get_x(rs1)) ^ m.get_x(rs2))
}

/// AMOAND.W.
pub open spec fn spec_amoandw(m: CpuModel, rd: int, rs1: int, rs2: int) -> CpuModel {
    spec_amo_rmw(m, rd, rs1, m.bus.read32(m.get_x(rs1)) & m.get_x(rs2))
}

/// AMOOR.W.
pub open spec fn spec_amoorw(m: CpuModel, rd: int, rs1: int, rs2: int) -> CpuModel {
    spec_amo_rmw(m, rd, rs1, m.bus.read32(m.get_x(rs1)) | m.get_x(rs2))
}

/// AMOMIN.W: the signed minimum.
pub open spec fn spec_amominw(m: CpuModel, rd: int, rs1: int, rs2: int) -> CpuModel {
    let left = m.bus.read32(m.get_x(rs1));
    let right = m.get_x(rs2);
    spec_amo_rmw(m, rd, rs1, if to_signed(right) < to_signed(left) { right } else { left })
}

/// AMOMAX.W: the signed maximum.
pub open spec fn spec_amomaxw(m: CpuModel, rd: int, rs1: int, rs2: int) -> CpuModel {
    let left = m.bus.read32(m.get_x(rs1));
    let right = m.get_x(rs2);
    spec_amo_rmw(m, rd, rs1, if to_signed(left) < to_signed(right) { right } else { left })
}

/// AMOMINU.W: the unsigned minimum.
pub open spec fn spec_amominuw(m: CpuModel, rd: int, rs1: int, rs2: int) -> CpuModel {
    let left = m.bus.read32(m.get_x(rs1));
    let right = m.get_x(rs2);
    spec_amo_rmw(m, rd, rs1, if right < left { right } else { left })
}

/// AMOMAXU.W: the unsigned maximum.
pub open spec fn spec_amomaxuw(m: CpuModel, rd: int, rs1: int, rs2: int) -> CpuModel {
    let left = m.bus.read32(m.get_x(rs1));
    let right = m.get_x(rs2);
    spec_amo_rmw(m, rd, rs1, if left < right { right } else { left })
}

// ---------------------------------------------------------------------------
// Category dispatch on the model, selecting by funct3 / funct7 / funct5.
// ---------------------------------------------------------------------------

/// OP-IMM dispatch by funct3 (and funct7 for the shifts).
pub open spec fn spec_opimm(m: CpuModel, inst: Inst) -> (CpuModel, Result<(), EmuError>) {
    let rd = inst.rd as int;
    let rs1 = inst.rs1 as int;
    if inst.funct3 == 0b000 {
        (spec_addi(m, rd, rs1, inst.imm12), Ok(()))
    } else if inst.funct3 == 0b001 && inst.funct7 == 0b0000000 {
        (spec_slli(m, rd, rs1, inst.imm12), Ok(()))
    } else if inst.funct3 == 0b010 {
        (spec_slti(m, rd, rs1, inst.imm12), Ok(()))
    } else if inst.funct3 == 0b011 {
        (spec_sltiu(m, rd, rs1, inst.imm12), Ok(()))
    } else if inst.funct3 == 0b100 {
        (spec_xori(m, rd, rs1, inst.imm12), Ok(()))
    } else if inst.funct3 == 0b101 && inst.funct7 == 0b0000000 {
        (spec_srli(m, rd, rs1, inst.imm12), Ok(()))
    } else if inst.funct3 == 0b101 && inst.funct7 == 0b0100000 {
        (spec_srai(m, rd, rs1, inst.imm12), Ok(()))
    } else if inst.funct3 == 0b110 {
        (spec_ori(m, rd, rs1, inst.imm12), Ok(()))
    } else if inst.funct3 == 0b111 {
        (spec_andi(m, rd, rs1, inst.imm12), Ok(()))
    } else {
        (m, Err(EmuError::UnknownInstruction(inst.raw)))
    }
}

/// Branch dispatch by funct3.
pub open spec fn spec_branch(m: CpuModel, inst: Inst) -> (CpuModel, Result<(), EmuError>) {
    let rs1 = inst.rs1 as int;
    let rs2 = inst.rs2 as int;
    if inst.funct3 == 0b000 {
        (spec_beq(m, rs1, rs2, inst.imm12), Ok(()))
    } else if inst.funct3 == 0b001 {
        (spec_bne(m, rs1, rs2, inst.imm12), Ok(()))
    } else if inst.funct3 == 0b100 {
        (spec_blt(m, rs1, rs2, inst.imm12), Ok(()))
    } else if inst.funct3 == 0b101 {
        (spec_bge(m, rs1, rs2, inst.imm12), Ok(()))
    } else if inst.funct3 == 0b110 {
        (spec_bltu(m, rs1, rs2, inst.imm12), Ok(()))
    } else if inst.funct3 == 0b111 {
        (spec_bgeu(m, rs1, rs2, inst.imm12), Ok(()))
    } else {
        (m, Err(EmuError::UnknownInstruction(inst.raw)))
    }
}

/// Load dispatch by funct3.
pub open spec fn spec_load(m: CpuModel, inst: Inst) -> (CpuModel, Result<(), EmuError>) {
    let rd = inst.rd as int;
    let rs1 = inst.rs1 as int;
    if inst.funct3 == 0b000 {
        (spec_lb(m, rd, rs1, inst.imm12), Ok(()))
    } else if inst.funct3 == 0b001 {
        (spec_lh(m, rd, rs1, inst.imm12), Ok(()))
    } else if inst.funct3 == 0b010 {
        (spec_lw(m, rd, rs1, inst.imm12), Ok(()))
    } else if inst.funct3 == 0b100 {
        (spec_lbu(m, rd, rs1, inst.imm12), Ok(()))
    } else if inst.funct3 == 0b101 {
        (spec_lhu(m, rd, rs1, inst.imm12), Ok(()))
    } else {
        (m, Err(EmuError::UnknownInstruction(inst.raw)))
    }
}

/// Store dispatch by funct3.
pub open spec fn spec_store(m: CpuModel, inst: Inst) -> (CpuModel, Result<(), EmuError>) {
    let rs1 = inst.rs1 as int;
    let rs2 = inst.rs2 as int;
    if inst.funct3 == 0b000 {
        (spec_sb(m, rs1, rs2, inst.imm12), Ok(()))
    } else if inst.funct3 == 0b001 {
        (spec_sh(m, rs1, rs2, inst.imm12), Ok(()))
    } else if inst.funct3 == 0b010 {
        (spec_sw(m, rs1, rs2, inst.imm12), Ok(()))
    } else {
        (m, Err(EmuError::UnknownInstruction(inst.raw)))
    }
}

/// MISC-MEM dispatch: FENCE is unimplemented and surfaces the configuration
/// error; FENCE.I is a no-op on a single hart.
pub open spec fn spec_misc_mem(m: CpuModel, inst: Inst) -> (CpuModel, Result<(), EmuError>) {
    if inst.funct3 == 0b000 {
        (m, Err(EmuError::FenceUnimplemented))
    } else if inst.funct3 == 0b001 {
        (m, Ok(()))
    } else {
        (m, Err(EmuError::UnknownInstruction(inst.raw)))
    }
}

/// SYSTEM dispatch by funct3: the six CSR operations.
pub open spec fn spec_system(m: CpuModel, inst: Inst) -> (CpuModel, Result<(), EmuError>) {
    let rd = inst.rd as int;
    let rs1 = inst.rs1 as int;
    if inst.funct3 == 0b001 {
        spec_csrrw(m, rd, rs1, inst.imm12)
    } else if inst.funct3 == 0b010 {
        spec_csrrs(m, rd, rs1, inst.imm12)
    } else if inst.funct3 == 0b011 {
        spec_csrrc(m, rd, rs1, inst.imm12)
    } else if inst.funct3 == 0b101 {
        spec_csrrwi(m, rd, rs1, inst.imm12)
    } else if inst.funct3 == 0b110 {
        spec_csrrsi(m, rd, rs1, inst.imm12)
    } else if inst.funct3 == 0b111 {
        spec_csrrci(m, rd, rs1, inst.imm12)
    } else {
        (m, Err(EmuError::UnknownInstruction(inst.raw)))
    }
}

/// OP dispatch by funct3 and funct7: the base register-register operations
/// and the M-extension multiply / divide family.
pub open spec fn spec_op(m: CpuModel, inst: Inst) -> (CpuModel, Result<(), EmuError>) {
    let rd = inst.rd as int;
    let rs1 = inst.rs1 as int;
    let rs2 = inst.rs2 as int;
    if inst.funct3 == 0b000 && inst.funct7 == 0b0000000 {
        (spec_add(m, rd, rs1, rs2), Ok(()))
    } else if inst.funct3 == 0b000 && inst.funct7 == 0b0000001 {
        (spec_mul(m, rd, rs1, rs2), Ok(()))
    } else if inst.funct3 == 0b000 && inst.funct7 == 0b0100000 {
        (spec_sub(m, rd, rs1, rs2), Ok(()))
    } else if inst.funct3 == 0b001 && inst.funct7 == 0b0000000 {
        (spec_sll(m, rd, rs1, rs2), Ok(()))
    } else if inst.funct3 == 0b001 && inst.funct7 == 0b0000001 {
        (spec_mulh(m, rd, rs1, rs2), Ok(()))
    } else if inst.funct3 == 0b010 && inst.funct7 == 0b0000000 {
        (spec_slt(m, rd, rs1, rs2), Ok(()))
    } else if inst.funct3 == 0b010 && inst.funct7 == 0b0000001 {
        (spec_mulhsu(m, rd, rs1, rs2), Ok(()))
    } else if inst.funct3 == 0b011 && inst.funct7 == 0b0000000 {
        (spec_sltu(m, rd, rs1, rs2), Ok(()))
    } else if inst.funct3 == 0b011 && inst.funct7 == 0b0000001 {
        (spec_mulhu(m, rd, rs1, rs2), Ok(()))
    } else if inst.funct3 == 0b100 && inst.funct7 == 0b0000000 {
        (spec_xor(m, rd, rs1, rs2), Ok(()))
    } else if inst.funct3 == 0b100 && inst.funct7 == 0b0000001 {
        (spec_div(m, rd, rs1, rs2), Ok(()))
    } else if inst.funct3 == 0b101 && inst.funct7 == 0b0000000 {
        (spec_srl(m, rd, rs1, rs2), Ok(()))
    } else if inst.funct3 == 0b101 && inst.funct7 == 0b0000001 {
        (spec_divu(m, rd, rs1, rs2), Ok(()))
    } else if inst.funct3 == 0b101 && inst.funct7 == 0b0100000 {
        (spec_sra(m, rd, rs1, rs2), Ok(()))
    } else if inst.funct3 == 0b110 && inst.funct7 == 0b0000000 {
        (spec_or(m, rd, rs1, rs2), Ok(()))
    } else if inst.funct3 == 0b110 && inst.funct7 == 0b0000001 {
        (spec_rem(m, rd, rs1, rs2), Ok(()))
    } else if inst.funct3 == 0b111 && inst.funct7 == 0b0000000 {
        (spec_and(m, rd, rs1, rs2), Ok(()))
    } else if inst.funct3 == 0b111 && inst.funct7 == 0b0000001 {
        (spec_remu(m, rd, rs1, rs2), Ok(()))
    } else {
        (m, Err(EmuError::UnknownInstruction(inst.raw)))
    }
}

/// AMO dispatch by funct5; the acquire / release ordering bits are decoded
/// but ignored, there being no second observer.
pub open spec fn spec_amo(m: CpuModel, inst: Inst) -> (CpuModel, Result<(), EmuError>) {
    let rd = inst.rd as int;
    let rs1 = inst.rs1 as int;
    let rs2 = inst.rs2 as int;
    if inst.funct5 == 0b00010 {
        (spec_lrw(m, rd, rs1), Ok(()))
    } else if inst.funct5 == 0b00011 {
        (spec_scw(m, rd, rs1, rs2), Ok(()))
    } else if inst.funct5 == 0b00001 {
        (spec_amoswapw(m, rd, rs1, rs2), Ok(()))
    } else if inst.funct5 == 0b00000 {
        (spec_amoaddw(m, rd, rs1, rs2), Ok(()))
    } else if inst.funct5 == 0b00100 {
        (spec_amoxorw(m, rd, rs1, rs2), Ok(()))
    } else if inst.funct5 == 0b01100 {
        (spec_amoandw(m, rd, rs1, rs2), Ok(()))
    } else if inst.funct5 == 0b01000 {
        (spec_amoorw(m, rd, rs1, rs2), Ok(()))
    } else if inst.funct5 == 0b10000 {
        (spec_amominw(m, rd, rs1, rs2), Ok(()))
    } else if inst.funct5 == 0b10100 {
        (spec_amomaxw(m, rd, rs1, rs2), Ok(()))
    } else if inst.funct5 == 0b11000 {
        (spec_amominuw(m, rd, rs1, rs2), Ok(()))
    } else if inst.funct5 == 0b11100 {
        (spec_amomaxuw(m, rd, rs1, rs2), Ok(()))
    } else {
        (m, Err(EmuError::UnknownInstruction(inst.raw)))
    }
}

/// One decode-dispatch-execute step on an already fetched instruction word:
/// classify by the 7-bit opcode into the format the category expects, then
/// dispatch. On any failure the model is returned unchanged beside the
/// error.
pub open spec fn spec_step_ir(m: CpuModel, ir: u32) -> (CpuModel, Result<(), EmuError>) {
    let opecode = ir & 0x7F;
    if opecode == 0b00_000_11 {
        spec_load(m, spec_from_i(ir))
    } else if opecode == 0b01_000_11 {
        spec_store(m, spec_from_s(ir))
    } else if opecode == 0b11_000_11 {
        spec_branch(m, spec_from_b(ir))
    } else if opecode == 0b11_001_11 {
        spec_jalr_step(m, spec_from_i(ir))
    } else if opecode == 0b00_011_11 {
        spec_misc_mem(m, spec_from_i(ir))
    } else if opecode == 0b01_011_11 {
        spec_amo(m, spec_from_r(ir))
    } else if opecode == 0b11_011_11 {
        spec_jal_step(m, spec_from_j(ir))
    } else if opecode == 0b00_100_11 {
        spec_opimm(m, spec_from_i(ir))
    } else if opecode == 0b01_100_11 {
        spec_op(m, spec_from_r(ir))
    } else if opecode == 0b11_100_11 {
        spec_system(m, spec_from_i(ir))
    } else if opecode == 0b00_101_11 {
        (spec_auipc(m, spec_from_u(ir).rd as int, spec_from_u(ir).imm32), Ok(()))
    } else if opecode == 0b01_101_11 {
        (spec_lui(m, spec_from_u(ir).rd as int, spec_from_u(ir).imm32), Ok(()))
    } else {
        (m, Err(EmuError::UnknownInstruction(ir)))
    }
}

/// Whether a 7-bit opcode selects any of the implemented categories.
pub open spec fn spec_known_opcode(opecode: u32) -> bool {
    ||| opecode == 0b00_000_11
    ||| opecode == 0b01_000_11
    ||| opecode == 0b11_000_11
    ||| opecode == 0b11_001_11
    ||| opecode == 0b00_011_11
    ||| opecode == 0b01_011_11
    ||| opecode == 0b11_011_11
    ||| opecode == 0b00_100_11
    ||| opecode == 0b01_100_11
    ||| opecode == 0b11_100_11
    ||| opecode == 0b00_101_11
    ||| opecode == 0b01_101_11
}

/// JAL as a step on a decoded instruction.
pub open spec fn spec_jal_step(m: CpuModel, inst: Inst) -> (CpuModel, Result<(), EmuError>) {
    (spec_jal(m, inst.rd as int, inst.imm32), Ok(()))
}

/// JALR as a step on a decoded instruction.
pub open spec fn spec_jalr_step(m: CpuModel, inst: Inst) -> (CpuModel, Result<(), EmuError>) {
    (spec_jalr(m, inst.rd as int, inst.rs1 as int, inst.imm12), Ok(()))
}

/// One whole system tick: the bus (and with it the timer) advances, pending
/// interrupts are evaluated, the program counter advances by four, and the
/// word there is fetched, decoded and executed.
pub open spec fn spec_tick(m: CpuModel) -> (CpuModel, Result<(), EmuError>) {
    let m1 = m.with_bus(m.bus.tick());
    let m2 = spec_check_interrupt(m1);
    let m3 = m2.with_pc(m2.pc.wrapping_add(4));
    let ir = m3.bus.read32(m3.pc);
    spec_step_ir(m3, ir)
}

impl Cpu {
    /// ADDI.
    pub fn addi(&mut self, rd: usize, rs1: usize, imm12: i16) -> (r: Result<(), EmuError>)
        requires
            old(self).wf(),
            rd < 32,
            rs1 < 32,
        ensures
            final(self).wf(),
            r == Ok::<(), EmuError>(()),
            final(self)@ == spec_addi(old(self)@, rd as int, rs1 as int, imm12),
    {
        let v = self.get_x(rs1).wrapping_add(#[verifier::truncate] (imm12 as u32));
        self.set_x(rd, v);
        Ok(())
    }

    /// SLLI.
    pub fn slli(&mut self, rd: usize, rs1: usize, imm12: i16) -> (r: Result<(), EmuError>)
        requires
            old(self).wf(),
            rd < 32,
            rs1 < 32,
        ensures
            final(self).wf(),
            r == Ok::<(), EmuError>(()),
            final(self)@ == spec_slli(old(self)@, rd as int, rs1 as int, imm12),
    {
        let sh: u32 = (#[verifier::truncate] (imm12 as u32)) % 32;
        let v = self.get_x(rs1) << sh;
        self.set_x(rd, v);
        Ok(())
    }

    /// SLTI.
    pub fn slti(&mut self, rd: usize, rs1: usize, imm12: i16) -> (r: Result<(), EmuError>)
        requires
            old(self).wf(),
            rd < 32,
            rs1 < 32,
        ensures
            final(self).wf(),
            r == Ok::<(), EmuError>(()),
            final(self)@ == spec_slti(old(self)@, rd as int, rs1 as int, imm12),
    {
        proof {
            lemma_sext_i16(imm12);
        }
        let t = signed_lt(self.get_x(rs1), #[verifier::truncate] (imm12 as u32));
        self.set_x(rd, if t { 1 } else { 0 });
        Ok(())
    }

    /// SLTIU.
    pub fn sltiu(&mut self, rd: usize, rs1: usize, imm12: i16) -> (r: Result<(), EmuError>)
        requires
            old(self).wf(),
            rd < 32,
            rs1 < 32,
        ensures
            final(self).wf(),
            r == Ok::<(), EmuError>(()),
            final(self)@ == spec_sltiu(old(self)@, rd as int, rs1 as int, imm12),
    {
        let t = self.get_x(rs1) < ((imm12 & 0x0FFF) as u32);
        self.set_x(rd, if t { 1 } else { 0 });
        Ok(())
    }

    /// XORI.
    pub fn xori(&mut self, rd: usize, rs1: usize, imm12: i16) -> (r: Result<(), EmuError>)
        requires
            old(self).wf(),
            rd < 32,
            rs1 < 32,
        ensures
            final(self).wf(),
            r == Ok::<(), EmuError>(()),
            final(self)@ == spec_xori(old(self)@, rd as int, rs1 as int, imm12),
    {
        let v = self.get_x(rs1) ^ ((imm12 & 0x0FFF) as u32);
        self.set_x(rd, v);
        Ok(())
    }

    /// SRLI.
    pub fn srli(&mut self, rd: usize, rs1: usize, imm12: i16) -> (r: Result<(), EmuError>)
        requires
            old(self).wf(),
            rd < 32,
            rs1 < 32,
        ensures
            final(self).wf(),
            r == Ok::<(), EmuError>(()),
            final(self)@ == spec_srli(old(self)@, rd as int, rs1 as int, imm12),
    {
        let sh: u32 = (#[verifier::truncate] (imm12 as u32)) % 32;
        let v = self.get_x(rs1) >> sh;
        self.set_x(rd, v);
        Ok(())
    }

    /// SRAI.
    pub fn srai(&mut self, rd: usize, rs1: usize, imm12: i16) -> (r: Result<(), EmuError>)
        requires
            old(self).wf(),
            rd < 32,
            rs1 < 32,
        ensures
            final(self).wf(),
            r == Ok::<(), EmuError>(()),
            final(self)@ == spec_srai(old(self)@, rd as int, rs1 as int, imm12),
    {
        let sh: u32 = (#[verifier::truncate] (imm12 as u32)) % 32;
        let v = #[verifier::truncate] (((self.get_x(rs1) as i32) >> sh) as u32);
        self.set_x(rd, v);
        Ok(())
    }

    /// ORI.
    pub fn ori(&mut self, rd: usize, rs1: usize, imm12: i16) -> (r: Result<(), EmuError>)
        requires
            old(self).wf(),
            rd < 32,
            rs1 < 32,
        ensures
            final(self).wf(),
            r == Ok::<(), EmuError>(()),
            final(self)@ == spec_ori(old(self)@, rd as int, rs1 as int, imm12),
    {
        let v = self.get_x(rs1) | ((imm12 & 0x0FFF) as u32);
        self.set_x(rd, v);
        Ok(())
    }

    /// ANDI.
    pub fn andi(&mut self, rd: usize, rs1: usize, imm12: i16) -> (r: Result<(), EmuError>)
        requires
            old(self).wf(),
            rd < 32,
            rs1 < 32,
        ensures
            final(self).wf(),
            r == Ok::<(), EmuError>(()),
            final(self)@ == spec_andi(old(self)@, rd as int, rs1 as int, imm12),
    {
        let v = self.get_x(rs1) & ((imm12 & 0x0FFF) as u32);
        self.set_x(rd, v);
        Ok(())
    }

    /// Redirect the program counter by the branch offset.
    fn take_branch(&mut self, imm12: i16)
        requires
            old(self).wf(),
        ensures
            final(self).wf(),
            final(self)@ == old(self)@.with_pc(old(self)@.pc.wrapping_add(imm12 as u32)),
    {
        self.pc = self.pc.wrapping_add(#[verifier::truncate] (imm12 as u32));
        proof {
            assert(self@ =~= old(self)@.with_pc(old(self)@.pc.wrapping_add(imm12 as u32)));
        }
    }

    /// BEQ.
    pub fn beq(&mut self, rs1: usize, rs2: usize, imm12: i16) -> (r: Result<(), EmuError>)
        requires
            old(self).wf(),
            rs1 < 32,
            rs2 < 32,
        ensures
            final(self).wf(),
            r == Ok::<(), EmuError>(()),
            final(self)@ == spec_beq(old(self)@, rs1 as int, rs2 as int, imm12),
    {
        if self.get_x(rs1) == self.get_x(rs2) {
            self.take_branch(imm12);
        }
        Ok(())
    }

    /// BNE.
    pub fn bne(&mut self, rs1: usize, rs2: usize, imm12: i16) -> (r: Result<(), EmuError>)
        requires
            old(self).wf(),
            rs1 < 32,
            rs2 < 32,
        ensures
            final(self).wf(),
            r == Ok::<(), EmuError>(()),
            final(self)@ == spec_bne(old(self)@, rs1 as int, rs2 as int, imm12),
    {
        if self.get_x(rs1) != self.get_x(rs2) {
            self.take_branch(imm12);
        }
        Ok(())
    }

    /// BLT.
    pub fn blt(&mut self, rs1: usize, rs2: usize, imm12: i16) -> (r: Result<(), EmuError>)
        requires
            old(self).wf(),
            rs1 < 32,
            rs2 < 32,
        ensures
            final(self).wf(),
            r == Ok::<(), EmuError>(()),
            final(self)@ == spec_blt(old(self)@, rs1 as int, rs2 as int, imm12),
    {
        if signed_lt(self.get_x(rs1), self.get_x(rs2)) {
            self.take_branch(imm12);
        }
        Ok(())
    }

    /// BGE.
    pub fn bge(&mut self, rs1: usize, rs2: usize, imm12: i16) -> (r: Result<(), EmuError>)
        requires
            old(self).wf(),
            rs1 < 32,
            rs2 < 32,
        ensures
            final(self).wf(),
            r == Ok::<(), EmuError>(()),
            final(self)@ == spec_bge(old(self)@, rs1 as int, rs2 as int, imm12),
    {
        if !signed_lt(self.get_x(rs1), self.get_x(rs2)) {
            self.take_branch(imm12);
        }
        Ok(())
    }

    /// BLTU.
    pub fn bltu(&mut self, rs1: usize, rs2: usize, imm12: i16) -> (r: Result<(), EmuError>)
        requires
            old(self).wf(),
            rs1 < 32,
            rs2 < 32,
        ensures
            final(self).wf(),
            r == Ok::<(), EmuError>(()),
            final(self)@ == spec_bltu(old(self)@, rs1 as int, rs2 as int, imm12),
    {
        if self.get_x(rs1) < self.get_x(rs2) {
            self.take_branch(imm12);
        }
        Ok(())
    }

    /// BGEU.
    pub fn bgeu(&mut self, rs1: usize, rs2: usize, imm12: i16) -> (r: Result<(), EmuError>)
        requires
            old(self).wf(),
            rs1 < 32,
            rs2 < 32,
        ensures
            final(self).wf(),
            r == Ok::<(), EmuError>(()),
            final(self)@ == spec_bgeu(old(self)@, rs1 as int, rs2 as int, imm12),
    {
        if self.get_x(rs1) >= self.get_x(rs2) {
            self.take_branch(imm12);
        }
        Ok(())
    }

    /// JAL.
    pub fn jal(&mut self, ir: Inst) -> (r: Result<(), EmuError>)
        requires
            old(self).wf(),
            ir.rd < 32,
        ensures
            final(self).wf(),
            r == Ok::<(), EmuError>(()),
            final(self)@ == spec_jal(old(self)@, ir.rd as int, ir.imm32),
    {
        let link = self.pc.wrapping_add(4);
        self.set_x(ir.rd, link);
        self.pc = self.pc.wrapping_add(#[verifier::truncate] (ir.imm32 as u32));
        proof {
            assert(self@ =~= spec_jal(old(self)@, ir.rd as int, ir.imm32));
        }
        Ok(())
    }

    /// JALR.
    pub fn jalr(&mut self, ir: Inst) -> (r: Result<(), EmuError>)
        requires
            old(self).wf(),
            ir.rd < 32,
            ir.rs1 < 32,
        ensures
            final(self).wf(),
            r == Ok::<(), EmuError>(()),
            final(self)@ == spec_jalr(old(self)@, ir.rd as int, ir.rs1 as int, ir.imm12),
    {
        let base_addr = self.get_x(ir.rs1);
        let link = self.pc.wrapping_add(4);
        self.set_x(ir.rd, link);
        self.pc = base_addr.wrapping_add(#[verifier::truncate] (ir.imm12 as u32));
        proof {
            assert(self@ =~= spec_jalr(old(self)@, ir.rd as int, ir.rs1 as int, ir.imm12));
        }
        Ok(())
    }

    /// LUI.
    pub fn lui(&mut self, ir: Inst) -> (r: Result<(), EmuError>)
        requires
            old(self).wf(),
            ir.rd < 32,
        ensures
            final(self).wf(),
            r == Ok::<(), EmuError>(()),
            final(self)@ == spec_lui(old(self)@, ir.rd as int, ir.imm32),
    {
        self.set_x(ir.rd, #[verifier::truncate] (ir.imm32 as u32));
        Ok(())
    }

    /// AUIPC.
    pub fn auipc(&mut self, ir: Inst) -> (r: Result<(), EmuError>)
        requires
            old(self).wf(),
            ir.rd < 32,
        ensures
            final(self).wf(),
            r == Ok::<(), EmuError>(()),
            final(self)@ == spec_auipc(old(self)@, ir.rd as int, ir.imm32),
    {
        let v = self.pc.wrapping_add(#[verifier::truncate] (ir.imm32 as u32));
        self.set_x(ir.rd, v);
        Ok(())
    }

    /// The effective address of a load or store.
    fn mem_addr(&self, rs1: usize, imm12: i16) -> (r: u32)
        requires
            self.wf(),
            rs1 < 32,
        ensures
            r == spec_mem_addr(self@, rs1 as int, imm12),
    {
        self.get_x(rs1).wrapping_add(#[verifier::truncate] (imm12 as u32))
    }

    /// LB.
    pub fn lb(&mut self, rd: usize, rs1: usize, imm12: i16) -> (r: Result<(), EmuError>)
        requires
            old(self).wf(),
            rd < 32,
            rs1 < 32,
        ensures
            final(self).wf(),
            r == Ok::<(), EmuError>(()),
            final(self)@ == spec_lb(old(self)@, rd as int, rs1 as int, imm12),
    {
        let addr = self.mem_addr(rs1, imm12);
        let b = self.bus.read8(addr);
        let v = if b >= 0x80 {
            (b as u32) + 0xFFFF_FF00
        } else {
            b as u32
        };
        self.set_x(rd, v);
        Ok(())
    }

    /// LH.
    pub fn lh(&mut self, rd: usize, rs1: usize, imm12: i16) -> (r: Result<(), EmuError>)
        requires
            old(self).wf(),
            rd < 32,
            rs1 < 32,
        ensures
            final(self).wf(),
            r == Ok::<(), EmuError>(()),
            final(self)@ == spec_lh(old(self)@, rd as int, rs1 as int, imm12),
    {
        let addr = self.mem_addr(rs1, imm12);
        let h = self.bus.read16(addr);
        let v = if h >= 0x8000 {
            (h as u32) + 0xFFFF_0000
        } else {
            h as u32
        };
        self.set_x(rd, v);
        Ok(())
    }

    /// LW.
    pub fn lw(&mut self, rd: usize, rs1: usize, imm12: i16) -> (r: Result<(), EmuError>)
        requires
            old(self).wf(),
            rd < 32,
            rs1 < 32,
        ensures
            final(self).wf(),
            r == Ok::<(), EmuError>(()),
            final(self)@ == spec_lw(old(self)@, rd as int, rs1 as int, imm12),
    {
        let addr = self.mem_addr(rs1, imm12);
        let v = self.bus.read32(addr);
        self.set_x(rd, v);
        Ok(())
    }

    /// LBU.
    pub fn lbu(&mut self, rd: usize, rs1: usize, imm12: i16) -> (r: Result<(), EmuError>)
        requires
            old(self).wf(),
            rd < 32,
            rs1 < 32,
        ensures
            final(self).wf(),
            r == Ok::<(), EmuError>(()),
            final(self)@ == spec_lbu(old(self)@, rd as int, rs1 as int, imm12),
    {
        let addr = self.mem_addr(rs1, imm12);
        let v = self.bus.read8(addr) as u32;
        self.set_x(rd, v);
        Ok(())
    }

    /// LHU.
    pub fn lhu(&mut self, rd: usize, rs1: usize, imm12: i16) -> (r: Result<(), EmuError>)
        requires
            old(self).wf(),
            rd < 32,
            rs1 < 32,
        ensures
            final(self).wf(),
            r == Ok::<(), EmuError>(()),
            final(self)@ == spec_lhu(old(self)@, rd as int, rs1 as int, imm12),
    {
        let addr = self.mem_addr(rs1, imm12);
        let v = self.bus.read16(addr) as u32;
        self.set_x(rd, v);
        Ok(())
    }

    /// SB.
    pub fn sb(&mut self, rs1: usize, rs2: usize, imm12: i16) -> (r: Result<(), EmuError>)
        requires
            old(self).wf(),
            rs1 < 32,
            rs2 < 32,
        ensures
            final(self).wf(),
            r == Ok::<(), EmuError>(()),
            final(self)@ == spec_sb(old(self)@, rs1 as int, rs2 as int, imm12),
    {
        let addr = self.mem_addr(rs1, imm12);
        let v = (self.get_x(rs2) & 0xFF) as u8;
        self.bus.write8(addr, v);
        proof {
            assert(self@ =~= spec_sb(old(self)@, rs1 as int, rs2 as int, imm12));
        }
        Ok(())
    }

    /// SH.
    pub fn sh(&mut self, rs1: usize, rs2: usize, imm12: i16) -> (r: Result<(), EmuError>)
        requires
            old(self).wf(),
            rs1 < 32,
            rs2 < 32,
        ensures
            final(self).wf(),
            r == Ok::<(), EmuError>(()),
            final(self)@ == spec_sh(old(self)@, rs1 as int, rs2 as int, imm12),
    {
        let addr = self.mem_addr(rs1, imm12);
        let v = (self.get_x(rs2) & 0xFFFF) as u16;
        self.bus.write16(addr, v);
        proof {
            assert(self@ =~= spec_sh(old(self)@, rs1 as int, rs2 as int, imm12));
        }
        Ok(())
    }

    /// SW.
    pub fn sw(&mut self, rs1: usize, rs2: usize, imm12: i16) -> (r: Result<(), EmuError>)
        requires
            old(self).wf(),
            rs1 < 32,
            rs2 < 32,
        ensures
            final(self).wf(),
            r == Ok::<(), EmuError>(()),
            final(self)@ == spec_sw(old(self)@, rs1 as int, rs2 as int, imm12),
    {
        let addr = self.mem_addr(rs1, imm12);
        let v = self.get_x(rs2);
        self.bus.write32(addr, v);
        proof {
            assert(self@ =~= spec_sw(old(self)@, rs1 as int, rs2 as int, imm12));
        }
        Ok(())
    }
}

impl Cpu {
    /// ADD.
    pub fn add(&mut self, rd: usize, rs1: usize, rs2: usize) -> (r: Result<(), EmuError>)
        requires
            old(self).wf(),
            rd < 32,
            rs1 < 32,
            rs2 < 32,
        ensures
            final(self).wf(),
            r == Ok::<(), EmuError>(()),
            final(self)@ == spec_add(old(self)@, rd as int, rs1 as int, rs2 as int),
    {
        let v = self.get_x(rs1).wrapping_add(self.get_x(rs2));
        self.set_x(rd, v);
        Ok(())
    }

    /// SUB.
    pub fn sub(&mut self, rd: usize, rs1: usize, rs2: usize) -> (r: Result<(), EmuError>)
        requires
            old(self).wf(),
            rd < 32,
            rs1 < 32,
            rs2 < 32,
        ensures
            final(self).wf(),
            r == Ok::<(), EmuError>(()),
            final(self)@ == spec_sub(old(self)@, rd as int, rs1 as int, rs2 as int),
    {
        let v = self.get_x(rs1).wrapping_sub(self.get_x(rs2));
        self.set_x(rd, v);
        Ok(())
    }

    /// SLL.
    pub fn sll(&mut self, rd: usize, rs1: usize, rs2: usize) -> (r: Result<(), EmuError>)
        requires
            old(self).wf(),
            rd < 32,
            rs1 < 32,
            rs2 < 32,
        ensures
            final(self).wf(),
            r == Ok::<(), EmuError>(()),
            final(self)@ == spec_sll(old(self)@, rd as int, rs1 as int, rs2 as int),
    {
        let sh: u32 = self.get_x(rs2) % 32;
        let v = self.get_x(rs1) << sh;
        self.set_x(rd, v);
        Ok(())
    }

    /// SLT.
    pub fn slt(&mut self, rd: usize, rs1: usize, rs2: usize) -> (r: Result<(), EmuError>)
        requires
            old(self).wf(),
            rd < 32,
            rs1 < 32,
            rs2 < 32,
        ensures
            final(self).wf(),
            r == Ok::<(), EmuError>(()),
            final(self)@ == spec_slt(old(self)@, rd as int, rs1 as int, rs2 as int),
    {
        let t = signed_lt(self.get_x(rs1), self.get_x(rs2));
        self.set_x(rd, if t { 1 } else { 0 });
        Ok(())
    }

    /// SLTU.
    pub fn sltu(&mut self, rd: usize, rs1: usize, rs2: usize) -> (r: Result<(), EmuError>)
        requires
            old(self).wf(),
            rd < 32,
            rs1 < 32,
            rs2 < 32,
        ensures
            final(self).wf(),
            r == Ok::<(), EmuError>(()),
            final(self)@ == spec_sltu(old(self)@, rd as int, rs1 as int, rs2 as int),
    {
        let t = self.get_x(rs1) < self.get_x(rs2);
        self.set_x(rd, if t { 1 } else { 0 });
        Ok(())
    }

    /// XOR.
    pub fn xor(&mut self, rd: usize, rs1: usize, rs2: usize) -> (r: Result<(), EmuError>)
        requires
            old(self).wf(),
            rd < 32,
            rs1 < 32,
            rs2 < 32,
        ensures
            final(self).wf(),
            r == Ok::<(), EmuError>(()),
            final(self)@ == spec_xor(old(self)@, rd as int, rs1 as int, rs2 as int),
    {
        let v = self.get_x(rs1) ^ self.get_x(rs2);
        self.set_x(rd, v);
        Ok(())
    }

    /// SRL.
    pub fn srl(&mut self, rd: usize, rs1: usize, rs2: usize) -> (r: Result<(), EmuError>)
        requires
            old(self).wf(),
            rd < 32,
            rs1 < 32,
            rs2 < 32,
        ensures
            final(self).wf(),
            r == Ok::<(), EmuError>(()),
            final(self)@ == spec_srl(old(self)@, rd as int, rs1 as int, rs2 as int),
    {
        let sh: u32 = self.get_x(rs2) % 32;
        let v = self.get_x(rs1) >> sh;
        self.set_x(rd, v);
        Ok(())
    }

    /// SRA.
    pub fn sra(&mut self, rd: usize, rs1: usize, rs2: usize) -> (r: Result<(), EmuError>)
        requires
            old(self).wf(),
            rd < 32,
            rs1 < 32,
            rs2 < 32,
        ensures
            final(self).wf(),
            r == Ok::<(), EmuError>(()),
            final(self)@ == spec_sra(old(self)@, rd as int, rs1 as int, rs2 as int),
    {
        let sh: u32 = self.get_x(rs2) % 32;
        let v = #[verifier::truncate] (((self.get_x(rs1) as i32) >> sh) as u32);
        self.set_x(rd, v);
        Ok(())
    }

    /// OR.
    pub fn or(&mut self, rd: usize, rs1: usize, rs2: usize) -> (r: Result<(), EmuError>)
        requires
            old(self).wf(),
            rd < 32,
            rs1 < 32,
            rs2 < 32,
        ensures
            final(self).wf(),
            r == Ok::<(), EmuError>(()),
            final(self)@ == spec_or(old(self)@, rd as int, rs1 as int, rs2 as int),
    {
        let v = self.get_x(rs1) | self.get_x(rs2);
        self.set_x(rd, v);
        Ok(())
    }

    /// AND.
    pub fn and(&mut self, rd: usize, rs1: usize, rs2: usize) -> (r: Result<(), EmuError>)
        requires
            old(self).wf(),
            rd < 32,
            rs1 < 32,
            rs2 < 32,
        ensures
            final(self).wf(),
            r == Ok::<(), EmuError>(()),
            final(self)@ == spec_and(old(self)@, rd as int, rs1 as int, rs2 as int),
    {
        let v = self.get_x(rs1) & self.get_x(rs2);
        self.set_x(rd, v);
        Ok(())
    }

    /// MUL.
    pub fn mul(&mut self, rd: usize, rs1: usize, rs2: usize) -> (r: Result<(), EmuError>)
        requires
            old(self).wf(),
            rd < 32,
            rs1 < 32,
            rs2 < 32,
        ensures
            final(self).wf(),
            r == Ok::<(), EmuError>(()),
            final(self)@ == spec_mul(old(self)@, rd as int, rs1 as int, rs2 as int),
    {
        let v = self.get_x(rs1).wrapping_mul(self.get_x(rs2));
        self.set_x(rd, v);
        Ok(())
    }

    /// MULH.
    pub fn mulh(&mut self, rd: usize, rs1: usize, rs2: usize) -> (r: Result<(), EmuError>)
        requires
            old(self).wf(),
            rd < 32,
            rs1 < 32,
            rs2 < 32,
        ensures
            final(self).wf(),
            r == Ok::<(), EmuError>(()),
            final(self)@ == spec_mulh(old(self)@, rd as int, rs1 as int, rs2 as int),
    {
        let v = mulh_vals(self.get_x(rs1), self.get_x(rs2));
        self.set_x(rd, v);
        Ok(())
    }

    /// MULHSU.
    pub fn mulhsu(&mut self, rd: usize, rs1: usize, rs2: usize) -> (r: Result<(), EmuError>)
        requires
            old(self).wf(),
            rd < 32,
            rs1 < 32,
            rs2 < 32,
        ensures
            final(self).wf(),
            r == Ok::<(), EmuError>(()),
            final(self)@ == spec_mulhsu(old(self)@, rd as int, rs1 as int, rs2 as int),
    {
        let v = mulhsu_vals(self.get_x(rs1), self.get_x(rs2));
        self.set_x(rd, v);
        Ok(())
    }

    /// MULHU.
    pub fn mulhu(&mut self, rd: usize, rs1: usize, rs2: usize) -> (r: Result<(), EmuError>)
        requires
            old(self).wf(),
            rd < 32,
            rs1 < 32,
            rs2 < 32,
        ensures
            final(self).wf(),
            r == Ok::<(), EmuError>(()),
            final(self)@ == spec_mulhu(old(self)@, rd as int, rs1 as int, rs2 as int),
    {
        let v = mulhu_vals(self.get_x(rs1), self.get_x(rs2));
        self.set_x(rd, v);
        Ok(())
    }

    /// DIV.
    pub fn div(&mut self, rd: usize, rs1: usize, rs2: usize) -> (r: Result<(), EmuError>)
        requires
            old(self).wf(),
            rd < 32,
            rs1 < 32,
            rs2 < 32,
        ensures
            final(self).wf(),
            r == Ok::<(), EmuError>(()),
            final(self)@ == spec_div(old(self)@, rd as int, rs1 as int, rs2 as int),
    {
        let v = div_vals(self.get_x(rs1), self.get_x(rs2));
        self.set_x(rd, v);
        Ok(())
    }

    /// DIVU.
    pub fn divu(&mut self, rd: usize, rs1: usize, rs2: usize) -> (r: Result<(), EmuError>)
        requires
            old(self).wf(),
            rd < 32,
            rs1 < 32,
            rs2 < 32,
        ensures
            final(self).wf(),
            r == Ok::<(), EmuError>(()),
            final(self)@ == spec_divu(old(self)@, rd as int, rs1 as int, rs2 as int),
    {
        let a = self.get_x(rs1);
        let b = self.get_x(rs2);
        let v = if b == 0 {
            0xFFFF_FFFF
        } else {
            a / b
        };
        self.set_x(rd, v);
        Ok(())
    }

    /// REM.
    pub fn rem(&mut self, rd: usize, rs1: usize, rs2: usize) -> (r: Result<(), EmuError>)
        requires
            old(self).wf(),
            rd < 32,
            rs1 < 32,
            rs2 < 32,
        ensures
            final(self).wf(),
            r == Ok::<(), EmuError>(()),
            final(self)@ == spec_rem(old(self)@, rd as int, rs1 as int, rs2 as int),
    {
        let v = rem_vals(self.get_x(rs1), self.get_x(rs2));
        self.set_x(rd, v);
        Ok(())
    }

    /// REMU.
    pub fn remu(&mut self, rd: usize, rs1: usize, rs2: usize) -> (r: Result<(), EmuError>)
        requires
            old(self).wf(),
            rd < 32,
            rs1 < 32,
            rs2 < 32,
        ensures
            final(self).wf(),
            r == Ok::<(), EmuError>(()),
            final(self)@ == spec_remu(old(self)@, rd as int, rs1 as int, rs2 as int),
    {
        let a = self.get_x(rs1);
        let b = self.get_x(rs2);
        let v = if b == 0 {
            a
        } else {
            a % b
        };
        self.set_x(rd, v);
        Ok(())
    }

    /// CSRRW.
    pub fn csrrw(&mut self, rd: usize, rs1: usize, imm12: i16) -> (r: Result<(), EmuError>)
        requires
            old(self).wf(),
            rd < 32,
            rs1 < 32,
        ensures
            final(self).wf(),
            final(self)@ == spec_csrrw(old(self)@, rd as int, rs1 as int, imm12).0,
            r == spec_csrrw(old(self)@, rd as int, rs1 as int, imm12).1,
    {
        let no = #[verifier::truncate] (imm12 as u16);
        let csr_val = match self.get_csr(no) {
            Ok(v) => v,
            Err(e) => {
                return Err(e);
            },
        };
        let src_val = self.get_x(rs1);
        self.set_x(rd, csr_val);
        match self.set_csr(no, src_val) {
            Ok(()) => Ok(()),
            Err(e) => Err(e),
        }
    }

    /// CSRRS.
    pub fn csrrs(&mut self, rd: usize, rs1: usize, imm12: i16) -> (r: Result<(), EmuError>)
        requires
            old(self).wf(),
            rd < 32,
            rs1 < 32,
        ensures
            final(self).wf(),
            final(self)@ == spec_csrrs(old(self)@, rd as int, rs1 as int, imm12).0,
            r == spec_csrrs(old(self)@, rd as int, rs1 as int, imm12).1,
    {
        let no = #[verifier::truncate] (imm12 as u16);
        let csr_val = match self.get_csr(no) {
            Ok(v) => v,
            Err(e) => {
                return Err(e);
            },
        };
        let src_val = self.get_x(rs1);
        self.set_x(rd, csr_val);
        match self.set_csr(no, csr_val | src_val) {
            Ok(()) => Ok(()),
            Err(e) => Err(e),
        }
    }

    /// CSRRC.
    pub fn csrrc(&mut self, rd: usize, rs1: usize, imm12: i16) -> (r: Result<(), EmuError>)
        requires
            old(self).wf(),
            rd < 32,
            rs1 < 32,
        ensures
            final(self).wf(),
            final(self)@ == spec_csrrc(old(self)@, rd as int, rs1 as int, imm12).0,
            r == spec_csrrc(old(self)@, rd as int, rs1 as int, imm12).1,
    {
        let no = #[verifier::truncate] (imm12 as u16);
        let csr_val = match self.get_csr(no) {
            Ok(v) => v,
            Err(e) => {
                return Err(e);
            },
        };
        let src_val = self.get_x(rs1);
        self.set_x(rd, csr_val);
        match self.set_csr(no, csr_val & !src_val) {
            Ok(()) => Ok(()),
            Err(e) => Err(e),
        }
    }

    /// CSRRWI.
    pub fn csrrwi(&mut self, rd: usize, rs1: usize, imm12: i16) -> (r: Result<(), EmuError>)
        requires
            old(self).wf(),
            rd < 32,
            rs1 < 32,
        ensures
            final(self).wf(),
            final(self)@ == spec_csrrwi(old(self)@, rd as int, rs1 as int, imm12).0,
            r == spec_csrrwi(old(self)@, rd as int, rs1 as int, imm12).1,
    {
        let no = #[verifier::truncate] (imm12 as u16);
        let csr_val = match self.get_csr(no) {
            Ok(v) => v,
            Err(e) => {
                return Err(e);
            },
        };
        let src_val = rs1 as u32;
        self.set_x(rd, csr_val);
        match self.set_csr(no, src_val) {
            Ok(()) => Ok(()),
            Err(e) => Err(e),
        }
    }

    /// CSRRSI.
    pub fn csrrsi(&mut self, rd: usize, rs1: usize, imm12: i16) -> (r: Result<(), EmuError>)
        requires
            old(self).wf(),
            rd < 32,
            rs1 < 32,
        ensures
            final(self).wf(),
            final(self)@ == spec_csrrsi(old(self)@, rd as int, rs1 as int, imm12).0,
            r == spec_csrrsi(old(self)@, rd as int, rs1 as int, imm12).1,
    {
        let no = #[verifier::truncate] (imm12 as u16);
        let csr_val = match self.get_csr(no) {
            Ok(v) => v,
            Err(e) => {
                return Err(e);
            },
        };
        let src_val = rs1 as u32;
        self.set_x(rd, csr_val);
        match self.set_csr(no, csr_val | src_val) {
            Ok(()) => Ok(()),
            Err(e) => Err(e),
        }
    }

    /// CSRRCI.
    pub fn csrrci(&mut self, rd: usize, rs1: usize, imm12: i16) -> (r: Result<(), EmuError>)
        requires
            old(self).wf(),
            rd < 32,
            rs1 < 32,
        ensures
            final(self).wf(),
            final(self)@ == spec_csrrci(old(self)@, rd as int, rs1 as int, imm12).0,
            r == spec_csrrci(old(self)@, rd as int, rs1 as int, imm12).1,
    {
        let no = #[verifier::truncate] (imm12 as u16);
        let csr_val = match self.get_csr(no) {
            Ok(v) => v,
            Err(e) => {
                return Err(e);
            },
        };
        let src_val = rs1 as u32;
        self.set_x(rd, csr_val);
        match self.set_csr(no, csr_val & !src_val) {
            Ok(()) => Ok(()),
            Err(e) => Err(e),
        }
    }

    /// FENCE: unimplemented; reaching it is a configuration error.
    pub fn fence(&self, _imm12: i16) -> (r: Result<(), EmuError>)
        ensures
            r == Err::<(), EmuError>(EmuError::FenceUnimplemented),
    {
        Err(EmuError::FenceUnimplemented)
    }

    /// FENCE.I: a no-op, instruction and data streams being trivially
    /// coherent on a single hart.
    pub fn fencei(&self) -> (r: Result<(), EmuError>)
        ensures
            r == Ok::<(), EmuError>(()),
    {
        Ok(())
    }

    /// LR.W.
    pub fn lrw(&mut self, rd: usize, rs1: usize, _rs2: usize) -> (r: Result<(), EmuError>)
        requires
            old(self).wf(),
            rd < 32,
            rs1 < 32,
        ensures
            final(self).wf(),
            r == Ok::<(), EmuError>(()),
            final(self)@ == spec_lrw(old(self)@, rd as int, rs1 as int),
    {
        let addr = self.get_x(rs1);
        let val = self.bus.read32(addr);
        self.set_x(rd, val);
        Ok(())
    }

    /// SC.W.
    pub fn scw(&mut self, rd: usize, rs1: usize, rs2: usize) -> (r: Result<(), EmuError>)
        requires
            old(self).wf(),
            rd < 32,
            rs1 < 32,
            rs2 < 32,
        ensures
            final(self).wf(),
            r == Ok::<(), EmuError>(()),
            final(self)@ == spec_scw(old(self)@, rd as int, rs1 as int, rs2 as int),
    {
        let addr = self.get_x(rs1);
        let val = self.get_x(rs2);
        self.bus.write32(addr, val);
        proof {
            assert(self@ =~= old(self)@.with_bus(
                old(self)@.bus.write32(old(self)@.get_x(rs1 as int), old(self)@.get_x(rs2 as int)),
            ));
        }
        self.set_x(rd, 0);
        Ok(())
    }

    /// The shared tail of the fetch-and-op family: `rd` receives the old
    /// word at `addr` and `new` replaces it.
    fn amo_finish(&mut self, rd: usize, addr: u32, old_word: u32, new: u32)
        requires
            old(self).wf(),
            rd < 32,
        ensures
            final(self).wf(),
            final(self)@ == ({
                let m1 = old(self)@.set_x(rd as int, old_word);
                m1.with_bus(m1.bus.write32(addr, new))
            }),
    {
        self.set_x(rd, old_word);
        self.bus.write32(addr, new);
        proof {
            assert(self@ =~= ({
                let m1 = old(self)@.set_x(rd as int, old_word);
                m1.with_bus(m1.bus.write32(addr, new))
            }));
        }
    }

    /// AMOSWAP.W.
    pub fn amoswapw(&mut self, rd: usize, rs1: usize, rs2: usize) -> (r: Result<(), EmuError>)
        requires
            old(self).wf(),
            rd < 32,
            rs1 < 32,
            rs2 < 32,
        ensures
            final(self).wf(),
            r == Ok::<(), EmuError>(()),
            final(self)@ == spec_amoswapw(old(self)@, rd as int, rs1 as int, rs2 as int),
    {
        let addr = self.get_x(rs1);
        let left = self.bus.read32(addr);
        let right = self.get_x(rs2);
        self.amo_finish(rd, addr, left, right);
        Ok(())
    }

    /// AMOADD.W.
    pub fn amoaddw(&mut self, rd: usize, rs1: usize, rs2: usize) -> (r: Result<(), EmuError>)
        requires
            old(self).wf(),
            rd < 32,
            rs1 < 32,
            rs2 < 32,
        ensures
            final(self).wf(),
            r == Ok::<(), EmuError>(()),
            final(self)@ == spec_amoaddw(old(self)@, rd as int, rs1 as int, rs2 as int),
    {
        let addr = self.get_x(rs1);
        let left = self.bus.read32(addr);
        let right = self.get_x(rs2);
        self.amo_finish(rd, addr, left, left.wrapping_add(right));
        Ok(())
    }

    /// AMOXOR.W.
    pub fn amoxorw(&mut self, rd: usize, rs1: usize, rs2: usize) -> (r: Result<(), EmuError>)
        requires
            old(self).wf(),
            rd < 32,
            rs1 < 32,
            rs2 < 32,
        ensures
            final(self).wf(),
            r == Ok::<(), EmuError>(()),
            final(self)@ == spec_amoxorw(old(self)@, rd as int, rs1 as int, rs2 as int),
    {
        let addr = self.get_x(rs1);
        let left = self.bus.read32(addr);
        let right = self.get_x(rs2);
        self.amo_finish(rd, addr, left, left ^ right);
        Ok(())
    }

    /// AMOAND.W.
    pub fn amoandw(&mut self, rd: usize, rs1: usize, rs2: usize) -> (r: Result<(), EmuError>)
        requires
            old(self).wf(),
            rd < 32,
            rs1 < 32,
            rs2 < 32,
        ensures
            final(self).wf(),
            r == Ok::<(), EmuError>(()),
            final(self)@ == spec_amoandw(old(self)@, rd as int, rs1 as int, rs2 as int),
    {
        let addr = self.get_x(rs1);
        let left = self.bus.read32(addr);
        let right = self.get_x(rs2);
        self.amo_finish(rd, addr, left, left & right);
        Ok(())
    }

    /// AMOOR.W.
    pub fn amoorw(&mut self, rd: usize, rs1: usize, rs2: usize) -> (r: Result<(), EmuError>)
        requires
            old(self).wf(),
            rd < 32,
            rs1 < 32,
            rs2 < 32,
        ensures
            final(self).wf(),
            r == Ok::<(), EmuError>(()),
            final(self)@ == spec_amoorw(old(self)@, rd as int, rs1 as int, rs2 as int),
    {
        let addr = self.get_x(rs1);
        let left = self.bus.read32(addr);
        let right = self.get_x(rs2);
        self.amo_finish(rd, addr, left, left | right);
        Ok(())
    }

    /// AMOMIN.W.
    pub fn amominw(&mut self, rd: usize, rs1: usize, rs2: usize) -> (r: Result<(), EmuError>)
        requires
            old(self).wf(),
            rd < 32,
            rs1 < 32,
            rs2 < 32,
        ensures
            final(self).wf(),
            r == Ok::<(), EmuError>(()),
            final(self)@ == spec_amominw(old(self)@, rd as int, rs1 as int, rs2 as int),
    {
        let addr = self.get_x(rs1);
        let left = self.bus.read32(addr);
        let right = self.get_x(rs2);
        let new = if signed_lt(right, left) {
            right
        } else {
            left
        };
        self.amo_finish(rd, addr, left, new);
        Ok(())
    }

    /// AMOMAX.W.
    pub fn amomaxw(&mut self, rd: usize, rs1: usize, rs2: usize) -> (r: Result<(), EmuError>)
        requires
            old(self).wf(),
            rd < 32,
            rs1 < 32,
            rs2 < 32,
        ensures
            final(self).wf(),
            r == Ok::<(), EmuError>(()),
            final(self)@ == spec_amomaxw(old(self)@, rd as int, rs1 as int, rs2 as int),
    {
        let addr = self.get_x(rs1);
        let left = self.bus.read32(addr);
        let right = self.get_x(rs2);
        let new = if signed_lt(left, right) {
            right
        } else {
            left
        };
        self.amo_finish(rd, addr, left, new);
        Ok(())
    }

    /// AMOMINU.W.
    pub fn amominuw(&mut self, rd: usize, rs1: usize, rs2: usize) -> (r: Result<(), EmuError>)
        requires
            old(self).wf(),
            rd < 32,
            rs1 < 32,
            rs2 < 32,
        ensures
            final(self).wf(),
            r == Ok::<(), EmuError>(()),
            final(self)@ == spec_amominuw(old(self)@, rd as int, rs1 as int, rs2 as int),
    {
        let addr = self.get_x(rs1);
        let left = self.bus.read32(addr);
        let right = self.get_x(rs2);
        let new = if right < left {
            right
        } else {
            left
        };
        self.amo_finish(rd, addr, left, new);
        Ok(())
    }

    /// AMOMAXU.W.
    pub fn amomaxuw(&mut self, rd: usize, rs1: usize, rs2: usize) -> (r: Result<(), EmuError>)
        requires
            old(self).wf(),
            rd < 32,
            rs1 < 32,
            rs2 < 32,
        ensures
            final(self).wf(),
            r == Ok::<(), EmuError>(()),
            final(self)@ == spec_amomaxuw(old(self)@, rd as int, rs1 as int, rs2 as int),
    {
        let addr = self.get_x(rs1);
        let left = self.bus.read32(addr);
        let right = self.get_x(rs2);
        let new = if left < right {
            right
        } else {
            left
        };
        self.amo_finish(rd, addr, left, new);
        Ok(())
    }
}

impl Cpu {
    /// OP-IMM dispatch by funct3 (and funct7 for the shifts).
    pub fn opimm(&mut self, inst: Inst) -> (r: Result<(), EmuError>)
        requires
            old(self).wf(),
            inst.rd < 32,
            inst.rs1 < 32,
        ensures
            final(self).wf(),
            final(self)@ == spec_opimm(old(self)@, inst).0,
            r == spec_opimm(old(self)@, inst).1,
    {
        if inst.funct3 == 0b000 {
            self.addi(inst.rd, inst.rs1, inst.imm12)
        } else if inst.funct3 == 0b001 && inst.funct7 == 0b0000000 {
            self.slli(inst.rd, inst.rs1, inst.imm12)
        } else if inst.funct3 == 0b010 {
            self.slti(inst.rd, inst.rs1, inst.imm12)
        } else if inst.funct3 == 0b011 {
            self.sltiu(inst.rd, inst.rs1, inst.imm12)
        } else if inst.funct3 == 0b100 {
            self.xori(inst.rd, inst.rs1, inst.imm12)
        } else if inst.funct3 == 0b101 && inst.funct7 == 0b0000000 {
            self.srli(inst.rd, inst.rs1, inst.imm12)
        } else if inst.funct3 == 0b101 && inst.funct7 == 0b0100000 {
            self.srai(inst.rd, inst.rs1, inst.imm12)
        } else if inst.funct3 == 0b110 {
            self.ori(inst.rd, inst.rs1, inst.imm12)
        } else if inst.funct3 == 0b111 {
            self.andi(inst.rd, inst.rs1, inst.imm12)
        } else {
            Err(EmuError::UnknownInstruction(inst.raw))
        }
    }

    /// Branch dispatch by funct3.
    pub fn branch(&mut self, inst: Inst) -> (r: Result<(), EmuError>)
        requires
            old(self).wf(),
            inst.rs1 < 32,
            inst.rs2 < 32,
        ensures
            final(self).wf(),
            final(self)@ == spec_branch(old(self)@, inst).0,
            r == spec_branch(old(self)@, inst).1,
    {
        if inst.funct3 == 0b000 {
            self.beq(inst.rs1, inst.rs2, inst.imm12)
        } else if inst.funct3 == 0b001 {
            self.bne(inst.rs1, inst.rs2, inst.imm12)
        } else if inst.funct3 == 0b100 {
            self.blt(inst.rs1, inst.rs2, inst.imm12)
        } else if inst.funct3 == 0b101 {
            self.bge(inst.rs1, inst.rs2, inst.imm12)
        } else if inst.funct3 == 0b110 {
            self.bltu(inst.rs1, inst.rs2, inst.imm12)
        } else if inst.funct3 == 0b111 {
            self.bgeu(inst.rs1, inst.rs2, inst.imm12)
        } else {
            Err(EmuError::UnknownInstruction(inst.raw))
        }
    }

    /// Load dispatch by funct3.
    pub fn load(&mut self, inst: Inst) -> (r: Result<(), EmuError>)
        requires
            old(self).wf(),
            inst.rd < 32,
            inst.rs1 < 32,
        ensures
            final(self).wf(),
            final(self)@ == spec_load(old(self)@, inst).0,
            r == spec_load(old(self)@, inst).1,
    {
        if inst.funct3 == 0b000 {
            self.lb(inst.rd, inst.rs1, inst.imm12)
        } else if inst.funct3 == 0b001 {
            self.lh(inst.rd, inst.rs1, inst.imm12)
        } else if inst.funct3 == 0b010 {
            self.lw(inst.rd, inst.rs1, inst.imm12)
        } else if inst.funct3 == 0b100 {
            self.lbu(inst.rd, inst.rs1, inst.imm12)
        } else if inst.funct3 == 0b101 {
            self.lhu(inst.rd, inst.rs1, inst.imm12)
        } else {
            Err(EmuError::UnknownInstruction(inst.raw))
        }
    }

    /// Store dispatch by funct3.
    pub fn store(&mut self, inst: Inst) -> (r: Result<(), EmuError>)
        requires
            old(self).wf(),
            inst.rs1 < 32,
            inst.rs2 < 32,
        ensures
            final(self).wf(),
            final(self)@ == spec_store(old(self)@, inst).0,
            r == spec_store(old(self)@, inst).1,
    {
        if inst.funct3 == 0b000 {
            self.sb(inst.rs1, inst.rs2, inst.imm12)
        } else if inst.funct3 == 0b001 {
            self.sh(inst.rs1, inst.rs2, inst.imm12)
        } else if inst.funct3 == 0b010 {
            self.sw(inst.rs1, inst.rs2, inst.imm12)
        } else {
            Err(EmuError::UnknownInstruction(inst.raw))
        }
    }

    /// MISC-MEM dispatch by funct3.
    pub fn misc_mem(&mut self, inst: Inst) -> (r: Result<(), EmuError>)
        requires
            old(self).wf(),
        ensures
            final(self).wf(),
            final(self)@ == spec_misc_mem(old(self)@, inst).0,
            r == spec_misc_mem(old(self)@, inst).1,
    {
        if inst.funct3 == 0b000 {
            self.fence(inst.imm12)
        } else if inst.funct3 == 0b001 {
            self.fencei()
        } else {
            Err(EmuError::UnknownInstruction(inst.raw))
        }
    }

    /// SYSTEM dispatch by funct3.
    pub fn system(&mut self, inst: Inst) -> (r: Result<(), EmuError>)
        requires
            old(self).wf(),
            inst.rd < 32,
            inst.rs1 < 32,
        ensures
            final(self).wf(),
            final(self)@ == spec_system(old(self)@, inst).0,
            r == spec_system(old(self)@, inst).1,
    {
        if inst.funct3 == 0b001 {
            self.csrrw(inst.rd, inst.rs1, inst.imm12)
        } else if inst.funct3 == 0b010 {
            self.csrrs(inst.rd, inst.rs1, inst.imm12)
        } else if inst.funct3 == 0b011 {
            self.csrrc(inst.rd, inst.rs1, inst.imm12)
        } else if inst.funct3 == 0b101 {
            self.csrrwi(inst.rd, inst.rs1, inst.imm12)
        } else if inst.funct3 == 0b110 {
            self.csrrsi(inst.rd, inst.rs1, inst.imm12)
        } else if inst.funct3 == 0b111 {
            self.csrrci(inst.rd, inst.rs1, inst.imm12)
        } else {
            Err(EmuError::UnknownInstruction(inst.raw))
        }
    }

    /// OP dispatch by funct3 and funct7.
    pub fn op(&mut self, inst: Inst) -> (r: Result<(), EmuError>)
        requires
            old(self).wf(),
            inst.rd < 32,
            inst.rs1 < 32,
            inst.rs2 < 32,
        ensures
            final(self).wf(),
            final(self)@ == spec_op(old(self)@, inst).0,
            r == spec_op(old(self)@, inst).1,
    {
        if inst.funct3 == 0b000 && inst.funct7 == 0b0000000 {
            self.add(inst.rd, inst.rs1, inst.rs2)
        } else if inst.funct3 == 0b000 && inst.funct7 == 0b0000001 {
            self.mul(inst.rd, inst.rs1, inst.rs2)
        } else if inst.funct3 == 0b000 && inst.funct7 == 0b0100000 {
            self.sub(inst.rd, inst.rs1, inst.rs2)
        } else if inst.funct3 == 0b001 && inst.funct7 == 0b0000000 {
            self.sll(inst.rd, inst.rs1, inst.rs2)
        } else if inst.funct3 == 0b001 && inst.funct7 == 0b0000001 {
            self.mulh(inst.rd, inst.rs1, inst.rs2)
        } else if inst.funct3 == 0b010 && inst.funct7 == 0b0000000 {
            self.slt(inst.rd, inst.rs1, inst.rs2)
        } else if inst.funct3 == 0b010 && inst.funct7 == 0b0000001 {
            self.mulhsu(inst.rd, inst.rs1, inst.rs2)
        } else if inst.funct3 == 0b011 && inst.funct7 == 0b0000000 {
            self.sltu(inst.rd, inst.rs1, inst.rs2)
        } else if inst.funct3 == 0b011 && inst.funct7 == 0b0000001 {
            self.mulhu(inst.rd, inst.rs1, inst.rs2)
        } else if inst.funct3 == 0b100 && inst.funct7 == 0b0000000 {
            self.xor(inst.rd, inst.rs1, inst.rs2)
        } else if inst.funct3 == 0b100 && inst.funct7 == 0b0000001 {
            self.div(inst.rd, inst.rs1, inst.rs2)
        } else if inst.funct3 == 0b101 && inst.funct7 == 0b0000000 {
            self.srl(inst.rd, inst.rs1, inst.rs2)
        } else if inst.funct3 == 0b101 && inst.funct7 == 0b0000001 {
            self.divu(inst.rd, inst.rs1, inst.rs2)
        } else if inst.funct3 == 0b101 && inst.funct7 == 0b0100000 {
            self.sra(inst.rd, inst.rs1, inst.rs2)
        } else if inst.funct3 == 0b110 && inst.funct7 == 0b0000000 {
            self.or(inst.rd, inst.rs1, inst.rs2)
        } else if inst.funct3 == 0b110 && inst.funct7 == 0b0000001 {
            self.rem(inst.rd, inst.rs1, inst.rs2)
        } else if inst.funct3 == 0b111 && inst.funct7 == 0b0000000 {
            self.and(inst.rd, inst.rs1, inst.rs2)
        } else if inst.funct3 == 0b111 && inst.funct7 == 0b0000001 {
            self.remu(inst.rd, inst.rs1, inst.rs2)
        } else {
            Err(EmuError::UnknownInstruction(inst.raw))
        }
    }

    /// AMO dispatch by funct5; acquire / release bits are ignored.
    pub fn amo(&mut self, inst: Inst) -> (r: Result<(), EmuError>)
        requires
            old(self).wf(),
            inst.rd < 32,
            inst.rs1 < 32,
            inst.rs2 < 32,
        ensures
            final(self).wf(),
            final(self)@ == spec_amo(old(self)@, inst).0,
            r == spec_amo(old(self)@, inst).1,
    {
        if inst.funct5 == 0b00010 {
            self.lrw(inst.rd, inst.rs1, inst.rs2)
        } else if inst.funct5 == 0b00011 {
            self.scw(inst.rd, inst.rs1, inst.rs2)
        } else if inst.funct5 == 0b00001 {
            self.amoswapw(inst.rd, inst.rs1, inst.rs2)
        } else if inst.funct5 == 0b00000 {
            self.amoaddw(inst.rd, inst.rs1, inst.rs2)
        } else if inst.funct5 == 0b00100 {
            self.amoxorw(inst.rd, inst.rs1, inst.rs2)
        } else if inst.funct5 == 0b01100 {
            self.amoandw(inst.rd, inst.rs1, inst.rs2)
        } else if inst.funct5 == 0b01000 {
            self.amoorw(inst.rd, inst.rs1, inst.rs2)
        } else if inst.funct5 == 0b10000 {
            self.amominw(inst.rd, inst.rs1, inst.rs2)
        } else if inst.funct5 == 0b10100 {
            self.amomaxw(inst.rd, inst.rs1, inst.rs2)
        } else if inst.funct5 == 0b11000 {
            self.amominuw(inst.rd, inst.rs1, inst.rs2)
        } else if inst.funct5 == 0b11100 {
            self.amomaxuw(inst.rd, inst.rs1, inst.rs2)
        } else {
            Err(EmuError::UnknownInstruction(inst.raw))
        }
    }

    /// Decode `ir` by its 7-bit opcode into the format its category expects
    /// and execute it. On any failure the hart is left unchanged and the
    /// error is surfaced.
    pub fn do_mnemonic(&mut self, ir: u32) -> (r: Result<(), EmuError>)
        requires
            old(self).wf(),
        ensures
            final(self).wf(),
            final(self)@ == spec_step_ir(old(self)@, ir).0,
            r == spec_step_ir(old(self)@, ir).1,
    {
        let opecode = ir & 0x7F;
        if opecode == 0b00_000_11 {
            self.load(Inst::from_i(ir))
        } else if opecode == 0b01_000_11 {
            self.store(Inst::from_s(ir))
        } else if opecode == 0b11_000_11 {
            self.branch(Inst::from_b(ir))
        } else if opecode == 0b11_001_11 {
            self.jalr(Inst::from_i(ir))
        } else if opecode == 0b00_011_11 {
            self.misc_mem(Inst::from_i(ir))
        } else if opecode == 0b01_011_11 {
            self.amo(Inst::from_r(ir))
        } else if opecode == 0b11_011_11 {
            self.jal(Inst::from_j(ir))
        } else if opecode == 0b00_100_11 {
            self.opimm(Inst::from_i(ir))
        } else if opecode == 0b01_100_11 {
            self.op(Inst::from_r(ir))
        } else if opecode == 0b11_100_11 {
            self.system(Inst::from_i(ir))
        } else if opecode == 0b00_101_11 {
            self.auipc(Inst::from_u(ir))
        } else if opecode == 0b01_101_11 {
            self.lui(Inst::from_u(ir))
        } else {
            Err(EmuError::UnknownInstruction(ir))
        }
    }

    /// One whole system tick: advance the bus (and with it the timer),
    /// evaluate pending interrupts, advance the program counter by four,
    /// then fetch, decode and execute the instruction word found there.
    pub fn tick(&mut self) -> (r: Result<(), EmuError>)
        requires
            old(self).wf(),
        ensures
            final(self).wf(),
            final(self)@ == spec_tick(old(self)@).0,
            r == spec_tick(old(self)@).1,
    {
        match self.bus.tick() {
            Ok(()) => {},
            Err(e) => {
                return Err(e);
            },
        }
        proof {
            assert(self@ =~= old(self)@.with_bus(old(self)@.bus.tick()));
        }
        self.check_interrupt();
        self.pc = self.pc.wrapping_add(4);
        proof {
            assert(self@ =~= spec_check_interrupt(old(self)@.with_bus(old(self)@.bus.tick()))
                .with_pc(
                spec_check_interrupt(old(self)@.with_bus(old(self)@.bus.tick())).pc.wrapping_add(4),
            ));
        }
        let ir = self.bus.read32(self.pc);
        self.do_mnemonic(ir)
    }
}

} // verus!
