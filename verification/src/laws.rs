//! The system-wide properties, stated over the ghost models and proved once
//! and for all: the hardwired zero register, the wraparound arithmetic of
//! the ALU, the round trip through RAM, the little-endian byte composition
//! of the bus, the latched timer interrupt, the comparator acknowledge, the
//! CSR exchange, and that a failing step leaves the hart untouched.

use crate::bus::BusModel;
use crate::bus::RAM_BASE;
use crate::bus::RAM_END;
use crate::cpu::CpuModel;
use crate::cpu::norm32;
use crate::cpu::spec_csrrc;
use crate::cpu::spec_csrrs;
use crate::cpu::spec_csrrw;
use crate::cpu::spec_get_csr;
use crate::cpu::spec_known_opcode;
use crate::cpu::spec_step_ir;
use crate::cpu::to_signed;
use crate::err::EmuError;
use crate::timer::ClintModel;
use crate::timer::MTIMECMP_OFFSET;
use crate::timer::MTIP;
use crate::timer::spec_clint_tick;
use crate::timer::spec_clint_write8;
use vstd::arithmetic::div_mod::lemma_mod_multiples_vanish;
use vstd::arithmetic::div_mod::lemma_mul_mod_noop_general;
use vstd::arithmetic::div_mod::lemma_small_mod;
use vstd::prelude::*;

verus! {

/// Register 0 always reads zero, no matter what was written to it.
pub proof fn lemma_x0_always_zero(m: CpuModel, v: u32)
    ensures
        m.set_x(0, v).get_x(0) == 0,
        m.get_x(0) == 0,
{
}

/// ADD computes `a + b` modulo `2^32`.
pub proof fn lemma_add_wraps(a: u32, b: u32)
    ensures
        a.wrapping_add(b) == norm32(a + b),
{
    if a + b > u32::MAX {
        lemma_mod_multiples_vanish(1, a + b - 0x1_0000_0000, 0x1_0000_0000);
        lemma_small_mod((a + b - 0x1_0000_0000) as nat, 0x1_0000_0000 as nat);
    } else {
        lemma_small_mod((a + b) as nat, 0x1_0000_0000 as nat);
    }
}

/// SUB computes `a - b` modulo `2^32`.
pub proof fn lemma_sub_wraps(a: u32, b: u32)
    ensures
        a.wrapping_sub(b) == norm32(a - b),
{
    if a - b < 0 {
        lemma_mod_multiples_vanish(1, a - b, 0x1_0000_0000);
        lemma_small_mod((a - b + 0x1_0000_0000) as nat, 0x1_0000_0000 as nat);
    } else {
        lemma_small_mod((a - b) as nat, 0x1_0000_0000 as nat);
    }
}

/// MUL computes the low 32 bits of the signed product: the wrapping
/// unsigned product and the signed product agree modulo `2^32`.
pub proof fn lemma_mul_is_low_signed_product(a: u32, b: u32)
    ensures
        a.wrapping_mul(b) == norm32(to_signed(a) * to_signed(b)),
{
    let m = 0x1_0000_0000int;
    if a >= 0x8000_0000 {
        lemma_mod_multiples_vanish(-1, a as int, m);
    }
    lemma_small_mod(a as nat, m as nat);
    if b >= 0x8000_0000 {
        lemma_mod_multiples_vanish(-1, b as int, m);
    }
    lemma_small_mod(b as nat, m as nat);
    assert(to_signed(a) % m == (a as int) % m);
    assert(to_signed(b) % m == (b as int) % m);
    lemma_mul_mod_noop_general(to_signed(a), to_signed(b), m);
    lemma_mul_mod_noop_general(a as int, b as int, m);
    assert((to_signed(a) * to_signed(b)) % m == ((a as int) * (b as int)) % m);
}

/// A word written into RAM reads back unchanged, for any address whose four
/// bytes lie inside the RAM window.
pub proof fn lemma_ram_write32_read32(b: BusModel, addr: u32, v: u32)
    requires
        b.wf(),
        RAM_BASE <= addr,
        addr + 3 <= RAM_END,
    ensures
        b.write32(addr, v).read32(addr) == v,
{
    assert(v == ((((v & 0xFF) as u8) as u32) | (((((v >> 8u32) & 0xFF) as u8) as u32) << 8u32) | (((
    ((v >> 16u32) & 0xFF) as u8) as u32) << 16u32) | (((((v >> 24u32) & 0xFF) as u8) as u32)
        << 24u32))) by (bit_vector);
}

/// Four byte stores at `addr .. addr + 3` followed by a word read compose
/// the little-endian word.
pub proof fn lemma_ram_bytes_compose(b: BusModel, addr: u32, b0: u8, b1: u8, b2: u8, b3: u8)
    requires
        b.wf(),
        RAM_BASE <= addr,
        addr + 3 <= RAM_END,
    ensures
        b.write8(addr, b0).write8((addr + 1) as u32, b1).write8((addr + 2) as u32, b2).write8(
            (addr + 3) as u32,
            b3,
        ).read32(addr) == (b0 as u32) | ((b1 as u32) << 8u32) | ((b2 as u32) << 16u32) | ((
        b3 as u32) << 24u32),
{
}

/// Once the timer has latched its pending bit, further ticks keep it set.
pub proof fn lemma_tick_keeps_pending(c: ClintModel)
    requires
        c.msip & MTIP == MTIP,
    ensures
        spec_clint_tick(c).msip & MTIP == MTIP,
{
    let msip = c.msip;
    assert(msip & 0x80 == 0x80 ==> (msip | 0x80) & 0x80 == 0x80u32) by (bit_vector);
}

/// The tick that reaches the comparator sets the pending bit.
pub proof fn lemma_tick_sets_pending_at_threshold(c: ClintModel)
    requires
        spec_clint_tick(c).mtime >= c.mtimecmp,
    ensures
        spec_clint_tick(c).msip & MTIP == MTIP,
{
    let msip = c.msip;
    assert((msip | 0x80) & 0x80 == 0x80u32) by (bit_vector);
}

/// Writing any byte of the comparator clears the whole pending register,
/// even when the comparison held before.
pub proof fn lemma_mtimecmp_write_clears_pending(c: ClintModel, addr: u32, val: u8)
    requires
        MTIMECMP_OFFSET <= addr && addr < MTIMECMP_OFFSET + 8,
    ensures
        spec_clint_write8(c, addr, val).msip == 0,
{
}

/// CSRRW: `rd` receives the CSR's prior value and the CSR receives the
/// prior `rs1`.
pub proof fn lemma_csrrw_exchanges(m: CpuModel, rd: int, rs1: int, imm12: i16, cv: u32)
    requires
        m.wf(),
        0 <= rd < 32,
        0 <= rs1 < 32,
        spec_get_csr(m, imm12 as u16) == Ok::<u32, EmuError>(cv),
    ensures
        spec_csrrw(m, rd, rs1, imm12).1 == Ok::<(), EmuError>(()),
        spec_csrrw(m, rd, rs1, imm12).0.get_x(rd) == if rd == 0 {
            0u32
        } else {
            cv
        },
        spec_get_csr(spec_csrrw(m, rd, rs1, imm12).0, imm12 as u16) == Ok::<u32, EmuError>(
            m.get_x(rs1),
        ),
{
}

/// CSRRS: `rd` receives the CSR's prior value and the bits of `rs1` are set
/// in the CSR.
pub proof fn lemma_csrrs_sets_bits(m: CpuModel, rd: int, rs1: int, imm12: i16, cv: u32)
    requires
        m.wf(),
        0 <= rd < 32,
        0 <= rs1 < 32,
        spec_get_csr(m, imm12 as u16) == Ok::<u32, EmuError>(cv),
    ensures
        spec_csrrs(m, rd, rs1, imm12).1 == Ok::<(), EmuError>(()),
        spec_csrrs(m, rd, rs1, imm12).0.get_x(rd) == if rd == 0 {
            0u32
        } else {
            cv
        },
        spec_get_csr(spec_csrrs(m, rd, rs1, imm12).0, imm12 as u16) == Ok::<u32, EmuError>(
            cv | m.get_x(rs1),
        ),
{
}

/// CSRRC: `rd` receives the CSR's prior value and the bits of `rs1` are
/// cleared in the CSR.
pub proof fn lemma_csrrc_clears_bits(m: CpuModel, rd: int, rs1: int, imm12: i16, cv: u32)
    requires
        m.wf(),
        0 <= rd < 32,
        0 <= rs1 < 32,
        spec_get_csr(m, imm12 as u16) == Ok::<u32, EmuError>(cv),
    ensures
        spec_csrrc(m, rd, rs1, imm12).1 == Ok::<(), EmuError>(()),
        spec_csrrc(m, rd, rs1, imm12).0.get_x(rd) == if rd == 0 {
            0u32
        } else {
            cv
        },
        spec_get_csr(spec_csrrc(m, rd, rs1, imm12).0, imm12 as u16) == Ok::<u32, EmuError>(
            cv & !m.get_x(rs1),
        ),
{
}

/// An unrecognised 7-bit opcode yields the decode failure carrying the raw
/// word, and the hart is left exactly as it was.
pub proof fn lemma_unknown_opcode_rejected(m: CpuModel, ir: u32)
    requires
        !spec_known_opcode(ir & 0x7F),
    ensures
        spec_step_ir(m, ir).0 == m,
        spec_step_ir(m, ir).1 == Err::<(), EmuError>(EmuError::UnknownInstruction(ir)),
{
}

/// Whenever a step fails — an unknown opcode or funct selector, an unknown
/// CSR number, or the unimplemented FENCE — no register, CSR or memory
/// state has been mutated.
pub proof fn lemma_failing_step_mutates_nothing(m: CpuModel, ir: u32)
    ensures
        spec_step_ir(m, ir).1 is Err ==> spec_step_ir(m, ir).0 == m,
{
}

} // verus!
