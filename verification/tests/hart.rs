use rv32core::bus::Bus;
use rv32core::bus::RAM_BASE;
use rv32core::cpu::Cpu;
use rv32core::cpu::Inst;
use rv32core::cpu::IntoI12;
use rv32core::err::EmuError;

fn fresh_cpu() -> Cpu {
    Cpu::new(Bus::new())
}

#[test]
fn register_zero_always_reads_zero() {
    let mut cpu = fresh_cpu();
    assert_eq!(cpu.get_x(0), 0);
    cpu.set_x(0, 0xFFFF_FFFF);
    assert_eq!(cpu.get_x(0), 0);
    cpu.addi(0, 0, 123).unwrap();
    assert_eq!(cpu.get_x(0), 0);
}

#[test]
fn add_sub_mul_wrap() {
    let mut cpu = fresh_cpu();
    cpu.set_x(1, 0xFFFF_FFFF);
    cpu.set_x(2, 2);
    cpu.add(3, 1, 2).unwrap();
    assert_eq!(cpu.get_x(3), 1, "wrapping add");
    cpu.set_x(1, 3);
    cpu.set_x(2, 5);
    cpu.sub(3, 1, 2).unwrap();
    assert_eq!(cpu.get_x(3), 0xFFFF_FFFE, "wrapping sub");
    cpu.set_x(1, 0x0001_0000);
    cpu.set_x(2, 0x0001_0003);
    cpu.mul(3, 1, 2).unwrap();
    assert_eq!(cpu.get_x(3), 0x0003_0000, "low 32 bits of the product");
    cpu.set_x(1, 0xFFFF_FFFF);  // -1
    cpu.set_x(2, 0xFFFF_FFFF);  // -1
    cpu.mul(3, 1, 2).unwrap();
    assert_eq!(cpu.get_x(3), 1, "(-1) * (-1)");
}

#[test]
fn mulh_family_high_bits() {
    let mut cpu = fresh_cpu();
    cpu.set_x(1, 0xFFFF_FFFF);  // -1 signed
    cpu.set_x(2, 0xFFFF_FFFF);  // -1 signed
    cpu.mulh(3, 1, 2).unwrap();
    assert_eq!(cpu.get_x(3), 0, "(-1) * (-1) = 1, high word 0");
    cpu.mulhu(3, 1, 2).unwrap();
    assert_eq!(cpu.get_x(3), 0xFFFF_FFFE, "unsigned max squared");
    cpu.mulhsu(3, 1, 2).unwrap();
    assert_eq!(cpu.get_x(3), 0xFFFF_FFFF, "-1 times unsigned max");
    cpu.set_x(1, 0x8000_0000);
    cpu.set_x(2, 2);
    cpu.mulh(3, 1, 2).unwrap();
    assert_eq!(cpu.get_x(3), 0xFFFF_FFFF, "INT_MIN * 2 high word");
}

#[test]
fn div_rem_special_cases() {
    let mut cpu = fresh_cpu();
    cpu.set_x(1, 7);
    cpu.set_x(2, 0);
    cpu.div(3, 1, 2).unwrap();
    assert_eq!(cpu.get_x(3), 0xFFFF_FFFF, "signed division by zero is all ones");
    cpu.rem(3, 1, 2).unwrap();
    assert_eq!(cpu.get_x(3), 7, "signed remainder by zero is the dividend");
    cpu.divu(3, 1, 2).unwrap();
    assert_eq!(cpu.get_x(3), 0xFFFF_FFFF, "unsigned division by zero is all ones");
    cpu.remu(3, 1, 2).unwrap();
    assert_eq!(cpu.get_x(3), 7, "unsigned remainder by zero is the dividend");
    cpu.set_x(1, 0x8000_0000);  // INT_MIN
    cpu.set_x(2, 0xFFFF_FFFF);  // -1
    cpu.div(3, 1, 2).unwrap();
    assert_eq!(cpu.get_x(3), 0x8000_0000, "signed overflow yields INT_MIN");
    cpu.rem(3, 1, 2).unwrap();
    assert_eq!(cpu.get_x(3), 0, "signed overflow remainder is zero");
    cpu.set_x(1, 0xFFFF_FFF9);  // -7
    cpu.set_x(2, 2);
    cpu.div(3, 1, 2).unwrap();
    assert_eq!(cpu.get_x(3), 0xFFFF_FFFD, "-7 / 2 truncates toward zero to -3");
    cpu.rem(3, 1, 2).unwrap();
    assert_eq!(cpu.get_x(3), 0xFFFF_FFFF, "-7 rem 2 is -1, the dividend's sign");
    cpu.set_x(1, 7);
    cpu.set_x(2, 0xFFFF_FFFE);  // -2
    cpu.div(3, 1, 2).unwrap();
    assert_eq!(cpu.get_x(3), 0xFFFF_FFFD, "7 / -2 is -3");
    cpu.rem(3, 1, 2).unwrap();
    assert_eq!(cpu.get_x(3), 1, "7 rem -2 is 1");
}

#[test]
fn shifts_use_low_five_bits() {
    let mut cpu = fresh_cpu();
    cpu.set_x(1, 0x8000_0001);
    cpu.set_x(2, 33);  // only the low five bits count: shift by 1
    cpu.sll(3, 1, 2).unwrap();
    assert_eq!(cpu.get_x(3), 0x0000_0002);
    cpu.srl(3, 1, 2).unwrap();
    assert_eq!(cpu.get_x(3), 0x4000_0000);
    cpu.sra(3, 1, 2).unwrap();
    assert_eq!(cpu.get_x(3), 0xC000_0000, "arithmetic shift keeps the sign");
    cpu.srai(3, 1, 0x404).unwrap();  // SRAI shamt 4 carries funct7 0100000
    assert_eq!(cpu.get_x(3), 0xF800_0000);
    cpu.slli(3, 1, 4).unwrap();
    assert_eq!(cpu.get_x(3), 0x0000_0010);
    cpu.srli(3, 1, 4).unwrap();
    assert_eq!(cpu.get_x(3), 0x0800_0000);
}

#[test]
fn set_less_than_signed_and_unsigned() {
    let mut cpu = fresh_cpu();
    cpu.set_x(1, 0xFFFF_FFFF);  // -1 signed, huge unsigned
    cpu.set_x(2, 1);
    cpu.slt(3, 1, 2).unwrap();
    assert_eq!(cpu.get_x(3), 1, "-1 < 1 signed");
    cpu.sltu(3, 1, 2).unwrap();
    assert_eq!(cpu.get_x(3), 0, "0xFFFFFFFF not below 1 unsigned");
    cpu.slti(3, 1, 0).unwrap();
    assert_eq!(cpu.get_x(3), 1, "-1 < 0");
    cpu.sltiu(3, 2, 0x0FFF).unwrap();
    assert_eq!(cpu.get_x(3), 1, "1 below zero-extended 0xFFF");
}

#[test]
fn branch_comparators_taken_and_not_taken() {
    // Each case: (funct3 handler, rs1 value, rs2 value, expect taken).
    let cases: [(u8, u32, u32, bool); 12] = [
        (0b000, 5, 5, true),            // BEQ equal
        (0b000, 5, 6, false),           // BEQ unequal
        (0b001, 5, 6, true),            // BNE unequal
        (0b001, 5, 5, false),           // BNE equal
        (0b100, 0xFFFF_FFFF, 1, true),  // BLT: -1 < 1 signed
        (0b100, 1, 0xFFFF_FFFF, false), // BLT: 1 not < -1 signed
        (0b101, 1, 0xFFFF_FFFF, true),  // BGE: 1 >= -1 signed
        (0b101, 0xFFFF_FFFF, 1, false), // BGE: -1 not >= 1 signed
        (0b110, 1, 0xFFFF_FFFF, true),  // BLTU: 1 below max unsigned
        (0b110, 0xFFFF_FFFF, 1, false), // BLTU: max not below 1
        (0b111, 0xFFFF_FFFF, 1, true),  // BGEU: max >= 1 unsigned
        (0b111, 1, 0xFFFF_FFFF, false), // BGEU: 1 not >= max
    ];
    for (funct3, a, b, taken) in cases.iter().copied() {
        let mut cpu = fresh_cpu();
        cpu.set_pc(0x100);
        cpu.set_x(1, a);
        cpu.set_x(2, b);
        let r = match funct3 {
            0b000 => cpu.beq(1, 2, 8),
            0b001 => cpu.bne(1, 2, 8),
            0b100 => cpu.blt(1, 2, 8),
            0b101 => cpu.bge(1, 2, 8),
            0b110 => cpu.bltu(1, 2, 8),
            _ => cpu.bgeu(1, 2, 8),
        };
        r.unwrap();
        let expect = if taken { 0x108 } else { 0x100 };
        assert_eq!(cpu.get_pc(), expect, "funct3 {:03b} with {:#x}, {:#x}", funct3, a, b);
    }
}

#[test]
fn branch_offset_can_be_negative() {
    let mut cpu = fresh_cpu();
    cpu.set_pc(0x100);
    cpu.set_x(1, 9);
    cpu.set_x(2, 9);
    cpu.beq(1, 2, -16).unwrap();
    assert_eq!(cpu.get_pc(), 0xF0);
}

#[test]
fn csrrw_exchanges_values() {
    let mut cpu = fresh_cpu();
    cpu.set_csr(0x305, 0x1111_2222).unwrap();
    cpu.set_x(1, 0xAAAA_BBBB);
    cpu.csrrw(2, 1, 0x305).unwrap();
    assert_eq!(cpu.get_x(2), 0x1111_2222, "rd receives the CSR's prior value");
    assert_eq!(cpu.get_csr(0x305).unwrap(), 0xAAAA_BBBB, "the CSR receives prior rs1");
}

#[test]
fn csrrs_and_csrrc_set_and_clear_bits() {
    let mut cpu = fresh_cpu();
    cpu.set_csr(0x304, 0x0000_00F0).unwrap();
    cpu.set_x(1, 0x0000_000F);
    cpu.csrrs(2, 1, 0x304).unwrap();
    assert_eq!(cpu.get_x(2), 0x0000_00F0);
    assert_eq!(cpu.get_csr(0x304).unwrap(), 0x0000_00FF, "bits of rs1 are set");
    cpu.set_x(1, 0x0000_0081);
    cpu.csrrc(2, 1, 0x304).unwrap();
    assert_eq!(cpu.get_x(2), 0x0000_00FF);
    assert_eq!(cpu.get_csr(0x304).unwrap(), 0x0000_007E, "bits of rs1 are cleared");
}

#[test]
fn csr_immediate_forms_use_the_field_itself() {
    let mut cpu = fresh_cpu();
    cpu.csrrwi(0, 0x15, 0x340).unwrap();
    assert_eq!(cpu.get_csr(0x340).unwrap(), 0x15, "the five-bit field is the operand");
    cpu.csrrsi(0, 0x0A, 0x340).unwrap();
    assert_eq!(cpu.get_csr(0x340).unwrap(), 0x1F);
    cpu.csrrci(0, 0x06, 0x340).unwrap();
    assert_eq!(cpu.get_csr(0x340).unwrap(), 0x19);
}

#[test]
fn unknown_csr_is_a_typed_error() {
    let mut cpu = fresh_cpu();
    assert_eq!(cpu.get_csr(0x123), Err(EmuError::UnknownCsr(0x123)));
    assert_eq!(cpu.set_csr(0xFFF, 1), Err(EmuError::UnknownCsr(0xFFF)));
    cpu.set_x(1, 7);
    assert_eq!(cpu.csrrw(2, 1, 0x123), Err(EmuError::UnknownCsr(0x123)));
    assert_eq!(cpu.get_x(2), 0, "no register was written before the failure");
}

#[test]
fn fence_is_a_configuration_error_and_fencei_a_no_op() {
    let cpu = fresh_cpu();
    assert_eq!(cpu.fence(0), Err(EmuError::FenceUnimplemented));
    assert_eq!(cpu.fencei(), Ok(()));
}

#[test]
fn unknown_opcode_leaves_state_unchanged() {
    let mut cpu = fresh_cpu();
    cpu.set_pc(0x200);
    cpu.set_x(5, 0x1234_5678);
    let r = cpu.do_mnemonic(0xFFFF_FFFF);
    assert_eq!(r, Err(EmuError::UnknownInstruction(0xFFFF_FFFF)));
    assert_eq!(cpu.get_pc(), 0x200);
    assert_eq!(cpu.get_x(5), 0x1234_5678);
    for i in 0..32 {
        if i != 5 {
            assert_eq!(cpu.get_x(i), 0);
        }
    }
}

#[test]
fn loads_and_stores_round_trip_through_memory() {
    let mut cpu = fresh_cpu();
    cpu.set_x(1, RAM_BASE);
    cpu.set_x(2, 0xDEAD_BEEF);
    cpu.sw(1, 2, 16).unwrap();
    cpu.lw(3, 1, 16).unwrap();
    assert_eq!(cpu.get_x(3), 0xDEAD_BEEF);
    cpu.lb(3, 1, 16).unwrap();
    assert_eq!(cpu.get_x(3), 0xFFFF_FFEF, "LB sign-extends");
    cpu.lbu(3, 1, 16).unwrap();
    assert_eq!(cpu.get_x(3), 0xEF, "LBU zero-extends");
    cpu.lh(3, 1, 16).unwrap();
    assert_eq!(cpu.get_x(3), 0xFFFF_BEEF, "LH sign-extends");
    cpu.lhu(3, 1, 16).unwrap();
    assert_eq!(cpu.get_x(3), 0xBEEF, "LHU zero-extends");
    cpu.sb(1, 2, 20).unwrap();
    cpu.lbu(3, 1, 20).unwrap();
    assert_eq!(cpu.get_x(3), 0xEF, "SB stores the low byte");
    cpu.sh(1, 2, 24).unwrap();
    cpu.lhu(3, 1, 24).unwrap();
    assert_eq!(cpu.get_x(3), 0xBEEF, "SH stores the low half");
    // A negative offset reaches below the base register.
    cpu.set_x(1, RAM_BASE + 32);
    cpu.lw(3, 1, -16).unwrap();
    assert_eq!(cpu.get_x(3), 0xDEAD_BEEF);
}

#[test]
fn amo_operations_fetch_and_modify() {
    let mut cpu = fresh_cpu();
    cpu.set_x(1, RAM_BASE + 64);
    cpu.set_x(2, 10);
    cpu.sw(1, 2, 0).unwrap();
    cpu.set_x(3, 0xFFFF_FFFE);  // -2 signed
    cpu.amoaddw(4, 1, 3).unwrap();
    assert_eq!(cpu.get_x(4), 10, "rd receives the old word");
    cpu.lw(5, 1, 0).unwrap();
    assert_eq!(cpu.get_x(5), 8, "10 + (-2)");
    cpu.amominw(4, 1, 3).unwrap();
    assert_eq!(cpu.get_x(4), 8);
    cpu.lw(5, 1, 0).unwrap();
    assert_eq!(cpu.get_x(5), 0xFFFF_FFFE, "signed minimum of 8 and -2");
    cpu.set_x(3, 5);
    cpu.amomaxw(4, 1, 3).unwrap();
    cpu.lw(5, 1, 0).unwrap();
    assert_eq!(cpu.get_x(5), 5, "signed maximum of -2 and 5");
    cpu.set_x(3, 0xFFFF_FFFF);
    cpu.amominuw(4, 1, 3).unwrap();
    cpu.lw(5, 1, 0).unwrap();
    assert_eq!(cpu.get_x(5), 5, "unsigned minimum");
    cpu.amomaxuw(4, 1, 3).unwrap();
    cpu.lw(5, 1, 0).unwrap();
    assert_eq!(cpu.get_x(5), 0xFFFF_FFFF, "unsigned maximum");
    cpu.set_x(3, 0x0F0F_0F0F);
    cpu.amoandw(4, 1, 3).unwrap();
    cpu.lw(5, 1, 0).unwrap();
    assert_eq!(cpu.get_x(5), 0x0F0F_0F0F);
    cpu.set_x(3, 0xF000_0000);
    cpu.amoorw(4, 1, 3).unwrap();
    cpu.lw(5, 1, 0).unwrap();
    assert_eq!(cpu.get_x(5), 0xFF0F_0F0F);
    cpu.set_x(3, 0xFF00_0000);
    cpu.amoxorw(4, 1, 3).unwrap();
    cpu.lw(5, 1, 0).unwrap();
    assert_eq!(cpu.get_x(5), 0x000F_0F0F);
    cpu.set_x(3, 0x7777_7777);
    cpu.amoswapw(4, 1, 3).unwrap();
    assert_eq!(cpu.get_x(4), 0x000F_0F0F);
    cpu.lw(5, 1, 0).unwrap();
    assert_eq!(cpu.get_x(5), 0x7777_7777);
    // LR.W loads; SC.W stores unconditionally and reports success.
    cpu.lrw(6, 1, 0).unwrap();
    assert_eq!(cpu.get_x(6), 0x7777_7777);
    cpu.set_x(3, 0x1234_5678);
    cpu.scw(6, 1, 3).unwrap();
    assert_eq!(cpu.get_x(6), 0, "SC.W always reports success");
    cpu.lw(5, 1, 0).unwrap();
    assert_eq!(cpu.get_x(5), 0x1234_5678);
}

#[test]
fn jumps_link_and_redirect() {
    let mut cpu = fresh_cpu();
    cpu.set_pc(0x100);
    // JAL x1, -4 (a standard backward jump encoding).
    cpu.do_mnemonic(0xFFDF_F0EF).unwrap();
    assert_eq!(cpu.get_x(1), 0x104, "the link register receives pc + 4");
    assert_eq!(cpu.get_pc(), 0xFC, "negative jump offsets work");
    // JALR x2, 8(x5).
    let mut cpu = fresh_cpu();
    cpu.set_pc(0x100);
    cpu.set_x(5, 0x4000);
    cpu.jalr(Inst::from_i((8 << 20) | (5 << 15) | (2 << 7) | 0x67)).unwrap();
    assert_eq!(cpu.get_x(2), 0x104);
    assert_eq!(cpu.get_pc(), 0x4008, "the base comes from the register");
}

#[test]
fn lui_and_auipc() {
    let mut cpu = fresh_cpu();
    cpu.set_pc(0x100);
    // LUI x1, 0xDEADB.
    cpu.do_mnemonic((0xDEADB << 12) | (1 << 7) | 0x37).unwrap();
    assert_eq!(cpu.get_x(1), 0xDEAD_B000);
    // AUIPC x2, 0x1.
    cpu.do_mnemonic((0x1 << 12) | (2 << 7) | 0x17).unwrap();
    assert_eq!(cpu.get_x(2), 0x100 + 0x1000);
}

#[test]
fn decoded_branch_takes_its_scattered_offset() {
    let mut cpu = fresh_cpu();
    cpu.set_pc(0x100);
    cpu.set_x(1, 3);
    cpu.set_x(2, 3);
    // BEQ x1, x2, +8: imm[4:1] = 0b0100 in bits 11:8.
    cpu.do_mnemonic((2 << 20) | (1 << 15) | (0b0100 << 8) | 0x63).unwrap();
    assert_eq!(cpu.get_pc(), 0x108);
}

#[test]
fn into_i12_sign_extends_bit_eleven() {
    assert_eq!(0x07FFu16.into_i12(), 2047);
    assert_eq!(0x0800u16.into_i12(), -2048);
    assert_eq!(0x0FFFu16.into_i12(), -1);
    assert_eq!(0xFFFFu16.into_i12(), -1, "only the low 12 bits matter");
    assert_eq!(0x0000u16.into_i12(), 0);
}

#[test]
fn program_of_three_adds_runs_end_to_end() {
    let mut bus = Bus::new();
    // ADDI x1, x0, 5; ADDI x2, x0, 7; ADD x3, x1, x2 at the first three
    // words of RAM.
    bus.write32(RAM_BASE, (5 << 20) | (1 << 7) | 0x13);
    bus.write32(RAM_BASE + 4, (7 << 20) | (2 << 7) | 0x13);
    bus.write32(RAM_BASE + 8, (2 << 20) | (1 << 15) | (3 << 7) | 0x33);
    let mut cpu = Cpu::new(bus);
    // The program counter advances by four before each fetch, so aim one
    // word below the program.
    cpu.set_pc(RAM_BASE.wrapping_sub(4));
    for _ in 0..3 {
        cpu.tick().unwrap();
    }
    assert_eq!(cpu.get_x(1), 5);
    assert_eq!(cpu.get_x(2), 7);
    assert_eq!(cpu.get_x(3), 12);
}

#[test]
fn fence_reached_through_decode_is_fatal() {
    let mut cpu = fresh_cpu();
    // FENCE: opcode MISC-MEM with funct3 000.
    assert_eq!(cpu.do_mnemonic(0x0000_000F), Err(EmuError::FenceUnimplemented));
    // FENCE.I: funct3 001 is a no-op.
    assert_eq!(cpu.do_mnemonic(0x0000_100F), Ok(()));
}

#[test]
fn unknown_funct_selectors_are_decode_failures() {
    let mut cpu = fresh_cpu();
    // LOAD with funct3 011 (no LD on a 32-bit hart).
    let ld = (1 << 15) | (0b011 << 12) | (2 << 7) | 0x03;
    assert_eq!(cpu.do_mnemonic(ld), Err(EmuError::UnknownInstruction(ld)));
    // BRANCH with funct3 010.
    let b = (2 << 20) | (1 << 15) | (0b010 << 12) | 0x63;
    assert_eq!(cpu.do_mnemonic(b), Err(EmuError::UnknownInstruction(b)));
    // OP with funct7 neither base nor multiply.
    let op = (0x7F << 25) | (2 << 20) | (1 << 15) | (3 << 7) | 0x33;
    assert_eq!(cpu.do_mnemonic(op), Err(EmuError::UnknownInstruction(op)));
    // The failures left every register at reset.
    for i in 0..32 {
        assert_eq!(cpu.get_x(i), 0);
    }
}

#[test]
fn encoded_srai_selects_the_arithmetic_shift() {
    let mut cpu = fresh_cpu();
    cpu.set_x(1, 0x8000_0000);
    // SRAI x1, x1, 4: the immediate carries funct7 0100000 beside the shamt.
    cpu.do_mnemonic((0x404 << 20) | (1 << 15) | (0b101 << 12) | (1 << 7) | 0x13).unwrap();
    assert_eq!(cpu.get_x(1), 0xF800_0000);
}

#[test]
fn encoded_store_and_load_round_trip() {
    let mut cpu = fresh_cpu();
    cpu.set_x(1, RAM_BASE);
    cpu.set_x(2, 0xCAFE_F00D);
    // SW x2, 4(x1): imm[4:0] = 4 in bits 11:7.
    cpu.do_mnemonic((2 << 20) | (1 << 15) | (0b010 << 12) | (4 << 7) | 0x23).unwrap();
    // LW x5, 4(x1).
    cpu.do_mnemonic((4 << 20) | (1 << 15) | (0b010 << 12) | (5 << 7) | 0x03).unwrap();
    assert_eq!(cpu.get_x(5), 0xCAFE_F00D);
}

#[test]
fn timer_interrupt_enters_the_trap_handler() {
    let mut bus = Bus::new();
    // The comparator fires on the first tick (mtimecmp = 1).
    bus.write8(0x1100_4000, 1);
    // The handler at RAM_BASE + 0x100 runs ADDI x7, x0, 1 (fetched one word
    // beyond the redirect, the counter advancing before the fetch).
    bus.write32(RAM_BASE + 0x104, (1 << 20) | (7 << 7) | 0x13);
    let mut cpu = Cpu::new(bus);
    cpu.set_csr(0x300, 0x8).unwrap();  // mstatus.MIE
    cpu.set_csr(0x304, 0x80).unwrap();  // mie: machine timer interrupt
    cpu.set_csr(0x305, RAM_BASE + 0x100).unwrap();  // mtvec
    cpu.set_pc(0x200);
    // First tick: the timer latches, but mip is folded in before the fetch;
    // the interrupt is evaluated against the fresh pending bit.
    cpu.tick().unwrap();
    assert_eq!(cpu.get_csr(0x342).unwrap(), 0x8000_0007, "mcause: machine timer interrupt");
    assert_eq!(cpu.get_csr(0x341).unwrap(), 0x200, "mepc holds the interrupted pc");
    assert_eq!(cpu.get_csr(0x300).unwrap(), 0x1880, "MPIE from MIE, MIE cleared, MPP machine");
    assert_eq!(cpu.get_x(7), 1, "execution resumed at the handler");
    assert_eq!(cpu.get_pc(), RAM_BASE + 0x104);
}
