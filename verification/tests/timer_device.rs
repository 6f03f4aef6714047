use rv32core::timer::Clint;
use rv32core::utils::ApplyByte;

#[test]
fn apply_byte_u32_replaces_one_lane() {
    assert_eq!(u32::apply_byte(0x1122_3344, 0xAA, 0), 0x1122_33AA);
    assert_eq!(u32::apply_byte(0x1122_3344, 0xAA, 2), 0x11AA_3344);
    assert_eq!(u32::apply_byte(0x1122_3344, 0xAA, 3), 0xAA22_3344);
}

#[test]
fn apply_byte_u64_replaces_one_lane() {
    assert_eq!(u64::apply_byte(0x1122_3344_5566_7788, 0xAB, 0), 0x1122_3344_5566_77AB);
    assert_eq!(u64::apply_byte(0x1122_3344_5566_7788, 0xAB, 5), 0x1122_AB44_5566_7788);
    assert_eq!(u64::apply_byte(0x1122_3344_5566_7788, 0xAB, 7), 0xAB22_3344_5566_7788);
}

#[test]
fn timer_pending_after_exactly_five_ticks() {
    let mut clint = Clint::new();
    // mtime = 0, mtimecmp = 5.
    clint.write8(0x4000, 5);
    for _ in 0..4 {
        clint.tick().unwrap();
    }
    assert_eq!(clint.msip() & 0x80, 0, "pending bit must not be set after 4 ticks");
    clint.tick().unwrap();
    assert_eq!(clint.msip() & 0x80, 0x80, "pending bit must be set after 5 ticks");
}

#[test]
fn timer_pending_stays_latched() {
    let mut clint = Clint::new();
    clint.write8(0x4000, 1);
    clint.tick().unwrap();
    assert_eq!(clint.msip() & 0x80, 0x80);
    clint.tick().unwrap();
    clint.tick().unwrap();
    assert_eq!(clint.msip() & 0x80, 0x80, "repeated ticks keep the latched bit");
}

#[test]
fn writing_mtimecmp_clears_pending() {
    let mut clint = Clint::new();
    // With mtimecmp = 0 the first tick latches the pending bit.
    clint.tick().unwrap();
    assert_eq!(clint.msip() & 0x80, 0x80);
    // Any byte of the comparator acknowledges, even the highest one.
    clint.write8(0x4007, 0xFF);
    assert_eq!(clint.msip(), 0);
    // Again, via a low byte, after re-latching.
    clint.tick().unwrap();
    clint.write8(0x4007, 0);
    clint.write8(0x4000, 3);
    assert_eq!(clint.msip(), 0);
}

#[test]
fn timer_registers_read_back_by_byte() {
    let mut clint = Clint::new();
    // Fill mtimecmp = 0x8877665544332211 byte by byte and read it back.
    let bytes = [0x11, 0x22, 0x33, 0x44, 0x55, 0x66, 0x77, 0x88];
    for (i, b) in bytes.iter().enumerate() {
        clint.write8(0x4000 + i as u32, *b);
    }
    for (i, b) in bytes.iter().enumerate() {
        assert_eq!(clint.read8(0x4000 + i as u32), *b);
    }
    // msip window, byte lanes past the pending bit.
    clint.write8(0x0001, 0xCD);
    assert_eq!(clint.read8(0x0001), 0xCD);
    // Unmapped device offsets read as zero.
    assert_eq!(clint.read8(0x0004), 0);
    assert_eq!(clint.read8(0x3FFF), 0);
    assert_eq!(clint.read8(0xC000), 0);
}

#[test]
fn mtime_window_counts_ticks() {
    let mut clint = Clint::new();
    clint.write8(0x4000, 0xFF);  // keep the comparator out of the way
    for _ in 0..0x1FF {
        clint.tick().unwrap();
    }
    // mtime = 0x1FF, little-endian at offsets 0xBFF8..0xBFFF.
    assert_eq!(clint.read8(0xBFF8), 0xFF);
    assert_eq!(clint.read8(0xBFF9), 0x01);
    assert_eq!(clint.read8(0xBFFA), 0x00);
}
