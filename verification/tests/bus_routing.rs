use rv32core::bus::Bus;
use rv32core::bus::CLINT_BASE;
use rv32core::bus::RAM_BASE;

#[test]
fn ram_write32_read32_round_trip() {
    let mut bus = Bus::new();
    bus.write32(RAM_BASE, 0xDEAD_BEEF);
    assert_eq!(bus.read32(RAM_BASE), 0xDEAD_BEEF);
    bus.write32(RAM_BASE + 0x1234, 0x0102_0304);
    assert_eq!(bus.read32(RAM_BASE + 0x1234), 0x0102_0304);
    bus.write32(RAM_BASE + 0xFFFC, 0xFFFF_FFFF);
    assert_eq!(bus.read32(RAM_BASE + 0xFFFC), 0xFFFF_FFFF);
}

#[test]
fn ram_write16_read16_round_trip() {
    let mut bus = Bus::new();
    bus.write16(RAM_BASE + 2, 0xBEEF);
    assert_eq!(bus.read16(RAM_BASE + 2), 0xBEEF);
    assert_eq!(bus.read8(RAM_BASE + 2), 0xEF);
    assert_eq!(bus.read8(RAM_BASE + 3), 0xBE);
}

#[test]
fn four_byte_stores_compose_little_endian_word() {
    let mut bus = Bus::new();
    let addr = RAM_BASE + 0x100;
    bus.write8(addr, 0x44);
    bus.write8(addr + 1, 0x33);
    bus.write8(addr + 2, 0x22);
    bus.write8(addr + 3, 0x11);
    assert_eq!(bus.read32(addr), 0x1122_3344);
}

#[test]
fn unmapped_addresses_read_zero_and_discard_writes() {
    let mut bus = Bus::new();
    assert_eq!(bus.read8(0x0000_0000), 0);
    assert_eq!(bus.read32(0x0000_1000), 0);
    bus.write8(0x0000_1000, 0xFF);
    assert_eq!(bus.read8(0x0000_1000), 0);
    // Just past either window is unmapped too.
    bus.write8(RAM_BASE.wrapping_add(0x10000), 0xFF);
    assert_eq!(bus.read8(RAM_BASE.wrapping_add(0x10000)), 0);
    bus.write8(CLINT_BASE + 0xC000, 0xFF);
    assert_eq!(bus.read8(CLINT_BASE + 0xC000), 0);
}

#[test]
fn wide_writes_reach_the_device_window() {
    // A 32-bit store into the comparator must be routed byte-for-byte to the
    // timer, not into RAM.
    let mut bus = Bus::new();
    // With mtimecmp = 0, the first tick latches the pending bit.
    bus.tick().unwrap();
    assert_eq!(bus.read8(CLINT_BASE) & 0x80, 0x80);
    bus.write32(CLINT_BASE + 0x4000, 0x0000_0009);
    // The comparator took the value and the write acknowledged the pending bit.
    assert_eq!(bus.read8(CLINT_BASE + 0x4000), 0x09);
    assert_eq!(bus.read8(CLINT_BASE + 0x4001), 0x00);
    assert_eq!(bus.read8(CLINT_BASE), 0);
    // Eight more ticks reach the new comparator value.
    for _ in 0..7 {
        bus.tick().unwrap();
    }
    assert_eq!(bus.read8(CLINT_BASE) & 0x80, 0, "below the comparator");
    bus.tick().unwrap();
    assert_eq!(bus.read8(CLINT_BASE) & 0x80, 0x80, "comparator reached");
}

#[test]
fn wide_reads_reach_the_device_window() {
    let mut bus = Bus::new();
    bus.write8(CLINT_BASE + 0x4000, 0x78);
    bus.write8(CLINT_BASE + 0x4001, 0x56);
    bus.write8(CLINT_BASE + 0x4002, 0x34);
    bus.write8(CLINT_BASE + 0x4003, 0x12);
    assert_eq!(bus.read32(CLINT_BASE + 0x4000), 0x1234_5678);
    assert_eq!(bus.read16(CLINT_BASE + 0x4002), 0x1234);
}
