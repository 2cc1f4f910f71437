use gba_core::bus::Bus;

fn create_test_bus() -> Bus {
    let rom = vec![0; 1024]; // 1KB dummy ROM
    let sram = vec![0; 64 * 1024]; // 64KB dummy SRAM
    Bus::new(rom, sram)
}

#[test]
fn test_bios_read() {
    let mut bus = create_test_bus();
    bus.bios[0x0005] = 0xAB;
    assert_eq!(bus.read8(0x0000_0005), 0xAB);
}

#[test]
fn test_ewram_mirroring() {
    let mut bus = create_test_bus();
    bus.ewram[0] = 0x42; // Real physical address
    // 256KB = 0x40000. Accessing 0x02040000 should wrap perfectly to 0
    assert_eq!(bus.read8(0x0204_0000), 0x42);
}

#[test]
fn test_vram_complex_mirroring() {
    let mut bus = create_test_bus();
    // Set a byte at 0x10000 inside the physical VRAM (the start of the second 64KB block)
    bus.vram[0x10000] = 0x99;

    // Read from 0x06018000 (which is exactly at the 96KB mark).
    // This should mirror down to 0x10000.
    assert_eq!(bus.read8(0x0601_8000), 0x99);

    // Read from 0x06020000 (128KB mark). Should mirror to 0.
    bus.vram[0] = 0x77;
    assert_eq!(bus.read8(0x0602_0000), 0x77);
}

#[test]
fn test_sram_replication() {
    let mut bus = create_test_bus();
    bus.sram[0] = 0xAA;

    // 8-bit read
    assert_eq!(bus.read8(0x0E00_0000), 0xAA);

    // 16-bit read should replicate byte
    assert_eq!(bus.read16(0x0E00_0000), 0xAAAA);

    // 32-bit read should replicate byte
    assert_eq!(bus.read32(0x0E00_0000), 0xAAAAAAAA);
}

#[test]
fn fresh_bus_reads_zero_in_memories() {
    let bus = create_test_bus();
    for top in [0x00u32, 0x02, 0x03, 0x04, 0x05, 0x06, 0x07] {
        for offset in [0u32, 1, 0x3FF, 0x1_2345, 0xFF_FFFF] {
            assert_eq!(bus.read8((top << 24) | offset), 0);
        }
    }
}

#[test]
fn every_memory_is_reached_and_mirrors() {
    let mut bus = create_test_bus();
    bus.bios[0x3FFF] = 1;
    bus.ewram[0x3_FFFF] = 2;
    bus.iwram[0x7FFF] = 3;
    bus.io[0x3FF] = 4;
    bus.palette[0x3FF] = 5;
    bus.vram[0x1_7FFF] = 6;
    bus.oam[0x3FF] = 7;
    assert_eq!(bus.read8(0x0000_3FFF), 1);
    assert_eq!(bus.read8(0x00FF_FFFF), 1);
    assert_eq!(bus.read8(0x0203_FFFF), 2);
    assert_eq!(bus.read8(0x02FF_FFFF), 2);
    assert_eq!(bus.read8(0x0300_7FFF), 3);
    assert_eq!(bus.read8(0x03FF_FFFF), 3);
    assert_eq!(bus.read8(0x0400_03FF), 4);
    assert_eq!(bus.read8(0x04FF_FFFF), 4);
    assert_eq!(bus.read8(0x0500_03FF), 5);
    assert_eq!(bus.read8(0x05FF_FFFF), 5);
    assert_eq!(bus.read8(0x0601_7FFF), 6);
    assert_eq!(bus.read8(0x0601_FFFF), 6);
    assert_eq!(bus.read8(0x06FF_FFFF), 6);
    assert_eq!(bus.read8(0x0700_03FF), 7);
    assert_eq!(bus.read8(0x07FF_FFFF), 7);
}

#[test]
fn rom_reads_and_out_of_range() {
    let rom: Vec<u8> = (0..16u8).collect();
    let bus = Bus::new(rom, vec![]);
    assert_eq!(bus.read8(0x0800_0003), 3);
    // All three ROM mirrors, and both pages of each, reach the image.
    assert_eq!(bus.read8(0x0900_0000 + 5), 0);
    assert_eq!(bus.read8(0x0A00_0005), 5);
    assert_eq!(bus.read8(0x0C00_000F), 15);
    assert_eq!(bus.read8(0x0D00_0000), 0);
    assert_eq!(bus.read8(0x0B00_0000), 0);
    // Past the loaded image.
    assert_eq!(bus.read8(0x0800_0010), 0);
    // Empty SRAM reads zero.
    assert_eq!(bus.read8(0x0E00_0000), 0);
    assert_eq!(bus.read16(0x0F00_1234), 0);
    assert_eq!(bus.read32(0x0E12_3456), 0);
}

#[test]
fn rom_second_page_is_distinct() {
    let mut rom = vec![0u8; 0x100_0001];
    rom[0x100_0000] = 0x5A;
    rom[0] = 0xA5;
    let bus = Bus::new(rom, vec![]);
    assert_eq!(bus.read8(0x0900_0000), 0x5A);
    assert_eq!(bus.read8(0x0800_0000), 0xA5);
    assert_eq!(bus.read8(0x0D00_0000), 0x5A);
}

#[test]
fn empty_rom_reads_zero() {
    let bus = Bus::new(vec![], vec![1]);
    assert_eq!(bus.read8(0x0800_0000), 0);
    assert_eq!(bus.read8(0x0E00_0000), 1);
    assert_eq!(bus.read8(0x0E00_0001), 1);
}

#[test]
fn unmapped_reads_zero() {
    let bus = Bus::new(vec![0xFF; 16], vec![0xFF; 16]);
    assert_eq!(bus.read8(0x0100_0000), 0);
    assert_eq!(bus.read8(0x1000_0000), 0);
    assert_eq!(bus.read8(0xFFFF_FFFF), 0);
    assert_eq!(bus.read16(0xFFFF_FFFE), 0);
    assert_eq!(bus.read32(0xFFFF_FFFC), 0);
}

#[test]
fn sram_mirrors_across_power_of_two_size() {
    let mut sram = vec![0u8; 32 * 1024];
    sram[0x1234] = 0x66;
    let bus = Bus::new(vec![], sram);
    assert_eq!(bus.read8(0x0E00_1234), 0x66);
    assert_eq!(bus.read8(0x0E00_9234), 0x66);
    assert_eq!(bus.read8(0x0F12_9234), 0x66);
    assert_eq!(bus.read16(0x0E00_9234), 0x6666);
    assert_eq!(bus.read32(0x0E00_9234), 0x6666_6666);
}

#[test]
fn sram_mask_with_other_sizes() {
    // A size that is not a power of two masks with size - 1 = 0b101.
    let sram: Vec<u8> = vec![10, 11, 12, 13, 14, 15];
    let bus = Bus::new(vec![], sram);
    assert_eq!(bus.read8(0x0E00_0007), 15);
    assert_eq!(bus.read8(0x0E00_0002), 10);
}

#[test]
fn wide_reads_are_little_endian() {
    let mut bus = create_test_bus();
    bus.iwram[0] = 0x11;
    bus.iwram[1] = 0x22;
    bus.iwram[2] = 0x33;
    bus.iwram[3] = 0x44;
    assert_eq!(bus.read16(0x0300_0000), 0x2211);
    assert_eq!(bus.read16(0x0300_0001), 0x3322);
    assert_eq!(bus.read32(0x0300_0000), 0x4433_2211);
    // A wide read that crosses the end of a page reaches the next region.
    bus.iwram[0x7FFF] = 0xCD;
    bus.io[0] = 0xAB;
    assert_eq!(bus.read16(0x03FF_FFFF), 0xABCD);
}

#[test]
fn word_read_joins_two_halfword_reads() {
    let mut bus = create_test_bus();
    for i in 0..8usize {
        bus.ewram[i] = 0x10 + i as u8;
    }
    for addr in [0x0200_0000u32, 0x0200_0001, 0x0200_0003, 0x0203_FFFE] {
        let word = bus.read32(addr);
        let joined = (bus.read16(addr) as u32) | ((bus.read16(addr + 2) as u32) << 16);
        assert_eq!(word, joined);
    }
}
