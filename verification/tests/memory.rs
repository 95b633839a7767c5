use c64emu::c64mem::{resolve_read, resolve_write, Backing, C64Mem};
use c64emu::memory::{make_word, split_word, IOCia, IOMem, IOVic, OutOfRange};

#[test]
fn fresh_memory_holds_the_default_configuration_pair() {
    let mem = C64Mem::new();
    assert_eq!(mem.ram[0], 0b0010_1111);
    assert_eq!(mem.ram[1], 0b0011_0111);
    assert_eq!(mem.read_u8(0), 0x2F);
    assert_eq!(mem.read_u8(1), 0x37);
    assert!(mem.ram[2..].iter().all(|b| *b == 0));
    assert!(mem.rom.iter().all(|b| *b == 0));
    assert!(mem.io.iter().all(|b| *b == 0));
}

#[test]
fn words_are_little_endian() {
    assert_eq!(make_word(0x34, 0x12), 0x1234);
    assert_eq!(make_word(0xFF, 0x00), 0x00FF);
    assert_eq!(make_word(0x00, 0xFF), 0xFF00);
    assert_eq!(split_word(0x1234), (0x34, 0x12));
    assert_eq!(split_word(0xFFFF), (0xFF, 0xFF));
    assert_eq!(split_word(0x0000), (0x00, 0x00));
}

#[test]
fn resolution_follows_the_precedence_order() {
    assert_eq!(resolve_read(0xFF, 0x0000), Backing::Ram);
    assert_eq!(resolve_read(0xFF, 0x0001), Backing::Ram);
    assert_eq!(resolve_read(0x02, 0xE000), Backing::Rom);
    assert_eq!(resolve_read(0x02, 0xFFFF), Backing::Rom);
    assert_eq!(resolve_read(0x05, 0xE000), Backing::Ram);
    assert_eq!(resolve_read(0x01, 0xA000), Backing::Rom);
    assert_eq!(resolve_read(0x01, 0xBFFF), Backing::Rom);
    assert_eq!(resolve_read(0x06, 0xA000), Backing::Ram);
    assert_eq!(resolve_read(0x04, 0xD000), Backing::Chip);
    assert_eq!(resolve_read(0x04, 0xDFFF), Backing::Chip);
    assert_eq!(resolve_read(0x03, 0xD000), Backing::Ram);
    assert_eq!(resolve_read(0xFF, 0x9FFF), Backing::Ram);
    assert_eq!(resolve_read(0xFF, 0xC000), Backing::Ram);
    assert_eq!(resolve_read(0xFF, 0xCFFF), Backing::Ram);
    assert_eq!(resolve_read(0xFF, 0x0002), Backing::Ram);
}

#[test]
fn stores_are_diverted_by_the_chip_window_only() {
    assert_eq!(resolve_write(0xFF, 0x0000), Backing::Ram);
    assert_eq!(resolve_write(0xFF, 0x0001), Backing::Ram);
    assert_eq!(resolve_write(0xFF, 0xA000), Backing::Ram);
    assert_eq!(resolve_write(0xFF, 0xE000), Backing::Ram);
    assert_eq!(resolve_write(0xFF, 0xFFFF), Backing::Ram);
    assert_eq!(resolve_write(0x04, 0xD000), Backing::Chip);
    assert_eq!(resolve_write(0x04, 0xDFFF), Backing::Chip);
    assert_eq!(resolve_write(0x03, 0xD000), Backing::Ram);
    assert_eq!(resolve_write(0x04, 0xCFFF), Backing::Ram);
}

#[test]
fn kernal_window_shows_rom_while_bit_1_is_set() {
    let mut mem = C64Mem::new();
    mem.load_rom(&vec![0xAA, 0xBB], 0xE000);
    mem.load_ram(&vec![0x11, 0x22], 0xE000);
    mem.load_rom(&vec![0xCC], 0xFFFF);
    mem.load_ram(&vec![0x33], 0xFFFF);
    assert_eq!(mem.read_u8(0xE000), 0xAA);
    assert_eq!(mem.read_u8(0xE001), 0xBB);
    assert_eq!(mem.read_u8(0xFFFF), 0xCC);
    mem.write_u8(1, 0b0011_0101);
    assert_eq!(mem.read_u8(0xE000), 0x11);
    assert_eq!(mem.read_u8(0xE001), 0x22);
    assert_eq!(mem.read_u8(0xFFFF), 0x33);
    mem.write_u8(1, 0b0000_0010);
    assert_eq!(mem.read_u8(0xE000), 0xAA);
}

#[test]
fn basic_window_shows_rom_while_bit_0_is_set() {
    let mut mem = C64Mem::new();
    mem.load_rom(&vec![0xAA], 0xA000);
    mem.load_ram(&vec![0x11], 0xA000);
    mem.load_rom(&vec![0xBB], 0xBFFF);
    mem.load_ram(&vec![0x22], 0xBFFF);
    assert_eq!(mem.read_u8(0xA000), 0xAA);
    assert_eq!(mem.read_u8(0xBFFF), 0xBB);
    mem.write_u8(1, 0b0011_0110);
    assert_eq!(mem.read_u8(0xA000), 0x11);
    assert_eq!(mem.read_u8(0xBFFF), 0x22);
}

#[test]
fn chip_window_shows_registers_while_bit_2_is_set() {
    let mut mem = C64Mem::new();
    mem.load_ram(&vec![0x11], 0xD000);
    mem.load_ram(&vec![0x22], 0xDFFF);
    mem.write_u8(0xD000, 0xAA);
    mem.write_u8(0xDFFF, 0xBB);
    assert_eq!(mem.io[0], 0xAA);
    assert_eq!(mem.io[0xFFF], 0xBB);
    assert_eq!(mem.ram[0xD000], 0x11);
    assert_eq!(mem.read_u8(0xD000), 0xAA);
    assert_eq!(mem.read_u8(0xDFFF), 0xBB);
    mem.write_u8(1, 0b0011_0011);
    assert_eq!(mem.read_u8(0xD000), 0x11);
    assert_eq!(mem.read_u8(0xDFFF), 0x22);
    mem.write_u8(0xD000, 0x33);
    assert_eq!(mem.ram[0xD000], 0x33);
    assert_eq!(mem.io[0], 0xAA);
}

#[test]
fn the_three_bits_are_independent() {
    let mut mem = C64Mem::new();
    mem.load_rom(&vec![0xA0], 0xA000);
    mem.load_rom(&vec![0xE0], 0xE000);
    mem.write_u8(0xD000, 0xD0);
    mem.load_ram(&vec![0x0A], 0xA000);
    mem.load_ram(&vec![0x0D], 0xD000);
    mem.load_ram(&vec![0x0E], 0xE000);
    for config in 0u8..8 {
        mem.write_u8(1, config);
        assert_eq!(mem.read_u8(0xA000), if config & 1 != 0 { 0xA0 } else { 0x0A });
        assert_eq!(mem.read_u8(0xE000), if config & 2 != 0 { 0xE0 } else { 0x0E });
        assert_eq!(mem.read_u8(0xD000), if config & 4 != 0 { 0xD0 } else { 0x0D });
    }
}

#[test]
fn writes_to_the_configuration_pair_always_land_in_ram() {
    for config in [0x00u8, 0x01, 0x02, 0x04, 0x07, 0x37, 0xFF] {
        let mut mem = C64Mem::new();
        mem.ram[1] = config;
        mem.write_u8(0, 0x5A);
        assert_eq!(mem.ram[0], 0x5A);
        assert_eq!(mem.read_u8(0), 0x5A);
        assert_eq!(mem.ram[1], config);
        mem.write_u8(1, 0xA5);
        assert_eq!(mem.ram[1], 0xA5);
        assert_eq!(mem.read_u8(1), 0xA5);
        assert_eq!(mem.ram[0], 0x5A);
        assert!(mem.rom.iter().all(|b| *b == 0));
        assert!(mem.io.iter().all(|b| *b == 0));
    }
}

#[test]
fn stores_into_a_rom_window_land_in_ram() {
    let mut mem = C64Mem::new();
    mem.load_rom(&vec![0xAA], 0xE123);
    mem.load_rom(&vec![0xBB], 0xA123);
    mem.write_u8(0xE123, 0x11);
    mem.write_u8(0xA123, 0x22);
    assert_eq!(mem.ram[0xE123], 0x11);
    assert_eq!(mem.ram[0xA123], 0x22);
    assert_eq!(mem.rom[0xE123], 0xAA);
    assert_eq!(mem.rom[0xA123], 0xBB);
    assert_eq!(mem.read_u8(0xE123), 0xAA);
    assert_eq!(mem.read_u8(0xA123), 0xBB);
}

#[test]
fn read_u16_composes_two_reads() {
    let mut mem = C64Mem::new();
    mem.write_u8(0x1000, 0x34);
    mem.write_u8(0x1001, 0x12);
    assert_eq!(mem.read_u16(0x1000), 0x1234);
}

#[test]
fn read_u16_wraps_at_the_top_of_the_address_space() {
    let mut mem = C64Mem::new();
    mem.load_rom(&vec![0xCD], 0xFFFF);
    assert_eq!(mem.read_u16(0xFFFF), 0x2FCD);
    mem.write_u8(0, 0xAB);
    assert_eq!(mem.read_u16(0xFFFF), 0xABCD);
}

#[test]
fn read_u16_resolves_each_byte_on_its_own() {
    let mut mem = C64Mem::new();
    mem.load_ram(&vec![0x11, 0x22], 0x9FFF);
    mem.load_rom(&vec![0x33, 0x44], 0x9FFF);
    assert_eq!(mem.read_u16(0x9FFF), 0x4411);
    mem.load_ram(&vec![0x55, 0x66], 0xDFFF);
    mem.load_rom(&vec![0x77, 0x88], 0xDFFF);
    mem.write_u8(0xDFFF, 0x99);
    assert_eq!(mem.read_u16(0xDFFF), 0x8899);
}

#[test]
fn bulk_loads_write_verbatim() {
    let mut mem = C64Mem::new();
    let data = vec![1u8, 2, 3, 4, 5];
    mem.load_ram(&data, 0x8000);
    assert_eq!(&mem.ram[0x8000..0x8005], &[1, 2, 3, 4, 5]);
    assert_eq!(mem.ram[0x7FFF], 0);
    assert_eq!(mem.ram[0x8005], 0);
    assert!(mem.rom.iter().all(|b| *b == 0));
    mem.load_rom(&data, 0xFFFB);
    assert_eq!(&mem.rom[0xFFFB..], &[1, 2, 3, 4, 5]);
    assert_eq!(mem.rom[0xFFFA], 0);
    assert_eq!(mem.ram[0xFFFB], 0);
    mem.load_ram(&Vec::new(), 0xFFFF);
    assert_eq!(mem.ram[0xFFFF], 0);
}

#[test]
fn bulk_load_into_ram_bypasses_banking() {
    let mut mem = C64Mem::new();
    mem.load_ram(&vec![0x00, 0x00], 0x0000);
    assert_eq!(mem.ram[0], 0);
    assert_eq!(mem.ram[1], 0);
    mem.load_ram(&vec![0x77], 0xD020);
    assert_eq!(mem.ram[0xD020], 0x77);
    assert_eq!(mem.io[0x20], 0);
}

#[test]
fn bulk_load_can_fill_the_whole_space() {
    let mut mem = C64Mem::new();
    let data = vec![0xEEu8; 0x10000];
    mem.load_rom(&data, 0);
    assert!(mem.rom.iter().all(|b| *b == 0xEE));
}

#[test]
fn cia_window_covers_dc00_to_ddff() {
    let mut mem = C64Mem::new();
    assert_eq!(IOCia::write(&mut mem, 0xDC00, 0x12), Ok(()));
    assert_eq!(IOCia::write(&mut mem, 0xDDFF, 0x34), Ok(()));
    assert_eq!(IOCia::read(&mem, 0xDC00), Ok(0x12));
    assert_eq!(IOCia::read(&mem, 0xDDFF), Ok(0x34));
    assert_eq!(mem.io[0xC00], 0x12);
    assert_eq!(mem.io[0xDFF], 0x34);
}

#[test]
fn cia_window_rejects_addresses_outside() {
    let mut mem = C64Mem::new();
    let before = mem;
    assert_eq!(IOCia::read(&mem, 0xDBFF), Err(OutOfRange(0xDBFF)));
    assert_eq!(IOCia::read(&mem, 0xDE00), Err(OutOfRange(0xDE00)));
    assert_eq!(IOCia::read(&mem, 0x0000), Err(OutOfRange(0x0000)));
    assert_eq!(IOCia::write(&mut mem, 0xDBFF, 1), Err(OutOfRange(0xDBFF)));
    assert_eq!(IOCia::write(&mut mem, 0xDE00, 1), Err(OutOfRange(0xDE00)));
    assert_eq!(IOCia::write(&mut mem, 0xFFFF, 1), Err(OutOfRange(0xFFFF)));
    assert!(mem.ram[..] == before.ram[..]);
    assert!(mem.rom[..] == before.rom[..]);
    assert!(mem.io[..] == before.io[..]);
}

#[test]
fn vic_window_covers_d000_to_d02e() {
    let mut mem = C64Mem::new();
    assert_eq!(IOVic::write(&mut mem, 0xD000, 0x12), Ok(()));
    assert_eq!(IOVic::write(&mut mem, 0xD02E, 0x34), Ok(()));
    assert_eq!(IOVic::read(&mem, 0xD000), Ok(0x12));
    assert_eq!(IOVic::read(&mem, 0xD02E), Ok(0x34));
    assert_eq!(mem.io[0x00], 0x12);
    assert_eq!(mem.io[0x2E], 0x34);
}

#[test]
fn vic_window_rejects_addresses_outside() {
    let mut mem = C64Mem::new();
    let before = mem;
    assert_eq!(IOVic::read(&mem, 0xD02F), Err(OutOfRange(0xD02F)));
    assert_eq!(IOVic::read(&mem, 0xCFFF), Err(OutOfRange(0xCFFF)));
    assert_eq!(IOVic::write(&mut mem, 0xD02F, 1), Err(OutOfRange(0xD02F)));
    assert_eq!(IOVic::write(&mut mem, 0xCFFF, 1), Err(OutOfRange(0xCFFF)));
    assert!(mem.ram[..] == before.ram[..]);
    assert!(mem.rom[..] == before.rom[..]);
    assert!(mem.io[..] == before.io[..]);
}

#[test]
fn bus_and_register_windows_share_one_image() {
    let mut mem = C64Mem::new();
    mem.write_u8(0xD020, 0x0E);
    assert_eq!(IOVic::read(&mem, 0xD020), Ok(0x0E));
    assert_eq!(IOVic::write(&mut mem, 0xD021, 0x06), Ok(()));
    assert_eq!(mem.read_u8(0xD021), 0x06);
    mem.write_u8(0xDC0D, 0x7F);
    assert_eq!(IOCia::read(&mem, 0xDC0D), Ok(0x7F));
    assert_eq!(IOCia::write(&mut mem, 0xDD00, 0x03), Ok(()));
    assert_eq!(mem.read_u8(0xDD00), 0x03);
}

#[test]
fn register_windows_ignore_the_configuration() {
    let mut mem = C64Mem::new();
    mem.write_u8(1, 0);
    assert_eq!(IOVic::write(&mut mem, 0xD020, 0x0E), Ok(()));
    assert_eq!(IOVic::read(&mem, 0xD020), Ok(0x0E));
    assert_eq!(mem.read_u8(0xD020), 0x00);
    assert_eq!(mem.io[0x20], 0x0E);
}
