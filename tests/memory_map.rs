use gamerust::bus::Bus;
use gamerust::cartridge::{load_cartridge, Cartridge, CartridgeType, LoadError, MBC1};
use gamerust::gameboy::Gameboy;

fn header(kind: u8, rom_code: u8, ram_code: u8, len: usize) -> Vec<u8> {
    let mut rom = vec![0u8; len];
    rom[0x147] = kind;
    rom[0x148] = rom_code;
    rom[0x149] = ram_code;
    rom
}

fn rom_only_bus() -> Bus {
    match load_cartridge(header(0, 0, 0, 0x8000)) {
        Ok(c) => Bus::without_boot_rom(c),
        Err(e) => panic!("{:?}", e),
    }
}

#[test]
fn ly_writes_are_ignored() {
    let mut bus = rom_only_bus();
    bus.io_registers.ly = 0x42;
    for v in [0u8, 0x10, 0x99, 0xFF] {
        bus.set_byte(0xFF44, v);
        assert_eq!(bus.get_byte(0xFF44), 0x42);
    }
}

#[test]
fn lcd_off_resets_ly_and_mode() {
    let mut bus = rom_only_bus();
    bus.io_registers.ly = 0x42;
    bus.io_registers.stat = 0x4B;
    bus.set_byte(0xFF40, 0x91);
    assert_eq!(bus.get_byte(0xFF44), 0x42);
    bus.set_byte(0xFF40, 0x11);
    assert_eq!(bus.get_byte(0xFF44), 0);
    assert_eq!(bus.io_registers.stat & 0x07, 0);
    assert_eq!(bus.get_byte(0xFF40), 0x11);
}

#[test]
fn div_write_resets() {
    let mut bus = rom_only_bus();
    bus.io_registers.div = 0xABCD;
    assert_eq!(bus.get_byte(0xFF04), 0xAB);
    for v in [0u8, 1, 0x80, 0xFF] {
        bus.io_registers.div = 0x1234;
        bus.set_byte(0xFF04, v);
        assert_eq!(bus.get_byte(0xFF04), 0);
    }
}

#[test]
fn unusable_region_reads_ff() {
    let mut bus = rom_only_bus();
    for a in [0xFEA0u16, 0xFEC3, 0xFEFF] {
        bus.set_byte(a, 0x12);
        assert_eq!(bus.get_byte(a), 0xFF);
    }
    // The neighbours are untouched.
    assert_eq!(bus.get_byte(0xFE9F), 0);
    assert_eq!(bus.get_byte(0xFF80), 0);
}

#[test]
fn echo_ram_mirrors_work_ram() {
    let mut bus = rom_only_bus();
    bus.set_byte(0xE123, 0x77);
    assert_eq!(bus.get_byte(0xC123), 0x77);
    bus.set_byte(0xDDFF, 0x55);
    assert_eq!(bus.get_byte(0xFDFF), 0x55);
}

#[test]
fn regions_read_back() {
    let mut bus = rom_only_bus();
    let cases = [(0x8000u16, 1u8), (0x9FFF, 2), (0xA000, 3), (0xBFFF, 4), (0xC000, 5),
        (0xDFFF, 6), (0xFE00, 7), (0xFE9F, 8), (0xFF80, 9), (0xFFFE, 10), (0xFFFF, 11)];
    for (a, v) in cases {
        bus.set_byte(a, v);
        assert_eq!(bus.get_byte(a), v);
    }
}

#[test]
fn rom_only_ignores_writes() {
    let mut rom = header(0, 0, 0, 0x8000);
    rom[0x1234] = 0x99;
    let mut bus = match load_cartridge(rom) {
        Ok(c) => Bus::without_boot_rom(c),
        Err(e) => panic!("{:?}", e),
    };
    bus.set_byte(0x1234, 0x11);
    assert_eq!(bus.get_byte(0x1234), 0x99);
}

#[test]
fn io_register_fixed_bits() {
    let mut bus = rom_only_bus();
    bus.set_byte(0xFF02, 0x00);
    assert_eq!(bus.get_byte(0xFF02), 0x7E);
    bus.set_byte(0xFF07, 0x05);
    assert_eq!(bus.get_byte(0xFF07), 0xFD);
    bus.set_byte(0xFF0F, 0x01);
    assert_eq!(bus.get_byte(0xFF0F), 0xE1);
    bus.set_byte(0xFF10, 0x00);
    assert_eq!(bus.get_byte(0xFF10), 0x80);
    bus.set_byte(0xFF30, 0x5A);
    assert_eq!(bus.get_byte(0xFF30), 0x5A);
    assert_eq!(bus.get_byte(0xFF15), 0xFF);
    assert_eq!(bus.get_byte(0xFF4D), 0xFF);
}

#[test]
fn stat_write_keeps_low_bits() {
    let mut bus = rom_only_bus();
    bus.io_registers.stat = 0x07;
    bus.set_byte(0xFF41, 0x78);
    assert_eq!(bus.io_registers.stat, 0x7F);
    bus.set_byte(0xFF41, 0x00);
    assert_eq!(bus.io_registers.stat, 0x07);
    assert_eq!(bus.get_byte(0xFF41), 0x87);
}

#[test]
fn joypad_rows() {
    let mut bus = rom_only_bus();
    bus.io_registers.joypad.a = true;
    bus.io_registers.joypad.start = true;
    bus.io_registers.joypad.down = true;
    // Action row: bit 5 low.
    bus.set_byte(0xFF00, 0x10);
    assert_eq!(bus.get_byte(0xFF00), 0xFF & !0x01 & !0x08 & !0x20);
    // Direction row: bit 4 low.
    bus.set_byte(0xFF00, 0x20);
    assert_eq!(bus.get_byte(0xFF00), 0xFF & !0x08 & !0x10);
    // No row.
    bus.set_byte(0xFF00, 0x30);
    assert_eq!(bus.get_byte(0xFF00), 0xFF);
}

#[test]
fn boot_latch_is_one_way() {
    let cart = match load_cartridge(header(0, 0, 0, 0x8000)) {
        Ok(c) => c,
        Err(e) => panic!("{:?}", e),
    };
    let mut bios = vec![0u8; 0x100];
    bios[0] = 0x31;
    let mut bus = Bus::with_boot_rom(cart, bios);
    assert!(bus.boot_rom());
    assert_eq!(bus.get_byte(0x0000), 0x31);
    bus.set_byte(0xFF50, 0x02);
    assert!(bus.boot_rom());
    bus.set_byte(0xFF50, 0x01);
    assert!(!bus.boot_rom());
    assert_eq!(bus.get_byte(0x0000), 0x00);
}

#[test]
fn cartridge_type_codes() {
    assert_eq!(CartridgeType::get_cartridge_type(0), Some(CartridgeType::RomOnly));
    assert_eq!(CartridgeType::get_cartridge_type(1), Some(CartridgeType::MBC1));
    assert_eq!(CartridgeType::get_cartridge_type(3), Some(CartridgeType::MBC1));
    assert_eq!(CartridgeType::get_cartridge_type(4), None);
}

#[test]
fn load_errors() {
    assert_eq!(load_cartridge(vec![0u8; 0x100]).err(), Some(LoadError::MissingHeader));
    assert_eq!(load_cartridge(header(0x13, 0, 0, 0x8000)).err(), Some(LoadError::UnsupportedMapper));
    assert_eq!(load_cartridge(header(1, 0, 6, 0x8000)).err(), Some(LoadError::InvalidSizeCode));
    // A ROM-size code only sets the size; it is never refused.
    assert!(load_cartridge(header(1, 9, 0, 0x8000)).is_ok());
    // ROM-only ignores the size codes.
    assert!(load_cartridge(header(0, 9, 6, 0x8000)).is_ok());
    assert!(Gameboy::new(header(0x13, 0, 0, 0x8000)).is_err());
}

fn mbc1(rom_code: u8, ram_code: u8) -> Bus {
    let len = 0x8000usize << rom_code;
    let mut rom = header(1, rom_code, ram_code, len);
    // Mark each 16 KiB bank with its number at offset 1.
    for bank in 0..(len / 0x4000) {
        rom[bank * 0x4000 + 1] = bank as u8;
    }
    if len > 0x8000 {
        rom[0x8000] = 0xA2;
    }
    match load_cartridge(rom) {
        Ok(c @ Cartridge::MBC1(_)) => Bus::without_boot_rom(c),
        Ok(_) => panic!("expected an MBC1 cartridge"),
        Err(e) => panic!("{:?}", e),
    }
}

#[test]
fn mbc1_bank_switching() {
    // 256 KiB ROM.
    let mut bus = mbc1(3, 0);
    bus.set_byte(0x2000, 0x02);
    bus.set_byte(0x4000, 0x00);
    bus.set_byte(0x6000, 0x00);
    assert_eq!(bus.get_byte(0x4000), 0xA2);
    assert_eq!(bus.get_byte(0x4001), 2);
    bus.set_byte(0x4000, 0x01);
    // Bank 0x22 wraps to bank 2 in a 16-bank ROM.
    assert_eq!(bus.get_byte(0x4000), 0xA2);
    assert_eq!(bus.get_byte(0x4001), 2);
}

#[test]
fn mbc1_bank_zero_selects_one() {
    let mut bus = mbc1(3, 0);
    for v in [0x00u8, 0x20, 0x40, 0x60] {
        bus.set_byte(0x2000, v);
        assert_eq!(bus.get_byte(0x4001), 1);
    }
    bus.set_byte(0x2000, 0x05);
    assert_eq!(bus.get_byte(0x4001), 5);
    assert_eq!(bus.get_byte(0x0001), 0);
}

#[test]
fn mbc1_upper_bits_in_large_rom() {
    // 1 MiB ROM: bank2 = 1 selects banks 0x20.. in both windows under mode 1.
    let mut bus = mbc1(5, 0);
    bus.set_byte(0x4000, 0x01);
    bus.set_byte(0x2000, 0x00);
    assert_eq!(bus.get_byte(0x4001), 0x21);
    assert_eq!(bus.get_byte(0x0001), 0x00);
    bus.set_byte(0x6000, 0x01);
    assert_eq!(bus.get_byte(0x0001), 0x20);
}

#[test]
fn mbc1_ram_gate() {
    let mut bus = mbc1(0, 2);
    // Disabled: reads 0, writes dropped.
    bus.set_byte(0xA000, 0x12);
    assert_eq!(bus.get_byte(0xA000), 0x00);
    bus.set_byte(0x0000, 0x0A);
    assert_eq!(bus.get_byte(0xA000), 0x00);
    bus.set_byte(0xA000, 0x34);
    assert_eq!(bus.get_byte(0xA000), 0x34);
    bus.set_byte(0x0000, 0x00);
    assert_eq!(bus.get_byte(0xA000), 0x00);
    bus.set_byte(0xA000, 0x56);
    bus.set_byte(0x0000, 0x1A);
    assert_eq!(bus.get_byte(0xA000), 0x34);
}

#[test]
fn mbc1_ram_banks_in_mode_one() {
    // 32 KiB RAM: four 8 KiB banks.
    let mut bus = mbc1(0, 3);
    bus.set_byte(0x0000, 0x0A);
    bus.set_byte(0x6000, 0x01);
    bus.set_byte(0x4000, 0x02);
    bus.set_byte(0xA010, 0x99);
    bus.set_byte(0x4000, 0x00);
    assert_eq!(bus.get_byte(0xA010), 0x00);
    bus.set_byte(0x4000, 0x02);
    assert_eq!(bus.get_byte(0xA010), 0x99);
}

#[test]
fn mbc1_load_state() {
    let rom = header(2, 1, 1, 0x10000);
    let m = match MBC1::load(rom) {
        Ok(m) => m,
        Err(e) => panic!("{:?}", e),
    };
    assert_eq!(m.get_byte(0x4000), 0);
    assert_eq!(m.get_byte(0xA000), 0);
}

#[test]
fn new_bus_starts_with_boot_latch_set() {
    let mut rom = header(0, 0, 0, 0x8000);
    rom[0x0005] = 0x77;
    rom[0x0150] = 0x66;
    let mut bus = match load_cartridge(rom) {
        Ok(c) => Bus::new(c),
        Err(e) => panic!("{:?}", e),
    };
    assert!(bus.boot_rom());
    assert!(!bus.io_registers.dma_triggered);
    // The zeroed overlay covers 0x0000..0x00FF; the cartridge shows above it.
    assert_eq!(bus.get_byte(0x0005), 0x00);
    assert_eq!(bus.get_byte(0x0150), 0x66);
    assert_eq!(bus.get_byte(0xC000), 0x00);
    bus.set_byte(0xFF50, 0x01);
    assert!(!bus.boot_rom());
    assert_eq!(bus.get_byte(0x0005), 0x77);
}

#[test]
fn mbc1_large_rom_size_code_loads() {
    // Code 9: 0x8000 << 9 = 16 MiB.
    let len = 0x8000usize << 9;
    let mut rom = header(1, 9, 0, len);
    rom[0x4000 + 0x1234] = 0x5A;
    rom[0x7FFF] = 0xA5;
    let mut bus = match load_cartridge(rom) {
        Ok(c) => Bus::without_boot_rom(c),
        Err(e) => panic!("{:?}", e),
    };
    assert_eq!(bus.get_byte(0x5234), 0x5A);
    assert_eq!(bus.get_byte(0x7FFF), 0xA5);
    // Bank 0x41 lies inside the image: nothing wraps.
    bus.set_byte(0x2000, 0x01);
    bus.set_byte(0x4000, 0x02);
    assert_eq!(bus.get_byte(0x4000), 0x00);
}
