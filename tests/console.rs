use gamerust::bus::Bus;
use gamerust::cartridge::load_cartridge;
use gamerust::gameboy::Gameboy;
use gamerust::ppu::{OamEntry, Ppu};

fn rom() -> Vec<u8> {
    vec![0u8; 0x8000]
}

fn bus() -> Bus {
    match load_cartridge(rom()) {
        Ok(c) => Bus::without_boot_rom(c),
        Err(e) => panic!("{:?}", e),
    }
}

#[test]
fn boot_latch_handoff() {
    let mut bios = vec![0u8; 0x100];
    bios[0] = 0x3E;
    bios[1] = 0x01;
    bios[2] = 0xE0;
    bios[3] = 0x50;
    let mut cart = rom();
    cart[0] = 0xC3;
    cart[4] = 0x00;
    let mut gb = match Gameboy::with_boot_rom(cart, bios) {
        Ok(g) => g,
        Err(e) => panic!("{:?}", e),
    };
    assert_eq!(gb.bus.get_byte(0x0000), 0x3E);
    for _ in 0..3 {
        gb.cpu.tick(&mut gb.bus, 1);
    }
    // LD A,1; LDH (0x50),A; then a NOP fetched from the cartridge at 0x0004.
    assert_eq!(gb.cpu.registers.a, 1);
    assert!(!gb.bus.boot_rom());
    assert_eq!(gb.bus.get_byte(0x0000), 0xC3);
    assert_eq!(gb.cpu.registers.pc, 0x0005);
}

#[test]
fn gameboy_tick_budgets() {
    let mut gb = match Gameboy::new(rom()) {
        Ok(g) => g,
        Err(e) => panic!("{:?}", e),
    };
    assert_eq!(gb.cpu.registers.pc, 0x0100);
    assert_eq!(gb.cpu.registers.sp, 0xFFFE);
    gb.tick();
    // One NOP: the CPU budget is spent; the PPU is off and keeps none.
    assert_eq!(gb.clock_cpu, 0);
    assert_eq!(gb.clock_ppu, 0);
    assert_eq!(gb.cpu.registers.pc, 0x0101);
}

#[test]
fn gameboy_runs_frames() {
    let mut gb = match Gameboy::new(rom()) {
        Ok(g) => g,
        Err(e) => panic!("{:?}", e),
    };
    gb.bus.set_byte(0xFF40, 0x80);
    gb.bus.io_registers.stat = 0x02;
    let mut frames = 0;
    for _ in 0..200_000 {
        gb.tick();
        if gb.ppu.ready {
            frames += 1;
            let image = gb.ppu.get_image();
            assert_eq!(image.len(), 160 * 144);
            assert!(!gb.ppu.ready);
        }
        assert!(gb.bus.io_registers.ly <= 153);
    }
    assert!(frames >= 1);
}

/// Runs the PPU until its mode and LY match, with the budget the console would give.
fn run_ppu_until(ppu: &mut Ppu, bus: &mut Bus, mode: u8, ly: u8) {
    let mut clock: i32 = 0;
    for _ in 0..100_000 {
        clock = ppu.tick(bus, clock + 1);
        if bus.io_registers.stat & 3 == mode && bus.io_registers.ly == ly {
            return;
        }
    }
    panic!("the PPU never reached mode {} at line {}", mode, ly);
}

#[test]
fn ppu_coincidence() {
    let mut bus = bus();
    let mut ppu = Ppu::new();
    bus.set_byte(0xFF40, 0x80);
    bus.io_registers.stat = 0x02;
    bus.set_byte(0xFF45, 0x10);
    bus.set_byte(0xFF41, 0x40);
    run_ppu_until(&mut ppu, &mut bus, 2, 0x10);
    ppu.tick(&mut bus, 1);
    assert_eq!(bus.io_registers.stat & 0x04, 0x04);
    assert_eq!(bus.get_byte(0xFF0F) & 0x02, 0x02);
}

#[test]
fn ppu_coincidence_without_interrupt() {
    let mut bus = bus();
    let mut ppu = Ppu::new();
    bus.set_byte(0xFF40, 0x80);
    bus.io_registers.stat = 0x02;
    bus.set_byte(0xFF45, 0x03);
    run_ppu_until(&mut ppu, &mut bus, 2, 0x03);
    ppu.tick(&mut bus, 1);
    assert_eq!(bus.io_registers.stat & 0x04, 0x04);
    assert_eq!(bus.get_byte(0xFF0F) & 0x02, 0x00);
}

#[test]
fn vblank_edge() {
    let mut bus = bus();
    let mut ppu = Ppu::new();
    bus.set_byte(0xFF40, 0x80);
    bus.io_registers.ly = 143;
    bus.io_registers.stat = 0x03;
    bus.set_byte(0xFF45, 0xFF);
    // Pixel transfer ends: H-blank.
    assert_eq!(ppu.tick(&mut bus, 43), 0);
    assert_eq!(bus.io_registers.stat & 3, 0);
    assert_eq!(bus.get_byte(0xFF0F) & 0x01, 0);
    assert!(!ppu.ready);
    // Not enough budget yet.
    assert_eq!(ppu.tick(&mut bus, 50), 50);
    assert_eq!(bus.io_registers.stat & 3, 0);
    // H-blank ends at the line boundary: V-blank.
    assert_eq!(ppu.tick(&mut bus, 51), 0);
    assert_eq!(bus.io_registers.stat & 3, 1);
    assert_eq!(bus.io_registers.ly, 144);
    assert_eq!(bus.get_byte(0xFF0F) & 0x01, 0x01);
    assert!(ppu.ready);
}

#[test]
fn vblank_wraps_to_line_zero() {
    let mut bus = bus();
    let mut ppu = Ppu::new();
    bus.set_byte(0xFF40, 0x80);
    bus.io_registers.ly = 153;
    bus.io_registers.stat = 0x01;
    assert_eq!(ppu.tick(&mut bus, 456), 0);
    assert_eq!(bus.io_registers.ly, 0);
    assert_eq!(bus.io_registers.stat & 3, 2);
}

#[test]
fn lcd_off_ppu_stands_still() {
    let mut bus = bus();
    let mut ppu = Ppu::new();
    assert_eq!(ppu.tick(&mut bus, 500), 0);
    assert_eq!(bus.io_registers.ly, 0);
    assert_eq!(bus.io_registers.stat & 3, 0);
}

/// Draws line `ly` through OAM search and pixel transfer.
fn draw_line(ppu: &mut Ppu, bus: &mut Bus, ly: u8) {
    bus.io_registers.ly = ly;
    bus.io_registers.stat = 0x02;
    ppu.tick(bus, 20);
    assert_eq!(bus.io_registers.stat & 3, 3);
    ppu.tick(bus, 43);
    assert_eq!(bus.io_registers.stat & 3, 0);
}

#[test]
fn background_line() {
    let mut bus = bus();
    let mut ppu = Ppu::new();
    // Tile 1: row 0 low plane 0xF0, high plane 0xFF -> colors 3,3,3,3,2,2,2,2.
    bus.set_byte(0x8010, 0xF0);
    bus.set_byte(0x8011, 0xFF);
    // Map entry (0,0) and (1,0) use tile 1.
    bus.set_byte(0x9800, 0x01);
    bus.set_byte(0x9801, 0x01);
    // Identity palette: color i -> shade i.
    bus.set_byte(0xFF47, 0xE4);
    bus.set_byte(0xFF40, 0x91);
    draw_line(&mut ppu, &mut bus, 0);
    let image = ppu.get_image();
    assert_eq!(&image[0..8], &[3, 3, 3, 3, 2, 2, 2, 2]);
    assert_eq!(&image[8..16], &[3, 3, 3, 3, 2, 2, 2, 2]);
    assert_eq!(image[16], 0);
    // Scrolled by 2 pixels.
    bus.set_byte(0xFF43, 0x02);
    draw_line(&mut ppu, &mut bus, 0);
    let image = ppu.get_image();
    assert_eq!(&image[0..6], &[3, 3, 2, 2, 2, 2]);
}

#[test]
fn signed_tile_data() {
    let mut bus = bus();
    let mut ppu = Ppu::new();
    // LCDC bit 4 clear: tile 0xFF sits at 0x8FF0.
    bus.set_byte(0x8FF0, 0xFF);
    bus.set_byte(0x9800, 0xFF);
    bus.set_byte(0xFF47, 0xE4);
    bus.set_byte(0xFF40, 0x81);
    draw_line(&mut ppu, &mut bus, 0);
    let image = ppu.get_image();
    assert_eq!(&image[0..8], &[1, 1, 1, 1, 1, 1, 1, 1]);
}

#[test]
fn window_uses_its_own_coordinates() {
    let mut bus = bus();
    let mut ppu = Ppu::new();
    bus.set_byte(0x8010, 0xFF);
    bus.set_byte(0x8011, 0xFF);
    // Window map at 0x9C00 holds tile 1; background map is all tile 0.
    bus.set_byte(0x9C00, 0x01);
    bus.set_byte(0xFF47, 0xE4);
    bus.set_byte(0xFF4A, 0x00);
    bus.set_byte(0xFF4B, 0x07 + 80);
    bus.set_byte(0xFF43, 0x33);
    bus.set_byte(0xFF40, 0x80 | 0x40 | 0x20 | 0x10 | 0x01);
    draw_line(&mut ppu, &mut bus, 0);
    let image = ppu.get_image();
    assert_eq!(image[79], 0);
    assert_eq!(&image[80..88], &[3, 3, 3, 3, 3, 3, 3, 3]);
    assert_eq!(image[88], 0);
}

#[test]
fn sprites_on_line() {
    let mut bus = bus();
    let mut ppu = Ppu::new();
    // Sprite tile 2, row 0: color 1 everywhere.
    bus.set_byte(0x8020, 0xFF);
    // Sprite 0 at screen (10, 0); sprite 1 at screen (12, 0) with palette OBP1.
    for (i, (y, x, attrs)) in [(16u8, 18u8, 0u8), (16, 20, 0x10)].iter().enumerate() {
        let base = 0xFE00 + 4 * i as u16;
        bus.set_byte(base, *y);
        bus.set_byte(base + 1, *x);
        bus.set_byte(base + 2, 2);
        bus.set_byte(base + 3, *attrs);
    }
    bus.set_byte(0xFF47, 0xE4);
    bus.set_byte(0xFF48, 0xE4);
    bus.set_byte(0xFF49, 0x1B);
    bus.set_byte(0xFF40, 0x93);
    let entries = OamEntry::get_oam_line(&bus, 0, false);
    assert_eq!(entries.len(), 2);
    draw_line(&mut ppu, &mut bus, 0);
    let image = ppu.get_image();
    assert_eq!(image[9], 0);
    // The lower X wins where the two overlap.
    assert_eq!(&image[10..18], &[1, 1, 1, 1, 1, 1, 1, 1]);
    // OBP1 = 0x1B maps color 1 to shade 2.
    assert_eq!(&image[18..20], &[2, 2]);
    assert_eq!(image[20], 0);
}

#[test]
fn sprite_behind_background() {
    let mut bus = bus();
    let mut ppu = Ppu::new();
    bus.set_byte(0x8020, 0xFF);
    bus.set_byte(0x8011, 0xFF);
    bus.set_byte(0x9800, 0x01);
    bus.set_byte(0xFE00, 16);
    bus.set_byte(0xFE01, 8);
    bus.set_byte(0xFE02, 2);
    bus.set_byte(0xFE03, 0x80);
    bus.set_byte(0xFF47, 0xE4);
    bus.set_byte(0xFF48, 0xE4);
    bus.set_byte(0xFF40, 0x93);
    draw_line(&mut ppu, &mut bus, 0);
    let image = ppu.get_image();
    // Background color 2 is non-zero, so the sprite stays behind it.
    assert_eq!(&image[0..8], &[2, 2, 2, 2, 2, 2, 2, 2]);
    // Where the background is color 0 the sprite shows.
    bus.set_byte(0x9800, 0x00);
    draw_line(&mut ppu, &mut bus, 0);
    let image = ppu.get_image();
    assert_eq!(&image[0..8], &[1, 1, 1, 1, 1, 1, 1, 1]);
}

#[test]
fn oam_search_caps_at_ten() {
    let mut bus = bus();
    for i in 0..40u16 {
        bus.set_byte(0xFE00 + 4 * i, 16 + (i % 2) as u8 * 100);
        bus.set_byte(0xFE01 + 4 * i, 8 + i as u8);
    }
    let entries = OamEntry::get_oam_line(&bus, 0, false);
    assert_eq!(entries.len(), 10);
    assert_eq!(entries[0].xpos, 8);
    assert_eq!(entries[9].xpos, 8 + 18);
    // Tall sprites reach eight more lines.
    assert_eq!(OamEntry::get_oam_line(&bus, 8, false).len(), 0);
    assert_eq!(OamEntry::get_oam_line(&bus, 8, true).len(), 10);
    assert_eq!(OamEntry::get_oam_line(&bus, 16, true).len(), 0);
}

#[test]
fn tile_map_layers() {
    let mut bus = bus();
    bus.set_byte(0x8010, 0xFF);
    bus.set_byte(0x9010, 0xFF);
    bus.set_byte(0x9011, 0xFF);
    bus.set_byte(0x9821, 0x01);
    bus.set_byte(0xFF47, 0xE4);
    let unsigned = Ppu::write_image(&bus, 0x9800, true);
    let signed = Ppu::write_image(&bus, 0x9800, false);
    assert_eq!(unsigned.len(), 256 * 256);
    // Tile (1,1) starts at pixel (8,8).
    assert_eq!(unsigned[8 * 256 + 8], 1);
    assert_eq!(unsigned[8 * 256 + 7], 0);
    assert_eq!(unsigned[9 * 256 + 8], 0);
    assert_eq!(signed[8 * 256 + 8], 3);
    assert_eq!(signed[0], 0);
}

#[test]
fn timer_overflow_through_console() {
    let mut gb = match Gameboy::new(rom()) {
        Ok(g) => g,
        Err(e) => panic!("{:?}", e),
    };
    gb.bus.set_byte(0xFF07, 0x05);
    gb.bus.set_byte(0xFF05, 0xFE);
    gb.bus.set_byte(0xFF06, 0x42);
    gb.tick();
    gb.tick();
    gb.tick();
    assert_eq!(gb.bus.get_byte(0xFF05), 0x42);
    assert_eq!(gb.bus.get_byte(0xFF0F) & 0x04, 0x04);
}
