use gamerust::bus::Bus;
use gamerust::cartridge::{load_cartridge, Cartridge};
use gamerust::cpu::Cpu;
use gamerust::registers::{F, R, RR};

/// A ROM-only image with `code` at 0x0100.
fn rom_with(code: &[u8]) -> Vec<u8> {
    let mut rom = vec![0u8; 0x8000];
    rom[0x100..0x100 + code.len()].copy_from_slice(code);
    rom
}

fn cartridge(code: &[u8]) -> Cartridge {
    match load_cartridge(rom_with(code)) {
        Ok(c) => c,
        Err(e) => panic!("cartridge did not load: {:?}", e),
    }
}

/// A CPU at 0x0100 over a bus holding `code` there.
fn machine(code: &[u8]) -> (Cpu, Bus) {
    let bus = Bus::without_boot_rom(cartridge(code));
    let cpu = Cpu::post_boot();
    (cpu, bus)
}

/// Runs one instruction and returns its cost.
fn step(cpu: &mut Cpu, bus: &mut Bus) -> i32 {
    1 - cpu.tick(bus, 1)
}

#[test]
fn inc_b_half_carry_and_zero() {
    // INC B from 0x0F, then from 0xFF.
    let (mut cpu, mut bus) = machine(&[0x04, 0x04]);
    cpu.registers.b = 0x0F;
    step(&mut cpu, &mut bus);
    assert_eq!(cpu.registers.b, 0x10);
    assert!(cpu.registers.is_flag(F::H));
    assert!(!cpu.registers.is_flag(F::Z));
    cpu.registers.b = 0xFF;
    step(&mut cpu, &mut bus);
    assert_eq!(cpu.registers.b, 0x00);
    assert!(cpu.registers.is_flag(F::Z));
    assert!(cpu.registers.is_flag(F::H));
    assert!(!cpu.registers.is_flag(F::N));
}

#[test]
fn dec_b_half_borrow_and_zero() {
    let (mut cpu, mut bus) = machine(&[0x05, 0x05]);
    cpu.registers.b = 0x10;
    step(&mut cpu, &mut bus);
    assert_eq!(cpu.registers.b, 0x0F);
    assert!(cpu.registers.is_flag(F::H));
    assert!(cpu.registers.is_flag(F::N));
    cpu.registers.b = 0x01;
    step(&mut cpu, &mut bus);
    assert_eq!(cpu.registers.b, 0x00);
    assert!(cpu.registers.is_flag(F::Z));
}

#[test]
fn ld_hl_sp_plus_offset() {
    // LD HL,SP+2 with SP=0xFFF8.
    let (mut cpu, mut bus) = machine(&[0xF8, 0x02]);
    cpu.registers.sp = 0xFFF8;
    let cost = step(&mut cpu, &mut bus);
    assert_eq!(cpu.registers.get_r16(RR::HL), 0xFFFA);
    assert!(!cpu.registers.is_flag(F::H));
    assert!(!cpu.registers.is_flag(F::C));
    assert!(!cpu.registers.is_flag(F::Z));
    assert!(!cpu.registers.is_flag(F::N));
    assert_eq!(cost, 3);
    assert_eq!(cpu.registers.pc, 0x0102);
}

#[test]
fn ld_hl_sp_negative_offset() {
    // LD HL,SP-1 with SP=0x0000: the flags come from the unsigned low byte.
    let (mut cpu, mut bus) = machine(&[0xF8, 0xFF]);
    cpu.registers.sp = 0x0000;
    step(&mut cpu, &mut bus);
    assert_eq!(cpu.registers.get_r16(RR::HL), 0xFFFF);
    assert!(!cpu.registers.is_flag(F::H));
    assert!(!cpu.registers.is_flag(F::C));
}

#[test]
fn add_hl_hl_overflows() {
    let (mut cpu, mut bus) = machine(&[0x29]);
    cpu.registers.set_r16(RR::HL, 0x8000);
    cpu.registers.set_flag(F::Z);
    step(&mut cpu, &mut bus);
    assert_eq!(cpu.registers.get_r16(RR::HL), 0x0000);
    assert!(cpu.registers.is_flag(F::C));
    assert!(!cpu.registers.is_flag(F::H));
    assert!(!cpu.registers.is_flag(F::N));
    // Z is kept.
    assert!(cpu.registers.is_flag(F::Z));
}

#[test]
fn xor_a_clears_accumulator() {
    let (mut cpu, mut bus) = machine(&[0xAF]);
    cpu.registers.a = 0x5C;
    cpu.registers.set_flags(false, true, true, true);
    step(&mut cpu, &mut bus);
    assert_eq!(cpu.registers.a, 0);
    assert!(cpu.registers.is_flag(F::Z));
    assert!(!cpu.registers.is_flag(F::N));
    assert!(!cpu.registers.is_flag(F::H));
    assert!(!cpu.registers.is_flag(F::C));
}

#[test]
fn cpl_twice_restores_a() {
    let (mut cpu, mut bus) = machine(&[0x2F, 0x2F]);
    cpu.registers.a = 0x3C;
    step(&mut cpu, &mut bus);
    assert_eq!(cpu.registers.a, 0xC3);
    step(&mut cpu, &mut bus);
    assert_eq!(cpu.registers.a, 0x3C);
    assert!(cpu.registers.is_flag(F::N));
    assert!(cpu.registers.is_flag(F::H));
}

#[test]
fn push_pop_restores_pair() {
    // PUSH BC; LD BC,0; POP BC
    let (mut cpu, mut bus) = machine(&[0xC5, 0x01, 0x00, 0x00, 0xC1]);
    cpu.registers.sp = 0xDFF0;
    cpu.registers.set_r16(RR::BC, 0xBEEF);
    assert_eq!(step(&mut cpu, &mut bus), 4);
    assert_eq!(cpu.registers.sp, 0xDFEE);
    assert_eq!(bus.get_byte(0xDFEF), 0xBE);
    assert_eq!(bus.get_byte(0xDFEE), 0xEF);
    step(&mut cpu, &mut bus);
    assert_eq!(cpu.registers.get_r16(RR::BC), 0);
    assert_eq!(step(&mut cpu, &mut bus), 3);
    assert_eq!(cpu.registers.get_r16(RR::BC), 0xBEEF);
    assert_eq!(cpu.registers.sp, 0xDFF0);
}

#[test]
fn pop_af_masks_low_nibble() {
    // PUSH BC; POP AF with BC = 0x12FF.
    let (mut cpu, mut bus) = machine(&[0xC5, 0xF1]);
    cpu.registers.sp = 0xFFFE;
    cpu.registers.set_r16(RR::BC, 0x12FF);
    step(&mut cpu, &mut bus);
    step(&mut cpu, &mut bus);
    assert_eq!(cpu.registers.get_r16(RR::AF), 0x12F0);
    assert_eq!(cpu.registers.get_r8(R::F) & 0x0F, 0);
    assert!(cpu.registers.is_flag(F::Z) && cpu.registers.is_flag(F::N));
    assert!(cpu.registers.is_flag(F::H) && cpu.registers.is_flag(F::C));
}

#[test]
fn push_pop_af_round_trip() {
    // PUSH AF; XOR A; POP AF
    let (mut cpu, mut bus) = machine(&[0xF5, 0xAF, 0xF1]);
    cpu.registers.sp = 0xC100;
    cpu.registers.set_r16(RR::AF, 0x9A50);
    step(&mut cpu, &mut bus);
    step(&mut cpu, &mut bus);
    assert_eq!(cpu.registers.get_r16(RR::AF), 0x0080);
    step(&mut cpu, &mut bus);
    assert_eq!(cpu.registers.get_r16(RR::AF), 0x9A50);
}

#[test]
fn store_sp_and_reload_through_hl() {
    // LD (0xC000),SP; LD SP,HL
    let (mut cpu, mut bus) = machine(&[0x08, 0x00, 0xC0, 0xF9]);
    cpu.registers.sp = 0xABCD;
    assert_eq!(step(&mut cpu, &mut bus), 5);
    assert_eq!(bus.get_byte(0xC000), 0xCD);
    assert_eq!(bus.get_byte(0xC001), 0xAB);
    let hl = (bus.get_byte(0xC001) as u16) << 8 | bus.get_byte(0xC000) as u16;
    cpu.registers.set_r16(RR::HL, hl);
    cpu.registers.sp = 0x1111;
    assert_eq!(step(&mut cpu, &mut bus), 2);
    assert_eq!(cpu.registers.sp, 0xABCD);
}

#[test]
fn daa_after_bcd_add() {
    // LD A,0x15; ADD A,0x27; DAA
    let (mut cpu, mut bus) = machine(&[0x3E, 0x15, 0xC6, 0x27, 0x27]);
    step(&mut cpu, &mut bus);
    step(&mut cpu, &mut bus);
    assert_eq!(cpu.registers.a, 0x3C);
    step(&mut cpu, &mut bus);
    assert_eq!(cpu.registers.a, 0x42);
    assert!(!cpu.registers.is_flag(F::C));
    assert!(!cpu.registers.is_flag(F::H));
}

#[test]
fn daa_after_bcd_subtract() {
    // LD A,0x42; SUB 0x15; DAA -> 0x27
    let (mut cpu, mut bus) = machine(&[0x3E, 0x42, 0xD6, 0x15, 0x27]);
    step(&mut cpu, &mut bus);
    step(&mut cpu, &mut bus);
    assert_eq!(cpu.registers.a, 0x2D);
    assert!(cpu.registers.is_flag(F::H));
    step(&mut cpu, &mut bus);
    assert_eq!(cpu.registers.a, 0x27);
}

#[test]
fn add_sets_all_carries() {
    // LD A,0x3A; ADD A,0xC6
    let (mut cpu, mut bus) = machine(&[0x3E, 0x3A, 0xC6, 0xC6]);
    step(&mut cpu, &mut bus);
    assert_eq!(step(&mut cpu, &mut bus), 2);
    assert_eq!(cpu.registers.a, 0x00);
    assert!(cpu.registers.is_flag(F::Z));
    assert!(cpu.registers.is_flag(F::H));
    assert!(cpu.registers.is_flag(F::C));
    assert!(!cpu.registers.is_flag(F::N));
}

#[test]
fn adc_and_sbc_use_carry() {
    // SCF; LD A,0x0F; ADC A,0x00 -> 0x10, H; SCF; SBC A,0x00 -> 0x0F
    let (mut cpu, mut bus) = machine(&[0x37, 0x3E, 0x0F, 0xCE, 0x00, 0x37, 0xDE, 0x00]);
    step(&mut cpu, &mut bus);
    step(&mut cpu, &mut bus);
    step(&mut cpu, &mut bus);
    assert_eq!(cpu.registers.a, 0x10);
    assert!(cpu.registers.is_flag(F::H));
    assert!(!cpu.registers.is_flag(F::C));
    step(&mut cpu, &mut bus);
    step(&mut cpu, &mut bus);
    assert_eq!(cpu.registers.a, 0x0F);
    assert!(cpu.registers.is_flag(F::H));
    assert!(cpu.registers.is_flag(F::N));
}

#[test]
fn cp_keeps_accumulator() {
    // LD A,0x10; CP 0x20
    let (mut cpu, mut bus) = machine(&[0x3E, 0x10, 0xFE, 0x20]);
    step(&mut cpu, &mut bus);
    step(&mut cpu, &mut bus);
    assert_eq!(cpu.registers.a, 0x10);
    assert!(cpu.registers.is_flag(F::C));
    assert!(cpu.registers.is_flag(F::N));
    assert!(!cpu.registers.is_flag(F::Z));
}

#[test]
fn rotates_and_swap() {
    // LD A,0x85; RLCA; CB SWAP A; CB SRL A; CB SRA B
    let (mut cpu, mut bus) = machine(&[0x3E, 0x85, 0x07, 0xCB, 0x37, 0xCB, 0x3F, 0xCB, 0x28]);
    step(&mut cpu, &mut bus);
    step(&mut cpu, &mut bus);
    assert_eq!(cpu.registers.a, 0x0B);
    assert!(cpu.registers.is_flag(F::C));
    assert!(!cpu.registers.is_flag(F::Z));
    assert_eq!(step(&mut cpu, &mut bus), 2);
    assert_eq!(cpu.registers.a, 0xB0);
    assert!(!cpu.registers.is_flag(F::C));
    step(&mut cpu, &mut bus);
    assert_eq!(cpu.registers.a, 0x58);
    cpu.registers.b = 0x81;
    step(&mut cpu, &mut bus);
    assert_eq!(cpu.registers.b, 0xC0);
    assert!(cpu.registers.is_flag(F::C));
}

#[test]
fn bit_res_set_on_memory() {
    // LD HL,0xC010; SET 3,(HL); BIT 3,(HL); RES 3,(HL); BIT 3,(HL)
    let (mut cpu, mut bus) =
        machine(&[0x21, 0x10, 0xC0, 0xCB, 0xDE, 0xCB, 0x5E, 0xCB, 0x9E, 0xCB, 0x5E]);
    step(&mut cpu, &mut bus);
    step(&mut cpu, &mut bus);
    assert_eq!(bus.get_byte(0xC010), 0x08);
    step(&mut cpu, &mut bus);
    assert!(!cpu.registers.is_flag(F::Z));
    assert!(cpu.registers.is_flag(F::H));
    step(&mut cpu, &mut bus);
    assert_eq!(bus.get_byte(0xC010), 0x00);
    step(&mut cpu, &mut bus);
    assert!(cpu.registers.is_flag(F::Z));
}

#[test]
fn call_and_ret() {
    // CALL 0x0110 ... at 0x0110: RET
    let mut code = vec![0u8; 0x20];
    code[0] = 0xCD;
    code[1] = 0x10;
    code[2] = 0x01;
    code[0x10] = 0xC9;
    let (mut cpu, mut bus) = machine(&code);
    cpu.registers.sp = 0xFFFE;
    assert_eq!(step(&mut cpu, &mut bus), 6);
    assert_eq!(cpu.registers.pc, 0x0110);
    assert_eq!(cpu.registers.sp, 0xFFFC);
    assert_eq!(bus.get_byte(0xFFFD), 0x01);
    assert_eq!(bus.get_byte(0xFFFC), 0x03);
    assert_eq!(step(&mut cpu, &mut bus), 4);
    assert_eq!(cpu.registers.pc, 0x0103);
    assert_eq!(cpu.registers.sp, 0xFFFE);
}

#[test]
fn conditional_jumps_cost_more_when_taken() {
    // JR NZ,+2 (taken); then JR Z,+0 (not taken); JP NC,0x0100 (taken)
    let (mut cpu, mut bus) = machine(&[0x20, 0x02, 0x00, 0x00, 0x28, 0x00, 0xD2, 0x00, 0x01]);
    cpu.registers.set_flags(false, false, false, false);
    assert_eq!(step(&mut cpu, &mut bus), 3);
    assert_eq!(cpu.registers.pc, 0x0104);
    assert_eq!(step(&mut cpu, &mut bus), 2);
    assert_eq!(cpu.registers.pc, 0x0106);
    assert_eq!(step(&mut cpu, &mut bus), 4);
    assert_eq!(cpu.registers.pc, 0x0100);
}

#[test]
fn jr_backwards() {
    // NOP; JR -3
    let (mut cpu, mut bus) = machine(&[0x00, 0x18, 0xFD]);
    step(&mut cpu, &mut bus);
    step(&mut cpu, &mut bus);
    assert_eq!(cpu.registers.pc, 0x0100);
}

#[test]
fn undefined_opcode_is_nop() {
    let (mut cpu, mut bus) = machine(&[0xD3]);
    let before = cpu.registers;
    assert_eq!(step(&mut cpu, &mut bus), 1);
    assert_eq!(cpu.registers.pc, 0x0101);
    assert_eq!(cpu.registers.a, before.a);
}

#[test]
fn flags_nibble_stays_zero() {
    let (mut cpu, mut bus) = machine(&[0x37, 0x3F, 0x27]);
    for _ in 0..3 {
        step(&mut cpu, &mut bus);
        assert_eq!(cpu.registers.get_r8(R::F) & 0x0F, 0);
    }
    cpu.registers.set_r8(R::F, 0xFF);
    assert_eq!(cpu.registers.get_r8(R::F), 0xF0);
}

#[test]
fn interrupt_dispatch_costs_five() {
    // EI; NOP; with V-blank requested and enabled.
    let (mut cpu, mut bus) = machine(&[0xFB, 0x00, 0x00]);
    cpu.registers.sp = 0xFFFE;
    bus.set_byte(0xFFFF, 0x01);
    step(&mut cpu, &mut bus);
    assert!(cpu.ime_delay);
    bus.set_byte(0xFF0F, 0x05);
    let cost = step(&mut cpu, &mut bus);
    assert_eq!(cost, 5);
    assert_eq!(cpu.registers.pc, 0x0040);
    assert!(!cpu.ime);
    // V-blank served, timer request stays.
    assert_eq!(bus.get_byte(0xFF0F) & 0x1F, 0x04);
    assert_eq!(bus.get_byte(0xFFFD), 0x01);
    assert_eq!(bus.get_byte(0xFFFC), 0x01);
}

#[test]
fn interrupt_priority_picks_lowest_bit() {
    let (mut cpu, mut bus) = machine(&[0x00]);
    cpu.registers.sp = 0xFFFE;
    cpu.ime = true;
    bus.set_byte(0xFFFF, 0x1F);
    bus.set_byte(0xFF0F, 0x18);
    step(&mut cpu, &mut bus);
    assert_eq!(cpu.registers.pc, 0x0058);
}

#[test]
fn halt_wakes_on_pending_interrupt() {
    let (mut cpu, mut bus) = machine(&[0x76, 0x00]);
    step(&mut cpu, &mut bus);
    assert!(cpu.halted);
    assert_eq!(step(&mut cpu, &mut bus), 1);
    assert_eq!(cpu.registers.pc, 0x0101);
    bus.set_byte(0xFFFF, 0x04);
    bus.set_byte(0xFF0F, 0x04);
    step(&mut cpu, &mut bus);
    assert!(!cpu.halted);
    // IME is off: no dispatch, the next instruction runs.
    assert_eq!(cpu.registers.pc, 0x0102);
}

#[test]
fn di_cancels_pending_ei() {
    let (mut cpu, mut bus) = machine(&[0xFB, 0xF3, 0x00]);
    step(&mut cpu, &mut bus);
    step(&mut cpu, &mut bus);
    assert!(!cpu.ime);
    assert!(!cpu.ime_delay);
}

#[test]
fn no_budget_no_work() {
    let (mut cpu, mut bus) = machine(&[0x3C]);
    assert_eq!(cpu.tick(&mut bus, 0), 0);
    assert_eq!(cpu.tick(&mut bus, -3), -3);
    assert_eq!(cpu.registers.pc, 0x0100);
}

#[test]
fn dma_copies_oam_in_forty_cycles() {
    let (mut cpu, mut bus) = machine(&[0x00]);
    for a in 0xC000u16..0xC0A0 {
        bus.set_byte(a, 0xAB);
    }
    bus.set_byte(0xFF46, 0xC0);
    assert!(bus.io_registers.dma_triggered);
    let left = cpu.tick(&mut bus, 1);
    assert_eq!(left, 1 - 40);
    assert!(!bus.io_registers.dma_triggered);
    for a in 0xFE00u16..0xFEA0 {
        assert_eq!(bus.get_byte(a), 0xAB);
    }
    // No instruction ran.
    assert_eq!(cpu.registers.pc, 0x0100);
}

#[test]
fn timer_overflow_reloads_one_tick_later() {
    let (mut cpu, mut bus) = machine(&[0x00, 0x00, 0x00, 0x00]);
    bus.set_byte(0xFF07, 0x05);
    bus.set_byte(0xFF05, 0xFE);
    bus.set_byte(0xFF06, 0x42);
    cpu.tick(&mut bus, 1);
    assert_eq!(bus.get_byte(0xFF05), 0xFF);
    cpu.tick(&mut bus, 1);
    assert_eq!(bus.get_byte(0xFF05), 0x00);
    assert_eq!(bus.get_byte(0xFF0F) & 0x04, 0);
    cpu.tick(&mut bus, 1);
    assert_eq!(bus.get_byte(0xFF05), 0x42);
    assert_eq!(bus.get_byte(0xFF0F) & 0x04, 0x04);
}

#[test]
fn timer_disabled_counts_div_only() {
    let (mut cpu, mut bus) = machine(&[0x00, 0x00]);
    bus.set_byte(0xFF05, 0x10);
    for _ in 0..0x200 {
        cpu.tick(&mut bus, 1);
        cpu.registers.pc = 0x0100;
    }
    assert_eq!(bus.get_byte(0xFF05), 0x10);
    assert_eq!(bus.io_registers.div, 0x200);
    assert_eq!(bus.get_byte(0xFF04), 0x02);
}
