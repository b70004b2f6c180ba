//! What each instruction does to the registers and the bus, and what it
//! costs in machine cycles. The spec functions take the registers as they are
//! after the opcode byte was fetched (PC points at the first operand byte).
use vstd::prelude::*;
use crate::alu::{
    add16, add16_spec, add_sp, add_sp_spec, alu, alu_spec, bit_of, daa, daa_spec, dec8, dec_spec, inc8,
    inc_spec, offset, offset_spec, res_spec, reset_bit, set_bit, set_spec, shift, shift_spec, test_bit,
    AluOp, ShiftOp,
};
use crate::bus::{lemma_ram_read_write, plain_ram, Bus, BusView};
use crate::opcode::{opcode_wf, reg_of, target_reg, Cond, Ind, Opcode, Target};
use crate::registers::{
    hi_byte, lemma_flags_decode, lemma_pair_split, lemma_split_pair, lo_byte, pair, Registers, F, R, RR,
};

verus! {

/// The byte an operand names.
pub open spec fn read_t(t: Target, r: Registers, m: BusView) -> u8 {
    if t == Target::AtHL {
        m.read(r.r16(RR::HL))
    } else {
        r.r8(reg_of(t))
    }
}

/// Registers and bus after `v` is stored to an operand.
pub open spec fn write_t(t: Target, r: Registers, m: BusView, v: u8) -> (Registers, BusView) {
    if t == Target::AtHL {
        (r, m.write(r.r16(RR::HL), v))
    } else {
        (r.with_r8(reg_of(t), v), m)
    }
}

/// The registers with PC moved past one operand byte.
pub open spec fn next(r: Registers) -> Registers {
    Registers { pc: r.pc.wrapping_add(1), ..r }
}

/// The byte operand at PC.
pub open spec fn imm8(r: Registers, m: BusView) -> u8 {
    m.read(r.pc)
}

/// The little-endian word operand at PC.
pub open spec fn imm16(r: Registers, m: BusView) -> u16 {
    pair(m.read(r.pc.wrapping_add(1)), m.read(r.pc))
}

/// Push `v`: high byte at SP-1, low byte at SP-2, SP lowered by two.
pub open spec fn push_spec(r: Registers, m: BusView, v: u16) -> (Registers, BusView) {
    let s1 = r.sp.wrapping_sub(1);
    let s2 = s1.wrapping_sub(1);
    (Registers { sp: s2, ..r }, m.write(s1, hi_byte(v)).write(s2, lo_byte(v)))
}

/// Pop a word: low byte at SP, high byte at SP+1, SP raised by two.
pub open spec fn pop_spec(r: Registers, m: BusView) -> (Registers, u16) {
    let s1 = r.sp.wrapping_add(1);
    (Registers { sp: s1.wrapping_add(1), ..r }, pair(m.read(s1), m.read(r.sp)))
}

pub open spec fn cond_holds(c: Cond, r: Registers) -> bool {
    match c {
        Cond::NZ => !r.zf,
        Cond::Z => r.zf,
        Cond::NC => !r.cf,
        Cond::C => r.cf,
    }
}

pub open spec fn ind_addr(i: Ind, r: Registers) -> u16 {
    match i {
        Ind::BC => r.r16(RR::BC),
        Ind::DE => r.r16(RR::DE),
        _ => r.r16(RR::HL),
    }
}

/// The registers after the address of an `(rr)` form was used.
pub open spec fn ind_after(i: Ind, r: Registers) -> Registers {
    match i {
        Ind::HLInc => r.with_r16(RR::HL, r.r16(RR::HL).wrapping_add(1)),
        Ind::HLDec => r.with_r16(RR::HL, r.r16(RR::HL).wrapping_sub(1)),
        _ => r,
    }
}

/// The high-page address 0xFF00 + `n`.
pub open spec fn high(n: u8) -> u16 {
    (0xFF00 + n) as u16
}

pub open spec fn mem_cost(t: Target, base: u8) -> u8 {
    if t == Target::AtHL {
        (base + 1) as u8
    } else {
        base
    }
}

/// Loads, stores and stack transfers.
pub open spec fn load_spec(op: Opcode, r: Registers, m: BusView) -> (Registers, BusView, u8) {
    match op {
        Opcode::Ld(d, s) => {
            let (r1, m1) = write_t(d, r, m, read_t(s, r, m));
            (r1, m1, if d == Target::AtHL || s == Target::AtHL { 2 } else { 1 })
        },
        Opcode::LdImm(t) => {
            let (r1, m1) = write_t(t, next(r), m, imm8(r, m));
            (r1, m1, mem_cost(t, 2))
        },
        Opcode::LdAInd(i) => (ind_after(i, r).with_r8(R::A, m.read(ind_addr(i, r))), m, 2),
        Opcode::LdIndA(i) => (ind_after(i, r), m.write(ind_addr(i, r), r.a), 2),
        Opcode::LdAAbs => (next(next(r)).with_r8(R::A, m.read(imm16(r, m))), m, 4),
        Opcode::LdAbsA => (next(next(r)), m.write(imm16(r, m), r.a), 4),
        Opcode::LdhAC => (r.with_r8(R::A, m.read(high(r.c))), m, 2),
        Opcode::LdhCA => (r, m.write(high(r.c), r.a), 2),
        Opcode::LdhAN => (next(r).with_r8(R::A, m.read(high(imm8(r, m)))), m, 3),
        Opcode::LdhNA => (next(r), m.write(high(imm8(r, m)), r.a), 3),
        Opcode::LdRRImm(rr) => (next(next(r)).with_r16(rr, imm16(r, m)), m, 3),
        Opcode::LdAbsSP => {
            let nn = imm16(r, m);
            (next(next(r)), m.write(nn, lo_byte(r.sp)).write(nn.wrapping_add(1), hi_byte(r.sp)), 5)
        },
        Opcode::LdSPHL => (r.with_r16(RR::SP, r.r16(RR::HL)), m, 2),
        Opcode::Push(rr) => {
            let (r1, m1) = push_spec(r, m, r.r16(rr));
            (r1, m1, 4)
        },
        Opcode::Pop(rr) => {
            let (r1, v) = pop_spec(r, m);
            (r1.with_r16(rr, v), m, 3)
        },
        Opcode::LdHLSPe => {
            let (v, h, c) = add_sp_spec(r.sp, imm8(r, m));
            (next(r).with_r16(RR::HL, v).with_flags(false, false, h, c), m, 3)
        },
        _ => (r, m, 1),
    }
}

/// Arithmetic, logic and the accumulator rotates.
pub open spec fn arith_spec(op: Opcode, r: Registers, m: BusView) -> (Registers, BusView, u8) {
    match op {
        Opcode::Inc(t) => {
            let (v, z, h) = inc_spec(read_t(t, r, m));
            let (r1, m1) = write_t(t, r, m, v);
            (r1.with_flags(z, false, h, r.cf), m1, mem_cost(t, 1))
        },
        Opcode::Dec(t) => {
            let (v, z, h) = dec_spec(read_t(t, r, m));
            let (r1, m1) = write_t(t, r, m, v);
            (r1.with_flags(z, true, h, r.cf), m1, mem_cost(t, 1))
        },
        Opcode::Alu(op, t) => {
            let (v, f) = alu_spec(op, r.a, read_t(t, r, m), r.cf);
            let r1 = if op == AluOp::Cp {
                r
            } else {
                r.with_r8(R::A, v)
            };
            (r1.with_flags(f.z, f.n, f.h, f.c), m, mem_cost(t, 1))
        },
        Opcode::AluImm(op) => {
            let (v, f) = alu_spec(op, r.a, imm8(r, m), r.cf);
            let r1 = if op == AluOp::Cp {
                next(r)
            } else {
                next(r).with_r8(R::A, v)
            };
            (r1.with_flags(f.z, f.n, f.h, f.c), m, 2)
        },
        Opcode::Inc16(rr) => (r.with_r16(rr, r.r16(rr).wrapping_add(1)), m, 2),
        Opcode::Dec16(rr) => (r.with_r16(rr, r.r16(rr).wrapping_sub(1)), m, 2),
        Opcode::AddHL(rr) => {
            let (v, h, c) = add16_spec(r.r16(RR::HL), r.r16(rr));
            (r.with_r16(RR::HL, v).with_flags(r.zf, false, h, c), m, 2)
        },
        Opcode::AddSPe => {
            let (v, h, c) = add_sp_spec(r.sp, imm8(r, m));
            (next(r).with_r16(RR::SP, v).with_flags(false, false, h, c), m, 4)
        },
        Opcode::Daa => {
            let (v, c) = daa_spec(r.a, r.nf, r.hf, r.cf);
            (r.with_r8(R::A, v).with_flags(v == 0, r.nf, false, c), m, 1)
        },
        Opcode::Cpl => (r.with_r8(R::A, !r.a).with_flags(r.zf, true, true, r.cf), m, 1),
        Opcode::Scf => (r.with_flags(r.zf, false, false, true), m, 1),
        Opcode::Ccf => (r.with_flags(r.zf, false, false, !r.cf), m, 1),
        Opcode::Rlca => {
            let (v, c) = shift_spec(ShiftOp::Rlc, r.a, r.cf);
            (r.with_r8(R::A, v).with_flags(false, false, false, c), m, 1)
        },
        Opcode::Rrca => {
            let (v, c) = shift_spec(ShiftOp::Rrc, r.a, r.cf);
            (r.with_r8(R::A, v).with_flags(false, false, false, c), m, 1)
        },
        Opcode::Rla => {
            let (v, c) = shift_spec(ShiftOp::Rl, r.a, r.cf);
            (r.with_r8(R::A, v).with_flags(false, false, false, c), m, 1)
        },
        Opcode::Rra => {
            let (v, c) = shift_spec(ShiftOp::Rr, r.a, r.cf);
            (r.with_r8(R::A, v).with_flags(false, false, false, c), m, 1)
        },
        _ => (r, m, 1),
    }
}

/// The 0xCB-prefixed rotates, shifts and bit operations.
pub open spec fn cb_spec(op: Opcode, r: Registers, m: BusView) -> (Registers, BusView, u8) {
    match op {
        Opcode::Shift(s, t) => {
            let (v, c) = shift_spec(s, read_t(t, r, m), r.cf);
            let (r1, m1) = write_t(t, r, m, v);
            (r1.with_flags(v == 0, false, false, c), m1, 2)
        },
        Opcode::TestBit(n, t) => (
            r.with_flags(!bit_of(read_t(t, r, m), n), false, true, r.cf),
            m,
            2,
        ),
        Opcode::ResBit(n, t) => {
            let (r1, m1) = write_t(t, r, m, res_spec(read_t(t, r, m), n));
            (r1, m1, 2)
        },
        Opcode::SetBit(n, t) => {
            let (r1, m1) = write_t(t, r, m, set_spec(read_t(t, r, m), n));
            (r1, m1, 2)
        },
        _ => (r, m, 1),
    }
}

/// Jumps, calls and returns; a taken branch costs more than one not taken.
pub open spec fn jump_spec(op: Opcode, r: Registers, m: BusView) -> (Registers, BusView, u8) {
    match op {
        Opcode::Jp => (r.with_r16(RR::PC, imm16(r, m)), m, 4),
        Opcode::JpHL => (r.with_r16(RR::PC, r.r16(RR::HL)), m, 1),
        Opcode::JpCond(c) => if cond_holds(c, r) {
            (r.with_r16(RR::PC, imm16(r, m)), m, 4)
        } else {
            (next(next(r)), m, 3)
        },
        Opcode::Jr => (r.with_r16(RR::PC, offset_spec(next(r).pc, imm8(r, m))), m, 3),
        Opcode::JrCond(c) => if cond_holds(c, r) {
            (r.with_r16(RR::PC, offset_spec(next(r).pc, imm8(r, m))), m, 3)
        } else {
            (next(r), m, 2)
        },
        Opcode::Call => {
            let r1 = next(next(r));
            let (r2, m2) = push_spec(r1, m, r1.pc);
            (r2.with_r16(RR::PC, imm16(r, m)), m2, 6)
        },
        Opcode::CallCond(c) => {
            let r1 = next(next(r));
            if cond_holds(c, r) {
                let (r2, m2) = push_spec(r1, m, r1.pc);
                (r2.with_r16(RR::PC, imm16(r, m)), m2, 6)
            } else {
                (r1, m, 3)
            }
        },
        Opcode::Ret => {
            let (r1, v) = pop_spec(r, m);
            (r1.with_r16(RR::PC, v), m, 4)
        },
        Opcode::RetCond(c) => if cond_holds(c, r) {
            let (r1, v) = pop_spec(r, m);
            (r1.with_r16(RR::PC, v), m, 5)
        } else {
            (r, m, 2)
        },
        Opcode::Reti => {
            let (r1, v) = pop_spec(r, m);
            (r1.with_r16(RR::PC, v), m, 4)
        },
        Opcode::Rst(v) => {
            let (r1, m1) = push_spec(r, m, r.pc);
            (r1.with_r16(RR::PC, v), m1, 4)
        },
        _ => (r, m, 1),
    }
}

pub open spec fn is_load(op: Opcode) -> bool {
    match op {
        Opcode::Ld(..) | Opcode::LdImm(..) | Opcode::LdAInd(..) | Opcode::LdIndA(..)
        | Opcode::LdAAbs | Opcode::LdAbsA | Opcode::LdhAC | Opcode::LdhCA | Opcode::LdhAN
        | Opcode::LdhNA | Opcode::LdRRImm(..) | Opcode::LdAbsSP | Opcode::LdSPHL | Opcode::Push(..)
        | Opcode::Pop(..) | Opcode::LdHLSPe => true,
        _ => false,
    }
}

pub open spec fn is_arith(op: Opcode) -> bool {
    match op {
        Opcode::Inc(..) | Opcode::Dec(..) | Opcode::Alu(..) | Opcode::AluImm(..) | Opcode::Inc16(..)
        | Opcode::Dec16(..) | Opcode::AddHL(..) | Opcode::AddSPe | Opcode::Daa | Opcode::Cpl
        | Opcode::Scf | Opcode::Ccf | Opcode::Rlca | Opcode::Rrca | Opcode::Rla | Opcode::Rra => true,
        _ => false,
    }
}

pub open spec fn is_cb(op: Opcode) -> bool {
    match op {
        Opcode::Shift(..) | Opcode::TestBit(..) | Opcode::ResBit(..) | Opcode::SetBit(..) => true,
        _ => false,
    }
}

pub open spec fn is_jump(op: Opcode) -> bool {
    match op {
        Opcode::Jp | Opcode::JpHL | Opcode::JpCond(..) | Opcode::Jr | Opcode::JrCond(..)
        | Opcode::Call | Opcode::CallCond(..) | Opcode::Ret | Opcode::RetCond(..) | Opcode::Reti
        | Opcode::Rst(..) => true,
        _ => false,
    }
}

/// The effect of an instruction on registers and bus, and its cost.
/// Instructions that only touch CPU control state (NOP, HALT, STOP, DI, EI)
/// leave both unchanged here.
pub open spec fn step_spec(op: Opcode, r: Registers, m: BusView) -> (Registers, BusView, u8) {
    if is_load(op) {
        load_spec(op, r, m)
    } else if is_arith(op) {
        arith_spec(op, r, m)
    } else if is_cb(op) {
        cb_spec(op, r, m)
    } else if is_jump(op) {
        jump_spec(op, r, m)
    } else {
        (r, m, 1)
    }
}

/// `PUSH rr` then `POP rr` gives rr back and restores SP, when both stack
/// bytes lie in plain RAM.
pub proof fn lemma_push_pop(rr: RR, r: Registers, m: BusView)
    requires
        m.wf(),
        rr != RR::SP && rr != RR::PC,
        plain_ram(r.sp.wrapping_sub(1)),
        plain_ram(r.sp.wrapping_sub(1).wrapping_sub(1)),
    ensures
        ({
            let (r1, m1, c1) = load_spec(Opcode::Push(rr), r, m);
            let (r2, m2, c2) = load_spec(Opcode::Pop(rr), r1, m1);
            r2.r16(rr) == r.r16(rr) && r2.sp == r.sp
        }),
{
    let v = r.r16(rr);
    let s1 = r.sp.wrapping_sub(1);
    let s2 = s1.wrapping_sub(1);
    let m_a = m.write(s1, hi_byte(v));
    lemma_ram_read_write(m, s1, s1, hi_byte(v));
    lemma_ram_read_write(m_a, s2, s2, lo_byte(v));
    lemma_ram_read_write(m_a, s1, s2, lo_byte(v));
    lemma_pair_split(v);
    let (r1, m1) = push_spec(r, m, v);
    assert(s2.wrapping_add(1) == s1);
    let (r2p, w) = pop_spec(r1, m1);
    assert(w == v);
    if rr == RR::AF {
        lemma_split_pair(r.a, r.f_spec());
        lemma_flags_decode(r.zf, r.nf, r.hf, r.cf);
    }
}

/// `LD (nn),SP` stores SP at nn; loading HL with the word at nn and then
/// `LD SP,HL` restores SP (HL is clobbered). Both bytes at nn lie in plain RAM.
pub proof fn lemma_store_sp_reload(r: Registers, m: BusView)
    requires
        m.wf(),
        plain_ram(imm16(r, m)),
        plain_ram(imm16(r, m).wrapping_add(1)),
    ensures
        ({
            let nn = imm16(r, m);
            let (r1, m1, c1) = load_spec(Opcode::LdAbsSP, r, m);
            let hl = pair(m1.read(nn.wrapping_add(1)), m1.read(nn));
            let (r2, m2, c2) = load_spec(Opcode::LdSPHL, r1.with_r16(RR::HL, hl), m1);
            r2.sp == r.sp
        }),
{
    let nn = imm16(r, m);
    let n1 = nn.wrapping_add(1);
    let m_a = m.write(nn, lo_byte(r.sp));
    lemma_ram_read_write(m, nn, nn, lo_byte(r.sp));
    lemma_ram_read_write(m_a, n1, n1, hi_byte(r.sp));
    lemma_ram_read_write(m_a, nn, n1, hi_byte(r.sp));
    lemma_pair_split(r.sp);
    let hl = pair(hi_byte(r.sp), lo_byte(r.sp));
    lemma_split_pair(hi_byte(r.sp), lo_byte(r.sp));
}

/// `XOR A` clears A and sets Z alone among the flags.
pub proof fn lemma_xor_a(r: Registers, m: BusView)
    ensures
        ({
            let (r1, m1, c) = arith_spec(Opcode::Alu(AluOp::Xor, Target::A), r, m);
            r1.a == 0 && r1.zf && !r1.nf && !r1.hf && !r1.cf && m1 == m
        }),
{
    let a = r.a;
    assert(a ^ a == 0) by (bit_vector);
}

/// `CPL` twice gives A back, with N and H set.
pub proof fn lemma_cpl_twice(r: Registers, m: BusView)
    ensures
        ({
            let (r1, m1, c1) = arith_spec(Opcode::Cpl, r, m);
            let (r2, m2, c2) = arith_spec(Opcode::Cpl, r1, m1);
            r2.a == r.a && r2.nf && r2.hf && r2.zf == r.zf && r2.cf == r.cf && m2 == m
        }),
{
    let a = r.a;
    assert(!(!a) == a) by (bit_vector);
}

pub fn read_target(regs: &Registers, bus: &Bus, t: Target) -> (v: u8)
    requires
        bus.wf(),
    ensures
        v == read_t(t, *regs, bus@),
{
    if t == Target::AtHL {
        bus.get_byte(regs.get_r16(RR::HL))
    } else {
        regs.get_r8(target_reg(t))
    }
}

pub fn write_target(regs: &mut Registers, bus: &mut Bus, t: Target, v: u8)
    requires
        old(bus).wf(),
    ensures
        final(bus).wf(),
        (*final(regs), final(bus)@) == write_t(t, *old(regs), old(bus)@, v),
{
    if t == Target::AtHL {
        bus.set_byte(regs.get_r16(RR::HL), v);
    } else {
        regs.set_r8(target_reg(t), v);
    }
}

pub fn fetch_imm8(regs: &mut Registers, bus: &Bus) -> (v: u8)
    requires
        bus.wf(),
    ensures
        v == imm8(*old(regs), bus@),
        *final(regs) == next(*old(regs)),
{
    bus.get_byte(regs.get_pc_and_increase())
}

pub fn fetch_imm16(regs: &mut Registers, bus: &Bus) -> (v: u16)
    requires
        bus.wf(),
    ensures
        v == imm16(*old(regs), bus@),
        *final(regs) == next(next(*old(regs))),
{
    let lo = bus.get_byte(regs.get_pc_and_increase());
    let hi = bus.get_byte(regs.get_pc_and_increase());
    hi as u16 * 256 + lo as u16
}

pub fn push16(regs: &mut Registers, bus: &mut Bus, v: u16)
    requires
        old(bus).wf(),
    ensures
        final(bus).wf(),
        (*final(regs), final(bus)@) == push_spec(*old(regs), old(bus)@, v),
{
    let s1 = regs.decrease_and_get_sp();
    bus.set_byte(s1, (v / 256) as u8);
    let s2 = regs.decrease_and_get_sp();
    bus.set_byte(s2, (v % 256) as u8);
}

pub fn pop16(regs: &mut Registers, bus: &Bus) -> (v: u16)
    requires
        bus.wf(),
    ensures
        (*final(regs), v) == pop_spec(*old(regs), bus@),
{
    let lo = bus.get_byte(regs.get_sp_and_increase());
    let hi = bus.get_byte(regs.get_sp_and_increase());
    hi as u16 * 256 + lo as u16
}

fn cond_met(regs: &Registers, c: Cond) -> (b: bool)
    ensures
        b == cond_holds(c, *regs),
{
    match c {
        Cond::NZ => !regs.zf,
        Cond::Z => regs.zf,
        Cond::NC => !regs.cf,
        Cond::C => regs.cf,
    }
}

fn ind_address(regs: &mut Registers, i: Ind) -> (a: u16)
    ensures
        a == ind_addr(i, *old(regs)),
        *final(regs) == ind_after(i, *old(regs)),
{
    match i {
        Ind::BC => regs.get_r16(RR::BC),
        Ind::DE => regs.get_r16(RR::DE),
        Ind::HLInc => regs.get_hl_and_increase(),
        Ind::HLDec => regs.get_hl_and_decrease(),
    }
}

pub fn exec_load(op: Opcode, regs: &mut Registers, bus: &mut Bus) -> (cost: u8)
    requires
        old(bus).wf(),
        is_load(op),
    ensures
        final(bus).wf(),
        (*final(regs), final(bus)@, cost) == load_spec(op, *old(regs), old(bus)@),
{
    match op {
        Opcode::Ld(d, s) => {
            let v = read_target(regs, bus, s);
            write_target(regs, bus, d, v);
            if d == Target::AtHL || s == Target::AtHL {
                2
            } else {
                1
            }
        },
        Opcode::LdImm(t) => {
            let v = fetch_imm8(regs, bus);
            write_target(regs, bus, t, v);
            if t == Target::AtHL {
                3
            } else {
                2
            }
        },
        Opcode::LdAInd(i) => {
            let a = ind_address(regs, i);
            let v = bus.get_byte(a);
            regs.set_r8(R::A, v);
            2
        },
        Opcode::LdIndA(i) => {
            let a = ind_address(regs, i);
            bus.set_byte(a, regs.a);
            2
        },
        Opcode::LdAAbs => {
            let nn = fetch_imm16(regs, bus);
            let v = bus.get_byte(nn);
            regs.set_r8(R::A, v);
            4
        },
        Opcode::LdAbsA => {
            let nn = fetch_imm16(regs, bus);
            bus.set_byte(nn, regs.a);
            4
        },
        Opcode::LdhAC => {
            let v = bus.get_byte(0xFF00u16 + regs.c as u16);
            regs.set_r8(R::A, v);
            2
        },
        Opcode::LdhCA => {
            bus.set_byte(0xFF00u16 + regs.c as u16, regs.a);
            2
        },
        Opcode::LdhAN => {
            let n = fetch_imm8(regs, bus);
            let v = bus.get_byte(0xFF00u16 + n as u16);
            regs.set_r8(R::A, v);
            3
        },
        Opcode::LdhNA => {
            let n = fetch_imm8(regs, bus);
            bus.set_byte(0xFF00u16 + n as u16, regs.a);
            3
        },
        Opcode::LdRRImm(rr) => {
            let nn = fetch_imm16(regs, bus);
            regs.set_r16(rr, nn);
            3
        },
        Opcode::LdAbsSP => {
            let nn = fetch_imm16(regs, bus);
            let sp = regs.sp;
            bus.set_byte(nn, (sp % 256) as u8);
            bus.set_byte(nn.wrapping_add(1), (sp / 256) as u8);
            5
        },
        Opcode::LdSPHL => {
            let hl = regs.get_r16(RR::HL);
            regs.set_r16(RR::SP, hl);
            2
        },
        Opcode::Push(rr) => {
            let v = regs.get_r16(rr);
            push16(regs, bus, v);
            4
        },
        Opcode::Pop(rr) => {
            let v = pop16(regs, bus);
            regs.set_r16(rr, v);
            3
        },
        Opcode::LdHLSPe => {
            let e = fetch_imm8(regs, bus);
            let (v, h, c) = add_sp(regs.sp, e);
            regs.set_r16(RR::HL, v);
            regs.set_flags(false, false, h, c);
            3
        },
        _ => 1,
    }
}

pub fn exec_arith(op: Opcode, regs: &mut Registers, bus: &mut Bus) -> (cost: u8)
    requires
        old(bus).wf(),
        is_arith(op),
    ensures
        final(bus).wf(),
        (*final(regs), final(bus)@, cost) == arith_spec(op, *old(regs), old(bus)@),
{
    match op {
        Opcode::Inc(t) => {
            let c = regs.cf;
            let (v, z, h) = inc8(read_target(regs, bus, t));
            write_target(regs, bus, t, v);
            regs.set_flags(z, false, h, c);
            if t == Target::AtHL {
                2
            } else {
                1
            }
        },
        Opcode::Dec(t) => {
            let c = regs.cf;
            let (v, z, h) = dec8(read_target(regs, bus, t));
            write_target(regs, bus, t, v);
            regs.set_flags(z, true, h, c);
            if t == Target::AtHL {
                2
            } else {
                1
            }
        },
        Opcode::Alu(o, t) => {
            let b = read_target(regs, bus, t);
            let (v, f) = alu(o, regs.a, b, regs.cf);
            if o != AluOp::Cp {
                regs.set_r8(R::A, v);
            }
            regs.set_flags(f.z, f.n, f.h, f.c);
            if t == Target::AtHL {
                2
            } else {
                1
            }
        },
        Opcode::AluImm(o) => {
            let a = regs.a;
            let cy = regs.cf;
            let b = fetch_imm8(regs, bus);
            let (v, f) = alu(o, a, b, cy);
            if o != AluOp::Cp {
                regs.set_r8(R::A, v);
            }
            regs.set_flags(f.z, f.n, f.h, f.c);
            2
        },
        Opcode::Inc16(rr) => {
            let v = regs.get_r16(rr);
            regs.set_r16(rr, v.wrapping_add(1));
            2
        },
        Opcode::Dec16(rr) => {
            let v = regs.get_r16(rr);
            regs.set_r16(rr, v.wrapping_sub(1));
            2
        },
        Opcode::AddHL(rr) => {
            let z = regs.zf;
            let (v, h, c) = add16(regs.get_r16(RR::HL), regs.get_r16(rr));
            regs.set_r16(RR::HL, v);
            regs.set_flags(z, false, h, c);
            2
        },
        Opcode::AddSPe => {
            let e = fetch_imm8(regs, bus);
            let (v, h, c) = add_sp(regs.sp, e);
            regs.set_r16(RR::SP, v);
            regs.set_flags(false, false, h, c);
            4
        },
        Opcode::Daa => {
            let n = regs.nf;
            let (v, c) = daa(regs.a, n, regs.hf, regs.cf);
            regs.set_r8(R::A, v);
            regs.set_flags(v == 0, n, false, c);
            1
        },
        Opcode::Cpl => {
            regs.a = !regs.a;
            regs.nf = true;
            regs.hf = true;
            1
        },
        Opcode::Scf => {
            regs.set_flag(F::C);
            regs.unset_flag(F::H);
            regs.unset_flag(F::N);
            1
        },
        Opcode::Ccf => {
            let c = regs.is_flag(F::C);
            regs.flag(F::C, !c);
            regs.unset_flag(F::H);
            regs.unset_flag(F::N);
            1
        },
        Opcode::Rlca | Opcode::Rrca | Opcode::Rla | Opcode::Rra => {
            let s = match op {
                Opcode::Rlca => ShiftOp::Rlc,
                Opcode::Rrca => ShiftOp::Rrc,
                Opcode::Rla => ShiftOp::Rl,
                _ => ShiftOp::Rr,
            };
            let (v, c) = shift(s, regs.a, regs.cf);
            regs.set_r8(R::A, v);
            regs.set_flags(false, false, false, c);
            1
        },
        _ => 1,
    }
}

pub fn exec_cb(op: Opcode, regs: &mut Registers, bus: &mut Bus) -> (cost: u8)
    requires
        old(bus).wf(),
        is_cb(op),
        opcode_wf(op),
    ensures
        final(bus).wf(),
        (*final(regs), final(bus)@, cost) == cb_spec(op, *old(regs), old(bus)@),
{
    match op {
        Opcode::Shift(s, t) => {
            let (v, c) = shift(s, read_target(regs, bus, t), regs.cf);
            write_target(regs, bus, t, v);
            regs.set_flags(v == 0, false, false, c);
            2
        },
        Opcode::TestBit(n, t) => {
            let b = test_bit(read_target(regs, bus, t), n);
            let c = regs.cf;
            regs.set_flags(!b, false, true, c);
            2
        },
        Opcode::ResBit(n, t) => {
            let v = reset_bit(read_target(regs, bus, t), n);
            write_target(regs, bus, t, v);
            2
        },
        Opcode::SetBit(n, t) => {
            let v = set_bit(read_target(regs, bus, t), n);
            write_target(regs, bus, t, v);
            2
        },
        _ => 1,
    }
}

pub fn exec_jump(op: Opcode, regs: &mut Registers, bus: &mut Bus) -> (cost: u8)
    requires
        old(bus).wf(),
        is_jump(op),
    ensures
        final(bus).wf(),
        (*final(regs), final(bus)@, cost) == jump_spec(op, *old(regs), old(bus)@),
{
    match op {
        Opcode::Jp => {
            let nn = fetch_imm16(regs, bus);
            regs.set_r16(RR::PC, nn);
            4
        },
        Opcode::JpHL => {
            let hl = regs.get_r16(RR::HL);
            regs.set_r16(RR::PC, hl);
            1
        },
        Opcode::JpCond(c) => {
            let taken = cond_met(regs, c);
            let nn = fetch_imm16(regs, bus);
            if taken {
                regs.set_r16(RR::PC, nn);
                4
            } else {
                3
            }
        },
        Opcode::Jr => {
            let e = fetch_imm8(regs, bus);
            let pc = offset(regs.pc, e);
            regs.set_r16(RR::PC, pc);
            3
        },
        Opcode::JrCond(c) => {
            let taken = cond_met(regs, c);
            let e = fetch_imm8(regs, bus);
            if taken {
                let pc = offset(regs.pc, e);
                regs.set_r16(RR::PC, pc);
                3
            } else {
                2
            }
        },
        Opcode::Call => {
            let nn = fetch_imm16(regs, bus);
            let pc = regs.pc;
            push16(regs, bus, pc);
            regs.set_r16(RR::PC, nn);
            6
        },
        Opcode::CallCond(c) => {
            let taken = cond_met(regs, c);
            let nn = fetch_imm16(regs, bus);
            if taken {
                let pc = regs.pc;
                push16(regs, bus, pc);
                regs.set_r16(RR::PC, nn);
                6
            } else {
                3
            }
        },
        Opcode::Ret | Opcode::Reti => {
            let v = pop16(regs, bus);
            regs.set_r16(RR::PC, v);
            4
        },
        Opcode::RetCond(c) => {
            if cond_met(regs, c) {
                let v = pop16(regs, bus);
                regs.set_r16(RR::PC, v);
                5
            } else {
                2
            }
        },
        Opcode::Rst(v) => {
            let pc = regs.pc;
            push16(regs, bus, pc);
            regs.set_r16(RR::PC, v);
            4
        },
        _ => 1,
    }
}

/// Runs an instruction's effect on registers and bus and returns its cost.
pub fn step(op: Opcode, regs: &mut Registers, bus: &mut Bus) -> (cost: u8)
    requires
        old(bus).wf(),
        opcode_wf(op),
    ensures
        final(bus).wf(),
        (*final(regs), final(bus)@, cost) == step_spec(op, *old(regs), old(bus)@),
{
    if matches!(op, Opcode::Ld(..) | Opcode::LdImm(..) | Opcode::LdAInd(..) | Opcode::LdIndA(..)
        | Opcode::LdAAbs | Opcode::LdAbsA | Opcode::LdhAC | Opcode::LdhCA | Opcode::LdhAN
        | Opcode::LdhNA | Opcode::LdRRImm(..) | Opcode::LdAbsSP | Opcode::LdSPHL | Opcode::Push(..)
        | Opcode::Pop(..) | Opcode::LdHLSPe) {
        exec_load(op, regs, bus)
    } else if matches!(op, Opcode::Inc(..) | Opcode::Dec(..) | Opcode::Alu(..) | Opcode::AluImm(..)
        | Opcode::Inc16(..) | Opcode::Dec16(..) | Opcode::AddHL(..) | Opcode::AddSPe | Opcode::Daa
        | Opcode::Cpl | Opcode::Scf | Opcode::Ccf | Opcode::Rlca | Opcode::Rrca | Opcode::Rla
        | Opcode::Rra) {
        exec_arith(op, regs, bus)
    } else if matches!(op, Opcode::Shift(..) | Opcode::TestBit(..) | Opcode::ResBit(..)
        | Opcode::SetBit(..)) {
        exec_cb(op, regs, bus)
    } else if matches!(op, Opcode::Jp | Opcode::JpHL | Opcode::JpCond(..) | Opcode::Jr
        | Opcode::JrCond(..) | Opcode::Call | Opcode::CallCond(..) | Opcode::Ret | Opcode::RetCond(..)
        | Opcode::Reti | Opcode::Rst(..)) {
        exec_jump(op, regs, bus)
    } else {
        1
    }
}

} // verus!
