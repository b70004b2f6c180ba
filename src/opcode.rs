//! Instruction decoding: a fetched byte (or a 0xCB-prefixed byte) to the
//! instruction it names.
use vstd::prelude::*;
use crate::alu::{AluOp, ShiftOp};
use crate::registers::{R, RR};

verus! {

/// The operand encoded in three bits of an opcode: a register or the byte at (HL).
#[derive(Debug, Clone, Copy, PartialEq, Eq, Structural)]
pub enum Target {
    B,
    C,
    D,
    E,
    H,
    L,
    AtHL,
    A,
}

/// A branch condition.
#[derive(Debug, Clone, Copy, PartialEq, Eq, Structural)]
pub enum Cond {
    NZ,
    Z,
    NC,
    C,
}

/// The address forms of `LD A,(..)` and `LD (..),A`.
#[derive(Debug, Clone, Copy, PartialEq, Eq, Structural)]
pub enum Ind {
    BC,
    DE,
    /// (HL), then HL is incremented.
    HLInc,
    /// (HL), then HL is decremented.
    HLDec,
}

/// The interrupt sources in priority order.
#[derive(Debug, Clone, Copy, PartialEq, Eq, Structural)]
pub enum InterruptType {
    VBLANK,
    LCD,
    TIMER,
    SERIAL,
    JOYPAD,
}

/// A decoded instruction.
#[derive(Debug, Clone, Copy, PartialEq, Eq, Structural)]
pub enum Opcode {
    Nop,
    Stop,
    Halt,
    Scf,
    Ccf,
    Daa,
    Cpl,
    Di,
    Ei,
    /// LD dst,src between registers and (HL).
    Ld(Target, Target),
    /// LD dst,n.
    LdImm(Target),
    LdAInd(Ind),
    LdIndA(Ind),
    /// LD A,(nn).
    LdAAbs,
    /// LD (nn),A.
    LdAbsA,
    /// LD A,(0xFF00+C).
    LdhAC,
    /// LD (0xFF00+C),A.
    LdhCA,
    /// LD A,(0xFF00+n).
    LdhAN,
    /// LD (0xFF00+n),A.
    LdhNA,
    /// LD rr,nn.
    LdRRImm(RR),
    /// LD (nn),SP.
    LdAbsSP,
    LdSPHL,
    Push(RR),
    Pop(RR),
    /// LD HL,SP+e.
    LdHLSPe,
    Inc(Target),
    Dec(Target),
    Alu(AluOp, Target),
    /// The accumulator operation on an immediate byte.
    AluImm(AluOp),
    Inc16(RR),
    Dec16(RR),
    AddHL(RR),
    AddSPe,
    Rlca,
    Rla,
    Rrca,
    Rra,
    Shift(ShiftOp, Target),
    TestBit(u8, Target),
    ResBit(u8, Target),
    SetBit(u8, Target),
    Jp,
    JpHL,
    JpCond(Cond),
    Jr,
    JrCond(Cond),
    Call,
    CallCond(Cond),
    Ret,
    RetCond(Cond),
    Reti,
    /// Push PC and jump to the given vector.
    Rst(u16),
}

/// The operand named by three bits.
pub open spec fn target_of(k: u8) -> Target {
    match k % 8 {
        0 => Target::B,
        1 => Target::C,
        2 => Target::D,
        3 => Target::E,
        4 => Target::H,
        5 => Target::L,
        6 => Target::AtHL,
        _ => Target::A,
    }
}

fn target(k: u8) -> (t: Target)
    ensures
        t == target_of(k),
{
    match k % 8 {
        0 => Target::B,
        1 => Target::C,
        2 => Target::D,
        3 => Target::E,
        4 => Target::H,
        5 => Target::L,
        6 => Target::AtHL,
        _ => Target::A,
    }
}

/// The register a target names; (HL) has none.
pub open spec fn reg_of(t: Target) -> R {
    match t {
        Target::B => R::B,
        Target::C => R::C,
        Target::D => R::D,
        Target::E => R::E,
        Target::H => R::H,
        Target::L => R::L,
        _ => R::A,
    }
}

pub fn target_reg(t: Target) -> (r: R)
    ensures
        r == reg_of(t),
{
    match t {
        Target::B => R::B,
        Target::C => R::C,
        Target::D => R::D,
        Target::E => R::E,
        Target::H => R::H,
        Target::L => R::L,
        _ => R::A,
    }
}

pub open spec fn alu_op_of(k: u8) -> AluOp {
    match k % 8 {
        0 => AluOp::Add,
        1 => AluOp::Adc,
        2 => AluOp::Sub,
        3 => AluOp::Sbc,
        4 => AluOp::And,
        5 => AluOp::Xor,
        6 => AluOp::Or,
        _ => AluOp::Cp,
    }
}

fn alu_op(k: u8) -> (r: AluOp)
    ensures
        r == alu_op_of(k),
{
    match k % 8 {
        0 => AluOp::Add,
        1 => AluOp::Adc,
        2 => AluOp::Sub,
        3 => AluOp::Sbc,
        4 => AluOp::And,
        5 => AluOp::Xor,
        6 => AluOp::Or,
        _ => AluOp::Cp,
    }
}

pub open spec fn shift_op_of(k: u8) -> ShiftOp {
    match k % 8 {
        0 => ShiftOp::Rlc,
        1 => ShiftOp::Rrc,
        2 => ShiftOp::Rl,
        3 => ShiftOp::Rr,
        4 => ShiftOp::Sla,
        5 => ShiftOp::Sra,
        6 => ShiftOp::Swap,
        _ => ShiftOp::Srl,
    }
}

fn shift_op(k: u8) -> (r: ShiftOp)
    ensures
        r == shift_op_of(k),
{
    match k % 8 {
        0 => ShiftOp::Rlc,
        1 => ShiftOp::Rrc,
        2 => ShiftOp::Rl,
        3 => ShiftOp::Rr,
        4 => ShiftOp::Sla,
        5 => ShiftOp::Sra,
        6 => ShiftOp::Swap,
        _ => ShiftOp::Srl,
    }
}

/// The register pair of bits 5..4 in LD rr,nn, INC/DEC rr and ADD HL,rr.
pub open spec fn pair_of(k: u8) -> RR {
    match k % 4 {
        0 => RR::BC,
        1 => RR::DE,
        2 => RR::HL,
        _ => RR::SP,
    }
}

fn pair_sp(k: u8) -> (r: RR)
    ensures
        r == pair_of(k),
{
    match k % 4 {
        0 => RR::BC,
        1 => RR::DE,
        2 => RR::HL,
        _ => RR::SP,
    }
}

/// The register pair of bits 5..4 in PUSH and POP.
pub open spec fn stack_pair_of(k: u8) -> RR {
    match k % 4 {
        0 => RR::BC,
        1 => RR::DE,
        2 => RR::HL,
        _ => RR::AF,
    }
}

fn pair_af(k: u8) -> (r: RR)
    ensures
        r == stack_pair_of(k),
{
    match k % 4 {
        0 => RR::BC,
        1 => RR::DE,
        2 => RR::HL,
        _ => RR::AF,
    }
}

pub open spec fn cond_of(k: u8) -> Cond {
    match k % 4 {
        0 => Cond::NZ,
        1 => Cond::Z,
        2 => Cond::NC,
        _ => Cond::C,
    }
}

fn cond(k: u8) -> (r: Cond)
    ensures
        r == cond_of(k),
{
    match k % 4 {
        0 => Cond::NZ,
        1 => Cond::Z,
        2 => Cond::NC,
        _ => Cond::C,
    }
}

pub open spec fn ind_of(k: u8) -> Ind {
    match k % 4 {
        0 => Ind::BC,
        1 => Ind::DE,
        2 => Ind::HLInc,
        _ => Ind::HLDec,
    }
}

fn ind(k: u8) -> (r: Ind)
    ensures
        r == ind_of(k),
{
    match k % 4 {
        0 => Ind::BC,
        1 => Ind::DE,
        2 => Ind::HLInc,
        _ => Ind::HLDec,
    }
}

/// The base instruction table. An opcode byte splits into x (bits 7..6),
/// y (bits 5..3) and z (bits 2..0); y splits into p (bits 5..4) and q (bit 3).
/// Bytes with no instruction decode as NOP.
pub open spec fn decode(b: u8) -> Opcode {
    let x = b / 64;
    let y = (b / 8) % 8;
    let z = b % 8;
    let p = y / 2;
    let q = y % 2;
    if x == 1 {
        if b == 0x76 {
            Opcode::Halt
        } else {
            Opcode::Ld(target_of(y), target_of(z))
        }
    } else if x == 2 {
        Opcode::Alu(alu_op_of(y), target_of(z))
    } else if x == 0 {
        if z == 0 {
            if y == 0 {
                Opcode::Nop
            } else if y == 1 {
                Opcode::LdAbsSP
            } else if y == 2 {
                Opcode::Stop
            } else if y == 3 {
                Opcode::Jr
            } else {
                Opcode::JrCond(cond_of((y - 4) as u8))
            }
        } else if z == 1 {
            if q == 0 {
                Opcode::LdRRImm(pair_of(p))
            } else {
                Opcode::AddHL(pair_of(p))
            }
        } else if z == 2 {
            if q == 0 {
                Opcode::LdIndA(ind_of(p))
            } else {
                Opcode::LdAInd(ind_of(p))
            }
        } else if z == 3 {
            if q == 0 {
                Opcode::Inc16(pair_of(p))
            } else {
                Opcode::Dec16(pair_of(p))
            }
        } else if z == 4 {
            Opcode::Inc(target_of(y))
        } else if z == 5 {
            Opcode::Dec(target_of(y))
        } else if z == 6 {
            Opcode::LdImm(target_of(y))
        } else {
            match y {
                0 => Opcode::Rlca,
                1 => Opcode::Rrca,
                2 => Opcode::Rla,
                3 => Opcode::Rra,
                4 => Opcode::Daa,
                5 => Opcode::Cpl,
                6 => Opcode::Scf,
                _ => Opcode::Ccf,
            }
        }
    } else {
        if z == 0 {
            if y < 4 {
                Opcode::RetCond(cond_of(y))
            } else if y == 4 {
                Opcode::LdhNA
            } else if y == 5 {
                Opcode::AddSPe
            } else if y == 6 {
                Opcode::LdhAN
            } else {
                Opcode::LdHLSPe
            }
        } else if z == 1 {
            if q == 0 {
                Opcode::Pop(stack_pair_of(p))
            } else if p == 0 {
                Opcode::Ret
            } else if p == 1 {
                Opcode::Reti
            } else if p == 2 {
                Opcode::JpHL
            } else {
                Opcode::LdSPHL
            }
        } else if z == 2 {
            if y < 4 {
                Opcode::JpCond(cond_of(y))
            } else if y == 4 {
                Opcode::LdhCA
            } else if y == 5 {
                Opcode::LdAbsA
            } else if y == 6 {
                Opcode::LdhAC
            } else {
                Opcode::LdAAbs
            }
        } else if z == 3 {
            if y == 0 {
                Opcode::Jp
            } else if y == 6 {
                Opcode::Di
            } else if y == 7 {
                Opcode::Ei
            } else {
                Opcode::Nop
            }
        } else if z == 4 {
            if y < 4 {
                Opcode::CallCond(cond_of(y))
            } else {
                Opcode::Nop
            }
        } else if z == 5 {
            if q == 0 {
                Opcode::Push(stack_pair_of(p))
            } else if p == 0 {
                Opcode::Call
            } else {
                Opcode::Nop
            }
        } else if z == 6 {
            Opcode::AluImm(alu_op_of(y))
        } else {
            Opcode::Rst((y * 8) as u16)
        }
    }
}

/// The 0xCB-prefixed table: rotates and shifts, then BIT, RES and SET.
pub open spec fn decode_cb(b: u8) -> Opcode {
    let x = b / 64;
    let y = ((b / 8) % 8) as u8;
    let t = target_of(b % 8);
    if x == 0 {
        Opcode::Shift(shift_op_of(y), t)
    } else if x == 1 {
        Opcode::TestBit(y, t)
    } else if x == 2 {
        Opcode::ResBit(y, t)
    } else {
        Opcode::SetBit(y, t)
    }
}

/// Whether an instruction is well formed: bit numbers below 8, register
/// pairs of the kind each form accepts, vectors on the RST grid.
pub open spec fn opcode_wf(op: Opcode) -> bool {
    match op {
        Opcode::TestBit(n, _) | Opcode::ResBit(n, _) | Opcode::SetBit(n, _) => n < 8,
        Opcode::LdRRImm(rr) | Opcode::Inc16(rr) | Opcode::Dec16(rr) | Opcode::AddHL(rr) => rr
            != RR::AF && rr != RR::PC,
        Opcode::Push(rr) | Opcode::Pop(rr) => rr != RR::SP && rr != RR::PC,
        Opcode::Ld(d, s) => !(d == Target::AtHL && s == Target::AtHL),
        Opcode::Rst(v) => v <= 0x60 && v % 8 == 0,
        _ => true,
    }
}

impl Opcode {
    pub fn fetch(b: u8) -> (r: Opcode)
        ensures
            r == decode(b),
            opcode_wf(r),
    {
        let x = b / 64;
        let y = (b / 8) % 8;
        let z = b % 8;
        let p = y / 2;
        let q = y % 2;
        if x == 1 {
            if b == 0x76 {
                Opcode::Halt
            } else {
                Opcode::Ld(target(y), target(z))
            }
        } else if x == 2 {
            Opcode::Alu(alu_op(y), target(z))
        } else if x == 0 {
            if z == 0 {
                if y == 0 {
                    Opcode::Nop
                } else if y == 1 {
                    Opcode::LdAbsSP
                } else if y == 2 {
                    Opcode::Stop
                } else if y == 3 {
                    Opcode::Jr
                } else {
                    Opcode::JrCond(cond(y - 4))
                }
            } else if z == 1 {
                if q == 0 {
                    Opcode::LdRRImm(pair_sp(p))
                } else {
                    Opcode::AddHL(pair_sp(p))
                }
            } else if z == 2 {
                if q == 0 {
                    Opcode::LdIndA(ind(p))
                } else {
                    Opcode::LdAInd(ind(p))
                }
            } else if z == 3 {
                if q == 0 {
                    Opcode::Inc16(pair_sp(p))
                } else {
                    Opcode::Dec16(pair_sp(p))
                }
            } else if z == 4 {
                Opcode::Inc(target(y))
            } else if z == 5 {
                Opcode::Dec(target(y))
            } else if z == 6 {
                Opcode::LdImm(target(y))
            } else {
                match y {
                    0 => Opcode::Rlca,
                    1 => Opcode::Rrca,
                    2 => Opcode::Rla,
                    3 => Opcode::Rra,
                    4 => Opcode::Daa,
                    5 => Opcode::Cpl,
                    6 => Opcode::Scf,
                    _ => Opcode::Ccf,
                }
            }
        } else {
            if z == 0 {
                if y < 4 {
                    Opcode::RetCond(cond(y))
                } else if y == 4 {
                    Opcode::LdhNA
                } else if y == 5 {
                    Opcode::AddSPe
                } else if y == 6 {
                    Opcode::LdhAN
                } else {
                    Opcode::LdHLSPe
                }
            } else if z == 1 {
                if q == 0 {
                    Opcode::Pop(pair_af(p))
                } else if p == 0 {
                    Opcode::Ret
                } else if p == 1 {
                    Opcode::Reti
                } else if p == 2 {
                    Opcode::JpHL
                } else {
                    Opcode::LdSPHL
                }
            } else if z == 2 {
                if y < 4 {
                    Opcode::JpCond(cond(y))
                } else if y == 4 {
                    Opcode::LdhCA
                } else if y == 5 {
                    Opcode::LdAbsA
                } else if y == 6 {
                    Opcode::LdhAC
                } else {
                    Opcode::LdAAbs
                }
            } else if z == 3 {
                if y == 0 {
                    Opcode::Jp
                } else if y == 6 {
                    Opcode::Di
                } else if y == 7 {
                    Opcode::Ei
                } else {
                    Opcode::Nop
                }
            } else if z == 4 {
                if y < 4 {
                    Opcode::CallCond(cond(y))
                } else {
                    Opcode::Nop
                }
            } else if z == 5 {
                if q == 0 {
                    Opcode::Push(pair_af(p))
                } else if p == 0 {
                    Opcode::Call
                } else {
                    Opcode::Nop
                }
            } else if z == 6 {
                Opcode::AluImm(alu_op(y))
            } else {
                Opcode::Rst(y as u16 * 8)
            }
        }
    }

    pub fn fetch_cb(b: u8) -> (r: Opcode)
        ensures
            r == decode_cb(b),
            opcode_wf(r),
    {
        let x = b / 64;
        let y = (b / 8) % 8;
        let t = target(b % 8);
        if x == 0 {
            Opcode::Shift(shift_op(y), t)
        } else if x == 1 {
            Opcode::TestBit(y, t)
        } else if x == 2 {
            Opcode::ResBit(y, t)
        } else {
            Opcode::SetBit(y, t)
        }
    }

    /// The call that dispatches an interrupt: RST to its vector.
    pub fn new_interrupt(interrupt_type: InterruptType) -> (r: Opcode)
        ensures
            r == Opcode::Rst(interrupt_vector(interrupt_type)),
    {
        Opcode::Rst(vector(interrupt_type))
    }
}

/// The handler address of each interrupt source.
pub open spec fn interrupt_vector(t: InterruptType) -> u16 {
    match t {
        InterruptType::VBLANK => 0x40,
        InterruptType::LCD => 0x48,
        InterruptType::TIMER => 0x50,
        InterruptType::SERIAL => 0x58,
        InterruptType::JOYPAD => 0x60,
    }
}

fn vector(t: InterruptType) -> (v: u16)
    ensures
        v == interrupt_vector(t),
{
    match t {
        InterruptType::VBLANK => 0x40,
        InterruptType::LCD => 0x48,
        InterruptType::TIMER => 0x50,
        InterruptType::SERIAL => 0x58,
        InterruptType::JOYPAD => 0x60,
    }
}

/// The interrupt source of IF/IE bit `i`.
pub open spec fn interrupt_of(i: u8) -> InterruptType {
    match i {
        0 => InterruptType::VBLANK,
        1 => InterruptType::LCD,
        2 => InterruptType::TIMER,
        3 => InterruptType::SERIAL,
        _ => InterruptType::JOYPAD,
    }
}

/// The IF/IE bit of an interrupt source.
pub open spec fn interrupt_bit(t: InterruptType) -> u8 {
    match t {
        InterruptType::VBLANK => 0,
        InterruptType::LCD => 1,
        InterruptType::TIMER => 2,
        InterruptType::SERIAL => 3,
        InterruptType::JOYPAD => 4,
    }
}

impl InterruptType {
    pub fn from(u: u8) -> (r: InterruptType)
        requires
            u < 5,
        ensures
            r == interrupt_of(u),
            interrupt_bit(r) == u,
    {
        match u {
            0 => InterruptType::VBLANK,
            1 => InterruptType::LCD,
            2 => InterruptType::TIMER,
            3 => InterruptType::SERIAL,
            _ => InterruptType::JOYPAD,
        }
    }
}

} // verus!
