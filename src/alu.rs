//! Arithmetic, logic, rotate and bit operations on bytes and words, with the
//! flags each one produces.
use vstd::prelude::*;

verus! {

/// The four flags an operation produces.
#[derive(Debug, Clone, Copy, PartialEq, Eq, Structural)]
pub struct Flags {
    pub z: bool,
    pub n: bool,
    pub h: bool,
    pub c: bool,
}

/// The eight accumulator operations.
#[derive(Debug, Clone, Copy, PartialEq, Eq, Structural)]
pub enum AluOp {
    Add,
    Adc,
    Sub,
    Sbc,
    And,
    Xor,
    Or,
    Cp,
}

/// The eight CB-prefixed rotate and shift operations.
#[derive(Debug, Clone, Copy, PartialEq, Eq, Structural)]
pub enum ShiftOp {
    Rlc,
    Rrc,
    Rl,
    Rr,
    Sla,
    Sra,
    Swap,
    Srl,
}

pub open spec fn carry_in(c: bool) -> int {
    if c {
        1
    } else {
        0
    }
}

/// Result and flags of `a op b`, with carry-in `cy`.
pub open spec fn alu_spec(op: AluOp, a: u8, b: u8, cy: bool) -> (u8, Flags) {
    let k = carry_in(cy);
    match op {
        AluOp::Add => {
            let r = ((a + b) % 256) as u8;
            (r, Flags { z: r == 0, n: false, h: a % 16 + b % 16 > 15, c: a + b > 255 })
        },
        AluOp::Adc => {
            let r = ((a + b + k) % 256) as u8;
            (r, Flags { z: r == 0, n: false, h: a % 16 + b % 16 + k > 15, c: a + b + k > 255 })
        },
        AluOp::Sub | AluOp::Cp => {
            let r = ((a - b + 256) % 256) as u8;
            (r, Flags { z: r == 0, n: true, h: b % 16 > a % 16, c: b > a })
        },
        AluOp::Sbc => {
            let r = ((a - b - k + 512) % 256) as u8;
            (r, Flags { z: r == 0, n: true, h: b % 16 + k > a % 16, c: b + k > a })
        },
        AluOp::And => {
            let r = a & b;
            (r, Flags { z: r == 0, n: false, h: true, c: false })
        },
        AluOp::Xor => {
            let r = a ^ b;
            (r, Flags { z: r == 0, n: false, h: false, c: false })
        },
        AluOp::Or => {
            let r = a | b;
            (r, Flags { z: r == 0, n: false, h: false, c: false })
        },
    }
}

pub fn alu(op: AluOp, a: u8, b: u8, cy: bool) -> (r: (u8, Flags))
    ensures
        r == alu_spec(op, a, b, cy),
{
    let k: u16 = if cy {
        1
    } else {
        0
    };
    let wa = a as u16;
    let wb = b as u16;
    match op {
        AluOp::Add => {
            let r = ((wa + wb) % 256) as u8;
            (r, Flags { z: r == 0, n: false, h: wa % 16 + wb % 16 > 15, c: wa + wb > 255 })
        },
        AluOp::Adc => {
            let r = ((wa + wb + k) % 256) as u8;
            (r, Flags { z: r == 0, n: false, h: wa % 16 + wb % 16 + k > 15, c: wa + wb + k > 255 })
        },
        AluOp::Sub | AluOp::Cp => {
            let r = ((wa + 256 - wb) % 256) as u8;
            (r, Flags { z: r == 0, n: true, h: wb % 16 > wa % 16, c: wb > wa })
        },
        AluOp::Sbc => {
            let r = ((wa + 512 - wb - k) % 256) as u8;
            (r, Flags { z: r == 0, n: true, h: wb % 16 + k > wa % 16, c: wb + k > wa })
        },
        AluOp::And => {
            let r = a & b;
            (r, Flags { z: r == 0, n: false, h: true, c: false })
        },
        AluOp::Xor => {
            let r = a ^ b;
            (r, Flags { z: r == 0, n: false, h: false, c: false })
        },
        AluOp::Or => {
            let r = a | b;
            (r, Flags { z: r == 0, n: false, h: false, c: false })
        },
    }
}

/// Result and carry-out of a rotate or shift of `v`, with carry-in `cy`.
pub open spec fn shift_spec(op: ShiftOp, v: u8, cy: bool) -> (u8, bool) {
    match op {
        ShiftOp::Rlc => (((v * 2) % 256 + v / 128) as u8, v >= 128),
        ShiftOp::Rrc => ((v / 2 + (v % 2) * 128) as u8, v % 2 == 1),
        ShiftOp::Rl => (((v * 2) % 256 + carry_in(cy)) as u8, v >= 128),
        ShiftOp::Rr => ((v / 2 + carry_in(cy) * 128) as u8, v % 2 == 1),
        ShiftOp::Sla => (((v * 2) % 256) as u8, v >= 128),
        ShiftOp::Sra => ((v / 2 + (v / 128) * 128) as u8, v % 2 == 1),
        ShiftOp::Swap => (((v % 16) * 16 + v / 16) as u8, false),
        ShiftOp::Srl => ((v / 2) as u8, v % 2 == 1),
    }
}

pub fn shift(op: ShiftOp, v: u8, cy: bool) -> (r: (u8, bool))
    ensures
        r == shift_spec(op, v, cy),
{
    let k: u8 = if cy {
        1
    } else {
        0
    };
    match op {
        ShiftOp::Rlc => ((v % 128) * 2 + v / 128, v >= 128),
        ShiftOp::Rrc => (v / 2 + (v % 2) * 128, v % 2 == 1),
        ShiftOp::Rl => ((v % 128) * 2 + k, v >= 128),
        ShiftOp::Rr => (v / 2 + k * 128, v % 2 == 1),
        ShiftOp::Sla => ((v % 128) * 2, v >= 128),
        ShiftOp::Sra => (v / 2 + (v / 128) * 128, v % 2 == 1),
        ShiftOp::Swap => ((v % 16) * 16 + v / 16, false),
        ShiftOp::Srl => (v / 2, v % 2 == 1),
    }
}

/// Whether bit `n` of `v` is set.
pub open spec fn bit_of(v: u8, n: u8) -> bool {
    (v >> n) & 1 == 1
}

pub fn test_bit(v: u8, n: u8) -> (r: bool)
    requires
        n < 8,
    ensures
        r == bit_of(v, n),
{
    (v >> n) & 1 == 1
}

/// `v` with bit `n` cleared.
pub open spec fn res_spec(v: u8, n: u8) -> u8 {
    v & !(1u8 << n)
}

pub fn reset_bit(v: u8, n: u8) -> (r: u8)
    requires
        n < 8,
    ensures
        r == res_spec(v, n),
{
    v & !(1u8 << n)
}

/// `v` with bit `n` set.
pub open spec fn set_spec(v: u8, n: u8) -> u8 {
    v | (1u8 << n)
}

pub fn set_bit(v: u8, n: u8) -> (r: u8)
    requires
        n < 8,
    ensures
        r == set_spec(v, n),
{
    v | (1u8 << n)
}

/// Result, zero and half-carry of an 8-bit increment (carry is kept).
pub open spec fn inc_spec(v: u8) -> (u8, bool, bool) {
    let r = ((v + 1) % 256) as u8;
    (r, r == 0, v % 16 == 15)
}

pub fn inc8(v: u8) -> (r: (u8, bool, bool))
    ensures
        r == inc_spec(v),
{
    let r = v.wrapping_add(1);
    (r, r == 0, v % 16 == 15)
}

/// Result, zero and half-borrow of an 8-bit decrement (carry is kept).
pub open spec fn dec_spec(v: u8) -> (u8, bool, bool) {
    let r = ((v + 255) % 256) as u8;
    (r, r == 0, v % 16 == 0)
}

pub fn dec8(v: u8) -> (r: (u8, bool, bool))
    ensures
        r == dec_spec(v),
{
    let r = v.wrapping_sub(1);
    (r, r == 0, v % 16 == 0)
}

/// Sum, half-carry (out of bit 11) and carry (out of bit 15) of a 16-bit add.
pub open spec fn add16_spec(a: u16, b: u16) -> (u16, bool, bool) {
    (((a + b) % 65536) as u16, a % 4096 + b % 4096 > 4095, a + b > 65535)
}

pub fn add16(a: u16, b: u16) -> (r: (u16, bool, bool))
    ensures
        r == add16_spec(a, b),
{
    (a.wrapping_add(b), a % 4096 + b % 4096 > 4095, a as u32 + b as u32 > 65535)
}

/// A byte read as a two's-complement offset.
pub open spec fn signed(e: u8) -> int {
    if e < 128 {
        e as int
    } else {
        e as int - 256
    }
}

/// `a` moved by the signed offset `e`, wrapping.
pub open spec fn offset_spec(a: u16, e: u8) -> u16 {
    ((a + signed(e) + 65536) % 65536) as u16
}

pub fn offset(a: u16, e: u8) -> (r: u16)
    ensures
        r == offset_spec(a, e),
{
    if e < 128 {
        a.wrapping_add(e as u16)
    } else {
        a.wrapping_sub(256 - e as u16)
    }
}

/// Sum, half-carry and carry of SP plus a signed offset; the flags come from
/// the unsigned low byte and low nibble.
pub open spec fn add_sp_spec(sp: u16, e: u8) -> (u16, bool, bool) {
    (offset_spec(sp, e), sp % 16 + e % 16 > 15, sp % 256 + e > 255)
}

pub fn add_sp(sp: u16, e: u8) -> (r: (u16, bool, bool))
    ensures
        r == add_sp_spec(sp, e),
{
    (offset(sp, e), sp % 16 + (e % 16) as u16 > 15, sp % 256 + e as u16 > 255)
}

/// Decimal adjust after a BCD add (`n` clear) or subtract (`n` set): the
/// adjusted accumulator and the new carry.
pub open spec fn daa_spec(a: u8, n: bool, h: bool, c: bool) -> (u8, bool) {
    if !n {
        let a1: int = if h || a % 16 > 9 {
            a + 6
        } else {
            a as int
        };
        let up = c || a1 > 0x9F;
        let a2: int = if up {
            a1 + 0x60
        } else {
            a1
        };
        ((a2 % 256) as u8, up)
    } else {
        let a1: int = if h {
            a - 6
        } else {
            a as int
        };
        let a2: int = if c {
            a1 - 0x60
        } else {
            a1
        };
        (((a2 + 256) % 256) as u8, c)
    }
}

pub fn daa(a: u8, n: bool, h: bool, c: bool) -> (r: (u8, bool))
    ensures
        r == daa_spec(a, n, h, c),
{
    if !n {
        let mut acc: u16 = a as u16;
        if h || a % 16 > 9 {
            acc = acc + 6;
        }
        let up = c || acc > 0x9F;
        if up {
            acc = acc + 0x60;
        }
        ((acc % 256) as u8, up)
    } else {
        let mut acc: u16 = a as u16 + 256;
        if h {
            acc = acc - 6;
        }
        if c {
            acc = acc - 0x60;
        }
        ((acc % 256) as u8, c)
    }
}

} // verus!
