//! The CPU register file: eight 8-bit registers paired into AF/BC/DE/HL, plus
//! SP and PC. The flag register keeps only its upper nibble; it is stored as
//! four booleans, so its lower nibble is zero by construction.
use vstd::prelude::*;

verus! {

/// An 8-bit register, by name.
#[derive(Debug, Clone, Copy, PartialEq, Eq, Structural)]
pub enum R {
    A,
    B,
    C,
    D,
    E,
    F,
    H,
    L,
}

/// A 16-bit register or register pair.
#[derive(Debug, Clone, Copy, PartialEq, Eq, Structural)]
pub enum RR {
    AF,
    BC,
    DE,
    HL,
    SP,
    PC,
}

/// A flag of the F register.
#[derive(Debug, Clone, Copy, PartialEq, Eq, Structural)]
pub enum F {
    Z,
    N,
    H,
    C,
}

/// The big-endian pairing of two bytes into a word.
pub open spec fn pair(hi: u8, lo: u8) -> u16 {
    (hi as int * 256 + lo as int) as u16
}

/// The high byte of a word.
pub open spec fn hi_byte(v: u16) -> u8 {
    (v as int / 256) as u8
}

/// The low byte of a word.
pub open spec fn lo_byte(v: u16) -> u8 {
    (v as int % 256) as u8
}

pub proof fn lemma_pair_split(v: u16)
    ensures
        pair(hi_byte(v), lo_byte(v)) == v,
{
}

pub proof fn lemma_split_pair(hi: u8, lo: u8)
    ensures
        hi_byte(pair(hi, lo)) == hi,
        lo_byte(pair(hi, lo)) == lo,
{
}

/// The byte that the flags Z, N, H, C form in bits 7..4 of F.
pub open spec fn flags_byte(z: bool, n: bool, h: bool, c: bool) -> u8 {
    ((if z { 0x80int } else { 0 }) + (if n { 0x40int } else { 0 }) + (if h { 0x20int } else { 0 }) + (
    if c { 0x10int } else { 0 })) as u8
}

/// The flags stored from a byte form that byte with its low nibble cleared.
proof fn lemma_flags_byte_of(v: u8)
    ensures
        flags_byte(v & 0x80 != 0, v & 0x40 != 0, v & 0x20 != 0, v & 0x10 != 0) == v & 0xF0,
{
    let z = v & 0x80 != 0;
    let n = v & 0x40 != 0;
    let h = v & 0x20 != 0;
    let c = v & 0x10 != 0;
    assert((v & 0xF0) == (if z { 0x80u8 } else { 0 }) + (if n { 0x40u8 } else { 0 }) + (if h {
        0x20u8
    } else {
        0
    }) + (if c { 0x10u8 } else { 0 })) by (bit_vector)
        requires
            z == (v & 0x80 != 0),
            n == (v & 0x40 != 0),
            h == (v & 0x20 != 0),
            c == (v & 0x10 != 0),
    ;
}

#[derive(Debug, Clone, Copy)]
pub struct Registers {
    pub a: u8,
    pub b: u8,
    pub c: u8,
    pub d: u8,
    pub e: u8,
    pub h: u8,
    pub l: u8,
    /// Zero flag (bit 7 of F).
    pub zf: bool,
    /// Subtract flag (bit 6 of F).
    pub nf: bool,
    /// Half-carry flag (bit 5 of F).
    pub hf: bool,
    /// Carry flag (bit 4 of F).
    pub cf: bool,
    pub sp: u16,
    pub pc: u16,
}

impl Registers {
    /// The value of F.
    pub open spec fn f_spec(self) -> u8 {
        flags_byte(self.zf, self.nf, self.hf, self.cf)
    }

    pub open spec fn r8(self, r: R) -> u8 {
        match r {
            R::A => self.a,
            R::B => self.b,
            R::C => self.c,
            R::D => self.d,
            R::E => self.e,
            R::F => self.f_spec(),
            R::H => self.h,
            R::L => self.l,
        }
    }

    pub open spec fn r16(self, rr: RR) -> u16 {
        match rr {
            RR::AF => pair(self.a, self.f_spec()),
            RR::BC => pair(self.b, self.c),
            RR::DE => pair(self.d, self.e),
            RR::HL => pair(self.h, self.l),
            RR::SP => self.sp,
            RR::PC => self.pc,
        }
    }

    pub open spec fn flag_spec(self, f: F) -> bool {
        match f {
            F::Z => self.zf,
            F::N => self.nf,
            F::H => self.hf,
            F::C => self.cf,
        }
    }

    /// The registers after F is written with `v`: the flags take bits 7..4.
    pub open spec fn with_f(self, v: u8) -> Registers {
        Registers {
            zf: v & 0x80 != 0,
            nf: v & 0x40 != 0,
            hf: v & 0x20 != 0,
            cf: v & 0x10 != 0,
            ..self
        }
    }

    pub open spec fn with_r8(self, r: R, v: u8) -> Registers {
        match r {
            R::A => Registers { a: v, ..self },
            R::B => Registers { b: v, ..self },
            R::C => Registers { c: v, ..self },
            R::D => Registers { d: v, ..self },
            R::E => Registers { e: v, ..self },
            R::F => self.with_f(v),
            R::H => Registers { h: v, ..self },
            R::L => Registers { l: v, ..self },
        }
    }

    pub open spec fn with_r16(self, rr: RR, v: u16) -> Registers {
        match rr {
            RR::AF => Registers { a: hi_byte(v), ..self }.with_f(lo_byte(v)),
            RR::BC => Registers { b: hi_byte(v), c: lo_byte(v), ..self },
            RR::DE => Registers { d: hi_byte(v), e: lo_byte(v), ..self },
            RR::HL => Registers { h: hi_byte(v), l: lo_byte(v), ..self },
            RR::SP => Registers { sp: v, ..self },
            RR::PC => Registers { pc: v, ..self },
        }
    }

    pub open spec fn with_flag(self, f: F, v: bool) -> Registers {
        match f {
            F::Z => Registers { zf: v, ..self },
            F::N => Registers { nf: v, ..self },
            F::H => Registers { hf: v, ..self },
            F::C => Registers { cf: v, ..self },
        }
    }

    /// The registers with all four flags given at once.
    pub open spec fn with_flags(self, z: bool, n: bool, h: bool, c: bool) -> Registers {
        Registers { zf: z, nf: n, hf: h, cf: c, ..self }
    }

    pub fn get_f(&self) -> (r: u8)
        ensures
            r == self.f_spec(),
    {
        let mut f: u8 = 0;
        if self.zf {
            f = f + 0x80;
        }
        if self.nf {
            f = f + 0x40;
        }
        if self.hf {
            f = f + 0x20;
        }
        if self.cf {
            f = f + 0x10;
        }
        f
    }

    pub fn get_r8(&self, r: R) -> (v: u8)
        ensures
            v == self.r8(r),
    {
        match r {
            R::A => self.a,
            R::B => self.b,
            R::C => self.c,
            R::D => self.d,
            R::E => self.e,
            R::F => self.get_f(),
            R::H => self.h,
            R::L => self.l,
        }
    }

    fn combine_rr(hi: u8, lo: u8) -> (v: u16)
        ensures
            v == pair(hi, lo),
    {
        (hi as u16) * 256 + (lo as u16)
    }

    pub fn get_r16(&self, rr: RR) -> (v: u16)
        ensures
            v == self.r16(rr),
    {
        match rr {
            RR::AF => Self::combine_rr(self.a, self.get_f()),
            RR::BC => Self::combine_rr(self.b, self.c),
            RR::DE => Self::combine_rr(self.d, self.e),
            RR::HL => Self::combine_rr(self.h, self.l),
            RR::SP => self.sp,
            RR::PC => self.pc,
        }
    }

    fn set_f(&mut self, v: u8)
        ensures
            *final(self) == old(self).with_f(v),
    {
        self.zf = v & 0x80 != 0;
        self.nf = v & 0x40 != 0;
        self.hf = v & 0x20 != 0;
        self.cf = v & 0x10 != 0;
    }

    pub fn set_r8(&mut self, r: R, v: u8)
        ensures
            *final(self) == old(self).with_r8(r, v),
    {
        match r {
            R::A => self.a = v,
            R::B => self.b = v,
            R::C => self.c = v,
            R::D => self.d = v,
            R::E => self.e = v,
            R::F => self.set_f(v),
            R::H => self.h = v,
            R::L => self.l = v,
        }
    }

    fn split_rr(v: u16) -> (r: (u8, u8))
        ensures
            r.0 == hi_byte(v),
            r.1 == lo_byte(v),
    {
        ((v / 256) as u8, (v % 256) as u8)
    }

    pub fn set_r16(&mut self, rr: RR, v: u16)
        ensures
            *final(self) == old(self).with_r16(rr, v),
    {
        let (hi, lo) = Self::split_rr(v);
        match rr {
            RR::AF => {
                self.a = hi;
                self.set_f(lo);
            },
            RR::BC => {
                self.b = hi;
                self.c = lo;
            },
            RR::DE => {
                self.d = hi;
                self.e = lo;
            },
            RR::HL => {
                self.h = hi;
                self.l = lo;
            },
            RR::SP => self.sp = v,
            RR::PC => self.pc = v,
        }
    }

    /// Returns PC and advances it by one.
    pub fn get_pc_and_increase(&mut self) -> (r: u16)
        ensures
            r == old(self).pc,
            *final(self) == (Registers { pc: old(self).pc.wrapping_add(1), ..*old(self) }),
    {
        let pc = self.pc;
        self.pc = pc.wrapping_add(1);
        pc
    }

    /// Returns HL and advances it by one.
    pub fn get_hl_and_increase(&mut self) -> (r: u16)
        ensures
            r == old(self).r16(RR::HL),
            *final(self) == old(self).with_r16(RR::HL, r.wrapping_add(1)),
    {
        let hl = self.get_r16(RR::HL);
        self.set_r16(RR::HL, hl.wrapping_add(1));
        hl
    }

    /// Returns HL and steps it back by one.
    pub fn get_hl_and_decrease(&mut self) -> (r: u16)
        ensures
            r == old(self).r16(RR::HL),
            *final(self) == old(self).with_r16(RR::HL, r.wrapping_sub(1)),
    {
        let hl = self.get_r16(RR::HL);
        self.set_r16(RR::HL, hl.wrapping_sub(1));
        hl
    }

    /// Returns SP and steps it back by one.
    pub fn get_sp_and_decrease(&mut self) -> (r: u16)
        ensures
            r == old(self).sp,
            *final(self) == (Registers { sp: old(self).sp.wrapping_sub(1), ..*old(self) }),
    {
        let sp = self.sp;
        self.sp = sp.wrapping_sub(1);
        sp
    }

    /// Returns SP and advances it by one.
    pub fn get_sp_and_increase(&mut self) -> (r: u16)
        ensures
            r == old(self).sp,
            *final(self) == (Registers { sp: old(self).sp.wrapping_add(1), ..*old(self) }),
    {
        let sp = self.sp;
        self.sp = sp.wrapping_add(1);
        sp
    }

    /// Steps SP back by one and returns the new value.
    pub fn decrease_and_get_sp(&mut self) -> (r: u16)
        ensures
            r == old(self).sp.wrapping_sub(1),
            *final(self) == (Registers { sp: r, ..*old(self) }),
    {
        self.sp = self.sp.wrapping_sub(1);
        self.sp
    }

    /// Advances SP by one and returns the new value.
    pub fn increase_and_get_sp(&mut self) -> (r: u16)
        ensures
            r == old(self).sp.wrapping_add(1),
            *final(self) == (Registers { sp: r, ..*old(self) }),
    {
        self.sp = self.sp.wrapping_add(1);
        self.sp
    }

    pub fn set_flag(&mut self, f: F)
        ensures
            *final(self) == old(self).with_flag(f, true),
    {
        self.flag(f, true);
    }

    pub fn unset_flag(&mut self, f: F)
        ensures
            *final(self) == old(self).with_flag(f, false),
    {
        self.flag(f, false);
    }

    /// Clears all four flags.
    pub fn unset_flags(&mut self)
        ensures
            *final(self) == old(self).with_flags(false, false, false, false),
    {
        self.zf = false;
        self.nf = false;
        self.hf = false;
        self.cf = false;
    }

    pub fn is_flag(&self, f: F) -> (r: bool)
        ensures
            r == self.flag_spec(f),
    {
        match f {
            F::Z => self.zf,
            F::N => self.nf,
            F::H => self.hf,
            F::C => self.cf,
        }
    }

    /// Sets or clears one flag.
    pub fn flag(&mut self, f: F, set: bool)
        ensures
            *final(self) == old(self).with_flag(f, set),
    {
        match f {
            F::Z => self.zf = set,
            F::N => self.nf = set,
            F::H => self.hf = set,
            F::C => self.cf = set,
        }
    }

    /// Assigns all four flags at once.
    pub fn set_flags(&mut self, z: bool, n: bool, h: bool, c: bool)
        ensures
            *final(self) == old(self).with_flags(z, n, h, c),
    {
        self.zf = z;
        self.nf = n;
        self.hf = h;
        self.cf = c;
    }

    /// All registers zero.
    pub open spec fn zeroed() -> Registers {
        Registers {
            a: 0,
            b: 0,
            c: 0,
            d: 0,
            e: 0,
            h: 0,
            l: 0,
            zf: false,
            nf: false,
            hf: false,
            cf: false,
            sp: 0,
            pc: 0,
        }
    }
}

impl Default for Registers {
    fn default() -> (r: Self)
        ensures
            r == Registers::zeroed(),
    {
        Registers {
            a: 0,
            b: 0,
            c: 0,
            d: 0,
            e: 0,
            h: 0,
            l: 0,
            zf: false,
            nf: false,
            hf: false,
            cf: false,
            sp: 0,
            pc: 0,
        }
    }
}

/// Decoding the byte the flags form gives the flags back.
pub proof fn lemma_flags_decode(z: bool, n: bool, h: bool, c: bool)
    ensures
        (flags_byte(z, n, h, c) & 0x80 != 0) == z,
        (flags_byte(z, n, h, c) & 0x40 != 0) == n,
        (flags_byte(z, n, h, c) & 0x20 != 0) == h,
        (flags_byte(z, n, h, c) & 0x10 != 0) == c,
        flags_byte(z, n, h, c) & 0x0F == 0,
{
    let f = flags_byte(z, n, h, c);
    assert(f == (if z { 0x80u8 } else { 0 }) + (if n { 0x40u8 } else { 0 }) + (if h {
        0x20u8
    } else {
        0
    }) + (if c { 0x10u8 } else { 0 }));
    assert((f & 0x80 != 0) == z && (f & 0x40 != 0) == n && (f & 0x20 != 0) == h && (f & 0x10 != 0)
        == c && f & 0x0F == 0) by (bit_vector)
        requires
            f == (if z { 0x80u8 } else { 0 }) + (if n { 0x40u8 } else { 0 }) + (if h {
                0x20u8
            } else {
                0
            }) + (if c { 0x10u8 } else { 0 }),
    ;
}

/// Writing F, or AF, keeps only the upper nibble of the flag byte.
pub proof fn lemma_write_f_masks(r: Registers, v: u8, w: u16)
    ensures
        r.with_r8(R::F, v).r8(R::F) == v & 0xF0,
        r.with_r16(RR::AF, w).r16(RR::AF) == pair(hi_byte(w), lo_byte(w) & 0xF0),
{
    lemma_flags_byte_of(v);
    lemma_flags_byte_of(lo_byte(w));
}

/// The low nibble of F is zero in every register state.
pub proof fn lemma_f_low_nibble_zero(r: Registers)
    ensures
        r.r8(R::F) & 0x0F == 0,
        r.r16(RR::AF) % 16 == 0,
{
    lemma_flags_decode(r.zf, r.nf, r.hf, r.cf);
}

} // verus!
