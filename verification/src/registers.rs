//! The register file: eight 8-bit registers, a 16-bit stack pointer, and
//! big-endian pairing of the 8-bit registers into the 16-bit pairs BC, DE
//! and HL.

use vstd::prelude::*;

verus! {

/// One of the individually addressable 8-bit registers.
#[derive(Clone, Copy, Debug, PartialEq, Eq, Structural)]
pub enum Reg8 {
    A,
    B,
    C,
    D,
    E,
    H,
    L,
}

/// One of the addressable 16-bit register pairs. BC, DE and HL are two
/// 8-bit registers concatenated (first register is the high byte); SP is a
/// true 16-bit register.
#[derive(Clone, Copy, Debug, PartialEq, Eq, Structural)]
pub enum Reg16 {
    BC,
    DE,
    HL,
    SP,
}

/// The register file. The flag register `f` is carried so that contracts can
/// state that an instruction leaves the flags alone; no instruction in this
/// core addresses it directly.
#[derive(Clone, Copy, Debug, PartialEq, Eq, Structural)]
pub struct Registers {
    pub a: u8,
    pub f: u8,
    pub b: u8,
    pub c: u8,
    pub d: u8,
    pub e: u8,
    pub h: u8,
    pub l: u8,
    pub sp: u16,
}

/// The 16-bit word whose high byte is `hi` and whose low byte is `lo`.
pub open spec fn word(hi: u8, lo: u8) -> u16 {
    (hi * 0x100 + lo) as u16
}

/// The high byte of a 16-bit value.
pub open spec fn hi_byte(v: u16) -> u8 {
    (v / 0x100) as u8
}

/// The low byte of a 16-bit value.
pub open spec fn lo_byte(v: u16) -> u8 {
    (v % 0x100) as u8
}

/// Law: recomposing the two bytes of a 16-bit value gives the value back.
pub proof fn lemma_split_word(v: u16)
    ensures
        word(hi_byte(v), lo_byte(v)) == v,
{
    assert(word(hi_byte(v), lo_byte(v)) == v) by (bit_vector);
}

/// Composes two 8-bit halves into a 16-bit word, high byte first.
pub fn compose16(hi: u8, lo: u8) -> (v: u16)
    ensures
        v == word(hi, lo),
{
    proof {
        assert(((hi as u16) << 8) | (lo as u16) == word(hi, lo)) by (bit_vector);
    }
    ((hi as u16) << 8) | (lo as u16)
}

/// Extracts the high byte of a 16-bit word.
pub fn split_hi(v: u16) -> (hi: u8)
    ensures
        hi == hi_byte(v),
{
    proof {
        assert((v >> 8) as u8 == hi_byte(v)) by (bit_vector);
    }
    (v >> 8) as u8
}

/// Extracts the low byte of a 16-bit word.
pub fn split_lo(v: u16) -> (lo: u8)
    ensures
        lo == lo_byte(v),
{
    proof {
        assert((v & 0xff) as u8 == lo_byte(v)) by (bit_vector);
    }
    (v & 0xff) as u8
}

impl Registers {
    /// The architecture-defined state at CPU reset: every register cleared.
    pub open spec fn reset() -> Registers {
        Registers { a: 0, f: 0, b: 0, c: 0, d: 0, e: 0, h: 0, l: 0, sp: 0 }
    }

    /// The value an 8-bit register currently holds.
    pub open spec fn reg8(self, r: Reg8) -> u8 {
        match r {
            Reg8::A => self.a,
            Reg8::B => self.b,
            Reg8::C => self.c,
            Reg8::D => self.d,
            Reg8::E => self.e,
            Reg8::H => self.h,
            Reg8::L => self.l,
        }
    }

    /// The value a 16-bit pair currently holds: the two halves recomposed
    /// for a split pair, the register itself for SP.
    pub open spec fn reg16(self, p: Reg16) -> u16 {
        match p {
            Reg16::BC => word(self.b, self.c),
            Reg16::DE => word(self.d, self.e),
            Reg16::HL => word(self.h, self.l),
            Reg16::SP => self.sp,
        }
    }

    /// The register file after the 8-bit register `r` is set to `v`.
    pub open spec fn with8(self, r: Reg8, v: u8) -> Registers {
        match r {
            Reg8::A => Registers { a: v, ..self },
            Reg8::B => Registers { b: v, ..self },
            Reg8::C => Registers { c: v, ..self },
            Reg8::D => Registers { d: v, ..self },
            Reg8::E => Registers { e: v, ..self },
            Reg8::H => Registers { h: v, ..self },
            Reg8::L => Registers { l: v, ..self },
        }
    }

    /// The register file after the 16-bit pair `p` is set to `v`: the two
    /// halves of `v` for a split pair, `v` itself for SP.
    pub open spec fn with16(self, p: Reg16, v: u16) -> Registers {
        match p {
            Reg16::BC => Registers { b: hi_byte(v), c: lo_byte(v), ..self },
            Reg16::DE => Registers { d: hi_byte(v), e: lo_byte(v), ..self },
            Reg16::HL => Registers { h: hi_byte(v), l: lo_byte(v), ..self },
            Reg16::SP => Registers { sp: v, ..self },
        }
    }

    /// A fresh register file holding the reset values.
    pub fn new() -> (regs: Registers)
        ensures
            regs == Registers::reset(),
    {
        Registers { a: 0, f: 0, b: 0, c: 0, d: 0, e: 0, h: 0, l: 0, sp: 0 }
    }

    /// Reads one 8-bit register.
    pub fn read8(&self, r: Reg8) -> (v: u8)
        ensures
            v == self.reg8(r),
    {
        match r {
            Reg8::A => self.a,
            Reg8::B => self.b,
            Reg8::C => self.c,
            Reg8::D => self.d,
            Reg8::E => self.e,
            Reg8::H => self.h,
            Reg8::L => self.l,
        }
    }

    /// Writes one 8-bit register; every other register keeps its value, so
    /// the write is immediately visible through the owning pair's 16-bit
    /// read and through nothing else.
    pub fn write8(&mut self, r: Reg8, v: u8)
        ensures
            *final(self) == old(self).with8(r, v),
    {
        match r {
            Reg8::A => self.a = v,
            Reg8::B => self.b = v,
            Reg8::C => self.c = v,
            Reg8::D => self.d = v,
            Reg8::E => self.e = v,
            Reg8::H => self.h = v,
            Reg8::L => self.l = v,
        }
    }

    /// Reads one 16-bit pair, recomposing the two halves losslessly.
    pub fn read16(&self, p: Reg16) -> (v: u16)
        ensures
            v == self.reg16(p),
    {
        match p {
            Reg16::BC => compose16(self.b, self.c),
            Reg16::DE => compose16(self.d, self.e),
            Reg16::HL => compose16(self.h, self.l),
            Reg16::SP => self.sp,
        }
    }

    /// Writes one 16-bit pair as a single logical operation: both halves of
    /// a split pair change together, and nothing else changes.
    pub fn write16(&mut self, p: Reg16, v: u16)
        ensures
            *final(self) == old(self).with16(p, v),
    {
        match p {
            Reg16::BC => {
                self.b = split_hi(v);
                self.c = split_lo(v);
            },
            Reg16::DE => {
                self.d = split_hi(v);
                self.e = split_lo(v);
            },
            Reg16::HL => {
                self.h = split_hi(v);
                self.l = split_lo(v);
            },
            Reg16::SP => {
                self.sp = v;
            },
        }
    }

    /// Reads the flag register. No instruction in this core writes it; it
    /// is exposed so that a caller can observe that it stayed untouched.
    pub fn flags(&self) -> (v: u8)
        ensures
            v == self.f,
    {
        self.f
    }
}

/// Law: a 16-bit write followed immediately by a 16-bit read of the same
/// pair returns exactly the value written, for every value.
pub proof fn lemma_write16_read16(regs: Registers, p: Reg16, v: u16)
    ensures
        regs.with16(p, v).reg16(p) == v,
{
    lemma_split_word(v);
}

/// Law: a 16-bit write to pair `p` leaves every other pair, the accumulator
/// and the flag register exactly as they were.
pub proof fn lemma_write16_isolated(regs: Registers, p: Reg16, v: u16, q: Reg16)
    requires
        q != p,
    ensures
        regs.with16(p, v).reg16(q) == regs.reg16(q),
        regs.with16(p, v).a == regs.a,
        regs.with16(p, v).f == regs.f,
{
}

/// Law: each split pair's 16-bit read recomposes the current values of its
/// two 8-bit halves, so an 8-bit write is immediately visible through the
/// pair's 16-bit read.
pub proof fn lemma_pair_recomposes(regs: Registers)
    ensures
        regs.reg16(Reg16::BC) == word(regs.reg8(Reg8::B), regs.reg8(Reg8::C)),
        regs.reg16(Reg16::DE) == word(regs.reg8(Reg8::D), regs.reg8(Reg8::E)),
        regs.reg16(Reg16::HL) == word(regs.reg8(Reg8::H), regs.reg8(Reg8::L)),
{
}

} // verus!
