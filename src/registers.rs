//! CPU register file: eight 8-bit registers viewed pairwise as 16-bit ones,
//! plus the flag register.

use vstd::prelude::*;

verus! {

/// An 8-bit register.
#[derive(Copy, Clone, Debug, PartialEq, Eq, Structural)]
pub enum Reg8 {
    A,
    F,
    B,
    C,
    D,
    E,
    H,
    L,
}

/// A 16-bit register or register pair.
#[derive(Copy, Clone, Debug, PartialEq, Eq, Structural)]
pub enum Reg16 {
    AF,
    BC,
    DE,
    HL,
    SP,
}

/// Mask of the zero flag in the flag register.
pub const ZERO: u8 = 0x80;
/// Mask of the subtract flag in the flag register.
pub const SUB: u8 = 0x40;
/// Mask of the half-carry flag in the flag register.
pub const HCARRY: u8 = 0x20;
/// Mask of the carry flag in the flag register.
pub const CARRY: u8 = 0x10;

/// The four CPU flags. The register F reads them in its upper nibble; its
/// lower nibble always reads as zero.
#[derive(Copy, Clone, Debug, PartialEq, Eq, Structural)]
pub struct Flags {
    pub zero: bool,
    pub sub: bool,
    pub hcarry: bool,
    pub carry: bool,
}

impl Flags {
    /// The byte that register F reads for these flags.
    pub open spec fn spec_bits(self) -> u8 {
        ((if self.zero { 0x80int } else { 0 }) + (if self.sub { 0x40int } else { 0 }) + (if self.hcarry {
            0x20int
        } else {
            0
        }) + (if self.carry { 0x10int } else { 0 })) as u8
    }

    /// The flags that a byte written to register F sets: its upper nibble.
    pub open spec fn spec_from_bits(v: u8) -> Flags {
        Flags {
            zero: v & 0x80 != 0,
            sub: v & 0x40 != 0,
            hcarry: v & 0x20 != 0,
            carry: v & 0x10 != 0,
        }
    }

    /// The flags set in `self` or in `o`.
    pub open spec fn union(self, o: Flags) -> Flags {
        Flags {
            zero: self.zero || o.zero,
            sub: self.sub || o.sub,
            hcarry: self.hcarry || o.hcarry,
            carry: self.carry || o.carry,
        }
    }

    /// The flags set in `self` and not in `o`.
    pub open spec fn minus(self, o: Flags) -> Flags {
        Flags {
            zero: self.zero && !o.zero,
            sub: self.sub && !o.sub,
            hcarry: self.hcarry && !o.hcarry,
            carry: self.carry && !o.carry,
        }
    }

    pub open spec fn spec_empty() -> Flags {
        Flags { zero: false, sub: false, hcarry: false, carry: false }
    }

    pub fn empty() -> (r: Flags)
        ensures
            r == Flags::spec_empty(),
    {
        Flags { zero: false, sub: false, hcarry: false, carry: false }
    }

    pub fn all() -> (r: Flags)
        ensures
            r == (Flags { zero: true, sub: true, hcarry: true, carry: true }),
    {
        Flags { zero: true, sub: true, hcarry: true, carry: true }
    }

    pub fn from_bits(v: u8) -> (r: Flags)
        ensures
            r == Flags::spec_from_bits(v),
    {
        Flags { zero: v & 0x80 != 0, sub: v & 0x40 != 0, hcarry: v & 0x20 != 0, carry: v & 0x10 != 0 }
    }

    pub fn bits(&self) -> (r: u8)
        ensures
            r == self.spec_bits(),
    {
        let mut r: u8 = 0;
        if self.zero {
            r = r + 0x80;
        }
        if self.sub {
            r = r + 0x40;
        }
        if self.hcarry {
            r = r + 0x20;
        }
        if self.carry {
            r = r + 0x10;
        }
        r
    }

    /// Whether every flag named in `mask` is set.
    pub fn contains(&self, mask: u8) -> (r: bool)
        ensures
            r == ((mask & 0x80 != 0 ==> self.zero) && (mask & 0x40 != 0 ==> self.sub) && (mask
                & 0x20 != 0 ==> self.hcarry) && (mask & 0x10 != 0 ==> self.carry)),
    {
        (mask & 0x80 == 0 || self.zero) && (mask & 0x40 == 0 || self.sub) && (mask & 0x20 == 0
            || self.hcarry) && (mask & 0x10 == 0 || self.carry)
    }

    /// `self` when `test` holds, no flag otherwise.
    pub fn test(&self, test: bool) -> (r: Flags)
        ensures
            r == (if test { *self } else { Flags::spec_empty() }),
    {
        if test {
            *self
        } else {
            Flags::empty()
        }
    }

    /// Sets (`insert`) or clears every flag of `flag`.
    pub fn force(&mut self, flag: Flags, insert: bool)
        ensures
            *final(self) == (if insert { old(self).union(flag) } else { old(self).minus(flag) }),
    {
        if insert {
            *self = Flags {
                zero: self.zero || flag.zero,
                sub: self.sub || flag.sub,
                hcarry: self.hcarry || flag.hcarry,
                carry: self.carry || flag.carry,
            };
        } else {
            *self = Flags {
                zero: self.zero && !flag.zero,
                sub: self.sub && !flag.sub,
                hcarry: self.hcarry && !flag.hcarry,
                carry: self.carry && !flag.carry,
            };
        }
    }
}

/// The byte that register F reads has a zero lower nibble, and writing it
/// back gives the same flags.
pub proof fn lemma_flag_bits(f: Flags)
    ensures
        f.spec_bits() & 0x0F == 0,
        Flags::spec_from_bits(f.spec_bits()) == f,
{
    let z: u8 = if f.zero { 0x80 } else { 0 };
    let n: u8 = if f.sub { 0x40 } else { 0 };
    let h: u8 = if f.hcarry { 0x20 } else { 0 };
    let c: u8 = if f.carry { 0x10 } else { 0 };
    assert(f.spec_bits() == (z | n | h | c)) by {
        assert((z == 0 || z == 0x80) && (n == 0 || n == 0x40) && (h == 0 || h == 0x20) && (c == 0
            || c == 0x10) ==> (z + n + h + c) as u8 == (z | n | h | c)) by (bit_vector);
    }
    assert((z == 0 || z == 0x80) && (n == 0 || n == 0x40) && (h == 0 || h == 0x20) && (c == 0 || c
        == 0x10) ==> (z | n | h | c) & 0x0F == 0 && ((z | n | h | c) & 0x80 != 0) == (z != 0) && ((z
        | n | h | c) & 0x40 != 0) == (n != 0) && ((z | n | h | c) & 0x20 != 0) == (h != 0) && ((z
        | n | h | c) & 0x10 != 0) == (c != 0)) by (bit_vector);
}

/// The CPU's registers.
#[derive(Copy, Clone, Debug, PartialEq, Eq, Structural)]
pub struct Registers {
    pub pc: u16,
    pub sp: u16,
    pub a: u8,
    pub f: Flags,
    pub b: u8,
    pub c: u8,
    pub d: u8,
    pub e: u8,
    pub h: u8,
    pub l: u8,
}

/// The 16-bit value of a register pair.
pub open spec fn pair(hi: u8, lo: u8) -> u16 {
    (hi as int * 256 + lo as int) as u16
}

impl Registers {
    pub open spec fn r8(self, r: Reg8) -> u8 {
        match r {
            Reg8::A => self.a,
            Reg8::F => self.f.spec_bits(),
            Reg8::B => self.b,
            Reg8::C => self.c,
            Reg8::D => self.d,
            Reg8::E => self.e,
            Reg8::H => self.h,
            Reg8::L => self.l,
        }
    }

    pub open spec fn r16(self, r: Reg16) -> u16 {
        match r {
            Reg16::AF => pair(self.a, self.f.spec_bits()),
            Reg16::BC => pair(self.b, self.c),
            Reg16::DE => pair(self.d, self.e),
            Reg16::HL => pair(self.h, self.l),
            Reg16::SP => self.sp,
        }
    }

    /// These registers after writing `v` to `r`.
    pub open spec fn with8(self, r: Reg8, v: u8) -> Registers {
        match r {
            Reg8::A => Registers { a: v, ..self },
            Reg8::F => Registers { f: Flags::spec_from_bits(v), ..self },
            Reg8::B => Registers { b: v, ..self },
            Reg8::C => Registers { c: v, ..self },
            Reg8::D => Registers { d: v, ..self },
            Reg8::E => Registers { e: v, ..self },
            Reg8::H => Registers { h: v, ..self },
            Reg8::L => Registers { l: v, ..self },
        }
    }

    /// These registers after writing `v` to `r`: the high byte goes to the
    /// first register of a pair, the low byte to the second.
    pub open spec fn with16(self, r: Reg16, v: u16) -> Registers {
        let hi = (v / 256) as u8;
        let lo = (v % 256) as u8;
        match r {
            Reg16::AF => Registers { a: hi, f: Flags::spec_from_bits(lo), ..self },
            Reg16::BC => Registers { b: hi, c: lo, ..self },
            Reg16::DE => Registers { d: hi, e: lo, ..self },
            Reg16::HL => Registers { h: hi, l: lo, ..self },
            Reg16::SP => Registers { sp: v, ..self },
        }
    }

    pub open spec fn spec_new() -> Registers {
        Registers {
            pc: 0,
            sp: 0,
            a: 0,
            f: Flags::spec_empty(),
            b: 0,
            c: 0,
            d: 0,
            e: 0,
            h: 0,
            l: 0,
        }
    }

    pub fn new() -> (r: Registers)
        ensures
            r == Registers::spec_new(),
    {
        Registers { pc: 0, sp: 0, a: 0, f: Flags::empty(), b: 0, c: 0, d: 0, e: 0, h: 0, l: 0 }
    }

    pub fn read8(&self, src: Reg8) -> (r: u8)
        ensures
            r == self.r8(src),
    {
        match src {
            Reg8::A => self.a,
            Reg8::F => self.f.bits(),
            Reg8::B => self.b,
            Reg8::C => self.c,
            Reg8::D => self.d,
            Reg8::E => self.e,
            Reg8::H => self.h,
            Reg8::L => self.l,
        }
    }

    pub fn read16(&self, src: Reg16) -> (r: u16)
        ensures
            r == self.r16(src),
    {
        match src {
            Reg16::AF => (self.a as u16) * 256 + self.f.bits() as u16,
            Reg16::BC => (self.b as u16) * 256 + self.c as u16,
            Reg16::DE => (self.d as u16) * 256 + self.e as u16,
            Reg16::HL => (self.h as u16) * 256 + self.l as u16,
            Reg16::SP => self.sp,
        }
    }

    pub fn write8(&mut self, dest: Reg8, value: u8)
        ensures
            *final(self) == old(self).with8(dest, value),
    {
        match dest {
            Reg8::A => self.a = value,
            Reg8::F => self.f = Flags::from_bits(value),
            Reg8::B => self.b = value,
            Reg8::C => self.c = value,
            Reg8::D => self.d = value,
            Reg8::E => self.e = value,
            Reg8::H => self.h = value,
            Reg8::L => self.l = value,
        }
    }

    pub fn write16(&mut self, dest: Reg16, value: u16)
        ensures
            *final(self) == old(self).with16(dest, value),
    {
        let lo = (value % 256) as u8;
        let hi = (value / 256) as u8;
        match dest {
            Reg16::AF => {
                self.a = hi;
                self.f = Flags::from_bits(lo);
            },
            Reg16::BC => {
                self.b = hi;
                self.c = lo;
            },
            Reg16::DE => {
                self.d = hi;
                self.e = lo;
            },
            Reg16::HL => {
                self.h = hi;
                self.l = lo;
            },
            Reg16::SP => {
                self.sp = value;
            },
        }
    }
}

} // verus!
