//! Arithmetic and logic of the CPU on bytes and words: each operation
//! returns its result and the flags it leaves.

use vstd::prelude::*;
use crate::registers::Flags;

verus! {

pub open spec fn fl(zero: bool, sub: bool, hcarry: bool, carry: bool) -> Flags {
    Flags { zero, sub, hcarry, carry }
}

pub open spec fn bit_of(b: bool) -> int {
    if b { 1 } else { 0 }
}

/// ADD / ADC: `a + b + cy`.
pub open spec fn add8(a: u8, b: u8, cy: bool) -> (u8, Flags) {
    let sum = a as int + b as int + bit_of(cy);
    let r = (sum % 256) as u8;
    (r, fl(r == 0, false, a as int % 16 + b as int % 16 + bit_of(cy) > 15, sum > 255))
}

/// SUB / SBC / CP: `a - b - cy`.
pub open spec fn sub8(a: u8, b: u8, cy: bool) -> (u8, Flags) {
    let d = a as int - b as int - bit_of(cy);
    let r = ((d + 256) % 256) as u8;
    (r, fl(r == 0, true, (a as int % 16) < b as int % 16 + bit_of(cy), d < 0))
}

/// INC on a byte: as ADD of 1, with the carry flag kept.
pub open spec fn inc8(v: u8, f: Flags) -> (u8, Flags) {
    let (r, g) = add8(v, 1, false);
    (r, Flags { carry: f.carry, ..g })
}

/// DEC on a byte: as SUB of 1, with the carry flag kept.
pub open spec fn dec8(v: u8, f: Flags) -> (u8, Flags) {
    let (r, g) = sub8(v, 1, false);
    (r, Flags { carry: f.carry, ..g })
}

pub open spec fn and8(a: u8, b: u8) -> (u8, Flags) {
    let r = a & b;
    (r, fl(r == 0, false, true, false))
}

pub open spec fn or8(a: u8, b: u8) -> (u8, Flags) {
    let r = a | b;
    (r, fl(r == 0, false, false, false))
}

pub open spec fn xor8(a: u8, b: u8) -> (u8, Flags) {
    let r = a ^ b;
    (r, fl(r == 0, false, false, false))
}

/// ADD HL, rr: carries out of bit 11 and bit 15; zero flag kept.
pub open spec fn add16(a: u16, b: u16, f: Flags) -> (u16, Flags) {
    let sum = a as int + b as int;
    ((sum % 65536) as u16, fl(f.zero, false, a as int % 4096 + b as int % 4096 > 4095, sum > 65535))
}

/// The byte read as a two's complement number.
pub open spec fn signed(b: u8) -> int {
    if b < 128 { b as int } else { b as int - 256 }
}

/// `a + e` on 16 bits, for a signed byte `e`.
pub open spec fn offset16(a: u16, e: u8) -> u16 {
    ((a as int + signed(e) + 65536) % 65536) as u16
}

/// SP plus a signed byte (ADD SP, e and LD HL, SP+e): carries come from the
/// low byte; zero and subtract are cleared.
pub open spec fn add_sp8(sp: u16, e: u8) -> (u16, Flags) {
    (offset16(sp, e), fl(false, false, sp as int % 16 + e as int % 16 > 15, sp as int % 256 + e as int > 255))
}

/// RLC: rotate left, bit 7 to carry and to bit 0.
pub open spec fn rlc8(v: u8) -> (u8, Flags) {
    let r = ((v as int % 128) * 2 + v as int / 128) as u8;
    (r, fl(r == 0, false, false, v >= 128))
}

/// RL: rotate left through carry.
pub open spec fn rl8(v: u8, cy: bool) -> (u8, Flags) {
    let r = ((v as int % 128) * 2 + bit_of(cy)) as u8;
    (r, fl(r == 0, false, false, v >= 128))
}

/// RRC: rotate right, bit 0 to carry and to bit 7.
pub open spec fn rrc8(v: u8) -> (u8, Flags) {
    let r = (v as int / 2 + (v as int % 2) * 128) as u8;
    (r, fl(r == 0, false, false, v % 2 == 1))
}

/// RR: rotate right through carry.
pub open spec fn rr8(v: u8, cy: bool) -> (u8, Flags) {
    let r = (v as int / 2 + bit_of(cy) * 128) as u8;
    (r, fl(r == 0, false, false, v % 2 == 1))
}

/// SLA: shift left, bit 7 to carry.
pub open spec fn sla8(v: u8) -> (u8, Flags) {
    let r = ((v as int % 128) * 2) as u8;
    (r, fl(r == 0, false, false, v >= 128))
}

/// SRA: shift right keeping bit 7, bit 0 to carry.
pub open spec fn sra8(v: u8) -> (u8, Flags) {
    let r = (v as int / 2 + (v as int / 128) * 128) as u8;
    (r, fl(r == 0, false, false, v % 2 == 1))
}

/// SRL: shift right, bit 0 to carry.
pub open spec fn srl8(v: u8) -> (u8, Flags) {
    let r = (v / 2) as u8;
    (r, fl(r == 0, false, false, v % 2 == 1))
}

/// SWAP: exchange the two nibbles.
pub open spec fn swap8(v: u8) -> (u8, Flags) {
    let r = ((v as int % 16) * 16 + v as int / 16) as u8;
    (r, fl(r == 0, false, false, false))
}

/// BIT b: zero flag set when bit `b` is clear; carry kept.
pub open spec fn bit_flags(v: u8, b: u8, f: Flags) -> Flags {
    fl((v >> b) & 1 == 0, false, true, f.carry)
}

pub open spec fn set_bit(v: u8, b: u8) -> u8 {
    v | (1u8 << b)
}

pub open spec fn res_bit(v: u8, b: u8) -> u8 {
    v & !(1u8 << b)
}

/// DAA: decimal adjustment of `a` after a BCD addition or subtraction.
pub open spec fn daa8(a: u8, f: Flags) -> (u8, Flags) {
    if !f.sub {
        let hi = f.carry || a > 0x99;
        let a1 = if hi { ((a as int + 0x60) % 256) as u8 } else { a };
        let a2 = if f.hcarry || a1 % 16 > 9 { ((a1 as int + 0x06) % 256) as u8 } else { a1 };
        (a2, fl(a2 == 0, false, false, f.carry || hi))
    } else {
        let add: int = if f.carry {
            if f.hcarry { 0x9A } else { 0xA0 }
        } else if f.hcarry {
            0xFA
        } else {
            0
        };
        let r = ((a as int + add) % 256) as u8;
        (r, fl(r == 0, true, false, f.carry))
    }
}

pub fn add_bytes(a: u8, b: u8, cy: bool) -> (r: (u8, Flags))
    ensures
        r == add8(a, b, cy),
{
    let c: u16 = if cy { 1 } else { 0 };
    let sum: u16 = a as u16 + b as u16 + c;
    let r = (sum % 256) as u8;
    (r, Flags { zero: r == 0, sub: false, hcarry: (a % 16) as u16 + (b % 16) as u16 + c > 15, carry: sum > 255 })
}

pub fn sub_bytes(a: u8, b: u8, cy: bool) -> (r: (u8, Flags))
    ensures
        r == sub8(a, b, cy),
{
    let c: u16 = if cy { 1 } else { 0 };
    let bc: u16 = b as u16 + c;
    let r = ((a as u16 + 256 - bc) % 256) as u8;
    (r, Flags { zero: r == 0, sub: true, hcarry: ((a % 16) as u16) < (b % 16) as u16 + c, carry: (a as u16) < bc })
}

pub fn add_words(a: u16, b: u16, f: Flags) -> (r: (u16, Flags))
    ensures
        r == add16(a, b, f),
{
    let sum: u32 = a as u32 + b as u32;
    ((sum % 65536) as u16, Flags { zero: f.zero, sub: false, hcarry: a % 4096 + b % 4096 > 4095, carry: sum > 65535 })
}

/// `a + e` on 16 bits for a signed byte `e`.
pub fn offset_word(a: u16, e: u8) -> (r: u16)
    ensures
        r == offset16(a, e),
{
    if e < 128 {
        ((a as u32 + e as u32) % 65536) as u16
    } else {
        ((a as u32 + 65536 - (256 - e as u32)) % 65536) as u16
    }
}

pub fn add_sp_bytes(sp: u16, e: u8) -> (r: (u16, Flags))
    ensures
        r == add_sp8(sp, e),
{
    let h = sp % 16 + (e % 16) as u16 > 15;
    let c = sp % 256 + e as u16 > 255;
    (offset_word(sp, e), Flags { zero: false, sub: false, hcarry: h, carry: c })
}

pub fn daa_byte(a: u8, f: Flags) -> (r: (u8, Flags))
    ensures
        r == daa8(a, f),
{
    if !f.sub {
        let hi = f.carry || a > 0x99;
        let a1: u8 = if hi { a.wrapping_add(0x60) } else { a };
        let a2: u8 = if f.hcarry || a1 % 16 > 9 { a1.wrapping_add(0x06) } else { a1 };
        (a2, Flags { zero: a2 == 0, sub: false, hcarry: false, carry: f.carry || hi })
    } else {
        let add: u8 = if f.carry {
            if f.hcarry { 0x9A } else { 0xA0 }
        } else if f.hcarry {
            0xFA
        } else {
            0
        };
        let r = a.wrapping_add(add);
        (r, Flags { zero: r == 0, sub: true, hcarry: false, carry: f.carry })
    }
}

/// Exchanging the nibbles twice, or complementing twice, gives the byte back.
pub proof fn law_swap_cpl_involutions(v: u8)
    ensures
        swap8(swap8(v).0).0 == v,
        !(!v) == v,
{
    assert(!(!v) == v) by (bit_vector);
}

/// RLCA followed by RRCA gives the accumulator back.
pub proof fn law_rlc_rrc(v: u8)
    ensures
        rrc8(rlc8(v).0).0 == v,
{
}

/// Setting a bit that was cleared from a byte with that bit set gives that
/// byte; BIT reports the bit.
pub proof fn law_set_res_bit(v: u8, b: u8, f: Flags)
    requires
        b < 8,
    ensures
        set_bit(res_bit(v | (1u8 << b), b), b) == v | (1u8 << b),
        bit_flags(v, b, f).zero == ((v >> b) & 1 == 0),
        bit_flags(set_bit(v, b), b, f).zero == false,
        bit_flags(res_bit(v, b), b, f).zero == true,
{
    assert(b < 8 ==> (((v | (1u8 << b)) & !(1u8 << b)) | (1u8 << b)) == v | (1u8 << b)) by (bit_vector);
    assert(b < 8 ==> ((v | (1u8 << b)) >> b) & 1 == 1) by (bit_vector);
    assert(b < 8 ==> ((v & !(1u8 << b)) >> b) & 1 == 0) by (bit_vector);
}

} // verus!
