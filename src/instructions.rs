//! Instruction set: operations, immediates, the two 256-entry decode tables
//! and the cycle cost of each operation.

use vstd::prelude::*;
use crate::registers::{Reg8, Reg16};

verus! {

/// Branch condition, tested against the flags.
#[derive(Copy, Clone, Debug, PartialEq, Eq, Structural)]
pub enum Condition {
    NZ,
    Z,
    NC,
    C,
}

/// Immediate operand of an instruction.
#[derive(Copy, Clone, Debug, PartialEq, Eq, Structural)]
pub enum Immediate {
    Empty,
    Imm8(u8),
    Imm16(u16),
}

/// Indirect memory operand.
#[derive(Copy, Clone, Debug, PartialEq, Eq, Structural)]
pub enum Addr {
    BC,
    DE,
    HL,
    /// (HL), then HL is incremented
    HLI,
    /// (HL), then HL is decremented
    HLD,
    /// the 16-bit immediate
    Imm,
    /// 0xFF00 plus the 8-bit immediate
    IO,
    /// 0xFF00 plus register C
    IOC,
}

/// An operation of the instruction set.
#[allow(non_camel_case_types)]
#[allow(inconsistent_fields)]
#[derive(Copy, Clone, Debug, PartialEq, Eq, Structural)]
pub enum Op {
    inv,
    ext,
    nop,
    stop,
    halt,
    di,
    ei,
    ld8_imm { dest: Reg8 },
    ld8_rr { dest: Reg8, src: Reg8 },
    ld8_ind { dest: Reg8, src: Addr },
    ld16_sp,
    ld16_imm { dest: Reg16 },
    ld16_lea,
    st8_ind_imm,
    st8_ind { dest: Addr, src: Reg8 },
    st16_sp,
    push16 { src: Reg16 },
    pop16 { dest: Reg16 },
    in8_reg,
    in8_imm,
    out8_reg,
    out8_imm,
    add8_reg { src: Reg8 },
    add8_ind,
    add8_imm,
    add8_sp_imm,
    add16_reg { src: Reg16 },
    adc8_reg { src: Reg8 },
    adc8_ind,
    adc8_imm,
    sub8_reg { src: Reg8 },
    sub8_ind,
    sub8_imm,
    sbc8_reg { src: Reg8 },
    sbc8_ind,
    sbc8_imm,
    and8_reg { src: Reg8 },
    and8_ind,
    and8_imm,
    or8_reg { src: Reg8 },
    or8_ind,
    or8_imm,
    xor8_reg { src: Reg8 },
    xor8_ind,
    xor8_imm,
    inc8_reg { src: Reg8 },
    inc8_ind,
    inc16_reg { src: Reg16 },
    dec8_reg { src: Reg8 },
    dec8_ind,
    dec16_reg { src: Reg16 },
    cp8_reg { src: Reg8 },
    cp8_ind,
    cp8_imm,
    swap { src: Reg8 },
    swap_ind,
    rla,
    rl { src: Reg8 },
    rl_ind,
    rlca,
    rlc { src: Reg8 },
    rlc_ind,
    rra,
    rr { src: Reg8 },
    rr_ind,
    rrca,
    rrc { src: Reg8 },
    rrc_ind,
    sla { src: Reg8 },
    sla_ind,
    sra { src: Reg8 },
    sra_ind,
    srl { src: Reg8 },
    srl_ind,
    bit { src: Reg8, bit: u8 },
    bit_ind { bit: u8 },
    set { src: Reg8, bit: u8 },
    set_ind { bit: u8 },
    res { src: Reg8, bit: u8 },
    res_ind { bit: u8 },
    daa,
    cpl,
    ccf,
    scf,
    jp,
    jp_cond { cond: Condition },
    jp_ind,
    jp_rel,
    jp_rel_cond { cond: Condition },
    call,
    call_cond { cond: Condition },
    ret,
    ret_cond { cond: Condition },
    reti,
    rst { target: u16 },
}

/// A decoded instruction: an operation and its immediate.
#[derive(Copy, Clone, Debug, PartialEq, Eq, Structural)]
pub struct Instr {
    pub op: Op,
    pub imm: Immediate,
}

impl Immediate {
    pub fn imm8(&self) -> (r: u8)
        requires
            self is Imm8,
        ensures
            r == self->Imm8_0,
    {
        match self {
            Immediate::Imm8(v) => *v,
            _ => 0,
        }
    }

    pub fn imm16(&self) -> (r: u16)
        requires
            self is Imm16,
        ensures
            r == self->Imm16_0,
    {
        match self {
            Immediate::Imm16(v) => *v,
            _ => 0,
        }
    }
}

/// The shape of the immediate that follows an operation in the instruction
/// stream (its value is a placeholder).
pub open spec fn imm_shape(op: Op) -> Immediate {
    match op {
        Op::ld8_imm { .. } | Op::st8_ind_imm | Op::in8_imm | Op::out8_imm | Op::add8_imm
        | Op::add8_sp_imm | Op::adc8_imm | Op::sub8_imm | Op::sbc8_imm | Op::and8_imm
        | Op::or8_imm | Op::xor8_imm | Op::cp8_imm | Op::jp_rel | Op::jp_rel_cond { .. }
        | Op::ld16_lea | Op::ld8_ind { src: Addr::IO, .. } | Op::st8_ind { dest: Addr::IO, .. } => {
            Immediate::Imm8(0)
        },
        Op::ld16_imm { .. } | Op::st16_sp | Op::jp | Op::jp_cond { .. } | Op::call
        | Op::call_cond { .. } | Op::st8_ind { dest: Addr::Imm, .. }
        | Op::ld8_ind { src: Addr::Imm, .. } => Immediate::Imm16(0),
        _ => Immediate::Empty,
    }
}

/// The operand register that the three low bits of an opcode name
/// (6 names (HL) and is handled by the caller).
pub open spec fn operand_reg(c: int) -> Reg8 {
    if c == 0 {
        Reg8::B
    } else if c == 1 {
        Reg8::C
    } else if c == 2 {
        Reg8::D
    } else if c == 3 {
        Reg8::E
    } else if c == 4 {
        Reg8::H
    } else if c == 5 {
        Reg8::L
    } else {
        Reg8::A
    }
}

/// Opcodes 0x40..=0xBF: register loads (row 0x40..=0x7F, with 0x76 HALT)
/// and 8-bit arithmetic (row 0x80..=0xBF), operand in the low three bits.
pub open spec fn block_op(b: u8) -> Op {
    let s = b as int % 8;
    let y = b as int / 8 % 8;
    let src = operand_reg(s);
    if b < 0x80 {
        if b == 0x76 {
            Op::halt
        } else if s == 6 {
            Op::ld8_ind { dest: operand_reg(y), src: Addr::HL }
        } else if y == 6 {
            Op::st8_ind { dest: Addr::HL, src }
        } else {
            Op::ld8_rr { dest: operand_reg(y), src }
        }
    } else if y == 0 {
        if s == 6 { Op::add8_ind } else { Op::add8_reg { src } }
    } else if y == 1 {
        if s == 6 { Op::adc8_ind } else { Op::adc8_reg { src } }
    } else if y == 2 {
        if s == 6 { Op::sub8_ind } else { Op::sub8_reg { src } }
    } else if y == 3 {
        if s == 6 { Op::sbc8_ind } else { Op::sbc8_reg { src } }
    } else if y == 4 {
        if s == 6 { Op::and8_ind } else { Op::and8_reg { src } }
    } else if y == 5 {
        if s == 6 { Op::xor8_ind } else { Op::xor8_reg { src } }
    } else if y == 6 {
        if s == 6 { Op::or8_ind } else { Op::or8_reg { src } }
    } else {
        if s == 6 { Op::cp8_ind } else { Op::cp8_reg { src } }
    }
}

/// The opcodes that no instruction has.
pub open spec fn is_undefined(b: u8) -> bool {
    b == 0xD3 || b == 0xDB || b == 0xDD || b == 0xE3 || b == 0xE4 || b == 0xEB || b == 0xEC
        || b == 0xED || b == 0xF4 || b == 0xFC || b == 0xFD
}

/// The CB-prefixed table: the low three bits name the operand, bits 3..=5
/// the rotation kind or the bit number, bits 6..=7 the group.
pub open spec fn ext_op(b: u8) -> Op {
    let s = b as int % 8;
    let y = b as int / 8 % 8;
    let src = operand_reg(s);
    let ind = s == 6;
    if b < 0x40 {
        if y == 0 {
            if ind { Op::rlc_ind } else { Op::rlc { src } }
        } else if y == 1 {
            if ind { Op::rrc_ind } else { Op::rrc { src } }
        } else if y == 2 {
            if ind { Op::rl_ind } else { Op::rl { src } }
        } else if y == 3 {
            if ind { Op::rr_ind } else { Op::rr { src } }
        } else if y == 4 {
            if ind { Op::sla_ind } else { Op::sla { src } }
        } else if y == 5 {
            if ind { Op::sra_ind } else { Op::sra { src } }
        } else if y == 6 {
            if ind { Op::swap_ind } else { Op::swap { src } }
        } else {
            if ind { Op::srl_ind } else { Op::srl { src } }
        }
    } else if b < 0x80 {
        if ind { Op::bit_ind { bit: y as u8 } } else { Op::bit { src, bit: y as u8 } }
    } else if b < 0xC0 {
        if ind { Op::res_ind { bit: y as u8 } } else { Op::res { src, bit: y as u8 } }
    } else {
        if ind { Op::set_ind { bit: y as u8 } } else { Op::set { src, bit: y as u8 } }
    }
}

/// Whether an operation is a jump, call or return, whose cost depends on
/// whether it is taken.
pub open spec fn is_branch(op: Op) -> bool {
    match op {
        Op::jp | Op::jp_cond { .. } | Op::jp_ind | Op::jp_rel | Op::jp_rel_cond { .. } | Op::call
        | Op::call_cond { .. } | Op::ret | Op::ret_cond { .. } | Op::reti => true,
        _ => false,
    }
}

/// Cost in M-cycles of an operation that does not branch, or of a branch
/// that is not taken.
pub open spec fn op_cycles(op: Op) -> u8 {
    match op {
        Op::nop | Op::inc8_reg { .. } | Op::dec8_reg { .. } | Op::rlca | Op::rrca | Op::stop
        | Op::rla | Op::rra | Op::daa | Op::cpl | Op::scf | Op::ccf
        | Op::ld8_rr { .. } | Op::halt | Op::add8_reg { .. } | Op::adc8_reg { .. }
        | Op::sub8_reg { .. } | Op::sbc8_reg { .. } | Op::and8_reg { .. }
        | Op::xor8_reg { .. } | Op::or8_reg { .. } | Op::cp8_reg { .. } | Op::di | Op::ei
        | Op::jp_ind => 1,
        Op::st8_ind { dest: Addr::BC, .. } | Op::st8_ind { dest: Addr::DE, .. }
        | Op::st8_ind { dest: Addr::HL, .. } | Op::st8_ind { dest: Addr::HLI, .. }
        | Op::st8_ind { dest: Addr::HLD, .. } | Op::st8_ind { dest: Addr::IOC, .. }
        | Op::ld8_ind { src: Addr::BC, .. } | Op::ld8_ind { src: Addr::DE, .. }
        | Op::ld8_ind { src: Addr::HL, .. } | Op::ld8_ind { src: Addr::HLI, .. }
        | Op::ld8_ind { src: Addr::HLD, .. } | Op::ld8_ind { src: Addr::IOC, .. }
        | Op::inc16_reg { .. } | Op::ld8_imm { .. } | Op::add16_reg { .. }
        | Op::dec16_reg { .. } | Op::add8_ind | Op::adc8_ind | Op::sub8_ind | Op::sbc8_ind
        | Op::and8_ind | Op::xor8_ind | Op::or8_ind | Op::cp8_ind | Op::pop16 { .. }
        | Op::add8_imm | Op::ret_cond { .. } | Op::adc8_imm | Op::sub8_imm | Op::sbc8_imm
        | Op::out8_reg | Op::and8_imm | Op::xor8_imm | Op::in8_reg | Op::or8_imm | Op::ld16_sp
        | Op::cp8_imm | Op::rlc { .. } | Op::rrc { .. } | Op::rl { .. } | Op::rr { .. }
        | Op::sla { .. } | Op::sra { .. } | Op::swap { .. } | Op::srl { .. } | Op::bit { .. }
        | Op::res { .. } | Op::set { .. } | Op::jp_rel_cond { .. } => 2,
        Op::ld16_imm { .. } | Op::dec8_ind | Op::inc8_ind | Op::bit_ind { .. } | Op::st8_ind_imm | Op::out8_imm | Op::in8_imm
        | Op::ld16_lea | Op::st8_ind { dest: Addr::IO, .. }
        | Op::ld8_ind { src: Addr::IO, .. } | Op::jp_rel | Op::jp_cond { .. }
        | Op::call_cond { .. } => 3,
        Op::push16 { .. } | Op::rst { .. } | Op::add8_sp_imm
        | Op::st8_ind { dest: Addr::Imm, .. } | Op::ld8_ind { src: Addr::Imm, .. }
        | Op::rlc_ind | Op::rrc_ind | Op::rl_ind | Op::rr_ind | Op::sla_ind | Op::sra_ind
        | Op::swap_ind | Op::srl_ind | Op::res_ind { .. }
        | Op::set_ind { .. } | Op::jp | Op::ret | Op::reti => 4,
        Op::st16_sp => 5,
        Op::call => 6,
        Op::inv | Op::ext => 0,
    }
}

/// Cost in M-cycles of a branch that is taken.
pub open spec fn taken_cycles(op: Op) -> u8 {
    match op {
        Op::jp_ind => 1,
        Op::jp_rel | Op::jp_rel_cond { .. } => 3,
        Op::jp_cond { .. } | Op::jp | Op::ret | Op::reti => 4,
        Op::ret_cond { .. } => 5,
        Op::call_cond { .. } | Op::call => 6,
        _ => op_cycles(op),
    }
}

/// Cost in M-cycles of `opcode` when it does not branch.
pub fn cycles(opcode: &Op) -> (r: u8)
    requires
        !(*opcode is inv) && !(*opcode is ext),
    ensures
        r == op_cycles(*opcode),
        1 <= r <= 6,
{
    match *opcode {
        Op::nop | Op::inc8_reg { .. } | Op::dec8_reg { .. } | Op::rlca | Op::rrca | Op::stop
        | Op::rla | Op::rra | Op::daa | Op::cpl | Op::scf | Op::ccf
        | Op::ld8_rr { .. } | Op::halt | Op::add8_reg { .. } | Op::adc8_reg { .. }
        | Op::sub8_reg { .. } | Op::sbc8_reg { .. } | Op::and8_reg { .. }
        | Op::xor8_reg { .. } | Op::or8_reg { .. } | Op::cp8_reg { .. } | Op::di | Op::ei
        | Op::jp_ind => 1,
        Op::st8_ind { dest: Addr::BC, .. } | Op::st8_ind { dest: Addr::DE, .. }
        | Op::st8_ind { dest: Addr::HL, .. } | Op::st8_ind { dest: Addr::HLI, .. }
        | Op::st8_ind { dest: Addr::HLD, .. } | Op::st8_ind { dest: Addr::IOC, .. }
        | Op::ld8_ind { src: Addr::BC, .. } | Op::ld8_ind { src: Addr::DE, .. }
        | Op::ld8_ind { src: Addr::HL, .. } | Op::ld8_ind { src: Addr::HLI, .. }
        | Op::ld8_ind { src: Addr::HLD, .. } | Op::ld8_ind { src: Addr::IOC, .. }
        | Op::inc16_reg { .. } | Op::ld8_imm { .. } | Op::add16_reg { .. }
        | Op::dec16_reg { .. } | Op::add8_ind | Op::adc8_ind | Op::sub8_ind | Op::sbc8_ind
        | Op::and8_ind | Op::xor8_ind | Op::or8_ind | Op::cp8_ind | Op::pop16 { .. }
        | Op::add8_imm | Op::ret_cond { .. } | Op::adc8_imm | Op::sub8_imm | Op::sbc8_imm
        | Op::out8_reg | Op::and8_imm | Op::xor8_imm | Op::in8_reg | Op::or8_imm | Op::ld16_sp
        | Op::cp8_imm | Op::rlc { .. } | Op::rrc { .. } | Op::rl { .. } | Op::rr { .. }
        | Op::sla { .. } | Op::sra { .. } | Op::swap { .. } | Op::srl { .. } | Op::bit { .. }
        | Op::res { .. } | Op::set { .. } | Op::jp_rel_cond { .. } => 2,
        Op::ld16_imm { .. } | Op::dec8_ind | Op::inc8_ind | Op::bit_ind { .. } | Op::st8_ind_imm | Op::out8_imm | Op::in8_imm
        | Op::ld16_lea | Op::st8_ind { dest: Addr::IO, .. }
        | Op::ld8_ind { src: Addr::IO, .. } | Op::jp_rel | Op::jp_cond { .. }
        | Op::call_cond { .. } => 3,
        Op::push16 { .. } | Op::rst { .. } | Op::add8_sp_imm
        | Op::st8_ind { dest: Addr::Imm, .. } | Op::ld8_ind { src: Addr::Imm, .. }
        | Op::rlc_ind | Op::rrc_ind | Op::rl_ind | Op::rr_ind | Op::sla_ind | Op::sra_ind
        | Op::swap_ind | Op::srl_ind | Op::res_ind { .. }
        | Op::set_ind { .. } | Op::jp | Op::ret | Op::reti => 4,
        Op::st16_sp => 5,
        Op::call => 6,
        Op::inv | Op::ext => 0,
    }
}

/// Cost in M-cycles of a branch, taken (`jumped`) or not.
pub fn cycles_jmp(opcode: &Op, jumped: bool) -> (r: u8)
    requires
        is_branch(*opcode),
    ensures
        r == (if jumped { taken_cycles(*opcode) } else { op_cycles(*opcode) }),
        r >= 1,
{
    if jumped {
        match *opcode {
            Op::jp_ind => 1,
            Op::jp_rel | Op::jp_rel_cond { .. } => 3,
            Op::jp_cond { .. } | Op::jp | Op::ret | Op::reti => 4,
            Op::ret_cond { .. } => 5,
            _ => 6,
        }
    } else {
        match *opcode {
            Op::jp_ind => 1,
            Op::jp_rel_cond { .. } | Op::ret_cond { .. } => 2,
            Op::jp_rel | Op::jp_cond { .. } | Op::call_cond { .. } => 3,
            Op::jp | Op::ret | Op::reti => 4,
            _ => 6,
        }
    }
}

/// The main decode table: the operation of each opcode (0xCB is the
/// prefix of the extension table).
pub open spec fn decode_main(b: u8) -> Op {
    match b {
        0x00 => Op::nop,
        0x01 => Op::ld16_imm { dest: Reg16::BC },
        0x02 => Op::st8_ind { dest: Addr::BC, src: Reg8::A },
        0x03 => Op::inc16_reg { src: Reg16::BC },
        0x04 => Op::inc8_reg { src: Reg8::B },
        0x05 => Op::dec8_reg { src: Reg8::B },
        0x06 => Op::ld8_imm { dest: Reg8::B },
        0x07 => Op::rlca,
        0x08 => Op::st16_sp,
        0x09 => Op::add16_reg { src: Reg16::BC },
        0x0A => Op::ld8_ind { dest: Reg8::A, src: Addr::BC },
        0x0B => Op::dec16_reg { src: Reg16::BC },
        0x0C => Op::inc8_reg { src: Reg8::C },
        0x0D => Op::dec8_reg { src: Reg8::C },
        0x0E => Op::ld8_imm { dest: Reg8::C },
        0x0F => Op::rrca,
        0x10 => Op::stop,
        0x11 => Op::ld16_imm { dest: Reg16::DE },
        0x12 => Op::st8_ind { dest: Addr::DE, src: Reg8::A },
        0x13 => Op::inc16_reg { src: Reg16::DE },
        0x14 => Op::inc8_reg { src: Reg8::D },
        0x15 => Op::dec8_reg { src: Reg8::D },
        0x16 => Op::ld8_imm { dest: Reg8::D },
        0x17 => Op::rla,
        0x18 => Op::jp_rel,
        0x19 => Op::add16_reg { src: Reg16::DE },
        0x1A => Op::ld8_ind { dest: Reg8::A, src: Addr::DE },
        0x1B => Op::dec16_reg { src: Reg16::DE },
        0x1C => Op::inc8_reg { src: Reg8::E },
        0x1D => Op::dec8_reg { src: Reg8::E },
        0x1E => Op::ld8_imm { dest: Reg8::E },
        0x1F => Op::rra,
        0x20 => Op::jp_rel_cond { cond: Condition::NZ },
        0x21 => Op::ld16_imm { dest: Reg16::HL },
        0x22 => Op::st8_ind { dest: Addr::HLI, src: Reg8::A },
        0x23 => Op::inc16_reg { src: Reg16::HL },
        0x24 => Op::inc8_reg { src: Reg8::H },
        0x25 => Op::dec8_reg { src: Reg8::H },
        0x26 => Op::ld8_imm { dest: Reg8::H },
        0x27 => Op::daa,
        0x28 => Op::jp_rel_cond { cond: Condition::Z },
        0x29 => Op::add16_reg { src: Reg16::HL },
        0x2A => Op::ld8_ind { dest: Reg8::A, src: Addr::HLI },
        0x2B => Op::dec16_reg { src: Reg16::HL },
        0x2C => Op::inc8_reg { src: Reg8::L },
        0x2D => Op::dec8_reg { src: Reg8::L },
        0x2E => Op::ld8_imm { dest: Reg8::L },
        0x2F => Op::cpl,
        0x30 => Op::jp_rel_cond { cond: Condition::NC },
        0x31 => Op::ld16_imm { dest: Reg16::SP },
        0x32 => Op::st8_ind { dest: Addr::HLD, src: Reg8::A },
        0x33 => Op::inc16_reg { src: Reg16::SP },
        0x34 => Op::inc8_ind,
        0x35 => Op::dec8_ind,
        0x36 => Op::st8_ind_imm,
        0x37 => Op::scf,
        0x38 => Op::jp_rel_cond { cond: Condition::C },
        0x39 => Op::add16_reg { src: Reg16::SP },
        0x3A => Op::ld8_ind { dest: Reg8::A, src: Addr::HLD },
        0x3B => Op::dec16_reg { src: Reg16::SP },
        0x3C => Op::inc8_reg { src: Reg8::A },
        0x3D => Op::dec8_reg { src: Reg8::A },
        0x3E => Op::ld8_imm { dest: Reg8::A },
        0x3F => Op::ccf,
        0x40 => Op::ld8_rr { dest: Reg8::B, src: Reg8::B },
        0x41 => Op::ld8_rr { dest: Reg8::B, src: Reg8::C },
        0x42 => Op::ld8_rr { dest: Reg8::B, src: Reg8::D },
        0x43 => Op::ld8_rr { dest: Reg8::B, src: Reg8::E },
        0x44 => Op::ld8_rr { dest: Reg8::B, src: Reg8::H },
        0x45 => Op::ld8_rr { dest: Reg8::B, src: Reg8::L },
        0x46 => Op::ld8_ind { dest: Reg8::B, src: Addr::HL },
        0x47 => Op::ld8_rr { dest: Reg8::B, src: Reg8::A },
        0x48 => Op::ld8_rr { dest: Reg8::C, src: Reg8::B },
        0x49 => Op::ld8_rr { dest: Reg8::C, src: Reg8::C },
        0x4A => Op::ld8_rr { dest: Reg8::C, src: Reg8::D },
        0x4B => Op::ld8_rr { dest: Reg8::C, src: Reg8::E },
        0x4C => Op::ld8_rr { dest: Reg8::C, src: Reg8::H },
        0x4D => Op::ld8_rr { dest: Reg8::C, src: Reg8::L },
        0x4E => Op::ld8_ind { dest: Reg8::C, src: Addr::HL },
        0x4F => Op::ld8_rr { dest: Reg8::C, src: Reg8::A },
        0x50 => Op::ld8_rr { dest: Reg8::D, src: Reg8::B },
        0x51 => Op::ld8_rr { dest: Reg8::D, src: Reg8::C },
        0x52 => Op::ld8_rr { dest: Reg8::D, src: Reg8::D },
        0x53 => Op::ld8_rr { dest: Reg8::D, src: Reg8::E },
        0x54 => Op::ld8_rr { dest: Reg8::D, src: Reg8::H },
        0x55 => Op::ld8_rr { dest: Reg8::D, src: Reg8::L },
        0x56 => Op::ld8_ind { dest: Reg8::D, src: Addr::HL },
        0x57 => Op::ld8_rr { dest: Reg8::D, src: Reg8::A },
        0x58 => Op::ld8_rr { dest: Reg8::E, src: Reg8::B },
        0x59 => Op::ld8_rr { dest: Reg8::E, src: Reg8::C },
        0x5A => Op::ld8_rr { dest: Reg8::E, src: Reg8::D },
        0x5B => Op::ld8_rr { dest: Reg8::E, src: Reg8::E },
        0x5C => Op::ld8_rr { dest: Reg8::E, src: Reg8::H },
        0x5D => Op::ld8_rr { dest: Reg8::E, src: Reg8::L },
        0x5E => Op::ld8_ind { dest: Reg8::E, src: Addr::HL },
        0x5F => Op::ld8_rr { dest: Reg8::E, src: Reg8::A },
        0x60 => Op::ld8_rr { dest: Reg8::H, src: Reg8::B },
        0x61 => Op::ld8_rr { dest: Reg8::H, src: Reg8::C },
        0x62 => Op::ld8_rr { dest: Reg8::H, src: Reg8::D },
        0x63 => Op::ld8_rr { dest: Reg8::H, src: Reg8::E },
        0x64 => Op::ld8_rr { dest: Reg8::H, src: Reg8::H },
        0x65 => Op::ld8_rr { dest: Reg8::H, src: Reg8::L },
        0x66 => Op::ld8_ind { dest: Reg8::H, src: Addr::HL },
        0x67 => Op::ld8_rr { dest: Reg8::H, src: Reg8::A },
        0x68 => Op::ld8_rr { dest: Reg8::L, src: Reg8::B },
        0x69 => Op::ld8_rr { dest: Reg8::L, src: Reg8::C },
        0x6A => Op::ld8_rr { dest: Reg8::L, src: Reg8::D },
        0x6B => Op::ld8_rr { dest: Reg8::L, src: Reg8::E },
        0x6C => Op::ld8_rr { dest: Reg8::L, src: Reg8::H },
        0x6D => Op::ld8_rr { dest: Reg8::L, src: Reg8::L },
        0x6E => Op::ld8_ind { dest: Reg8::L, src: Addr::HL },
        0x6F => Op::ld8_rr { dest: Reg8::L, src: Reg8::A },
        0x70 => Op::st8_ind { dest: Addr::HL, src: Reg8::B },
        0x71 => Op::st8_ind { dest: Addr::HL, src: Reg8::C },
        0x72 => Op::st8_ind { dest: Addr::HL, src: Reg8::D },
        0x73 => Op::st8_ind { dest: Addr::HL, src: Reg8::E },
        0x74 => Op::st8_ind { dest: Addr::HL, src: Reg8::H },
        0x75 => Op::st8_ind { dest: Addr::HL, src: Reg8::L },
        0x76 => Op::halt,
        0x77 => Op::st8_ind { dest: Addr::HL, src: Reg8::A },
        0x78 => Op::ld8_rr { dest: Reg8::A, src: Reg8::B },
        0x79 => Op::ld8_rr { dest: Reg8::A, src: Reg8::C },
        0x7A => Op::ld8_rr { dest: Reg8::A, src: Reg8::D },
        0x7B => Op::ld8_rr { dest: Reg8::A, src: Reg8::E },
        0x7C => Op::ld8_rr { dest: Reg8::A, src: Reg8::H },
        0x7D => Op::ld8_rr { dest: Reg8::A, src: Reg8::L },
        0x7E => Op::ld8_ind { dest: Reg8::A, src: Addr::HL },
        0x7F => Op::ld8_rr { dest: Reg8::A, src: Reg8::A },
        0x80 => Op::add8_reg { src: Reg8::B },
        0x81 => Op::add8_reg { src: Reg8::C },
        0x82 => Op::add8_reg { src: Reg8::D },
        0x83 => Op::add8_reg { src: Reg8::E },
        0x84 => Op::add8_reg { src: Reg8::H },
        0x85 => Op::add8_reg { src: Reg8::L },
        0x86 => Op::add8_ind,
        0x87 => Op::add8_reg { src: Reg8::A },
        0x88 => Op::adc8_reg { src: Reg8::B },
        0x89 => Op::adc8_reg { src: Reg8::C },
        0x8A => Op::adc8_reg { src: Reg8::D },
        0x8B => Op::adc8_reg { src: Reg8::E },
        0x8C => Op::adc8_reg { src: Reg8::H },
        0x8D => Op::adc8_reg { src: Reg8::L },
        0x8E => Op::adc8_ind,
        0x8F => Op::adc8_reg { src: Reg8::A },
        0x90 => Op::sub8_reg { src: Reg8::B },
        0x91 => Op::sub8_reg { src: Reg8::C },
        0x92 => Op::sub8_reg { src: Reg8::D },
        0x93 => Op::sub8_reg { src: Reg8::E },
        0x94 => Op::sub8_reg { src: Reg8::H },
        0x95 => Op::sub8_reg { src: Reg8::L },
        0x96 => Op::sub8_ind,
        0x97 => Op::sub8_reg { src: Reg8::A },
        0x98 => Op::sbc8_reg { src: Reg8::B },
        0x99 => Op::sbc8_reg { src: Reg8::C },
        0x9A => Op::sbc8_reg { src: Reg8::D },
        0x9B => Op::sbc8_reg { src: Reg8::E },
        0x9C => Op::sbc8_reg { src: Reg8::H },
        0x9D => Op::sbc8_reg { src: Reg8::L },
        0x9E => Op::sbc8_ind,
        0x9F => Op::sbc8_reg { src: Reg8::A },
        0xA0 => Op::and8_reg { src: Reg8::B },
        0xA1 => Op::and8_reg { src: Reg8::C },
        0xA2 => Op::and8_reg { src: Reg8::D },
        0xA3 => Op::and8_reg { src: Reg8::E },
        0xA4 => Op::and8_reg { src: Reg8::H },
        0xA5 => Op::and8_reg { src: Reg8::L },
        0xA6 => Op::and8_ind,
        0xA7 => Op::and8_reg { src: Reg8::A },
        0xA8 => Op::xor8_reg { src: Reg8::B },
        0xA9 => Op::xor8_reg { src: Reg8::C },
        0xAA => Op::xor8_reg { src: Reg8::D },
        0xAB => Op::xor8_reg { src: Reg8::E },
        0xAC => Op::xor8_reg { src: Reg8::H },
        0xAD => Op::xor8_reg { src: Reg8::L },
        0xAE => Op::xor8_ind,
        0xAF => Op::xor8_reg { src: Reg8::A },
        0xB0 => Op::or8_reg { src: Reg8::B },
        0xB1 => Op::or8_reg { src: Reg8::C },
        0xB2 => Op::or8_reg { src: Reg8::D },
        0xB3 => Op::or8_reg { src: Reg8::E },
        0xB4 => Op::or8_reg { src: Reg8::H },
        0xB5 => Op::or8_reg { src: Reg8::L },
        0xB6 => Op::or8_ind,
        0xB7 => Op::or8_reg { src: Reg8::A },
        0xB8 => Op::cp8_reg { src: Reg8::B },
        0xB9 => Op::cp8_reg { src: Reg8::C },
        0xBA => Op::cp8_reg { src: Reg8::D },
        0xBB => Op::cp8_reg { src: Reg8::E },
        0xBC => Op::cp8_reg { src: Reg8::H },
        0xBD => Op::cp8_reg { src: Reg8::L },
        0xBE => Op::cp8_ind,
        0xBF => Op::cp8_reg { src: Reg8::A },
        0xC0 => Op::ret_cond { cond: Condition::NZ },
        0xC1 => Op::pop16 { dest: Reg16::BC },
        0xC2 => Op::jp_cond { cond: Condition::NZ },
        0xC3 => Op::jp,
        0xC4 => Op::call_cond { cond: Condition::NZ },
        0xC5 => Op::push16 { src: Reg16::BC },
        0xC6 => Op::add8_imm,
        0xC7 => Op::rst { target: 0x00 },
        0xC8 => Op::ret_cond { cond: Condition::Z },
        0xC9 => Op::ret,
        0xCA => Op::jp_cond { cond: Condition::Z },
        0xCB => Op::ext,
        0xCC => Op::call_cond { cond: Condition::Z },
        0xCD => Op::call,
        0xCE => Op::adc8_imm,
        0xCF => Op::rst { target: 0x08 },
        0xD0 => Op::ret_cond { cond: Condition::NC },
        0xD1 => Op::pop16 { dest: Reg16::DE },
        0xD2 => Op::jp_cond { cond: Condition::NC },
        0xD3 => Op::inv,
        0xD4 => Op::call_cond { cond: Condition::NC },
        0xD5 => Op::push16 { src: Reg16::DE },
        0xD6 => Op::sub8_imm,
        0xD7 => Op::rst { target: 0x10 },
        0xD8 => Op::ret_cond { cond: Condition::C },
        0xD9 => Op::reti,
        0xDA => Op::jp_cond { cond: Condition::C },
        0xDB => Op::inv,
        0xDC => Op::call_cond { cond: Condition::C },
        0xDD => Op::inv,
        0xDE => Op::sbc8_imm,
        0xDF => Op::rst { target: 0x18 },
        0xE0 => Op::out8_imm,
        0xE1 => Op::pop16 { dest: Reg16::HL },
        0xE2 => Op::out8_reg,
        0xE3 => Op::inv,
        0xE4 => Op::inv,
        0xE5 => Op::push16 { src: Reg16::HL },
        0xE6 => Op::and8_imm,
        0xE7 => Op::rst { target: 0x20 },
        0xE8 => Op::add8_sp_imm,
        0xE9 => Op::jp_ind,
        0xEA => Op::st8_ind { dest: Addr::Imm, src: Reg8::A },
        0xEB => Op::inv,
        0xEC => Op::inv,
        0xED => Op::inv,
        0xEE => Op::xor8_imm,
        0xEF => Op::rst { target: 0x28 },
        0xF0 => Op::in8_imm,
        0xF1 => Op::pop16 { dest: Reg16::AF },
        0xF2 => Op::in8_reg,
        0xF3 => Op::di,
        0xF4 => Op::inv,
        0xF5 => Op::push16 { src: Reg16::AF },
        0xF6 => Op::or8_imm,
        0xF7 => Op::rst { target: 0x30 },
        0xF8 => Op::ld16_lea,
        0xF9 => Op::ld16_sp,
        0xFA => Op::ld8_ind { dest: Reg8::A, src: Addr::Imm },
        0xFB => Op::ei,
        0xFC => Op::inv,
        0xFD => Op::inv,
        0xFE => Op::cp8_imm,
        0xFF => Op::rst { target: 0x38 },
    }
}

/// Decodes an opcode of the main table into its operation and the shape of
/// its immediate. 0xCB is the prefix of the extension table.
pub fn from_opcode(opcode: u8) -> (r: (Op, Immediate))
    ensures
        r.0 == decode_main(opcode),
        r.1 == imm_shape(r.0),
        0x40 <= opcode <= 0xBF ==> r.0 == block_op(opcode),
        is_undefined(opcode) <==> r.0 == Op::inv,
        opcode == 0xCB <==> r.0 == Op::ext,
        crate::cpu_spec::bit_ok(r.0),
{
    match opcode {
        0x00 => (Op::nop, Immediate::Empty),
        0x01 => (Op::ld16_imm { dest: Reg16::BC }, Immediate::Imm16(0)),
        0x02 => (Op::st8_ind { dest: Addr::BC, src: Reg8::A }, Immediate::Empty),
        0x03 => (Op::inc16_reg { src: Reg16::BC }, Immediate::Empty),
        0x04 => (Op::inc8_reg { src: Reg8::B }, Immediate::Empty),
        0x05 => (Op::dec8_reg { src: Reg8::B }, Immediate::Empty),
        0x06 => (Op::ld8_imm { dest: Reg8::B }, Immediate::Imm8(0)),
        0x07 => (Op::rlca, Immediate::Empty),
        0x08 => (Op::st16_sp, Immediate::Imm16(0)),
        0x09 => (Op::add16_reg { src: Reg16::BC }, Immediate::Empty),
        0x0A => (Op::ld8_ind { dest: Reg8::A, src: Addr::BC }, Immediate::Empty),
        0x0B => (Op::dec16_reg { src: Reg16::BC }, Immediate::Empty),
        0x0C => (Op::inc8_reg { src: Reg8::C }, Immediate::Empty),
        0x0D => (Op::dec8_reg { src: Reg8::C }, Immediate::Empty),
        0x0E => (Op::ld8_imm { dest: Reg8::C }, Immediate::Imm8(0)),
        0x0F => (Op::rrca, Immediate::Empty),
        0x10 => (Op::stop, Immediate::Empty),
        0x11 => (Op::ld16_imm { dest: Reg16::DE }, Immediate::Imm16(0)),
        0x12 => (Op::st8_ind { dest: Addr::DE, src: Reg8::A }, Immediate::Empty),
        0x13 => (Op::inc16_reg { src: Reg16::DE }, Immediate::Empty),
        0x14 => (Op::inc8_reg { src: Reg8::D }, Immediate::Empty),
        0x15 => (Op::dec8_reg { src: Reg8::D }, Immediate::Empty),
        0x16 => (Op::ld8_imm { dest: Reg8::D }, Immediate::Imm8(0)),
        0x17 => (Op::rla, Immediate::Empty),
        0x18 => (Op::jp_rel, Immediate::Imm8(0)),
        0x19 => (Op::add16_reg { src: Reg16::DE }, Immediate::Empty),
        0x1A => (Op::ld8_ind { dest: Reg8::A, src: Addr::DE }, Immediate::Empty),
        0x1B => (Op::dec16_reg { src: Reg16::DE }, Immediate::Empty),
        0x1C => (Op::inc8_reg { src: Reg8::E }, Immediate::Empty),
        0x1D => (Op::dec8_reg { src: Reg8::E }, Immediate::Empty),
        0x1E => (Op::ld8_imm { dest: Reg8::E }, Immediate::Imm8(0)),
        0x1F => (Op::rra, Immediate::Empty),
        0x20 => (Op::jp_rel_cond { cond: Condition::NZ }, Immediate::Imm8(0)),
        0x21 => (Op::ld16_imm { dest: Reg16::HL }, Immediate::Imm16(0)),
        0x22 => (Op::st8_ind { dest: Addr::HLI, src: Reg8::A }, Immediate::Empty),
        0x23 => (Op::inc16_reg { src: Reg16::HL }, Immediate::Empty),
        0x24 => (Op::inc8_reg { src: Reg8::H }, Immediate::Empty),
        0x25 => (Op::dec8_reg { src: Reg8::H }, Immediate::Empty),
        0x26 => (Op::ld8_imm { dest: Reg8::H }, Immediate::Imm8(0)),
        0x27 => (Op::daa, Immediate::Empty),
        0x28 => (Op::jp_rel_cond { cond: Condition::Z }, Immediate::Imm8(0)),
        0x29 => (Op::add16_reg { src: Reg16::HL }, Immediate::Empty),
        0x2A => (Op::ld8_ind { dest: Reg8::A, src: Addr::HLI }, Immediate::Empty),
        0x2B => (Op::dec16_reg { src: Reg16::HL }, Immediate::Empty),
        0x2C => (Op::inc8_reg { src: Reg8::L }, Immediate::Empty),
        0x2D => (Op::dec8_reg { src: Reg8::L }, Immediate::Empty),
        0x2E => (Op::ld8_imm { dest: Reg8::L }, Immediate::Imm8(0)),
        0x2F => (Op::cpl, Immediate::Empty),
        0x30 => (Op::jp_rel_cond { cond: Condition::NC }, Immediate::Imm8(0)),
        0x31 => (Op::ld16_imm { dest: Reg16::SP }, Immediate::Imm16(0)),
        0x32 => (Op::st8_ind { dest: Addr::HLD, src: Reg8::A }, Immediate::Empty),
        0x33 => (Op::inc16_reg { src: Reg16::SP }, Immediate::Empty),
        0x34 => (Op::inc8_ind, Immediate::Empty),
        0x35 => (Op::dec8_ind, Immediate::Empty),
        0x36 => (Op::st8_ind_imm, Immediate::Imm8(0)),
        0x37 => (Op::scf, Immediate::Empty),
        0x38 => (Op::jp_rel_cond { cond: Condition::C }, Immediate::Imm8(0)),
        0x39 => (Op::add16_reg { src: Reg16::SP }, Immediate::Empty),
        0x3A => (Op::ld8_ind { dest: Reg8::A, src: Addr::HLD }, Immediate::Empty),
        0x3B => (Op::dec16_reg { src: Reg16::SP }, Immediate::Empty),
        0x3C => (Op::inc8_reg { src: Reg8::A }, Immediate::Empty),
        0x3D => (Op::dec8_reg { src: Reg8::A }, Immediate::Empty),
        0x3E => (Op::ld8_imm { dest: Reg8::A }, Immediate::Imm8(0)),
        0x3F => (Op::ccf, Immediate::Empty),
        0x40 => (Op::ld8_rr { dest: Reg8::B, src: Reg8::B }, Immediate::Empty),
        0x41 => (Op::ld8_rr { dest: Reg8::B, src: Reg8::C }, Immediate::Empty),
        0x42 => (Op::ld8_rr { dest: Reg8::B, src: Reg8::D }, Immediate::Empty),
        0x43 => (Op::ld8_rr { dest: Reg8::B, src: Reg8::E }, Immediate::Empty),
        0x44 => (Op::ld8_rr { dest: Reg8::B, src: Reg8::H }, Immediate::Empty),
        0x45 => (Op::ld8_rr { dest: Reg8::B, src: Reg8::L }, Immediate::Empty),
        0x46 => (Op::ld8_ind { dest: Reg8::B, src: Addr::HL }, Immediate::Empty),
        0x47 => (Op::ld8_rr { dest: Reg8::B, src: Reg8::A }, Immediate::Empty),
        0x48 => (Op::ld8_rr { dest: Reg8::C, src: Reg8::B }, Immediate::Empty),
        0x49 => (Op::ld8_rr { dest: Reg8::C, src: Reg8::C }, Immediate::Empty),
        0x4A => (Op::ld8_rr { dest: Reg8::C, src: Reg8::D }, Immediate::Empty),
        0x4B => (Op::ld8_rr { dest: Reg8::C, src: Reg8::E }, Immediate::Empty),
        0x4C => (Op::ld8_rr { dest: Reg8::C, src: Reg8::H }, Immediate::Empty),
        0x4D => (Op::ld8_rr { dest: Reg8::C, src: Reg8::L }, Immediate::Empty),
        0x4E => (Op::ld8_ind { dest: Reg8::C, src: Addr::HL }, Immediate::Empty),
        0x4F => (Op::ld8_rr { dest: Reg8::C, src: Reg8::A }, Immediate::Empty),
        0x50 => (Op::ld8_rr { dest: Reg8::D, src: Reg8::B }, Immediate::Empty),
        0x51 => (Op::ld8_rr { dest: Reg8::D, src: Reg8::C }, Immediate::Empty),
        0x52 => (Op::ld8_rr { dest: Reg8::D, src: Reg8::D }, Immediate::Empty),
        0x53 => (Op::ld8_rr { dest: Reg8::D, src: Reg8::E }, Immediate::Empty),
        0x54 => (Op::ld8_rr { dest: Reg8::D, src: Reg8::H }, Immediate::Empty),
        0x55 => (Op::ld8_rr { dest: Reg8::D, src: Reg8::L }, Immediate::Empty),
        0x56 => (Op::ld8_ind { dest: Reg8::D, src: Addr::HL }, Immediate::Empty),
        0x57 => (Op::ld8_rr { dest: Reg8::D, src: Reg8::A }, Immediate::Empty),
        0x58 => (Op::ld8_rr { dest: Reg8::E, src: Reg8::B }, Immediate::Empty),
        0x59 => (Op::ld8_rr { dest: Reg8::E, src: Reg8::C }, Immediate::Empty),
        0x5A => (Op::ld8_rr { dest: Reg8::E, src: Reg8::D }, Immediate::Empty),
        0x5B => (Op::ld8_rr { dest: Reg8::E, src: Reg8::E }, Immediate::Empty),
        0x5C => (Op::ld8_rr { dest: Reg8::E, src: Reg8::H }, Immediate::Empty),
        0x5D => (Op::ld8_rr { dest: Reg8::E, src: Reg8::L }, Immediate::Empty),
        0x5E => (Op::ld8_ind { dest: Reg8::E, src: Addr::HL }, Immediate::Empty),
        0x5F => (Op::ld8_rr { dest: Reg8::E, src: Reg8::A }, Immediate::Empty),
        0x60 => (Op::ld8_rr { dest: Reg8::H, src: Reg8::B }, Immediate::Empty),
        0x61 => (Op::ld8_rr { dest: Reg8::H, src: Reg8::C }, Immediate::Empty),
        0x62 => (Op::ld8_rr { dest: Reg8::H, src: Reg8::D }, Immediate::Empty),
        0x63 => (Op::ld8_rr { dest: Reg8::H, src: Reg8::E }, Immediate::Empty),
        0x64 => (Op::ld8_rr { dest: Reg8::H, src: Reg8::H }, Immediate::Empty),
        0x65 => (Op::ld8_rr { dest: Reg8::H, src: Reg8::L }, Immediate::Empty),
        0x66 => (Op::ld8_ind { dest: Reg8::H, src: Addr::HL }, Immediate::Empty),
        0x67 => (Op::ld8_rr { dest: Reg8::H, src: Reg8::A }, Immediate::Empty),
        0x68 => (Op::ld8_rr { dest: Reg8::L, src: Reg8::B }, Immediate::Empty),
        0x69 => (Op::ld8_rr { dest: Reg8::L, src: Reg8::C }, Immediate::Empty),
        0x6A => (Op::ld8_rr { dest: Reg8::L, src: Reg8::D }, Immediate::Empty),
        0x6B => (Op::ld8_rr { dest: Reg8::L, src: Reg8::E }, Immediate::Empty),
        0x6C => (Op::ld8_rr { dest: Reg8::L, src: Reg8::H }, Immediate::Empty),
        0x6D => (Op::ld8_rr { dest: Reg8::L, src: Reg8::L }, Immediate::Empty),
        0x6E => (Op::ld8_ind { dest: Reg8::L, src: Addr::HL }, Immediate::Empty),
        0x6F => (Op::ld8_rr { dest: Reg8::L, src: Reg8::A }, Immediate::Empty),
        0x70 => (Op::st8_ind { dest: Addr::HL, src: Reg8::B }, Immediate::Empty),
        0x71 => (Op::st8_ind { dest: Addr::HL, src: Reg8::C }, Immediate::Empty),
        0x72 => (Op::st8_ind { dest: Addr::HL, src: Reg8::D }, Immediate::Empty),
        0x73 => (Op::st8_ind { dest: Addr::HL, src: Reg8::E }, Immediate::Empty),
        0x74 => (Op::st8_ind { dest: Addr::HL, src: Reg8::H }, Immediate::Empty),
        0x75 => (Op::st8_ind { dest: Addr::HL, src: Reg8::L }, Immediate::Empty),
        0x76 => (Op::halt, Immediate::Empty),
        0x77 => (Op::st8_ind { dest: Addr::HL, src: Reg8::A }, Immediate::Empty),
        0x78 => (Op::ld8_rr { dest: Reg8::A, src: Reg8::B }, Immediate::Empty),
        0x79 => (Op::ld8_rr { dest: Reg8::A, src: Reg8::C }, Immediate::Empty),
        0x7A => (Op::ld8_rr { dest: Reg8::A, src: Reg8::D }, Immediate::Empty),
        0x7B => (Op::ld8_rr { dest: Reg8::A, src: Reg8::E }, Immediate::Empty),
        0x7C => (Op::ld8_rr { dest: Reg8::A, src: Reg8::H }, Immediate::Empty),
        0x7D => (Op::ld8_rr { dest: Reg8::A, src: Reg8::L }, Immediate::Empty),
        0x7E => (Op::ld8_ind { dest: Reg8::A, src: Addr::HL }, Immediate::Empty),
        0x7F => (Op::ld8_rr { dest: Reg8::A, src: Reg8::A }, Immediate::Empty),
        0x80 => (Op::add8_reg { src: Reg8::B }, Immediate::Empty),
        0x81 => (Op::add8_reg { src: Reg8::C }, Immediate::Empty),
        0x82 => (Op::add8_reg { src: Reg8::D }, Immediate::Empty),
        0x83 => (Op::add8_reg { src: Reg8::E }, Immediate::Empty),
        0x84 => (Op::add8_reg { src: Reg8::H }, Immediate::Empty),
        0x85 => (Op::add8_reg { src: Reg8::L }, Immediate::Empty),
        0x86 => (Op::add8_ind, Immediate::Empty),
        0x87 => (Op::add8_reg { src: Reg8::A }, Immediate::Empty),
        0x88 => (Op::adc8_reg { src: Reg8::B }, Immediate::Empty),
        0x89 => (Op::adc8_reg { src: Reg8::C }, Immediate::Empty),
        0x8A => (Op::adc8_reg { src: Reg8::D }, Immediate::Empty),
        0x8B => (Op::adc8_reg { src: Reg8::E }, Immediate::Empty),
        0x8C => (Op::adc8_reg { src: Reg8::H }, Immediate::Empty),
        0x8D => (Op::adc8_reg { src: Reg8::L }, Immediate::Empty),
        0x8E => (Op::adc8_ind, Immediate::Empty),
        0x8F => (Op::adc8_reg { src: Reg8::A }, Immediate::Empty),
        0x90 => (Op::sub8_reg { src: Reg8::B }, Immediate::Empty),
        0x91 => (Op::sub8_reg { src: Reg8::C }, Immediate::Empty),
        0x92 => (Op::sub8_reg { src: Reg8::D }, Immediate::Empty),
        0x93 => (Op::sub8_reg { src: Reg8::E }, Immediate::Empty),
        0x94 => (Op::sub8_reg { src: Reg8::H }, Immediate::Empty),
        0x95 => (Op::sub8_reg { src: Reg8::L }, Immediate::Empty),
        0x96 => (Op::sub8_ind, Immediate::Empty),
        0x97 => (Op::sub8_reg { src: Reg8::A }, Immediate::Empty),
        0x98 => (Op::sbc8_reg { src: Reg8::B }, Immediate::Empty),
        0x99 => (Op::sbc8_reg { src: Reg8::C }, Immediate::Empty),
        0x9A => (Op::sbc8_reg { src: Reg8::D }, Immediate::Empty),
        0x9B => (Op::sbc8_reg { src: Reg8::E }, Immediate::Empty),
        0x9C => (Op::sbc8_reg { src: Reg8::H }, Immediate::Empty),
        0x9D => (Op::sbc8_reg { src: Reg8::L }, Immediate::Empty),
        0x9E => (Op::sbc8_ind, Immediate::Empty),
        0x9F => (Op::sbc8_reg { src: Reg8::A }, Immediate::Empty),
        0xA0 => (Op::and8_reg { src: Reg8::B }, Immediate::Empty),
        0xA1 => (Op::and8_reg { src: Reg8::C }, Immediate::Empty),
        0xA2 => (Op::and8_reg { src: Reg8::D }, Immediate::Empty),
        0xA3 => (Op::and8_reg { src: Reg8::E }, Immediate::Empty),
        0xA4 => (Op::and8_reg { src: Reg8::H }, Immediate::Empty),
        0xA5 => (Op::and8_reg { src: Reg8::L }, Immediate::Empty),
        0xA6 => (Op::and8_ind, Immediate::Empty),
        0xA7 => (Op::and8_reg { src: Reg8::A }, Immediate::Empty),
        0xA8 => (Op::xor8_reg { src: Reg8::B }, Immediate::Empty),
        0xA9 => (Op::xor8_reg { src: Reg8::C }, Immediate::Empty),
        0xAA => (Op::xor8_reg { src: Reg8::D }, Immediate::Empty),
        0xAB => (Op::xor8_reg { src: Reg8::E }, Immediate::Empty),
        0xAC => (Op::xor8_reg { src: Reg8::H }, Immediate::Empty),
        0xAD => (Op::xor8_reg { src: Reg8::L }, Immediate::Empty),
        0xAE => (Op::xor8_ind, Immediate::Empty),
        0xAF => (Op::xor8_reg { src: Reg8::A }, Immediate::Empty),
        0xB0 => (Op::or8_reg { src: Reg8::B }, Immediate::Empty),
        0xB1 => (Op::or8_reg { src: Reg8::C }, Immediate::Empty),
        0xB2 => (Op::or8_reg { src: Reg8::D }, Immediate::Empty),
        0xB3 => (Op::or8_reg { src: Reg8::E }, Immediate::Empty),
        0xB4 => (Op::or8_reg { src: Reg8::H }, Immediate::Empty),
        0xB5 => (Op::or8_reg { src: Reg8::L }, Immediate::Empty),
        0xB6 => (Op::or8_ind, Immediate::Empty),
        0xB7 => (Op::or8_reg { src: Reg8::A }, Immediate::Empty),
        0xB8 => (Op::cp8_reg { src: Reg8::B }, Immediate::Empty),
        0xB9 => (Op::cp8_reg { src: Reg8::C }, Immediate::Empty),
        0xBA => (Op::cp8_reg { src: Reg8::D }, Immediate::Empty),
        0xBB => (Op::cp8_reg { src: Reg8::E }, Immediate::Empty),
        0xBC => (Op::cp8_reg { src: Reg8::H }, Immediate::Empty),
        0xBD => (Op::cp8_reg { src: Reg8::L }, Immediate::Empty),
        0xBE => (Op::cp8_ind, Immediate::Empty),
        0xBF => (Op::cp8_reg { src: Reg8::A }, Immediate::Empty),
        0xC0 => (Op::ret_cond { cond: Condition::NZ }, Immediate::Empty),
        0xC1 => (Op::pop16 { dest: Reg16::BC }, Immediate::Empty),
        0xC2 => (Op::jp_cond { cond: Condition::NZ }, Immediate::Imm16(0)),
        0xC3 => (Op::jp, Immediate::Imm16(0)),
        0xC4 => (Op::call_cond { cond: Condition::NZ }, Immediate::Imm16(0)),
        0xC5 => (Op::push16 { src: Reg16::BC }, Immediate::Empty),
        0xC6 => (Op::add8_imm, Immediate::Imm8(0)),
        0xC7 => (Op::rst { target: 0x00 }, Immediate::Empty),
        0xC8 => (Op::ret_cond { cond: Condition::Z }, Immediate::Empty),
        0xC9 => (Op::ret, Immediate::Empty),
        0xCA => (Op::jp_cond { cond: Condition::Z }, Immediate::Imm16(0)),
        0xCB => (Op::ext, Immediate::Empty),
        0xCC => (Op::call_cond { cond: Condition::Z }, Immediate::Imm16(0)),
        0xCD => (Op::call, Immediate::Imm16(0)),
        0xCE => (Op::adc8_imm, Immediate::Imm8(0)),
        0xCF => (Op::rst { target: 0x08 }, Immediate::Empty),
        0xD0 => (Op::ret_cond { cond: Condition::NC }, Immediate::Empty),
        0xD1 => (Op::pop16 { dest: Reg16::DE }, Immediate::Empty),
        0xD2 => (Op::jp_cond { cond: Condition::NC }, Immediate::Imm16(0)),
        0xD3 => (Op::inv, Immediate::Empty),
        0xD4 => (Op::call_cond { cond: Condition::NC }, Immediate::Imm16(0)),
        0xD5 => (Op::push16 { src: Reg16::DE }, Immediate::Empty),
        0xD6 => (Op::sub8_imm, Immediate::Imm8(0)),
        0xD7 => (Op::rst { target: 0x10 }, Immediate::Empty),
        0xD8 => (Op::ret_cond { cond: Condition::C }, Immediate::Empty),
        0xD9 => (Op::reti, Immediate::Empty),
        0xDA => (Op::jp_cond { cond: Condition::C }, Immediate::Imm16(0)),
        0xDB => (Op::inv, Immediate::Empty),
        0xDC => (Op::call_cond { cond: Condition::C }, Immediate::Imm16(0)),
        0xDD => (Op::inv, Immediate::Empty),
        0xDE => (Op::sbc8_imm, Immediate::Imm8(0)),
        0xDF => (Op::rst { target: 0x18 }, Immediate::Empty),
        0xE0 => (Op::out8_imm, Immediate::Imm8(0)),
        0xE1 => (Op::pop16 { dest: Reg16::HL }, Immediate::Empty),
        0xE2 => (Op::out8_reg, Immediate::Empty),
        0xE3 => (Op::inv, Immediate::Empty),
        0xE4 => (Op::inv, Immediate::Empty),
        0xE5 => (Op::push16 { src: Reg16::HL }, Immediate::Empty),
        0xE6 => (Op::and8_imm, Immediate::Imm8(0)),
        0xE7 => (Op::rst { target: 0x20 }, Immediate::Empty),
        0xE8 => (Op::add8_sp_imm, Immediate::Imm8(0)),
        0xE9 => (Op::jp_ind, Immediate::Empty),
        0xEA => (Op::st8_ind { dest: Addr::Imm, src: Reg8::A }, Immediate::Imm16(0)),
        0xEB => (Op::inv, Immediate::Empty),
        0xEC => (Op::inv, Immediate::Empty),
        0xED => (Op::inv, Immediate::Empty),
        0xEE => (Op::xor8_imm, Immediate::Imm8(0)),
        0xEF => (Op::rst { target: 0x28 }, Immediate::Empty),
        0xF0 => (Op::in8_imm, Immediate::Imm8(0)),
        0xF1 => (Op::pop16 { dest: Reg16::AF }, Immediate::Empty),
        0xF2 => (Op::in8_reg, Immediate::Empty),
        0xF3 => (Op::di, Immediate::Empty),
        0xF4 => (Op::inv, Immediate::Empty),
        0xF5 => (Op::push16 { src: Reg16::AF }, Immediate::Empty),
        0xF6 => (Op::or8_imm, Immediate::Imm8(0)),
        0xF7 => (Op::rst { target: 0x30 }, Immediate::Empty),
        0xF8 => (Op::ld16_lea, Immediate::Imm8(0)),
        0xF9 => (Op::ld16_sp, Immediate::Empty),
        0xFA => (Op::ld8_ind { dest: Reg8::A, src: Addr::Imm }, Immediate::Imm16(0)),
        0xFB => (Op::ei, Immediate::Empty),
        0xFC => (Op::inv, Immediate::Empty),
        0xFD => (Op::inv, Immediate::Empty),
        0xFE => (Op::cp8_imm, Immediate::Imm8(0)),
        0xFF => (Op::rst { target: 0x38 }, Immediate::Empty),
    }
}

/// Decodes an opcode of the CB-prefixed extension table; none of its
/// instructions has an immediate.
pub fn from_ext_opcode(opcode: u8) -> (r: Instr)
    ensures
        r.op == ext_op(opcode),
        crate::cpu_spec::bit_ok(r.op),
        r.imm == Immediate::Empty,
{
    let op = match opcode {
            0x00 => Op::rlc { src: Reg8::B },
            0x01 => Op::rlc { src: Reg8::C },
            0x02 => Op::rlc { src: Reg8::D },
            0x03 => Op::rlc { src: Reg8::E },
            0x04 => Op::rlc { src: Reg8::H },
            0x05 => Op::rlc { src: Reg8::L },
            0x06 => Op::rlc_ind,
            0x07 => Op::rlc { src: Reg8::A },
            0x08 => Op::rrc { src: Reg8::B },
            0x09 => Op::rrc { src: Reg8::C },
            0x0A => Op::rrc { src: Reg8::D },
            0x0B => Op::rrc { src: Reg8::E },
            0x0C => Op::rrc { src: Reg8::H },
            0x0D => Op::rrc { src: Reg8::L },
            0x0E => Op::rrc_ind,
            0x0F => Op::rrc { src: Reg8::A },
            0x10 => Op::rl { src: Reg8::B },
            0x11 => Op::rl { src: Reg8::C },
            0x12 => Op::rl { src: Reg8::D },
            0x13 => Op::rl { src: Reg8::E },
            0x14 => Op::rl { src: Reg8::H },
            0x15 => Op::rl { src: Reg8::L },
            0x16 => Op::rl_ind,
            0x17 => Op::rl { src: Reg8::A },
            0x18 => Op::rr { src: Reg8::B },
            0x19 => Op::rr { src: Reg8::C },
            0x1A => Op::rr { src: Reg8::D },
            0x1B => Op::rr { src: Reg8::E },
            0x1C => Op::rr { src: Reg8::H },
            0x1D => Op::rr { src: Reg8::L },
            0x1E => Op::rr_ind,
            0x1F => Op::rr { src: Reg8::A },
            0x20 => Op::sla { src: Reg8::B },
            0x21 => Op::sla { src: Reg8::C },
            0x22 => Op::sla { src: Reg8::D },
            0x23 => Op::sla { src: Reg8::E },
            0x24 => Op::sla { src: Reg8::H },
            0x25 => Op::sla { src: Reg8::L },
            0x26 => Op::sla_ind,
            0x27 => Op::sla { src: Reg8::A },
            0x28 => Op::sra { src: Reg8::B },
            0x29 => Op::sra { src: Reg8::C },
            0x2A => Op::sra { src: Reg8::D },
            0x2B => Op::sra { src: Reg8::E },
            0x2C => Op::sra { src: Reg8::H },
            0x2D => Op::sra { src: Reg8::L },
            0x2E => Op::sra_ind,
            0x2F => Op::sra { src: Reg8::A },
            0x30 => Op::swap { src: Reg8::B },
            0x31 => Op::swap { src: Reg8::C },
            0x32 => Op::swap { src: Reg8::D },
            0x33 => Op::swap { src: Reg8::E },
            0x34 => Op::swap { src: Reg8::H },
            0x35 => Op::swap { src: Reg8::L },
            0x36 => Op::swap_ind,
            0x37 => Op::swap { src: Reg8::A },
            0x38 => Op::srl { src: Reg8::B },
            0x39 => Op::srl { src: Reg8::C },
            0x3A => Op::srl { src: Reg8::D },
            0x3B => Op::srl { src: Reg8::E },
            0x3C => Op::srl { src: Reg8::H },
            0x3D => Op::srl { src: Reg8::L },
            0x3E => Op::srl_ind,
            0x3F => Op::srl { src: Reg8::A },
            0x40 => Op::bit { src: Reg8::B, bit: 0 },
            0x41 => Op::bit { src: Reg8::C, bit: 0 },
            0x42 => Op::bit { src: Reg8::D, bit: 0 },
            0x43 => Op::bit { src: Reg8::E, bit: 0 },
            0x44 => Op::bit { src: Reg8::H, bit: 0 },
            0x45 => Op::bit { src: Reg8::L, bit: 0 },
            0x46 => Op::bit_ind { bit: 0 },
            0x47 => Op::bit { src: Reg8::A, bit: 0 },
            0x48 => Op::bit { src: Reg8::B, bit: 1 },
            0x49 => Op::bit { src: Reg8::C, bit: 1 },
            0x4A => Op::bit { src: Reg8::D, bit: 1 },
            0x4B => Op::bit { src: Reg8::E, bit: 1 },
            0x4C => Op::bit { src: Reg8::H, bit: 1 },
            0x4D => Op::bit { src: Reg8::L, bit: 1 },
            0x4E => Op::bit_ind { bit: 1 },
            0x4F => Op::bit { src: Reg8::A, bit: 1 },
            0x50 => Op::bit { src: Reg8::B, bit: 2 },
            0x51 => Op::bit { src: Reg8::C, bit: 2 },
            0x52 => Op::bit { src: Reg8::D, bit: 2 },
            0x53 => Op::bit { src: Reg8::E, bit: 2 },
            0x54 => Op::bit { src: Reg8::H, bit: 2 },
            0x55 => Op::bit { src: Reg8::L, bit: 2 },
            0x56 => Op::bit_ind { bit: 2 },
            0x57 => Op::bit { src: Reg8::A, bit: 2 },
            0x58 => Op::bit { src: Reg8::B, bit: 3 },
            0x59 => Op::bit { src: Reg8::C, bit: 3 },
            0x5A => Op::bit { src: Reg8::D, bit: 3 },
            0x5B => Op::bit { src: Reg8::E, bit: 3 },
            0x5C => Op::bit { src: Reg8::H, bit: 3 },
            0x5D => Op::bit { src: Reg8::L, bit: 3 },
            0x5E => Op::bit_ind { bit: 3 },
            0x5F => Op::bit { src: Reg8::A, bit: 3 },
            0x60 => Op::bit { src: Reg8::B, bit: 4 },
            0x61 => Op::bit { src: Reg8::C, bit: 4 },
            0x62 => Op::bit { src: Reg8::D, bit: 4 },
            0x63 => Op::bit { src: Reg8::E, bit: 4 },
            0x64 => Op::bit { src: Reg8::H, bit: 4 },
            0x65 => Op::bit { src: Reg8::L, bit: 4 },
            0x66 => Op::bit_ind { bit: 4 },
            0x67 => Op::bit { src: Reg8::A, bit: 4 },
            0x68 => Op::bit { src: Reg8::B, bit: 5 },
            0x69 => Op::bit { src: Reg8::C, bit: 5 },
            0x6A => Op::bit { src: Reg8::D, bit: 5 },
            0x6B => Op::bit { src: Reg8::E, bit: 5 },
            0x6C => Op::bit { src: Reg8::H, bit: 5 },
            0x6D => Op::bit { src: Reg8::L, bit: 5 },
            0x6E => Op::bit_ind { bit: 5 },
            0x6F => Op::bit { src: Reg8::A, bit: 5 },
            0x70 => Op::bit { src: Reg8::B, bit: 6 },
            0x71 => Op::bit { src: Reg8::C, bit: 6 },
            0x72 => Op::bit { src: Reg8::D, bit: 6 },
            0x73 => Op::bit { src: Reg8::E, bit: 6 },
            0x74 => Op::bit { src: Reg8::H, bit: 6 },
            0x75 => Op::bit { src: Reg8::L, bit: 6 },
            0x76 => Op::bit_ind { bit: 6 },
            0x77 => Op::bit { src: Reg8::A, bit: 6 },
            0x78 => Op::bit { src: Reg8::B, bit: 7 },
            0x79 => Op::bit { src: Reg8::C, bit: 7 },
            0x7A => Op::bit { src: Reg8::D, bit: 7 },
            0x7B => Op::bit { src: Reg8::E, bit: 7 },
            0x7C => Op::bit { src: Reg8::H, bit: 7 },
            0x7D => Op::bit { src: Reg8::L, bit: 7 },
            0x7E => Op::bit_ind { bit: 7 },
            0x7F => Op::bit { src: Reg8::A, bit: 7 },
            0x80 => Op::res { src: Reg8::B, bit: 0 },
            0x81 => Op::res { src: Reg8::C, bit: 0 },
            0x82 => Op::res { src: Reg8::D, bit: 0 },
            0x83 => Op::res { src: Reg8::E, bit: 0 },
            0x84 => Op::res { src: Reg8::H, bit: 0 },
            0x85 => Op::res { src: Reg8::L, bit: 0 },
            0x86 => Op::res_ind { bit: 0 },
            0x87 => Op::res { src: Reg8::A, bit: 0 },
            0x88 => Op::res { src: Reg8::B, bit: 1 },
            0x89 => Op::res { src: Reg8::C, bit: 1 },
            0x8A => Op::res { src: Reg8::D, bit: 1 },
            0x8B => Op::res { src: Reg8::E, bit: 1 },
            0x8C => Op::res { src: Reg8::H, bit: 1 },
            0x8D => Op::res { src: Reg8::L, bit: 1 },
            0x8E => Op::res_ind { bit: 1 },
            0x8F => Op::res { src: Reg8::A, bit: 1 },
            0x90 => Op::res { src: Reg8::B, bit: 2 },
            0x91 => Op::res { src: Reg8::C, bit: 2 },
            0x92 => Op::res { src: Reg8::D, bit: 2 },
            0x93 => Op::res { src: Reg8::E, bit: 2 },
            0x94 => Op::res { src: Reg8::H, bit: 2 },
            0x95 => Op::res { src: Reg8::L, bit: 2 },
            0x96 => Op::res_ind { bit: 2 },
            0x97 => Op::res { src: Reg8::A, bit: 2 },
            0x98 => Op::res { src: Reg8::B, bit: 3 },
            0x99 => Op::res { src: Reg8::C, bit: 3 },
            0x9A => Op::res { src: Reg8::D, bit: 3 },
            0x9B => Op::res { src: Reg8::E, bit: 3 },
            0x9C => Op::res { src: Reg8::H, bit: 3 },
            0x9D => Op::res { src: Reg8::L, bit: 3 },
            0x9E => Op::res_ind { bit: 3 },
            0x9F => Op::res { src: Reg8::A, bit: 3 },
            0xA0 => Op::res { src: Reg8::B, bit: 4 },
            0xA1 => Op::res { src: Reg8::C, bit: 4 },
            0xA2 => Op::res { src: Reg8::D, bit: 4 },
            0xA3 => Op::res { src: Reg8::E, bit: 4 },
            0xA4 => Op::res { src: Reg8::H, bit: 4 },
            0xA5 => Op::res { src: Reg8::L, bit: 4 },
            0xA6 => Op::res_ind { bit: 4 },
            0xA7 => Op::res { src: Reg8::A, bit: 4 },
            0xA8 => Op::res { src: Reg8::B, bit: 5 },
            0xA9 => Op::res { src: Reg8::C, bit: 5 },
            0xAA => Op::res { src: Reg8::D, bit: 5 },
            0xAB => Op::res { src: Reg8::E, bit: 5 },
            0xAC => Op::res { src: Reg8::H, bit: 5 },
            0xAD => Op::res { src: Reg8::L, bit: 5 },
            0xAE => Op::res_ind { bit: 5 },
            0xAF => Op::res { src: Reg8::A, bit: 5 },
            0xB0 => Op::res { src: Reg8::B, bit: 6 },
            0xB1 => Op::res { src: Reg8::C, bit: 6 },
            0xB2 => Op::res { src: Reg8::D, bit: 6 },
            0xB3 => Op::res { src: Reg8::E, bit: 6 },
            0xB4 => Op::res { src: Reg8::H, bit: 6 },
            0xB5 => Op::res { src: Reg8::L, bit: 6 },
            0xB6 => Op::res_ind { bit: 6 },
            0xB7 => Op::res { src: Reg8::A, bit: 6 },
            0xB8 => Op::res { src: Reg8::B, bit: 7 },
            0xB9 => Op::res { src: Reg8::C, bit: 7 },
            0xBA => Op::res { src: Reg8::D, bit: 7 },
            0xBB => Op::res { src: Reg8::E, bit: 7 },
            0xBC => Op::res { src: Reg8::H, bit: 7 },
            0xBD => Op::res { src: Reg8::L, bit: 7 },
            0xBE => Op::res_ind { bit: 7 },
            0xBF => Op::res { src: Reg8::A, bit: 7 },
            0xC0 => Op::set { src: Reg8::B, bit: 0 },
            0xC1 => Op::set { src: Reg8::C, bit: 0 },
            0xC2 => Op::set { src: Reg8::D, bit: 0 },
            0xC3 => Op::set { src: Reg8::E, bit: 0 },
            0xC4 => Op::set { src: Reg8::H, bit: 0 },
            0xC5 => Op::set { src: Reg8::L, bit: 0 },
            0xC6 => Op::set_ind { bit: 0 },
            0xC7 => Op::set { src: Reg8::A, bit: 0 },
            0xC8 => Op::set { src: Reg8::B, bit: 1 },
            0xC9 => Op::set { src: Reg8::C, bit: 1 },
            0xCA => Op::set { src: Reg8::D, bit: 1 },
            0xCB => Op::set { src: Reg8::E, bit: 1 },
            0xCC => Op::set { src: Reg8::H, bit: 1 },
            0xCD => Op::set { src: Reg8::L, bit: 1 },
            0xCE => Op::set_ind { bit: 1 },
            0xCF => Op::set { src: Reg8::A, bit: 1 },
            0xD0 => Op::set { src: Reg8::B, bit: 2 },
            0xD1 => Op::set { src: Reg8::C, bit: 2 },
            0xD2 => Op::set { src: Reg8::D, bit: 2 },
            0xD3 => Op::set { src: Reg8::E, bit: 2 },
            0xD4 => Op::set { src: Reg8::H, bit: 2 },
            0xD5 => Op::set { src: Reg8::L, bit: 2 },
            0xD6 => Op::set_ind { bit: 2 },
            0xD7 => Op::set { src: Reg8::A, bit: 2 },
            0xD8 => Op::set { src: Reg8::B, bit: 3 },
            0xD9 => Op::set { src: Reg8::C, bit: 3 },
            0xDA => Op::set { src: Reg8::D, bit: 3 },
            0xDB => Op::set { src: Reg8::E, bit: 3 },
            0xDC => Op::set { src: Reg8::H, bit: 3 },
            0xDD => Op::set { src: Reg8::L, bit: 3 },
            0xDE => Op::set_ind { bit: 3 },
            0xDF => Op::set { src: Reg8::A, bit: 3 },
            0xE0 => Op::set { src: Reg8::B, bit: 4 },
            0xE1 => Op::set { src: Reg8::C, bit: 4 },
            0xE2 => Op::set { src: Reg8::D, bit: 4 },
            0xE3 => Op::set { src: Reg8::E, bit: 4 },
            0xE4 => Op::set { src: Reg8::H, bit: 4 },
            0xE5 => Op::set { src: Reg8::L, bit: 4 },
            0xE6 => Op::set_ind { bit: 4 },
            0xE7 => Op::set { src: Reg8::A, bit: 4 },
            0xE8 => Op::set { src: Reg8::B, bit: 5 },
            0xE9 => Op::set { src: Reg8::C, bit: 5 },
            0xEA => Op::set { src: Reg8::D, bit: 5 },
            0xEB => Op::set { src: Reg8::E, bit: 5 },
            0xEC => Op::set { src: Reg8::H, bit: 5 },
            0xED => Op::set { src: Reg8::L, bit: 5 },
            0xEE => Op::set_ind { bit: 5 },
            0xEF => Op::set { src: Reg8::A, bit: 5 },
            0xF0 => Op::set { src: Reg8::B, bit: 6 },
            0xF1 => Op::set { src: Reg8::C, bit: 6 },
            0xF2 => Op::set { src: Reg8::D, bit: 6 },
            0xF3 => Op::set { src: Reg8::E, bit: 6 },
            0xF4 => Op::set { src: Reg8::H, bit: 6 },
            0xF5 => Op::set { src: Reg8::L, bit: 6 },
            0xF6 => Op::set_ind { bit: 6 },
            0xF7 => Op::set { src: Reg8::A, bit: 6 },
            0xF8 => Op::set { src: Reg8::B, bit: 7 },
            0xF9 => Op::set { src: Reg8::C, bit: 7 },
            0xFA => Op::set { src: Reg8::D, bit: 7 },
            0xFB => Op::set { src: Reg8::E, bit: 7 },
            0xFC => Op::set { src: Reg8::H, bit: 7 },
            0xFD => Op::set { src: Reg8::L, bit: 7 },
            0xFE => Op::set_ind { bit: 7 },
            0xFF => Op::set { src: Reg8::A, bit: 7 },
    };
    Instr { op, imm: Immediate::Empty }
}

} // verus!
