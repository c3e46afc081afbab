//! What one instruction does to the registers and to memory, stated over
//! the registers before it and the bytes that reads return.

use vstd::prelude::*;
use crate::alu::{add16, add8, add_sp8, and8, bit_flags, daa8, dec8, inc8, offset16, or8, res_bit, rl8, rlc8, rr8, rrc8, set_bit, sla8, sra8, srl8, sub8, swap8, xor8};
use crate::instructions::{Addr, Condition, Immediate, Instr, Op};
use crate::registers::{Flags, Reg16, Reg8, Registers};

verus! {

/// The registers after an instruction, the bytes it writes (address and
/// value, in order) and whether it took a conditional branch.
pub struct Effect {
    pub regs: Registers,
    pub writes: Seq<(u16, u8)>,
    pub jumped: bool,
}

/// `a + k` on 16 bits.
pub open spec fn inc16w(a: u16, k: int) -> u16 {
    ((a as int + k) % 65536) as u16
}

/// `a - k` on 16 bits, for `0 <= k <= 65536`.
pub open spec fn dec16w(a: u16, k: int) -> u16 {
    ((a as int + 65536 - k) % 65536) as u16
}

pub open spec fn lo8(v: u16) -> u8 {
    (v % 256) as u8
}

pub open spec fn hi8(v: u16) -> u8 {
    (v / 256) as u8
}

/// The little-endian word of two bytes.
pub open spec fn word(lo: u8, hi: u8) -> u16 {
    (hi as int * 256 + lo as int) as u16
}

/// The I/O address 0xFF00 + `ofs`.
pub open spec fn io_addr(ofs: u8) -> u16 {
    (0xFF00 + ofs as int) as u16
}

pub open spec fn cond_holds(c: Condition, f: Flags) -> bool {
    match c {
        Condition::NZ => !f.zero,
        Condition::Z => f.zero,
        Condition::NC => !f.carry,
        Condition::C => f.carry,
    }
}

/// The address an indirect operand names, and the registers after it is
/// resolved (HL+ and HL- step HL).
pub open spec fn resolve(regs: Registers, a: Addr, imm: Immediate) -> (u16, Registers) {
    let hl = regs.r16(Reg16::HL);
    match a {
        Addr::BC => (regs.r16(Reg16::BC), regs),
        Addr::DE => (regs.r16(Reg16::DE), regs),
        Addr::HL => (hl, regs),
        Addr::HLI => (hl, regs.with16(Reg16::HL, inc16w(hl, 1))),
        Addr::HLD => (hl, regs.with16(Reg16::HL, dec16w(hl, 1))),
        Addr::Imm => (imm->Imm16_0, regs),
        Addr::IO => (io_addr(imm->Imm8_0), regs),
        Addr::IOC => (io_addr(regs.c), regs),
    }
}

pub open spec fn plain(regs: Registers) -> Effect {
    Effect { regs, writes: Seq::empty(), jumped: false }
}

pub open spec fn taken(regs: Registers) -> Effect {
    Effect { regs, writes: Seq::empty(), jumped: true }
}

pub open spec fn store(regs: Registers, addr: u16, v: u8) -> Effect {
    Effect { regs, writes: seq![(addr, v)], jumped: false }
}

/// The two writes of a push of `v` below `sp`: high byte first, at SP-1,
/// then the low byte at SP-2.
pub open spec fn push_writes(sp: u16, v: u16) -> Seq<(u16, u8)> {
    seq![(dec16w(sp, 1), hi8(v)), (dec16w(sp, 2), lo8(v))]
}

/// A push of PC followed by a jump to `target` (CALL, RST).
pub open spec fn call_to(regs: Registers, target: u16, jumped: bool) -> Effect {
    Effect {
        regs: Registers { sp: dec16w(regs.sp, 2), pc: target, ..regs },
        writes: push_writes(regs.sp, regs.pc),
        jumped,
    }
}

/// A pop into PC (RET, RETI).
pub open spec fn ret_from(regs: Registers, rd: spec_fn(u16) -> u8, jumped: bool) -> Effect {
    Effect {
        regs: Registers {
            pc: word(rd(regs.sp), rd(inc16w(regs.sp, 1))),
            sp: inc16w(regs.sp, 2),
            ..regs
        },
        writes: Seq::empty(),
        jumped,
    }
}

/// A result and flags stored in A.
pub open spec fn to_acc(regs: Registers, r: (u8, Flags)) -> Effect {
    plain(Registers { a: r.0, f: r.1, ..regs })
}

/// A result stored in A with the zero flag cleared (RLCA, RLA, RRCA, RRA).
pub open spec fn to_acc_nz(regs: Registers, r: (u8, Flags)) -> Effect {
    plain(Registers { a: r.0, f: Flags { zero: false, ..r.1 }, ..regs })
}

/// Flags set, then the result stored in `dest`.
pub open spec fn to_reg(regs: Registers, dest: Reg8, r: (u8, Flags)) -> Effect {
    plain(Registers { f: r.1, ..regs }.with8(dest, r.0))
}

/// Flags set and the result written back to (HL).
pub open spec fn to_mem(regs: Registers, addr: u16, r: (u8, Flags)) -> Effect {
    store(Registers { f: r.1, ..regs }, addr, r.0)
}

/// Only the flags change.
pub open spec fn flags_only(regs: Registers, f: Flags) -> Effect {
    plain(Registers { f, ..regs })
}

/// What `i` does from registers `regs` when a read of address `a`
/// returns `rd(a)`. The immediate is taken to have the operation's shape.
pub open spec fn effect(regs: Registers, i: Instr, rd: spec_fn(u16) -> u8) -> Effect {
    let hl = regs.r16(Reg16::HL);
    let n = i.imm->Imm8_0;
    let nn = i.imm->Imm16_0;
    let f = regs.f;
    let a = regs.a;
    let sp = regs.sp;
    let pc = regs.pc;
    match i.op {
        Op::ld8_imm { dest } => plain(regs.with8(dest, n)),
        Op::ld8_rr { dest, src } => plain(regs.with8(dest, regs.r8(src))),
        Op::ld8_ind { dest, src } => {
            let (ad, r2) = resolve(regs, src, i.imm);
            plain(r2.with8(dest, rd(ad)))
        },
        Op::ld16_sp => plain(Registers { sp: hl, ..regs }),
        Op::ld16_imm { dest } => plain(regs.with16(dest, nn)),
        Op::ld16_lea => {
            let (v, g) = add_sp8(sp, n);
            plain(Registers { f: g, ..regs.with16(Reg16::HL, v) })
        },
        Op::st8_ind_imm => store(regs, hl, n),
        Op::st8_ind { dest, src } => {
            let (ad, r2) = resolve(regs, dest, i.imm);
            store(r2, ad, regs.r8(src))
        },
        Op::st16_sp => Effect {
            regs,
            writes: seq![(nn, lo8(sp)), (inc16w(nn, 1), hi8(sp))],
            jumped: false,
        },
        Op::push16 { src } => Effect {
            regs: Registers { sp: dec16w(sp, 2), ..regs },
            writes: push_writes(sp, regs.r16(src)),
            jumped: false,
        },
        Op::pop16 { dest } => plain(
            Registers { sp: inc16w(sp, 2), ..regs }.with16(dest, word(rd(sp), rd(inc16w(sp, 1)))),
        ),
        Op::in8_reg => plain(regs.with8(Reg8::A, rd(io_addr(regs.c)))),
        Op::in8_imm => plain(regs.with8(Reg8::A, rd(io_addr(n)))),
        Op::out8_reg => store(regs, io_addr(regs.c), a),
        Op::out8_imm => store(regs, io_addr(n), a),
        Op::add8_reg { src } => to_acc(regs, add8(a, regs.r8(src), false)),
        Op::add8_ind => to_acc(regs, add8(a, rd(hl), false)),
        Op::add8_imm => to_acc(regs, add8(a, n, false)),
        Op::add8_sp_imm => {
            let (v, g) = add_sp8(sp, n);
            plain(Registers { sp: v, f: g, ..regs })
        },
        Op::add16_reg { src } => {
            let (v, g) = add16(hl, regs.r16(src), f);
            plain(Registers { f: g, ..regs }.with16(Reg16::HL, v))
        },
        Op::adc8_reg { src } => to_acc(regs, add8(a, regs.r8(src), f.carry)),
        Op::adc8_ind => to_acc(regs, add8(a, rd(hl), f.carry)),
        Op::adc8_imm => to_acc(regs, add8(a, n, f.carry)),
        Op::sub8_reg { src } => to_acc(regs, sub8(a, regs.r8(src), false)),
        Op::sub8_ind => to_acc(regs, sub8(a, rd(hl), false)),
        Op::sub8_imm => to_acc(regs, sub8(a, n, false)),
        Op::sbc8_reg { src } => to_acc(regs, sub8(a, regs.r8(src), f.carry)),
        Op::sbc8_ind => to_acc(regs, sub8(a, rd(hl), f.carry)),
        Op::sbc8_imm => to_acc(regs, sub8(a, n, f.carry)),
        Op::and8_reg { src } => to_acc(regs, and8(a, regs.r8(src))),
        Op::and8_ind => to_acc(regs, and8(a, rd(hl))),
        Op::and8_imm => to_acc(regs, and8(a, n)),
        Op::or8_reg { src } => to_acc(regs, or8(a, regs.r8(src))),
        Op::or8_ind => to_acc(regs, or8(a, rd(hl))),
        Op::or8_imm => to_acc(regs, or8(a, n)),
        Op::xor8_reg { src } => to_acc(regs, xor8(a, regs.r8(src))),
        Op::xor8_ind => to_acc(regs, xor8(a, rd(hl))),
        Op::xor8_imm => to_acc(regs, xor8(a, n)),
        Op::inc8_reg { src } => to_reg(regs, src, inc8(regs.r8(src), f)),
        Op::inc8_ind => to_mem(regs, hl, inc8(rd(hl), f)),
        Op::inc16_reg { src } => plain(regs.with16(src, inc16w(regs.r16(src), 1))),
        Op::dec8_reg { src } => to_reg(regs, src, dec8(regs.r8(src), f)),
        Op::dec8_ind => to_mem(regs, hl, dec8(rd(hl), f)),
        Op::dec16_reg { src } => plain(regs.with16(src, dec16w(regs.r16(src), 1))),
        Op::cp8_reg { src } => flags_only(regs, sub8(a, regs.r8(src), false).1),
        Op::cp8_ind => flags_only(regs, sub8(a, rd(hl), false).1),
        Op::cp8_imm => flags_only(regs, sub8(a, n, false).1),
        Op::swap { src } => to_reg(regs, src, swap8(regs.r8(src))),
        Op::swap_ind => to_mem(regs, hl, swap8(rd(hl))),
        Op::rla => to_acc_nz(regs, rl8(a, f.carry)),
        Op::rl { src } => to_reg(regs, src, rl8(regs.r8(src), f.carry)),
        Op::rl_ind => to_mem(regs, hl, rl8(rd(hl), f.carry)),
        Op::rlca => to_acc_nz(regs, rlc8(a)),
        Op::rlc { src } => to_reg(regs, src, rlc8(regs.r8(src))),
        Op::rlc_ind => to_mem(regs, hl, rlc8(rd(hl))),
        Op::rra => to_acc_nz(regs, rr8(a, f.carry)),
        Op::rr { src } => to_reg(regs, src, rr8(regs.r8(src), f.carry)),
        Op::rr_ind => to_mem(regs, hl, rr8(rd(hl), f.carry)),
        Op::rrca => to_acc_nz(regs, rrc8(a)),
        Op::rrc { src } => to_reg(regs, src, rrc8(regs.r8(src))),
        Op::rrc_ind => to_mem(regs, hl, rrc8(rd(hl))),
        Op::sla { src } => to_reg(regs, src, sla8(regs.r8(src))),
        Op::sla_ind => to_mem(regs, hl, sla8(rd(hl))),
        Op::sra { src } => to_reg(regs, src, sra8(regs.r8(src))),
        Op::sra_ind => to_mem(regs, hl, sra8(rd(hl))),
        Op::srl { src } => to_reg(regs, src, srl8(regs.r8(src))),
        Op::srl_ind => to_mem(regs, hl, srl8(rd(hl))),
        Op::bit { src, bit } => flags_only(regs, bit_flags(regs.r8(src), bit, f)),
        Op::bit_ind { bit } => flags_only(regs, bit_flags(rd(hl), bit, f)),
        Op::set { src, bit } => plain(regs.with8(src, set_bit(regs.r8(src), bit))),
        Op::set_ind { bit } => store(regs, hl, set_bit(rd(hl), bit)),
        Op::res { src, bit } => plain(regs.with8(src, res_bit(regs.r8(src), bit))),
        Op::res_ind { bit } => store(regs, hl, res_bit(rd(hl), bit)),
        Op::daa => to_acc(regs, daa8(a, f)),
        Op::cpl => plain(Registers { a: !a, f: Flags { sub: true, hcarry: true, ..f }, ..regs }),
        Op::ccf => flags_only(regs, Flags { sub: false, hcarry: false, carry: !f.carry, ..f }),
        Op::scf => flags_only(regs, Flags { sub: false, hcarry: false, carry: true, ..f }),
        Op::jp => plain(Registers { pc: nn, ..regs }),
        Op::jp_cond { cond } => if cond_holds(cond, f) {
            taken(Registers { pc: nn, ..regs })
        } else {
            plain(regs)
        },
        Op::jp_ind => plain(Registers { pc: hl, ..regs }),
        Op::jp_rel => plain(Registers { pc: offset16(pc, n), ..regs }),
        Op::jp_rel_cond { cond } => if cond_holds(cond, f) {
            taken(Registers { pc: offset16(pc, n), ..regs })
        } else {
            plain(regs)
        },
        Op::call => call_to(regs, nn, false),
        Op::call_cond { cond } => if cond_holds(cond, f) {
            call_to(regs, nn, true)
        } else {
            plain(regs)
        },
        Op::ret => ret_from(regs, rd, false),
        Op::ret_cond { cond } => if cond_holds(cond, f) {
            ret_from(regs, rd, true)
        } else {
            plain(regs)
        },
        Op::reti => ret_from(regs, rd, false),
        Op::rst { target } => call_to(regs, target, false),
        _ => plain(regs),
    }
}

/// IME after an instruction: DI clears it at once, RETI sets it at once,
/// and an EI executed just before takes effect after this instruction.
pub open spec fn ime_after(ime: bool, pending: bool, op: Op) -> bool {
    if op is di {
        false
    } else if op is reti || pending {
        true
    } else {
        ime
    }
}

/// Whether the immediate has the shape the operation reads.
pub open spec fn imm_ok(i: Instr) -> bool {
    &&& (crate::instructions::imm_shape(i.op) is Imm8 ==> i.imm is Imm8)
    &&& (crate::instructions::imm_shape(i.op) is Imm16 ==> i.imm is Imm16)
}

/// Whether an operation is one the CPU executes (not a decode placeholder).
pub open spec fn executable(op: Op) -> bool {
    !(op is inv) && !(op is ext)
}

/// Bit operations name bits 0..=7.
pub open spec fn bit_ok(op: Op) -> bool {
    match op {
        Op::bit { bit, .. } | Op::bit_ind { bit } | Op::set { bit, .. } | Op::set_ind { bit }
        | Op::res { bit, .. } | Op::res_ind { bit } => bit < 8,
        _ => true,
    }
}

} // verus!
