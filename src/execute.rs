//! Execution of decoded instructions.

use vstd::prelude::*;
use crate::alu::{dec8, inc8, 
    add_bytes, add_sp_bytes, add_words, daa_byte, offset_word, sub_bytes, add16, add8, and8,
    or8, rl8, rlc8, rr8, rrc8, sla8, sra8, srl8, sub8, swap8, xor8,
};
use crate::bus::{bus_after, Bus};
use crate::cpu::Cpu;
use crate::cpu_spec::{bit_ok, effect, executable, ime_after, imm_ok};
use crate::instructions::{cycles, cycles_jmp, is_branch, op_cycles, taken_cycles, Instr, Op};
use crate::registers::{Flags, Reg16, Reg8, Registers};

verus! {

pub open spec fn is_load(op: Op) -> bool {
    match op {
        Op::ld8_imm { .. } | Op::ld8_rr { .. } | Op::ld8_ind { .. } | Op::ld16_sp
        | Op::ld16_imm { .. } | Op::ld16_lea | Op::st8_ind_imm | Op::st8_ind { .. } | Op::st16_sp
        | Op::push16 { .. } | Op::pop16 { .. } | Op::in8_reg | Op::in8_imm | Op::out8_reg
        | Op::out8_imm => true,
        _ => false,
    }
}

pub open spec fn is_arith(op: Op) -> bool {
    match op {
        Op::add8_reg { .. } | Op::add8_ind | Op::add8_imm | Op::add8_sp_imm | Op::add16_reg { .. }
        | Op::adc8_reg { .. } | Op::adc8_ind | Op::adc8_imm | Op::sub8_reg { .. } | Op::sub8_ind
        | Op::sub8_imm | Op::sbc8_reg { .. } | Op::sbc8_ind | Op::sbc8_imm | Op::and8_reg { .. }
        | Op::and8_ind | Op::and8_imm | Op::or8_reg { .. } | Op::or8_ind | Op::or8_imm
        | Op::xor8_reg { .. } | Op::xor8_ind | Op::xor8_imm | Op::inc8_reg { .. } | Op::inc8_ind
        | Op::inc16_reg { .. } | Op::dec8_reg { .. } | Op::dec8_ind | Op::dec16_reg { .. }
        | Op::cp8_reg { .. } | Op::cp8_ind | Op::cp8_imm | Op::daa | Op::cpl | Op::ccf
        | Op::scf => true,
        _ => false,
    }
}

pub open spec fn is_bitwise(op: Op) -> bool {
    match op {
        Op::swap { .. } | Op::swap_ind | Op::rla | Op::rl { .. } | Op::rl_ind | Op::rlca
        | Op::rlc { .. } | Op::rlc_ind | Op::rra | Op::rr { .. } | Op::rr_ind | Op::rrca
        | Op::rrc { .. } | Op::rrc_ind | Op::sla { .. } | Op::sla_ind | Op::sra { .. }
        | Op::sra_ind | Op::srl { .. } | Op::srl_ind | Op::bit { .. } | Op::bit_ind { .. }
        | Op::set { .. } | Op::set_ind { .. } | Op::res { .. } | Op::res_ind { .. } => true,
        _ => false,
    }
}

pub open spec fn is_flow(op: Op) -> bool {
    match op {
        Op::jp | Op::jp_cond { .. } | Op::jp_ind | Op::jp_rel | Op::jp_rel_cond { .. } | Op::call
        | Op::call_cond { .. } | Op::ret | Op::ret_cond { .. } | Op::reti | Op::rst { .. } => true,
        _ => false,
    }
}

pub open spec fn is_add_sub(op: Op) -> bool {
    match op {
        Op::add8_reg { .. } | Op::add8_ind | Op::add8_imm | Op::adc8_reg { .. } | Op::adc8_ind | Op::adc8_imm | Op::sub8_reg { .. } | Op::sub8_ind | Op::sub8_imm | Op::sbc8_reg { .. } | Op::sbc8_ind | Op::sbc8_imm => true,
        _ => false,
    }
}

pub open spec fn is_logic(op: Op) -> bool {
    match op {
        Op::and8_reg { .. } | Op::and8_ind | Op::and8_imm | Op::or8_reg { .. } | Op::or8_ind | Op::or8_imm | Op::xor8_reg { .. } | Op::xor8_ind | Op::xor8_imm | Op::cp8_reg { .. } | Op::cp8_ind | Op::cp8_imm => true,
        _ => false,
    }
}

pub open spec fn is_inc_dec(op: Op) -> bool {
    match op {
        Op::inc8_reg { .. } | Op::inc8_ind | Op::inc16_reg { .. } | Op::dec8_reg { .. } | Op::dec8_ind | Op::dec16_reg { .. } => true,
        _ => false,
    }
}

pub open spec fn is_misc_arith(op: Op) -> bool {
    match op {
        Op::add8_sp_imm | Op::add16_reg { .. } | Op::daa | Op::cpl | Op::ccf | Op::scf => true,
        _ => false,
    }
}

pub open spec fn is_rotate(op: Op) -> bool {
    match op {
        Op::rla | Op::rl { .. } | Op::rl_ind | Op::rlca | Op::rlc { .. } | Op::rlc_ind | Op::rra | Op::rr { .. } | Op::rr_ind | Op::rrca | Op::rrc { .. } | Op::rrc_ind => true,
        _ => false,
    }
}

pub open spec fn is_shift(op: Op) -> bool {
    match op {
        Op::swap { .. } | Op::swap_ind | Op::sla { .. } | Op::sla_ind | Op::sra { .. } | Op::sra_ind | Op::srl { .. } | Op::srl_ind => true,
        _ => false,
    }
}

pub open spec fn is_bit_op(op: Op) -> bool {
    match op {
        Op::bit { .. } | Op::bit_ind { .. } | Op::set { .. } | Op::set_ind { .. } | Op::res { .. } | Op::res_ind { .. } => true,
        _ => false,
    }
}

impl<B: Bus> Cpu<B> {
    /// `new` is `old` after executing `instr`: registers and memory change
    /// as [`effect`] says, the cost is recorded in `last_cycles`, and the
    /// interrupt latches follow EI / DI / RETI. An undefined operation sets
    /// the fault latch and changes nothing else.
    pub open spec fn exec_post(old: Cpu<B>, new: Cpu<B>, instr: Instr) -> bool {
        &&& (executable(instr.op) ==> {
            let e = effect(old.regs, instr, old.rd());
            &&& new.regs == e.regs
            &&& bus_after(old.bus, new.bus, e.writes)
            &&& new.last_cycles == (if e.jumped {
                taken_cycles(instr.op)
            } else {
                op_cycles(instr.op)
            })
            &&& new.ime == ime_after(old.ime, old.ime_pending, instr.op)
            &&& new.ime_pending == (instr.op is ei)
            &&& new.halted == (if instr.op is halt || instr.op is stop {
                !old.bus.spec_has_irq()
            } else {
                old.halted
            })
            &&& new.fault == old.fault
            &&& new.total_cycles == old.total_cycles
            &&& new.last_cycles >= 1
        })
        &&& (!executable(instr.op) ==> new == (Cpu { fault: true, last_cycles: 0, ..old }))
    }

    /// Executes one decoded instruction (see [`Cpu::exec_post`]).
    #[verifier::spinoff_prover]
    #[verifier::rlimit(100)]
    pub fn execute_instr(&mut self, instr: Instr)
        requires
            old(self).wf(),
            imm_ok(instr),
            bit_ok(instr.op),
        ensures
            final(self).wf(),
            Self::exec_post(*old(self), *final(self), instr),
            final(self).regs.f.spec_bits() & 0x0F == 0,
    {
        proof {
            crate::registers::lemma_flag_bits(self.regs.f);
        }
        let toggle = self.ime_pending;
        let jumped = match instr.op {
            Op::inv | Op::ext => {
                self.fault = true;
                self.last_cycles = 0;
                return ;
            },
            Op::nop => false,
            Op::stop | Op::halt => {
                self.halted = !self.bus.has_irq();
                false
            },
            Op::di => false,
            Op::ei => false,
            Op::ld8_imm { .. } | Op::ld8_rr { .. } | Op::ld8_ind { .. } | Op::ld16_sp
            | Op::ld16_imm { .. } | Op::ld16_lea | Op::st8_ind_imm | Op::st8_ind { .. }
            | Op::st16_sp | Op::push16 { .. } | Op::pop16 { .. } | Op::in8_reg | Op::in8_imm
            | Op::out8_reg | Op::out8_imm => {
                self.exec_load(instr);
                false
            },
            Op::jp | Op::jp_cond { .. } | Op::jp_ind | Op::jp_rel | Op::jp_rel_cond { .. }
            | Op::call | Op::call_cond { .. } | Op::ret | Op::ret_cond { .. } | Op::reti
            | Op::rst { .. } => self.exec_flow(instr),
            Op::swap { .. } | Op::swap_ind | Op::rla | Op::rl { .. } | Op::rl_ind | Op::rlca
            | Op::rlc { .. } | Op::rlc_ind | Op::rra | Op::rr { .. } | Op::rr_ind | Op::rrca
            | Op::rrc { .. } | Op::rrc_ind | Op::sla { .. } | Op::sla_ind | Op::sra { .. }
            | Op::sra_ind | Op::srl { .. } | Op::srl_ind | Op::bit { .. } | Op::bit_ind { .. }
            | Op::set { .. } | Op::set_ind { .. } | Op::res { .. } | Op::res_ind { .. } => {
                self.exec_bitwise(instr);
                false
            },
            _ => {
                self.exec_arith(instr);
                false
            },
        };
        if jumped {
            self.last_cycles = cycles_jmp(&instr.op, true);
        } else {
            self.last_cycles = cycles(&instr.op);
        }
        match instr.op {
            Op::di => {
                self.ime = false;
            },
            Op::reti => {
                self.ime = true;
            },
            _ => {
                if toggle {
                    self.ime = true;
                }
            },
        }
        self.ime_pending = match instr.op {
            Op::ei => true,
            _ => false,
        };
        proof {
            crate::registers::lemma_flag_bits(self.regs.f);
        }
    }

    /// Loads, stores, stack and I/O transfers.
    fn exec_load(&mut self, instr: Instr)
        requires
            old(self).wf(),
            is_load(instr.op),
            imm_ok(instr),
        ensures
            final(self).wf(),
            Self::follows(*old(self), *final(self), effect(old(self).regs, instr, old(self).rd())),
    {
        match instr.op {
            Op::ld8_imm { dest } => {
                self.regs.write8(dest, instr.imm.imm8());
            },
            Op::ld8_rr { dest, src } => {
                let value = self.regs.read8(src);
                self.regs.write8(dest, value);
            },
            Op::ld8_ind { dest, src } => {
                let value = self.read_addr(src, &instr);
                self.regs.write8(dest, value);
            },
            Op::ld16_sp => {
                self.regs.sp = self.regs.read16(Reg16::HL);
            },
            Op::ld16_imm { dest } => {
                self.regs.write16(dest, instr.imm.imm16());
            },
            Op::ld16_lea => {
                let (value, flags) = add_sp_bytes(self.regs.sp, instr.imm.imm8());
                self.regs.write16(Reg16::HL, value);
                self.regs.f = flags;
            },
            Op::st8_ind_imm => {
                let addr = self.regs.read16(Reg16::HL);
                self.bus.write(addr, instr.imm.imm8());
            },
            Op::st8_ind { dest, src } => {
                let value = self.regs.read8(src);
                self.write_addr(dest, &instr, value);
            },
            Op::st16_sp => {
                let value = self.regs.sp;
                self.write_word(instr.imm.imm16(), value);
            },
            Op::push16 { src } => {
                let value = self.regs.read16(src);
                self.push(value);
            },
            Op::pop16 { dest } => {
                let value = self.pop();
                self.regs.write16(dest, value);
            },
            Op::in8_reg => {
                let value = self.bus.read(0xFF00 + self.regs.c as u16);
                self.regs.write8(Reg8::A, value);
            },
            Op::in8_imm => {
                let value = self.bus.read(0xFF00 + instr.imm.imm8() as u16);
                self.regs.write8(Reg8::A, value);
            },
            Op::out8_reg => {
                let value = self.regs.a;
                self.bus.write(0xFF00 + self.regs.c as u16, value);
            },
            Op::out8_imm => {
                let value = self.regs.a;
                self.bus.write(0xFF00 + instr.imm.imm8() as u16, value);
            },
            _ => {},
        }
    }

    /// Jumps, calls, returns and restarts. Returns whether a conditional
    /// branch was taken.
    fn exec_flow(&mut self, instr: Instr) -> (jumped: bool)
        requires
            old(self).wf(),
            is_flow(instr.op),
            imm_ok(instr),
        ensures
            final(self).wf(),
            Self::follows(*old(self), *final(self), effect(old(self).regs, instr, old(self).rd())),
            jumped == effect(old(self).regs, instr, old(self).rd()).jumped,
            jumped ==> is_branch(instr.op),
    {
        match instr.op {
            Op::jp => {
                self.regs.pc = instr.imm.imm16();
                false
            },
            Op::jp_cond { cond } => {
                if self.jmp_cond_fulfilled(&cond) {
                    self.regs.pc = instr.imm.imm16();
                    true
                } else {
                    false
                }
            },
            Op::jp_ind => {
                self.regs.pc = self.regs.read16(Reg16::HL);
                false
            },
            Op::jp_rel => {
                self.regs.pc = offset_word(self.regs.pc, instr.imm.imm8());
                false
            },
            Op::jp_rel_cond { cond } => {
                if self.jmp_cond_fulfilled(&cond) {
                    self.regs.pc = offset_word(self.regs.pc, instr.imm.imm8());
                    true
                } else {
                    false
                }
            },
            Op::call => {
                let pc = self.regs.pc;
                self.push(pc);
                self.regs.pc = instr.imm.imm16();
                false
            },
            Op::call_cond { cond } => {
                if self.jmp_cond_fulfilled(&cond) {
                    let pc = self.regs.pc;
                    self.push(pc);
                    self.regs.pc = instr.imm.imm16();
                    true
                } else {
                    false
                }
            },
            Op::ret | Op::reti => {
                self.regs.pc = self.pop();
                false
            },
            Op::ret_cond { cond } => {
                if self.jmp_cond_fulfilled(&cond) {
                    self.regs.pc = self.pop();
                    true
                } else {
                    false
                }
            },
            Op::rst { target } => {
                let pc = self.regs.pc;
                self.push(pc);
                self.regs.pc = target;
                false
            },
            _ => false,
        }
    }

    /// Arithmetic and logic on A, INC / DEC, 16-bit additions, DAA and the
    /// flag operations.
    fn exec_arith(&mut self, instr: Instr)
        requires
            old(self).wf(),
            is_arith(instr.op),
            imm_ok(instr),
        ensures
            final(self).wf(),
            Self::follows(*old(self), *final(self), effect(old(self).regs, instr, old(self).rd())),
    {
        match instr.op {
            Op::add8_reg { .. } | Op::add8_ind | Op::add8_imm | Op::adc8_reg { .. } | Op::adc8_ind | Op::adc8_imm | Op::sub8_reg { .. } | Op::sub8_ind | Op::sub8_imm | Op::sbc8_reg { .. } | Op::sbc8_ind | Op::sbc8_imm => self.exec_add_sub(instr),
            Op::and8_reg { .. } | Op::and8_ind | Op::and8_imm | Op::or8_reg { .. } | Op::or8_ind | Op::or8_imm | Op::xor8_reg { .. } | Op::xor8_ind | Op::xor8_imm | Op::cp8_reg { .. } | Op::cp8_ind | Op::cp8_imm => self.exec_logic(instr),
            Op::inc8_reg { .. } | Op::inc8_ind | Op::inc16_reg { .. } | Op::dec8_reg { .. } | Op::dec8_ind | Op::dec16_reg { .. } => self.exec_inc_dec(instr),
            Op::add8_sp_imm | Op::add16_reg { .. } | Op::daa | Op::cpl | Op::ccf | Op::scf => self.exec_misc_arith(instr),
            _ => {},
        }
    }

    /// Additions and subtractions on A.
    #[verifier::spinoff_prover]
    fn exec_add_sub(&mut self, instr: Instr)
        requires
            old(self).wf(),
            is_add_sub(instr.op),
            imm_ok(instr),
        ensures
            final(self).wf(),
            Self::follows(*old(self), *final(self), effect(old(self).regs, instr, old(self).rd())),
    {
        let a = self.regs.a;
        match instr.op {
            Op::add8_reg { src } => {
                let b = self.regs.read8(src);
                self.regs.a = self.alu_add_bytes(a, b, false);
            },
            Op::add8_ind => {
                let b = self.bus.read(self.regs.read16(Reg16::HL));
                self.regs.a = self.alu_add_bytes(a, b, false);
            },
            Op::add8_imm => {
                self.regs.a = self.alu_add_bytes(a, instr.imm.imm8(), false);
            },
            Op::adc8_reg { src } => {
                let b = self.regs.read8(src);
                self.regs.a = self.alu_add_bytes(a, b, true);
            },
            Op::adc8_ind => {
                let b = self.bus.read(self.regs.read16(Reg16::HL));
                self.regs.a = self.alu_add_bytes(a, b, true);
            },
            Op::adc8_imm => {
                self.regs.a = self.alu_add_bytes(a, instr.imm.imm8(), true);
            },
            Op::sub8_reg { src } => {
                let b = self.regs.read8(src);
                self.regs.a = self.alu_sub_bytes(a, b, false);
            },
            Op::sub8_ind => {
                let b = self.bus.read(self.regs.read16(Reg16::HL));
                self.regs.a = self.alu_sub_bytes(a, b, false);
            },
            Op::sub8_imm => {
                self.regs.a = self.alu_sub_bytes(a, instr.imm.imm8(), false);
            },
            Op::sbc8_reg { src } => {
                let b = self.regs.read8(src);
                self.regs.a = self.alu_sub_bytes(a, b, true);
            },
            Op::sbc8_ind => {
                let b = self.bus.read(self.regs.read16(Reg16::HL));
                self.regs.a = self.alu_sub_bytes(a, b, true);
            },
            Op::sbc8_imm => {
                self.regs.a = self.alu_sub_bytes(a, instr.imm.imm8(), true);
            },
            _ => {},
        }
    }

    /// AND, OR, XOR and CP on A.
    #[verifier::spinoff_prover]
    fn exec_logic(&mut self, instr: Instr)
        requires
            old(self).wf(),
            is_logic(instr.op),
            imm_ok(instr),
        ensures
            final(self).wf(),
            Self::follows(*old(self), *final(self), effect(old(self).regs, instr, old(self).rd())),
    {
        let a = self.regs.a;
        match instr.op {
            Op::and8_reg { src } => {
                let b = self.regs.read8(src);
                self.regs.a = self.alu_and_bytes(a, b);
            },
            Op::and8_ind => {
                let b = self.bus.read(self.regs.read16(Reg16::HL));
                self.regs.a = self.alu_and_bytes(a, b);
            },
            Op::and8_imm => {
                self.regs.a = self.alu_and_bytes(a, instr.imm.imm8());
            },
            Op::or8_reg { src } => {
                let b = self.regs.read8(src);
                self.regs.a = self.alu_or_bytes(a, b);
            },
            Op::or8_ind => {
                let b = self.bus.read(self.regs.read16(Reg16::HL));
                self.regs.a = self.alu_or_bytes(a, b);
            },
            Op::or8_imm => {
                self.regs.a = self.alu_or_bytes(a, instr.imm.imm8());
            },
            Op::xor8_reg { src } => {
                let b = self.regs.read8(src);
                self.regs.a = self.alu_xor_bytes(a, b);
            },
            Op::xor8_ind => {
                let b = self.bus.read(self.regs.read16(Reg16::HL));
                self.regs.a = self.alu_xor_bytes(a, b);
            },
            Op::xor8_imm => {
                self.regs.a = self.alu_xor_bytes(a, instr.imm.imm8());
            },
            Op::cp8_reg { src } => {
                let b = self.regs.read8(src);
                let _ = self.alu_sub_bytes(a, b, false);
            },
            Op::cp8_ind => {
                let b = self.bus.read(self.regs.read16(Reg16::HL));
                let _ = self.alu_sub_bytes(a, b, false);
            },
            Op::cp8_imm => {
                let _ = self.alu_sub_bytes(a, instr.imm.imm8(), false);
            },
            _ => {},
        }
    }

    /// INC and DEC on bytes and words.
    #[verifier::spinoff_prover]
    #[verifier::rlimit(100)]
    fn exec_inc_dec(&mut self, instr: Instr)
        requires
            old(self).wf(),
            is_inc_dec(instr.op),
            imm_ok(instr),
        ensures
            final(self).wf(),
            Self::follows(*old(self), *final(self), effect(old(self).regs, instr, old(self).rd())),
    {
        match instr.op {
            Op::inc8_reg { src } => {
                let v = self.regs.read8(src);
                let value = self.inc_dec_byte(v, false);
                self.regs.write8(src, value);
            },
            Op::inc8_ind => {
                let addr = self.regs.read16(Reg16::HL);
                let v = self.bus.read(addr);
                let value = self.inc_dec_byte(v, false);
                self.bus.write(addr, value);
            },
            Op::inc16_reg { src } => {
                let v = self.regs.read16(src);
                let value = if v == 0xFFFF { 0 } else { v + 1 };
                assert(value == crate::cpu_spec::inc16w(v, 1));
                self.regs.write16(src, value);
            },
            Op::dec8_reg { src } => {
                let v = self.regs.read8(src);
                let value = self.inc_dec_byte(v, true);
                self.regs.write8(src, value);
            },
            Op::dec8_ind => {
                let addr = self.regs.read16(Reg16::HL);
                let v = self.bus.read(addr);
                let value = self.inc_dec_byte(v, true);
                self.bus.write(addr, value);
            },
            Op::dec16_reg { src } => {
                let v = self.regs.read16(src);
                let value = if v == 0 { 0xFFFF } else { v - 1 };
                assert(value == crate::cpu_spec::dec16w(v, 1));
                self.regs.write16(src, value);
            },
            _ => {},
        }
    }

    /// INC (or DEC when `dec`) of a byte: sets the flags, keeping carry.
    fn inc_dec_byte(&mut self, v: u8, dec: bool) -> (r: u8)
        requires
            old(self).wf(),
        ensures
            final(self).wf(),
            (r, final(self).regs.f) == (if dec { dec8(v, old(self).regs.f) } else { inc8(v, old(self).regs.f) }),
            Self::regs_only(*old(self), *final(self), Registers { f: final(self).regs.f, ..old(self).regs }),
    {
        let carry = self.regs.f.carry;
        let (r, f) = if dec { sub_bytes(v, 1, false) } else { add_bytes(v, 1, false) };
        self.regs.f = Flags { carry, ..f };
        r
    }

    /// 16-bit additions, DAA and the flag operations.
    #[verifier::spinoff_prover]
    #[verifier::rlimit(100)]
    fn exec_misc_arith(&mut self, instr: Instr)
        requires
            old(self).wf(),
            is_misc_arith(instr.op),
            imm_ok(instr),
        ensures
            final(self).wf(),
            Self::follows(*old(self), *final(self), effect(old(self).regs, instr, old(self).rd())),
    {
        let a = self.regs.a;
        match instr.op {
            Op::add8_sp_imm => {
                let (value, flags) = add_sp_bytes(self.regs.sp, instr.imm.imm8());
                self.regs.sp = value;
                self.regs.f = flags;
            },
            Op::add16_reg { src } => {
                let x = self.regs.read16(Reg16::HL);
                let y = self.regs.read16(src);
                let value = self.alu_add_words(x, y);
                self.regs.write16(Reg16::HL, value);
            },
            Op::daa => {
                let (value, flags) = daa_byte(a, self.regs.f);
                self.regs.a = value;
                self.regs.f = flags;
            },
            Op::cpl => {
                self.regs.a = !a;
                self.regs.f.sub = true;
                self.regs.f.hcarry = true;
            },
            Op::ccf => {
                self.regs.f.sub = false;
                self.regs.f.hcarry = false;
                self.regs.f.carry = !self.regs.f.carry;
            },
            Op::scf => {
                self.regs.f.sub = false;
                self.regs.f.hcarry = false;
                self.regs.f.carry = true;
            },
            _ => {},
        }
    }

    /// Rotations, shifts, SWAP and the single-bit operations.
    fn exec_bitwise(&mut self, instr: Instr)
        requires
            old(self).wf(),
            is_bitwise(instr.op),
            bit_ok(instr.op),
        ensures
            final(self).wf(),
            Self::follows(*old(self), *final(self), effect(old(self).regs, instr, old(self).rd())),
    {
        match instr.op {
            Op::rla | Op::rl { .. } | Op::rl_ind | Op::rlca | Op::rlc { .. } | Op::rlc_ind | Op::rra | Op::rr { .. } | Op::rr_ind | Op::rrca | Op::rrc { .. } | Op::rrc_ind => self.exec_rotate(instr),
            Op::swap { .. } | Op::swap_ind | Op::sla { .. } | Op::sla_ind | Op::sra { .. } | Op::sra_ind | Op::srl { .. } | Op::srl_ind => self.exec_shift(instr),
            Op::bit { .. } | Op::bit_ind { .. } | Op::set { .. } | Op::set_ind { .. } | Op::res { .. } | Op::res_ind { .. } => self.exec_bit_op(instr),
            _ => {},
        }
    }

    /// Rotations.
    #[verifier::spinoff_prover]
    #[verifier::rlimit(100)]
    fn exec_rotate(&mut self, instr: Instr)
        requires
            old(self).wf(),
            is_rotate(instr.op),
            bit_ok(instr.op),
        ensures
            final(self).wf(),
            Self::follows(*old(self), *final(self), effect(old(self).regs, instr, old(self).rd())),
    {
        let hl = self.regs.read16(Reg16::HL);
        match instr.op {
            Op::rla => {
                let r = self.rotate_left(self.regs.a);
                self.regs.f.zero = false;
                self.regs.a = r;
            },
            Op::rl { src } => {
                let v = self.regs.read8(src);
                let r = self.rotate_left(v);
                self.regs.write8(src, r);
            },
            Op::rl_ind => {
                let v = self.bus.read(hl);
                let r = self.rotate_left(v);
                self.bus.write(hl, r);
            },
            Op::rlca => {
                let r = self.rotate_left_carry(self.regs.a);
                self.regs.f.zero = false;
                self.regs.a = r;
            },
            Op::rlc { src } => {
                let v = self.regs.read8(src);
                let r = self.rotate_left_carry(v);
                self.regs.write8(src, r);
            },
            Op::rlc_ind => {
                let v = self.bus.read(hl);
                let r = self.rotate_left_carry(v);
                self.bus.write(hl, r);
            },
            Op::rra => {
                let r = self.rotate_right(self.regs.a);
                self.regs.f.zero = false;
                self.regs.a = r;
            },
            Op::rr { src } => {
                let v = self.regs.read8(src);
                let r = self.rotate_right(v);
                self.regs.write8(src, r);
            },
            Op::rr_ind => {
                let v = self.bus.read(hl);
                let r = self.rotate_right(v);
                self.bus.write(hl, r);
            },
            Op::rrca => {
                let r = self.rotate_right_carry(self.regs.a);
                self.regs.f.zero = false;
                self.regs.a = r;
            },
            Op::rrc { src } => {
                let v = self.regs.read8(src);
                let r = self.rotate_right_carry(v);
                self.regs.write8(src, r);
            },
            Op::rrc_ind => {
                let v = self.bus.read(hl);
                let r = self.rotate_right_carry(v);
                self.bus.write(hl, r);
            },
            _ => {},
        }
    }

    /// Shifts and SWAP.
    #[verifier::spinoff_prover]
    fn exec_shift(&mut self, instr: Instr)
        requires
            old(self).wf(),
            is_shift(instr.op),
            bit_ok(instr.op),
        ensures
            final(self).wf(),
            Self::follows(*old(self), *final(self), effect(old(self).regs, instr, old(self).rd())),
    {
        let hl = self.regs.read16(Reg16::HL);
        match instr.op {
            Op::swap { src } => {
                let v = self.regs.read8(src);
                let r = self.swap_byte(v);
                self.regs.write8(src, r);
            },
            Op::swap_ind => {
                let v = self.bus.read(hl);
                let r = self.swap_byte(v);
                self.bus.write(hl, r);
            },
            Op::sla { src } => {
                let v = self.regs.read8(src);
                let r = self.shift_left_arithmetic(v);
                self.regs.write8(src, r);
            },
            Op::sla_ind => {
                let v = self.bus.read(hl);
                let r = self.shift_left_arithmetic(v);
                self.bus.write(hl, r);
            },
            Op::sra { src } => {
                let v = self.regs.read8(src);
                let r = self.shift_right_arithmetic(v);
                self.regs.write8(src, r);
            },
            Op::sra_ind => {
                let v = self.bus.read(hl);
                let r = self.shift_right_arithmetic(v);
                self.bus.write(hl, r);
            },
            Op::srl { src } => {
                let v = self.regs.read8(src);
                let r = self.shift_right_logical(v);
                self.regs.write8(src, r);
            },
            Op::srl_ind => {
                let v = self.bus.read(hl);
                let r = self.shift_right_logical(v);
                self.bus.write(hl, r);
            },
            _ => {},
        }
    }

    /// BIT, SET and RES.
    #[verifier::spinoff_prover]
    fn exec_bit_op(&mut self, instr: Instr)
        requires
            old(self).wf(),
            is_bit_op(instr.op),
            bit_ok(instr.op),
        ensures
            final(self).wf(),
            Self::follows(*old(self), *final(self), effect(old(self).regs, instr, old(self).rd())),
    {
        let hl = self.regs.read16(Reg16::HL);
        match instr.op {
            Op::bit { src, bit } => {
                let v = self.regs.read8(src);
                self.regs.f.zero = (v >> bit) & 1 == 0;
                self.regs.f.sub = false;
                self.regs.f.hcarry = true;
            },
            Op::bit_ind { bit } => {
                let v = self.bus.read(hl);
                self.regs.f.zero = (v >> bit) & 1 == 0;
                self.regs.f.sub = false;
                self.regs.f.hcarry = true;
            },
            Op::set { src, bit } => {
                let v = self.regs.read8(src);
                self.regs.write8(src, v | (1u8 << bit));
            },
            Op::set_ind { bit } => {
                let v = self.bus.read(hl);
                self.bus.write(hl, v | (1u8 << bit));
            },
            Op::res { src, bit } => {
                let v = self.regs.read8(src);
                self.regs.write8(src, v & !(1u8 << bit));
            },
            Op::res_ind { bit } => {
                let v = self.bus.read(hl);
                self.bus.write(hl, v & !(1u8 << bit));
            },
            _ => {},
        }
    }

    /// A + b (+ carry when `with_carry`); sets the flags of ADD / ADC.
    fn alu_add_bytes(&mut self, a: u8, b: u8, with_carry: bool) -> (r: u8)
        requires
            old(self).wf(),
        ensures
            final(self).wf(),
            (r, final(self).regs.f) == add8(a, b, with_carry && old(self).regs.f.carry),
            Self::regs_only(*old(self), *final(self), Registers { f: final(self).regs.f, ..old(self).regs }),
    {
        let (r, f) = add_bytes(a, b, with_carry && self.regs.f.carry);
        self.regs.f = f;
        r
    }

    /// A - b (- carry when `with_carry`); sets the flags of SUB / SBC / CP.
    fn alu_sub_bytes(&mut self, a: u8, b: u8, with_carry: bool) -> (r: u8)
        requires
            old(self).wf(),
        ensures
            final(self).wf(),
            (r, final(self).regs.f) == sub8(a, b, with_carry && old(self).regs.f.carry),
            Self::regs_only(*old(self), *final(self), Registers { f: final(self).regs.f, ..old(self).regs }),
    {
        let (r, f) = sub_bytes(a, b, with_carry && self.regs.f.carry);
        self.regs.f = f;
        r
    }

    /// 16-bit addition of ADD HL, rr; the zero flag is kept.
    fn alu_add_words(&mut self, a: u16, b: u16) -> (r: u16)
        requires
            old(self).wf(),
        ensures
            final(self).wf(),
            (r, final(self).regs.f) == add16(a, b, old(self).regs.f),
            Self::regs_only(*old(self), *final(self), Registers { f: final(self).regs.f, ..old(self).regs }),
    {
        let (r, f) = add_words(a, b, self.regs.f);
        self.regs.f = f;
        r
    }

    fn alu_and_bytes(&mut self, a: u8, b: u8) -> (r: u8)
        requires
            old(self).wf(),
        ensures
            final(self).wf(),
            (r, final(self).regs.f) == and8(a, b),
            Self::regs_only(*old(self), *final(self), Registers { f: final(self).regs.f, ..old(self).regs }),
    {
        let r = a & b;
        self.regs.f = Flags { zero: r == 0, sub: false, hcarry: true, carry: false };
        r
    }

    fn alu_or_bytes(&mut self, a: u8, b: u8) -> (r: u8)
        requires
            old(self).wf(),
        ensures
            final(self).wf(),
            (r, final(self).regs.f) == or8(a, b),
            Self::regs_only(*old(self), *final(self), Registers { f: final(self).regs.f, ..old(self).regs }),
    {
        let r = a | b;
        self.regs.f = Flags { zero: r == 0, sub: false, hcarry: false, carry: false };
        r
    }

    fn alu_xor_bytes(&mut self, a: u8, b: u8) -> (r: u8)
        requires
            old(self).wf(),
        ensures
            final(self).wf(),
            (r, final(self).regs.f) == xor8(a, b),
            Self::regs_only(*old(self), *final(self), Registers { f: final(self).regs.f, ..old(self).regs }),
    {
        let r = a ^ b;
        self.regs.f = Flags { zero: r == 0, sub: false, hcarry: false, carry: false };
        r
    }

    /// SWAP: exchanges the nibbles and sets the flags.
    fn swap_byte(&mut self, value: u8) -> (r: u8)
        requires
            old(self).wf(),
        ensures
            final(self).wf(),
            (r, final(self).regs.f) == swap8(value),
            Self::regs_only(*old(self), *final(self), Registers { f: final(self).regs.f, ..old(self).regs }),
    {
        let r = (value % 16) * 16 + value / 16;
        self.regs.f = Flags { zero: r == 0, sub: false, hcarry: false, carry: false };
        r
    }

    /// RL: rotates left through the carry flag.
    pub fn rotate_left(&mut self, value: u8) -> (r: u8)
        requires
            old(self).wf(),
        ensures
            final(self).wf(),
            (r, final(self).regs.f) == rl8(value, old(self).regs.f.carry),
            Self::regs_only(*old(self), *final(self), Registers { f: final(self).regs.f, ..old(self).regs }),
    {
        let cin: u8 = if self.regs.f.carry { 1 } else { 0 };
        let r = (value % 128) * 2 + cin;
        self.regs.f = Flags { zero: r == 0, sub: false, hcarry: false, carry: value >= 128 };
        r
    }

    /// RLC: rotates left, bit 7 to the carry flag and to bit 0.
    pub fn rotate_left_carry(&mut self, value: u8) -> (r: u8)
        requires
            old(self).wf(),
        ensures
            final(self).wf(),
            (r, final(self).regs.f) == rlc8(value),
            Self::regs_only(*old(self), *final(self), Registers { f: final(self).regs.f, ..old(self).regs }),
    {
        let r = (value % 128) * 2 + value / 128;
        self.regs.f = Flags { zero: r == 0, sub: false, hcarry: false, carry: value >= 128 };
        r
    }

    /// RR: rotates right through the carry flag.
    pub fn rotate_right(&mut self, value: u8) -> (r: u8)
        requires
            old(self).wf(),
        ensures
            final(self).wf(),
            (r, final(self).regs.f) == rr8(value, old(self).regs.f.carry),
            Self::regs_only(*old(self), *final(self), Registers { f: final(self).regs.f, ..old(self).regs }),
    {
        let cin: u8 = if self.regs.f.carry { 128 } else { 0 };
        let r = value / 2 + cin;
        self.regs.f = Flags { zero: r == 0, sub: false, hcarry: false, carry: value % 2 == 1 };
        r
    }

    /// RRC: rotates right, bit 0 to the carry flag and to bit 7.
    pub fn rotate_right_carry(&mut self, value: u8) -> (r: u8)
        requires
            old(self).wf(),
        ensures
            final(self).wf(),
            (r, final(self).regs.f) == rrc8(value),
            Self::regs_only(*old(self), *final(self), Registers { f: final(self).regs.f, ..old(self).regs }),
    {
        let r = value / 2 + (value % 2) * 128;
        self.regs.f = Flags { zero: r == 0, sub: false, hcarry: false, carry: value % 2 == 1 };
        r
    }

    /// SLA: shifts left, bit 7 to the carry flag.
    pub fn shift_left_arithmetic(&mut self, value: u8) -> (r: u8)
        requires
            old(self).wf(),
        ensures
            final(self).wf(),
            (r, final(self).regs.f) == sla8(value),
            Self::regs_only(*old(self), *final(self), Registers { f: final(self).regs.f, ..old(self).regs }),
    {
        let r = (value % 128) * 2;
        self.regs.f = Flags { zero: r == 0, sub: false, hcarry: false, carry: value >= 128 };
        r
    }

    /// SRA: shifts right keeping bit 7, bit 0 to the carry flag.
    pub fn shift_right_arithmetic(&mut self, value: u8) -> (r: u8)
        requires
            old(self).wf(),
        ensures
            final(self).wf(),
            (r, final(self).regs.f) == sra8(value),
            Self::regs_only(*old(self), *final(self), Registers { f: final(self).regs.f, ..old(self).regs }),
    {
        let r = value / 2 + (value / 128) * 128;
        self.regs.f = Flags { zero: r == 0, sub: false, hcarry: false, carry: value % 2 == 1 };
        r
    }

    /// SRL: shifts right, bit 0 to the carry flag.
    pub fn shift_right_logical(&mut self, value: u8) -> (r: u8)
        requires
            old(self).wf(),
        ensures
            final(self).wf(),
            (r, final(self).regs.f) == srl8(value),
            Self::regs_only(*old(self), *final(self), Registers { f: final(self).regs.f, ..old(self).regs }),
    {
        let r = value / 2;
        self.regs.f = Flags { zero: r == 0, sub: false, hcarry: false, carry: value % 2 == 1 };
        r
    }
}

} // verus!
