//! The CPU: fetch, decode and execution of instructions, interrupt
//! dispatch and cycle accounting, over any [`Bus`].

use vstd::prelude::*;
use crate::bus::{bus_after, Bus, FlatMemory};
use crate::cpu_spec::{
    bit_ok, cond_holds, dec16w, hi8, imm_ok, inc16w, lo8, push_writes, resolve, word, Effect,
};
use crate::events::Events;
use crate::instructions::{
    decode_main, ext_op, from_ext_opcode, from_opcode, imm_shape, Addr, Condition, Immediate,
    Instr, Op,
};
use crate::int_controller::Interrupt;
use crate::registers::{Reg16, Registers};

verus! {

/// `t + c`, saturating at the largest `u64`.
pub open spec fn sat_add(t: u64, c: u8) -> u64 {
    if t as int + c as int > u64::MAX as int {
        u64::MAX
    } else {
        (t + c) as u64
    }
}

/// The instruction at `pc` and the address after it, when a read of `a`
/// returns `rd(a)`.
pub open spec fn fetch_spec(rd: spec_fn(u16) -> u8, pc: u16) -> (Instr, u16) {
    let op = decode_main(rd(pc));
    if op is ext {
        (Instr { op: ext_op(rd(inc16w(pc, 1))), imm: Immediate::Empty }, inc16w(pc, 2))
    } else {
        match imm_shape(op) {
            Immediate::Empty => (Instr { op, imm: Immediate::Empty }, inc16w(pc, 1)),
            Immediate::Imm8(_) => (Instr { op, imm: Immediate::Imm8(rd(inc16w(pc, 1))) }, inc16w(pc, 2)),
            Immediate::Imm16(_) => (
                Instr { op, imm: Immediate::Imm16(word(rd(inc16w(pc, 1)), rd(inc16w(pc, 2)))) },
                inc16w(pc, 3),
            ),
        }
    }
}

/// The CPU state and the bus it runs on.
pub struct Cpu<B: Bus> {
    pub regs: Registers,
    /// interrupt master enable
    pub ime: bool,
    /// set by EI: IME turns on after the next instruction
    pub ime_pending: bool,
    /// HALT or STOP is waiting for an interrupt
    pub halted: bool,
    /// an undefined opcode was met: the CPU no longer advances
    pub fault: bool,
    /// M-cycles elapsed
    pub total_cycles: u64,
    /// M-cycles of the last instruction, not yet accounted
    pub last_cycles: u8,
    pub bus: B,
}

impl<B: Bus> Cpu<B> {
    /// The bus is well formed.
    pub open spec fn wf(self) -> bool {
        self.bus.bus_wf()
    }

    /// What reads of the bus return.
    pub open spec fn rd(self) -> spec_fn(u16) -> u8 {
        |a: u16| self.bus.spec_read(a)
    }

    /// `new` is `old` with registers and bus changed as `e` says.
    pub open spec fn follows(old: Cpu<B>, new: Cpu<B>, e: Effect) -> bool {
        &&& new.regs == e.regs
        &&& bus_after(old.bus, new.bus, e.writes)
        &&& new.ime == old.ime
        &&& new.ime_pending == old.ime_pending
        &&& new.halted == old.halted
        &&& new.fault == old.fault
        &&& new.total_cycles == old.total_cycles
        &&& new.last_cycles == old.last_cycles
    }

    /// `new` is `old` with only the registers changed, to `regs`.
    pub open spec fn regs_only(old: Cpu<B>, new: Cpu<B>, regs: Registers) -> bool {
        Self::follows(old, new, Effect { regs, writes: Seq::empty(), jumped: false })
    }

    /// `new` is `old` after the last instruction's cycles are accounted and
    /// the bus advanced by them, raising `r`.
    pub open spec fn updates_post(old: Cpu<B>, new: Cpu<B>, r: Events) -> bool {
        &&& new.total_cycles == sat_add(old.total_cycles, old.last_cycles)
        &&& new.last_cycles == 0
        &&& new.regs == old.regs
        &&& new.ime == old.ime && new.ime_pending == old.ime_pending
        &&& new.halted == old.halted && new.fault == old.fault
        &&& (old.last_cycles != 0 ==> old.bus.spec_update(new.bus, old.last_cycles, r))
        &&& (old.last_cycles == 0 ==> new.bus == old.bus && r == Events::none())
    }

    /// `new` is `old` after the interrupt check: when IME is set and an
    /// enabled interrupt is pending, the bus acknowledges one, IME clears, PC
    /// is pushed, PC jumps to its service routine and 5 M-cycles are charged;
    /// otherwise nothing changes.
    pub open spec fn irq_post(old: Cpu<B>, new: Cpu<B>) -> bool {
        &&& (!(old.ime && old.bus.spec_has_irq()) ==> new == old)
        &&& (old.ime && old.bus.spec_has_irq() ==> exists|b: B, i: Interrupt|
            #[trigger] old.bus.spec_ack(b, Some(i)) && {
                &&& new.regs == Registers { pc: i.spec_isr_addr(), sp: dec16w(old.regs.sp, 2), ..old.regs }
                &&& bus_after(b, new.bus, push_writes(old.regs.sp, old.regs.pc))
                &&& !new.ime
                &&& new.last_cycles == 5
                &&& new.ime_pending == old.ime_pending
                &&& new.halted == old.halted && new.fault == old.fault
                &&& new.total_cycles == old.total_cycles
            })
    }

    /// `old` leaving HALT.
    pub open spec fn woken(old: Cpu<B>) -> Cpu<B> {
        Cpu { halted: false, last_cycles: 0, ..old }
    }

    /// `old` with PC moved past the instruction it points at, nothing yet
    /// accounted.
    pub open spec fn fetched(old: Cpu<B>) -> Cpu<B> {
        Cpu { regs: Registers { pc: fetch_spec(old.rd(), old.regs.pc).1, ..old.regs }, last_cycles: 0, ..old }
    }

    /// `b` is reached from `a` by `n` steps as [`Cpu::step_post`] says; when
    /// `quiet`, none of them raised an event.
    pub open spec fn steps(a: Cpu<B>, b: Cpu<B>, n: nat, quiet: bool) -> bool
        decreases n,
    {
        if n == 0 {
            a == b
        } else {
            exists|m: Cpu<B>, e: Events|
                Self::steps(a, m, (n - 1) as nat, quiet) && #[trigger] Self::step_post(m, b, e) && (quiet ==> e == Events::none())
        }
    }

    /// Running `instr` from `c1`: execution gives `c2`, accounting `c3`, the
    /// interrupt check `c4`, and a second accounting `new`.
    pub open spec fn exec_chain(c1: Cpu<B>, instr: Instr, c2: Cpu<B>, c3: Cpu<B>, c4: Cpu<B>, new: Cpu<B>, e1: Events, e2: Events) -> bool {
        &&& Self::exec_post(c1, c2, instr)
        &&& Self::updates_post(c2, c3, e1)
        &&& Self::irq_post(c3, c4)
        &&& Self::updates_post(c4, new, e2)
    }

    /// `new` is `old` after one step raising `r`. A faulted CPU stays as it
    /// is; a halted one without a pending enabled interrupt spends one cycle;
    /// a halted one with one wakes and takes the interrupt check; an
    /// undefined opcode faults without moving PC; any other instruction runs
    /// as [`Cpu::exec_chain`] says. Cycles never decrease.
    #[verifier::opaque]
    pub open spec fn step_post(old: Cpu<B>, new: Cpu<B>, r: Events) -> bool {
        &&& (new.total_cycles >= old.total_cycles)
        &&& (old.fault ==> r.fault && new == old)
        &&& (!old.fault && old.halted && !old.bus.spec_has_irq() ==> {
            &&& new.regs == old.regs
            &&& new.halted
            &&& new.total_cycles == sat_add(old.total_cycles, 1)
        })
        &&& (!old.fault && !old.halted && fetch_spec(old.rd(), old.regs.pc).0.op == Op::inv ==> {
            &&& new.fault
            &&& r.fault
            &&& new.regs == old.regs
            &&& new.bus == old.bus
        })
        &&& (new.last_cycles == 0 || old.fault)
        &&& (!old.fault && old.halted && old.bus.spec_has_irq() ==> exists|c: Cpu<B>, e: Events|
            Self::irq_post(Self::woken(old), c) && #[trigger] Self::updates_post(c, new, e))
        &&& (!old.fault && !old.halted && fetch_spec(old.rd(), old.regs.pc).0.op != Op::inv
            ==> exists|c2: Cpu<B>, c3: Cpu<B>, c4: Cpu<B>, e1: Events, e2: Events|
            #[trigger] Self::exec_chain(Self::fetched(old), fetch_spec(old.rd(), old.regs.pc).0, c2, c3, c4, new, e1, e2)
            && r.render == (e1.render || e2.render))
        &&& (r.fault == new.fault)
        &&& (!new.fault ==> new.total_cycles > old.total_cycles
            || old.total_cycles == u64::MAX || (old.halted && !new.halted))
    }

    pub fn new(bus: B) -> (r: Cpu<B>)
        ensures
            r.regs == Registers::spec_new(),
            !r.ime && !r.ime_pending && !r.halted && !r.fault,
            r.total_cycles == 0 && r.last_cycles == 0,
            r.bus == bus,
    {
        Cpu {
            regs: Registers::new(),
            ime: false,
            ime_pending: false,
            halted: false,
            fault: false,
            total_cycles: 0,
            last_cycles: 0,
            bus,
        }
    }

    /// Runs one instruction and its housekeeping: the clocked subsystems
    /// advance by its cost, then a pending enabled interrupt is dispatched
    /// when IME is set. While halted, one M-cycle passes until an enabled
    /// interrupt is pending. After an undefined opcode nothing advances.
    #[verifier::spinoff_prover]
    #[verifier::rlimit(100)]
    pub fn step(&mut self) -> (r: Events)
        requires
            old(self).wf(),
        ensures
            final(self).wf(),
            Self::step_post(*old(self), *final(self), r),
    {
        reveal(Cpu::step_post);
        if self.fault {
            return Events { render: false, fault: true };
        }
        if self.halted {
            self.step_halted()
        } else {
            self.step_running()
        }
    }

    /// A step while halted: one cycle passes, or the CPU wakes and takes
    /// the interrupt check.
    #[verifier::spinoff_prover]
    fn step_halted(&mut self) -> (r: Events)
        requires
            old(self).wf(),
            !old(self).fault,
            old(self).halted,
        ensures
            final(self).wf(),
            Self::step_post(*old(self), *final(self), r),
    {
        reveal(Cpu::step_post);
        self.last_cycles = 0;
        if !self.bus.has_irq() {
            self.last_cycles = 1;
            let e = self.handle_updates();
            return Events { render: e.render, fault: false };
        }
        self.halted = false;
        let ghost c0 = *self;
        self.handle_interrupts();
        let ghost c = *self;
        let e = self.handle_updates();
        assert(Self::irq_post(c0, c) && Self::updates_post(c, *self, e));
        Events { render: e.render, fault: false }
    }

    /// A step while running: fetch, then fault on an undefined opcode or run
    /// the instruction.
    #[verifier::spinoff_prover]
    #[verifier::rlimit(100)]
    fn step_running(&mut self) -> (r: Events)
        requires
            old(self).wf(),
            !old(self).fault,
            !old(self).halted,
        ensures
            final(self).wf(),
            Self::step_post(*old(self), *final(self), r),
    {
        reveal(Cpu::step_post);
        let pc = self.regs.pc;
        let instr = self.fetch_instr();
        self.last_cycles = 0;
        assert(*self == Self::fetched(*old(self)));
        if let Op::inv = instr.op {
            self.regs.pc = pc;
            self.fault = true;
            return Events { render: false, fault: true };
        }
        self.run_instr(instr)
    }

    /// Executes a fetched instruction, accounts its cycles, then dispatches
    /// an interrupt if one is due.
    fn run_instr(&mut self, instr: Instr) -> (r: Events)
        requires
            old(self).wf(),
            imm_ok(instr),
            bit_ok(instr.op),
            crate::cpu_spec::executable(instr.op),
            !old(self).fault,
            old(self).last_cycles == 0,
        ensures
            final(self).wf(),
            !r.fault && !final(self).fault,
            final(self).last_cycles == 0,
            final(self).total_cycles > old(self).total_cycles || old(self).total_cycles == u64::MAX,
            final(self).total_cycles >= old(self).total_cycles,
            exists|c2: Cpu<B>, c3: Cpu<B>, c4: Cpu<B>, e1: Events, e2: Events|
                #[trigger] Self::exec_chain(*old(self), instr, c2, c3, c4, *final(self), e1, e2)
                && r.render == (e1.render || e2.render),
    {
        let ghost c1 = *self;
        self.execute_instr(instr);
        let ghost c2 = *self;
        let events = self.handle_updates();
        let ghost c3 = *self;
        self.handle_interrupts();
        let ghost c4 = *self;
        let events2 = self.handle_updates();
        assert(Self::exec_chain(c1, instr, c2, c3, c4, *self, events, events2));
        Events { render: events.render || events2.render, fault: false }
    }

    /// Accounts the last instruction's cycles and advances the bus by them.
    pub fn handle_updates(&mut self) -> (r: Events)
        requires
            old(self).wf(),
        ensures
            final(self).wf(),
            Self::updates_post(*old(self), *final(self), r),
    {
        let mut events = Events::empty();
        if self.total_cycles <= u64::MAX - self.last_cycles as u64 {
            self.total_cycles = self.total_cycles + self.last_cycles as u64;
        } else {
            self.total_cycles = u64::MAX;
        }
        if self.last_cycles != 0 {
            events = self.bus.update(self.last_cycles);
        }
        self.last_cycles = 0;
        events
    }

    /// Dispatches the pending enabled interrupt of highest priority when IME
    /// is set: clears IME, pushes PC, jumps to the service routine and
    /// charges 5 M-cycles.
    pub fn handle_interrupts(&mut self)
        requires
            old(self).wf(),
        ensures
            final(self).wf(),
            Self::irq_post(*old(self), *final(self)),
    {
        if self.ime && self.bus.has_irq() {
            let ghost b0 = self.bus;
            let acked = self.bus.ack_irq();
            let ghost b1 = self.bus;
            if let Some(source) = acked {
                self.ime = false;
                let pc = self.regs.pc;
                self.push(pc);
                self.regs.pc = source.isr_addr();
                self.last_cycles = 5;
                assert(b0.spec_ack(b1, Some(source)));
            }
        }
    }

    /// Reads the instruction at PC and advances PC past it.
    pub fn fetch_instr(&mut self) -> (r: Instr)
        requires
            old(self).wf(),
        ensures
            final(self).wf(),
            (r, final(self).regs.pc) == fetch_spec(old(self).rd(), old(self).regs.pc),
            Self::regs_only(*old(self), *final(self), Registers { pc: final(self).regs.pc, ..old(self).regs }),
            imm_ok(r),
            bit_ok(r.op),
            !(r.op is ext),
    {
        let opcode = self.extract_instr8();
        let (op, imm) = from_opcode(opcode);
        match op {
            Op::ext => {
                let ext_opcode = self.extract_instr8();
                from_ext_opcode(ext_opcode)
            },
            _ => match imm {
                Immediate::Empty => Instr { op, imm: Immediate::Empty },
                Immediate::Imm8(_) => Instr { op, imm: Immediate::Imm8(self.extract_instr8()) },
                Immediate::Imm16(_) => Instr { op, imm: Immediate::Imm16(self.extract_instr16()) },
            },
        }
    }

    /// The byte at PC; PC advances by one.
    fn extract_instr8(&mut self) -> (r: u8)
        requires
            old(self).wf(),
        ensures
            final(self).wf(),
            r == old(self).bus.spec_read(old(self).regs.pc),
            Self::regs_only(*old(self), *final(self), Registers { pc: inc16w(old(self).regs.pc, 1), ..old(self).regs }),
    {
        let addr = self.regs.pc;
        let value = self.bus.read(addr);
        self.regs.pc = self.regs.pc.wrapping_add(1);
        value
    }

    /// The little-endian word at PC; PC advances by two.
    fn extract_instr16(&mut self) -> (r: u16)
        requires
            old(self).wf(),
        ensures
            final(self).wf(),
            r == word(old(self).bus.spec_read(old(self).regs.pc), old(self).bus.spec_read(inc16w(old(self).regs.pc, 1))),
            Self::regs_only(*old(self), *final(self), Registers { pc: inc16w(old(self).regs.pc, 2), ..old(self).regs }),
    {
        let addr = self.regs.pc;
        let value = self.read_word(addr);
        self.regs.pc = self.regs.pc.wrapping_add(2);
        value
    }

    /// The little-endian word at `addr` and `addr + 1` (wrapping).
    pub fn read_word(&self, addr: u16) -> (r: u16)
        requires
            self.wf(),
        ensures
            r == word(self.bus.spec_read(addr), self.bus.spec_read(inc16w(addr, 1))),
    {
        let lo = self.bus.read(addr);
        let hi = self.bus.read(addr.wrapping_add(1));
        (hi as u16) * 256 + lo as u16
    }

    /// Writes `value` little-endian at `addr` and `addr + 1` (wrapping).
    pub fn write_word(&mut self, addr: u16, value: u16)
        requires
            old(self).wf(),
        ensures
            final(self).wf(),
            Self::follows(*old(self), *final(self), Effect {
                regs: old(self).regs,
                writes: seq![(addr, lo8(value)), (inc16w(addr, 1), hi8(value))],
                jumped: false,
            }),
    {
        let lo = (value % 256) as u8;
        let hi = (value / 256) as u8;
        let ghost b0 = self.bus;
        self.bus.write(addr, lo);
        let ghost b1 = self.bus;
        self.bus.write(addr.wrapping_add(1), hi);
        let ghost w = seq![(addr, lo8(value)), (inc16w(addr, 1), hi8(value))];
        assert(w.len() == 2 && w[0] == (addr, lo8(value)) && w[1] == (inc16w(addr, 1), hi8(value)));
        assert(b0.spec_write(b1, w[0].0, w[0].1) && b1.spec_write(self.bus, w[1].0, w[1].1));
    }

    /// Pushes `value`: SP drops by two, the high byte goes to SP-1 first,
    /// then the low byte to SP-2.
    pub fn push(&mut self, value: u16)
        requires
            old(self).wf(),
        ensures
            final(self).wf(),
            Self::follows(*old(self), *final(self), Effect {
                regs: Registers { sp: dec16w(old(self).regs.sp, 2), ..old(self).regs },
                writes: push_writes(old(self).regs.sp, value),
                jumped: false,
            }),
    {
        let sp = self.regs.sp;
        let ghost b0 = self.bus;
        self.bus.write(sp.wrapping_sub(1), (value / 256) as u8);
        let ghost b1 = self.bus;
        self.bus.write(sp.wrapping_sub(2), (value % 256) as u8);
        let ghost w = push_writes(sp, value);
        assert(w.len() == 2 && w[0] == (dec16w(sp, 1), hi8(value)) && w[1] == (dec16w(sp, 2), lo8(value)));
        assert(b0.spec_write(b1, w[0].0, w[0].1) && b1.spec_write(self.bus, w[1].0, w[1].1));
        self.regs.sp = sp.wrapping_sub(2);
    }

    /// Pops a word: read little-endian at SP, then SP rises by two.
    pub fn pop(&mut self) -> (r: u16)
        requires
            old(self).wf(),
        ensures
            final(self).wf(),
            r == word(old(self).bus.spec_read(old(self).regs.sp), old(self).bus.spec_read(inc16w(old(self).regs.sp, 1))),
            Self::regs_only(*old(self), *final(self), Registers { sp: inc16w(old(self).regs.sp, 2), ..old(self).regs }),
    {
        let addr = self.regs.sp;
        let value = self.read_word(addr);
        self.regs.sp = self.regs.sp.wrapping_add(2);
        value
    }

    /// The address that an indirect operand names; HL+ and HL- step HL.
    pub(crate) fn resolve_addr(&mut self, addr: Addr, instr: &Instr) -> (r: u16)
        requires
            old(self).wf(),
            addr is Imm ==> instr.imm is Imm16,
            addr is IO ==> instr.imm is Imm8,
        ensures
            final(self).wf(),
            (r, final(self).regs) == resolve(old(self).regs, addr, instr.imm),
            Self::regs_only(*old(self), *final(self), final(self).regs),
    {
        match addr {
            Addr::BC => self.regs.read16(Reg16::BC),
            Addr::DE => self.regs.read16(Reg16::DE),
            Addr::HL => self.regs.read16(Reg16::HL),
            Addr::HLI => {
                let value = self.regs.read16(Reg16::HL);
                self.regs.write16(Reg16::HL, value.wrapping_add(1));
                value
            },
            Addr::HLD => {
                let value = self.regs.read16(Reg16::HL);
                self.regs.write16(Reg16::HL, value.wrapping_sub(1));
                value
            },
            Addr::Imm => instr.imm.imm16(),
            Addr::IO => 0xFF00 + instr.imm.imm8() as u16,
            Addr::IOC => 0xFF00 + self.regs.c as u16,
        }
    }

    pub(crate) fn read_addr(&mut self, addr: Addr, instr: &Instr) -> (r: u8)
        requires
            old(self).wf(),
            addr is Imm ==> instr.imm is Imm16,
            addr is IO ==> instr.imm is Imm8,
        ensures
            final(self).wf(),
            r == old(self).bus.spec_read(resolve(old(self).regs, addr, instr.imm).0),
            Self::regs_only(*old(self), *final(self), resolve(old(self).regs, addr, instr.imm).1),
    {
        let a = self.resolve_addr(addr, instr);
        self.bus.read(a)
    }

    pub(crate) fn write_addr(&mut self, addr: Addr, instr: &Instr, value: u8)
        requires
            old(self).wf(),
            addr is Imm ==> instr.imm is Imm16,
            addr is IO ==> instr.imm is Imm8,
        ensures
            final(self).wf(),
            Self::follows(*old(self), *final(self), Effect {
                regs: resolve(old(self).regs, addr, instr.imm).1,
                writes: seq![(resolve(old(self).regs, addr, instr.imm).0, value)],
                jumped: false,
            }),
    {
        let a = self.resolve_addr(addr, instr);
        self.bus.write(a, value)
    }

    /// M-cycles elapsed.
    pub fn tot_m_cycles(&self) -> (r: u64)
        requires
            self.wf(),
        ensures
            r == self.total_cycles,
    {
        self.total_cycles
    }

    /// Clock cycles elapsed (four per M-cycle), saturating.
    pub fn tot_c_cycles(&self) -> (r: u64)
        requires
            self.wf(),
        ensures
            r == if self.total_cycles as int * 4 > u64::MAX as int { u64::MAX as int } else { self.total_cycles as int * 4 },
    {
        if self.total_cycles <= u64::MAX / 4 {
            self.total_cycles * 4
        } else {
            u64::MAX
        }
    }

    pub fn last_m_cycles(&self) -> (r: u8)
        requires
            self.wf(),
        ensures
            r == self.last_cycles,
    {
        self.last_cycles
    }

    /// Clock cycles of the last instruction (four per M-cycle).
    pub fn last_c_cycles(&self) -> (r: u16)
        requires
            self.wf(),
        ensures
            r == self.last_cycles as int * 4,
    {
        self.last_cycles as u16 * 4
    }

    pub fn jmp_cond_fulfilled(&self, cond: &Condition) -> (r: bool)
        requires
            self.wf(),
        ensures
            r == cond_holds(*cond, self.regs.f),
    {
        match cond {
            Condition::Z => self.regs.f.zero,
            Condition::C => self.regs.f.carry,
            Condition::NC => !self.regs.f.carry,
            Condition::NZ => !self.regs.f.zero,
        }
    }
}

/// A push of `v` followed by a pop returns `v` and puts SP back, on a flat
/// 64 KiB memory.
pub proof fn law_push_pop(c0: Cpu<FlatMemory>, c1: Cpu<FlatMemory>, c2: Cpu<FlatMemory>, v: u16, r: u16)
    requires
        c0.bus.memory@.len() == 65536,
        Cpu::follows(c0, c1, Effect {
            regs: Registers { sp: dec16w(c0.regs.sp, 2), ..c0.regs },
            writes: push_writes(c0.regs.sp, v),
            jumped: false,
        }),
        r == word(c1.bus.spec_read(c1.regs.sp), c1.bus.spec_read(inc16w(c1.regs.sp, 1))),
        Cpu::regs_only(c1, c2, Registers { sp: inc16w(c1.regs.sp, 2), ..c1.regs }),
    ensures
        r == v,
        c2.regs.sp == c0.regs.sp,
{
    let w = push_writes(c0.regs.sp, v);
    let m = choose|m: FlatMemory| #[trigger] c0.bus.spec_write(m, w[0].0, w[0].1) && m.spec_write(c1.bus, w[1].0, w[1].1);
    let sp = c0.regs.sp;
    assert(dec16w(sp, 1) != dec16w(sp, 2));
    assert(inc16w(dec16w(sp, 2), 1) == dec16w(sp, 1));
    assert(c1.bus.memory@[dec16w(sp, 2) as int] == lo8(v));
    assert(c1.bus.memory@[dec16w(sp, 1) as int] == hi8(v));
    assert(inc16w(dec16w(sp, 2), 2) == sp);
}

/// Interrupt delivery: with IME set, no EI pending and a NOP at PC, when an
/// enabled interrupt stays pending across the NOP's cycle, one step runs the
/// NOP, then clears IME, pushes PC below SP and jumps to the service routine
/// of the acknowledged source, 1 + 5 M-cycles in all.
pub proof fn law_interrupt_delivery<B: Bus>(old: Cpu<B>, new: Cpu<B>, r: Events)
    requires
        Cpu::step_post(old, new, r),
        !old.fault && !old.halted && old.ime && !old.ime_pending,
        fetch_spec(old.rd(), old.regs.pc).0.op == Op::nop,
        old.total_cycles < u64::MAX - 6,
        forall|b: B, e: Events| #[trigger] old.bus.spec_update(b, 1, e) ==> b.spec_has_irq(),
    ensures
        exists|i: Interrupt| new.regs.pc == #[trigger] i.spec_isr_addr(),
        new.regs.sp == dec16w(old.regs.sp, 2),
        !new.ime,
        new.total_cycles == old.total_cycles + 6,
{
    reveal(Cpu::step_post);
    let instr = fetch_spec(old.rd(), old.regs.pc).0;
    let c1 = Cpu::fetched(old);
    let (c2, c3, c4, e1, e2) = choose|c2: Cpu<B>, c3: Cpu<B>, c4: Cpu<B>, e1: Events, e2: Events|
        #[trigger] Cpu::exec_chain(c1, instr, c2, c3, c4, new, e1, e2);
    assert(Cpu::exec_post(c1, c2, instr));
    assert(c2.bus == old.bus && c2.last_cycles == 1 && c2.ime);
    assert(old.bus.spec_update(c3.bus, 1, e1));
    assert(c3.bus.spec_has_irq());
    assert(Cpu::irq_post(c3, c4));
    let (b, i) = choose|b: B, i: Interrupt| #[trigger] c3.bus.spec_ack(b, Some(i)) && {
        &&& c4.regs == Registers { pc: i.spec_isr_addr(), sp: dec16w(c3.regs.sp, 2), ..c3.regs }
        &&& !c4.ime
        &&& c4.last_cycles == 5
        &&& c4.total_cycles == c3.total_cycles
    };
    assert(new.regs.pc == i.spec_isr_addr());
}

} // verus!
