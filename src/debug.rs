//! Debugger support: breakpoints, single stepping and running to a
//! breakpoint.

use vstd::prelude::*;
use std::collections::HashSet;
use crate::bus::Bus;
use crate::cpu::{fetch_spec, Cpu};
use crate::events::Events;
use crate::instructions::{Immediate, Instr, Op};

verus! {

/// The last decoded instruction and the breakpoint addresses.
pub struct DebugInfo {
    pub cur_instr: Instr,
    pub breakpoints: HashSet<u16>,
}

impl DebugInfo {
    pub fn new() -> (r: DebugInfo)
        ensures
            r.cur_instr == (Instr { op: Op::inv, imm: Immediate::Empty }),
            r.breakpoints@ == Set::<u16>::empty(),
    {
        DebugInfo { cur_instr: Instr { op: Op::inv, imm: Immediate::Empty }, breakpoints: HashSet::new() }
    }

    pub fn instr(&self) -> (r: Instr)
        ensures
            r == self.cur_instr,
    {
        self.cur_instr
    }

    pub fn add_breakpoint(&mut self, addr: u16)
        ensures
            final(self).breakpoints@ == old(self).breakpoints@.insert(addr),
            final(self).cur_instr == old(self).cur_instr,
    {
        self.breakpoints.insert(addr);
    }

    /// Removes a breakpoint; says whether it was set.
    pub fn remove_breakpoint(&mut self, addr: u16) -> (r: bool)
        ensures
            final(self).breakpoints@ == old(self).breakpoints@.remove(addr),
            r == old(self).breakpoints@.contains(addr),
            final(self).cur_instr == old(self).cur_instr,
    {
        self.breakpoints.remove(&addr)
    }

    pub fn contains_breakpoint(&self, addr: u16) -> (r: bool)
        ensures
            r == self.breakpoints@.contains(addr),
    {
        self.breakpoints.contains(&addr)
    }
}

impl<B: Bus> Cpu<B> {
    pub fn get_pc(&self) -> (r: u16)
        ensures
            r == self.regs.pc,
    {
        self.regs.pc
    }

    /// The byte a read of `addr` returns.
    pub fn read_mem(&self, addr: u16) -> (r: u8)
        requires
            self.wf(),
        ensures
            r == self.bus.spec_read(addr),
    {
        self.bus.read(addr)
    }

    /// The instruction at PC, leaving the CPU as it is.
    pub fn peek_instr(&mut self) -> (r: Instr)
        requires
            old(self).wf(),
        ensures
            final(self).wf(),
            *final(self) == *old(self),
            r == fetch_spec(old(self).rd(), old(self).regs.pc).0,
    {
        let pc = self.regs.pc;
        let instr = self.fetch_instr();
        self.regs.pc = pc;
        instr
    }

    /// Records the instruction at PC in `db`, then runs one step.
    pub fn single_step(&mut self, db: &mut DebugInfo)
        requires
            old(self).wf(),
        ensures
            final(self).wf(),
            final(db).cur_instr == fetch_spec(old(self).rd(), old(self).regs.pc).0,
            final(db).breakpoints@ == old(db).breakpoints@,
            exists|e: Events| #[trigger] Self::step_post(*old(self), *final(self), e),
    {
        db.cur_instr = self.peek_instr();
        let ghost c0 = *self;
        let e = self.step();
        assert(Self::step_post(c0, *self, e));
    }

    /// Runs until PC reaches a breakpoint (stopping before that instruction
    /// and recording it in `db`), the CPU faults, or `max_steps` steps have
    /// run. Returns whether a breakpoint was reached. A breakpoint at the
    /// starting PC stops at once.
    pub fn continue_exec(&mut self, db: &mut DebugInfo, max_steps: u64) -> (hit: bool)
        requires
            old(self).wf(),
        ensures
            final(self).wf(),
            final(db).breakpoints@ == old(db).breakpoints@,
            hit ==> !final(self).fault && final(db).breakpoints@.contains(final(self).regs.pc),
            hit ==> final(db).cur_instr == fetch_spec(final(self).rd(), final(self).regs.pc).0,
            !old(self).fault && old(db).breakpoints@.contains(old(self).regs.pc) ==> hit && *final(self) == *old(self),
            exists|k: nat| #[trigger] Self::steps(*old(self), *final(self), k, false) && k <= max_steps
                && (!hit ==> final(self).fault || k == max_steps),
    {
        let mut n: u64 = 0;
        proof {
            assert(Self::steps(*old(self), *self, 0, false));
        }
        loop
            invariant
                self.wf(),
                n <= max_steps,
                db.breakpoints@ == old(db).breakpoints@,
                Self::steps(*old(self), *self, n as nat, false),
                n == 0 ==> *self == *old(self),
                !old(self).fault && db.breakpoints@.contains(old(self).regs.pc) ==> n == 0,
            decreases max_steps - n,
        {
            if self.fault {
                return false;
            }
            if db.breakpoints.contains(&self.regs.pc) {
                db.cur_instr = self.peek_instr();
                return true;
            }
            if n == max_steps {
                return false;
            }
            let ghost prev = *self;
            self.single_step(db);
            proof {
                let e = choose|e: Events| Self::step_post(prev, *self, e);
                assert(Self::steps(*old(self), prev, n as nat, false) && Self::step_post(prev, *self, e));
                assert(Self::steps(*old(self), *self, (n + 1) as nat, false));
            }
            n = n + 1;
        }
    }
}

} // verus!
