//! The CPU's view of the system: a byte-addressed bus that can also raise
//! interrupts and advance the other subsystems' clocks.

use vstd::prelude::*;
use crate::events::Events;
use crate::int_controller::Interrupt;

verus! {

/// What the CPU needs of the system it runs in.
pub trait Bus: Sized {
    /// The bus's own well-formedness, kept by every operation.
    spec fn bus_wf(&self) -> bool;

    /// The byte that a read of `addr` returns.
    spec fn spec_read(&self, addr: u16) -> u8;

    /// Whether `post` is this bus after a write of `value` to `addr`.
    spec fn spec_write(self, post: Self, addr: u16, value: u8) -> bool;

    /// Whether an enabled interrupt is pending.
    spec fn spec_has_irq(&self) -> bool;

    /// Whether `post` is this bus after acknowledging the interrupt `r`.
    spec fn spec_ack(self, post: Self, r: Option<Interrupt>) -> bool;

    /// Whether `post` is this bus after `cycles` M-cycles elapsed, raising `r`.
    spec fn spec_update(self, post: Self, cycles: u8, r: Events) -> bool;

    fn read(&self, addr: u16) -> (r: u8)
        requires
            self.bus_wf(),
        ensures
            r == self.spec_read(addr),
    ;

    fn write(&mut self, addr: u16, value: u8)
        requires
            old(self).bus_wf(),
        ensures
            final(self).bus_wf(),
            old(self).spec_write(*final(self), addr, value),
    ;

    fn has_irq(&self) -> (r: bool)
        requires
            self.bus_wf(),
        ensures
            r == self.spec_has_irq(),
    ;

    /// Takes the pending enabled interrupt of highest priority.
    fn ack_irq(&mut self) -> (r: Option<Interrupt>)
        requires
            old(self).bus_wf(),
        ensures
            final(self).bus_wf(),
            old(self).spec_ack(*final(self), r),
            old(self).spec_has_irq() ==> r is Some,
    ;

    /// Advances the clocked subsystems by `cycles` M-cycles.
    fn update(&mut self, cycles: u8) -> (r: Events)
        requires
            old(self).bus_wf(),
        ensures
            final(self).bus_wf(),
            old(self).spec_update(*final(self), cycles, r),
    ;
}

/// `post` is `pre` after the writes `w`, in order (at most two).
pub open spec fn bus_after<B: Bus>(pre: B, post: B, w: Seq<(u16, u8)>) -> bool {
    if w.len() == 0 {
        post == pre
    } else if w.len() == 1 {
        pre.spec_write(post, w[0].0, w[0].1)
    } else {
        w.len() == 2 && exists|m: B|
            #[trigger] pre.spec_write(m, w[0].0, w[0].1) && m.spec_write(post, w[1].0, w[1].1)
    }
}

/// A flat memory with no interrupts and no clocked devices: reads and
/// writes outside it read 0 and are ignored.
pub struct FlatMemory {
    pub memory: Vec<u8>,
}

impl FlatMemory {
    pub fn new(memory: Vec<u8>) -> (r: FlatMemory)
        ensures
            r.memory@ == memory@,
    {
        FlatMemory { memory }
    }
}

impl Bus for FlatMemory {
    open spec fn bus_wf(&self) -> bool {
        true
    }

    open spec fn spec_read(&self, addr: u16) -> u8 {
        if (addr as int) < self.memory@.len() {
            self.memory@[addr as int]
        } else {
            0
        }
    }

    open spec fn spec_write(self, post: Self, addr: u16, value: u8) -> bool {
        post.memory@ == if (addr as int) < self.memory@.len() {
            self.memory@.update(addr as int, value)
        } else {
            self.memory@
        }
    }

    open spec fn spec_has_irq(&self) -> bool {
        false
    }

    open spec fn spec_ack(self, post: Self, r: Option<Interrupt>) -> bool {
        post.memory@ == self.memory@ && r is None
    }

    open spec fn spec_update(self, post: Self, cycles: u8, r: Events) -> bool {
        post.memory@ == self.memory@ && r == Events::none()
    }

    fn read(&self, addr: u16) -> (r: u8) {
        if (addr as usize) < self.memory.len() {
            self.memory[addr as usize]
        } else {
            0
        }
    }

    fn write(&mut self, addr: u16, value: u8) {
        if (addr as usize) < self.memory.len() {
            self.memory.set(addr as usize, value);
        }
    }

    fn has_irq(&self) -> (r: bool) {
        false
    }

    fn ack_irq(&mut self) -> (r: Option<Interrupt>) {
        None
    }

    fn update(&mut self, cycles: u8) -> (r: Events) {
        Events::empty()
    }
}

} // verus!
