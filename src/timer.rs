//! Programmable timer: a free-running divider and a counter with a
//! selectable rate that reloads from a modulo register and raises the Timer
//! interrupt when it overflows.

use vstd::prelude::*;
use crate::int_controller::{IntController, Interrupt};

verus! {

/// Timer registers and internal clocks.
#[derive(Copy, Clone, Debug, PartialEq, Eq, Structural)]
pub struct Timer {
    pub divider_reg: u8,
    pub counter_reg: u8,
    pub modulo_reg: u8,
    pub control_reg: u8,
    /// main clock ticks per counter increment: 64, 1, 4 or 16
    pub counter_rate: u8,
    pub active: bool,
    /// elapsed cycles not yet turned into a main clock tick (0..=3)
    pub threshold: u8,
    /// main clock ticks since the counter last incremented
    pub clock: u8,
    /// main clock ticks since the divider last incremented (0..=15)
    pub divider_threshold: u8,
}

/// The counter period selected by the two low bits of the control register.
pub open spec fn rate_of(control: u8) -> u8 {
    let s = control % 4;
    if s == 0 {
        64
    } else if s == 1 {
        1
    } else if s == 2 {
        4
    } else {
        16
    }
}

impl Timer {
    pub open spec fn wf(self) -> bool {
        self.threshold < 4 && self.divider_threshold < 16 && self.clock <= 64 && self.counter_rate <= 64
    }

    /// One tick of the main clock; also says whether the counter overflowed.
    pub open spec fn spec_main_tick(self) -> (Timer, bool) {
        let dt = self.divider_threshold + 1;
        let t1 = if dt == 16 {
            Timer { divider_reg: ((self.divider_reg + 1) % 256) as u8, divider_threshold: 0, ..self }
        } else {
            Timer { divider_threshold: dt as u8, ..self }
        };
        if !self.active {
            (t1, false)
        } else if self.clock + 1 < self.counter_rate {
            (Timer { clock: (self.clock + 1) as u8, ..t1 }, false)
        } else if self.counter_reg == 255 {
            (Timer { clock: 0, counter_reg: self.modulo_reg, ..t1 }, true)
        } else {
            (Timer { clock: 0, counter_reg: (self.counter_reg + 1) as u8, ..t1 }, false)
        }
    }

    /// `n` ticks of the main clock; also says whether the counter overflowed.
    pub open spec fn run(self, n: nat) -> (Timer, bool)
        decreases n,
    {
        if n == 0 {
            (self, false)
        } else {
            let (t, o) = self.run((n - 1) as nat);
            let (t2, o2) = t.spec_main_tick();
            (t2, o || o2)
        }
    }

    pub fn new() -> (r: Timer)
        ensures
            r.wf(),
            r == (Timer {
                divider_reg: 0,
                counter_reg: 0,
                modulo_reg: 0,
                control_reg: 0,
                counter_rate: 1,
                active: false,
                threshold: 0,
                clock: 0,
                divider_threshold: 0,
            }),
    {
        Timer {
            divider_reg: 0,
            counter_reg: 0,
            modulo_reg: 0,
            control_reg: 0,
            counter_rate: 1,
            active: false,
            threshold: 0,
            clock: 0,
            divider_threshold: 0,
        }
    }

    /// Advances by `cycles`: every 4 of them the main clock ticks once. The
    /// divider increments every 16 main ticks; while active the counter
    /// increments every `counter_rate` main ticks, and on overflow reloads
    /// from the modulo register and raises the Timer interrupt.
    pub fn tick(&mut self, cycles: u8, int_controller: &mut IntController)
        requires
            old(self).wf(),
        ensures
            final(self).wf(),
            ({
                let total = old(self).threshold as int + cycles as int;
                let (t, o) = Timer { threshold: (total % 4) as u8, ..*old(self) }.run((total / 4) as nat);
                &&& *final(self) == t
                &&& *final(int_controller) == (if o {
                    old(int_controller).spec_set_pending(Interrupt::Timer)
                } else {
                    *old(int_controller)
                })
            }),
    {
        let total: u16 = self.threshold as u16 + cycles as u16;
        let n: u16 = total / 4;
        self.threshold = (total % 4) as u8;
        let ghost start = *self;
        let mut overflow = false;
        let mut i: u16 = 0;
        while i < n
            invariant
                i <= n,
                self.wf(),
                (*self, overflow) == start.run(i as nat),
                start.wf(),
            decreases n - i,
        {
            let o = self.main_tick();
            proof {
                reveal_with_fuel(Timer::run, 2);
            }
            overflow = overflow || o;
            i = i + 1;
        }
        if overflow {
            int_controller.set_int_pending(Interrupt::Timer);
        }
    }

    fn main_tick(&mut self) -> (r: bool)
        requires
            old(self).wf(),
        ensures
            final(self).wf(),
            (*final(self), r) == old(self).spec_main_tick(),
    {
        self.divider_threshold = self.divider_threshold + 1;
        if self.divider_threshold == 16 {
            self.divider_reg = self.divider_reg.wrapping_add(1);
            self.divider_threshold = 0;
        }
        if !self.active {
            return false;
        }
        if self.clock + 1 < self.counter_rate {
            self.clock = self.clock + 1;
            return false;
        }
        self.clock = 0;
        if self.counter_reg == 255 {
            self.counter_reg = self.modulo_reg;
            true
        } else {
            self.counter_reg = self.counter_reg + 1;
            false
        }
    }

    pub fn read_divider_reg(&self) -> (r: u8)
        ensures
            r == self.divider_reg,
    {
        self.divider_reg
    }

    /// Any write resets the divider to 0.
    pub fn write_divider_reg(&mut self, _value: u8)
        ensures
            *final(self) == (Timer { divider_reg: 0, ..*old(self) }),
    {
        self.divider_reg = 0;
    }

    pub fn read_counter_reg(&self) -> (r: u8)
        ensures
            r == self.counter_reg,
    {
        self.counter_reg
    }

    pub fn write_counter_reg(&mut self, value: u8)
        ensures
            *final(self) == (Timer { counter_reg: value, ..*old(self) }),
    {
        self.counter_reg = value;
    }

    pub fn read_modulo_reg(&self) -> (r: u8)
        ensures
            r == self.modulo_reg,
    {
        self.modulo_reg
    }

    pub fn write_modulo_reg(&mut self, value: u8)
        ensures
            *final(self) == (Timer { modulo_reg: value, ..*old(self) }),
    {
        self.modulo_reg = value;
    }

    pub fn read_control_reg(&self) -> (r: u8)
        ensures
            r == self.control_reg,
    {
        self.control_reg
    }

    /// Bits 0..=1 select the counter rate, bit 2 starts the counter.
    pub fn write_control_reg(&mut self, value: u8)
        ensures
            *final(self) == (Timer {
                control_reg: value,
                counter_rate: rate_of(value),
                active: value & 0x04 != 0,
                ..*old(self)
            }),
    {
        self.control_reg = value;
        self.counter_rate = match value % 4 {
            0 => 64,
            1 => 1,
            2 => 4,
            _ => 16,
        };
        self.active = value & 0x04 != 0;
    }
}

} // verus!
