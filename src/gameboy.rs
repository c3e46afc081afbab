//! The console: a CPU on the system bus, driven in bursts of cycles.

use vstd::prelude::*;
use crate::cartridge::{load_error, CartridgeError};
use crate::cpu::Cpu;
use crate::events::Events;
use crate::gpu::Color;
use crate::hardware::Hardware;
use crate::int_controller::Interrupt;
use crate::joypad::{Joypad, Key};
use crate::registers::Registers;

verus! {

pub struct Gameboy {
    pub cpu: Cpu<Hardware>,
}

impl Gameboy {
    pub open spec fn wf(&self) -> bool {
        self.cpu.wf()
    }

    /// A console with this boot ROM and cartridge ROM; fails when the
    /// cartridge cannot be loaded.
    pub fn new(bios: Vec<u8>, rom: Vec<u8>) -> (r: Result<Gameboy, CartridgeError>)
        ensures
            r matches Ok(g) ==> {
                &&& g.wf()
                &&& g.cpu.regs == Registers::spec_new()
                &&& !g.cpu.ime && !g.cpu.ime_pending && !g.cpu.halted && !g.cpu.fault
                &&& g.cpu.total_cycles == 0 && g.cpu.last_cycles == 0
                &&& g.cpu.bus.bios_mapped && !g.cpu.bus.dma.active()
                &&& g.cpu.bus.bios@ == bios@ && g.cpu.bus.cartridge.rom@ == rom@
            },
            r matches Err(e) ==> load_error(rom@) == Some(e),
            r is Ok <==> load_error(rom@) is None,
    {
        match Hardware::new(bios, rom) {
            Ok(h) => Ok(Gameboy { cpu: Cpu::new(h) }),
            Err(e) => Err(e),
        }
    }

    /// Runs until `target_cycles` M-cycles have elapsed or an event is
    /// raised; returns the cycles elapsed and the events. The CPU runs step by
    /// step (see [`Cpu::step_post`]): quiet steps while below the target,
    /// then possibly one step that raises an event. A call at or past its
    /// target changes nothing; after a decode error every call reports it
    /// and changes nothing.
    pub fn simulate(&mut self, target_cycles: u64) -> (r: (u64, Events))
        requires
            old(self).wf(),
        ensures
            final(self).wf(),
            r.0 == final(self).cpu.total_cycles,
            r.0 >= old(self).cpu.total_cycles,
            r.1 == Events::none() ==> r.0 >= target_cycles,
            r.1.fault == final(self).cpu.fault,
            old(self).cpu.fault ==> *final(self) == *old(self) && r.1.fault,
            !old(self).cpu.fault && old(self).cpu.total_cycles >= target_cycles ==> *final(self) == *old(self)
                && r.1 == Events::none(),
            !old(self).cpu.fault && old(self).cpu.total_cycles < target_cycles ==> exists|n: nat, m: Cpu<Hardware>|
                #[trigger] Cpu::steps(old(self).cpu, m, n, true) && (
                (final(self).cpu == m && r.1 == Events::none() && m.total_cycles >= target_cycles)
                || (m.total_cycles < target_cycles && Cpu::step_post(m, final(self).cpu, r.1) && r.1 != Events::none())),
    {
        let ghost mut n: nat = 0;
        proof {
            assert(Cpu::steps(old(self).cpu, self.cpu, 0, true));
        }
        while self.cpu.total_cycles < target_cycles
            invariant
                self.wf(),
                self.cpu.total_cycles >= old(self).cpu.total_cycles,
                old(self).cpu.fault ==> *self == *old(self),
                !old(self).cpu.fault ==> !self.cpu.fault && Cpu::steps(old(self).cpu, self.cpu, n, true),
                n == 0 ==> *self == *old(self),
                old(self).cpu.total_cycles >= target_cycles ==> *self == *old(self),
            decreases (if self.cpu.total_cycles < target_cycles { target_cycles - self.cpu.total_cycles } else { 0 }), if self.cpu.halted { 1int } else { 0int },
        {
            let ghost prev = self.cpu;
            let events = self.cpu.step();
            proof {
                reveal(Cpu::step_post);
            }
            if !events.is_empty() {
                return (self.cpu.total_cycles, events);
            }
            proof {
                assert(Cpu::steps(old(self).cpu, prev, n, true) && Cpu::step_post(prev, self.cpu, events));
                n = n + 1;
                assert(Cpu::steps(old(self).cpu, self.cpu, n, true));
            }
        }
        if self.cpu.fault {
            return (self.cpu.total_cycles, Events { render: false, fault: true });
        }
        (self.cpu.total_cycles, Events::empty())
    }

    pub fn framebuffer(&self) -> (r: &Vec<Color>)
        ensures
            r@ == self.cpu.bus.gpu.framebuffer@,
    {
        self.cpu.bus.framebuffer()
    }

    /// Presses `key`: its row bit is set and the Joypad interrupt raised;
    /// the CPU and the rest of the system are unchanged.
    pub fn press_key(&mut self, key: Key)
        requires
            old(self).wf(),
        ensures
            final(self).wf(),
            final(self).cpu == (Cpu { bus: final(self).cpu.bus, ..old(self).cpu }),
            final(self).cpu.bus == (Hardware { joypad: final(self).cpu.bus.joypad, int_controller: final(self).cpu.bus.int_controller, ..old(self).cpu.bus }),
            final(self).cpu.bus.int_controller == old(self).cpu.bus.int_controller.spec_set_pending(Interrupt::Joypad),
            key.spec_column() == 0 ==> final(self).cpu.bus.joypad == (Joypad { dpad: old(self).cpu.bus.joypad.dpad | key.mask(), ..old(self).cpu.bus.joypad }),
            key.spec_column() == 1 ==> final(self).cpu.bus.joypad == (Joypad { buttons: old(self).cpu.bus.joypad.buttons | key.mask(), ..old(self).cpu.bus.joypad }),
    {
        self.cpu.bus.press_key(key);
    }

    /// Releases `key`: its row bit is cleared; nothing else changes.
    pub fn release_key(&mut self, key: Key)
        requires
            old(self).wf(),
        ensures
            final(self).wf(),
            final(self).cpu == (Cpu { bus: final(self).cpu.bus, ..old(self).cpu }),
            final(self).cpu.bus == (Hardware { joypad: final(self).cpu.bus.joypad, ..old(self).cpu.bus }),
            key.spec_column() == 0 ==> final(self).cpu.bus.joypad == (Joypad { dpad: old(self).cpu.bus.joypad.dpad & !key.mask(), ..old(self).cpu.bus.joypad }),
            key.spec_column() == 1 ==> final(self).cpu.bus.joypad == (Joypad { buttons: old(self).cpu.bus.joypad.buttons & !key.mask(), ..old(self).cpu.bus.joypad }),
    {
        self.cpu.bus.release_key(key);
    }
}

} // verus!
