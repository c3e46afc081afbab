//! Work RAM and high RAM.

use vstd::prelude::*;

verus! {

pub const RAM_SIZE: usize = 8192;
pub const ZRAM_SIZE: usize = 128;

/// Work RAM (8 KiB) and high RAM (128 bytes).
pub struct Memory {
    pub ram: Vec<u8>,
    pub zram: Vec<u8>,
}

impl Memory {
    pub open spec fn wf(&self) -> bool {
        self.ram@.len() == RAM_SIZE && self.zram@.len() == ZRAM_SIZE
    }

    /// Both RAMs, zero-filled.
    pub fn new() -> (r: Memory)
        ensures
            r.wf(),
            forall|i: int| 0 <= i < RAM_SIZE ==> r.ram@[i] == 0,
            forall|i: int| 0 <= i < ZRAM_SIZE ==> r.zram@[i] == 0,
    {
        Memory { ram: vec![0u8; RAM_SIZE], zram: vec![0u8; ZRAM_SIZE] }
    }

    pub fn read_ram(&self, addr: u16) -> (r: u8)
        requires
            self.wf(),
            addr < RAM_SIZE,
        ensures
            r == self.ram@[addr as int],
    {
        self.ram[addr as usize]
    }

    pub fn read_zram(&self, addr: u16) -> (r: u8)
        requires
            self.wf(),
            addr < ZRAM_SIZE,
        ensures
            r == self.zram@[addr as int],
    {
        self.zram[addr as usize]
    }

    pub fn write_ram(&mut self, addr: u16, value: u8)
        requires
            old(self).wf(),
            addr < RAM_SIZE,
        ensures
            final(self).wf(),
            final(self).ram@ == old(self).ram@.update(addr as int, value),
            *final(self) == (Memory { ram: final(self).ram, ..*old(self) }),
    {
        self.ram.set(addr as usize, value);
    }

    pub fn write_zram(&mut self, addr: u16, value: u8)
        requires
            old(self).wf(),
            addr < ZRAM_SIZE,
        ensures
            final(self).wf(),
            final(self).zram@ == old(self).zram@.update(addr as int, value),
            *final(self) == (Memory { zram: final(self).zram, ..*old(self) }),
    {
        self.zram.set(addr as usize, value);
    }
}

} // verus!
