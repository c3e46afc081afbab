//! OAM DMA: copies 160 bytes from a source page into OAM over 162 M-cycles.

use vstd::prelude::*;

verus! {

/// Phase of a transfer: one cycle requested, one starting, 160 copying a
/// byte each (the last one in `Ending`), then inactive.
#[derive(Copy, Clone, Debug, PartialEq, Eq, Structural)]
pub enum DmaState {
    Inactive,
    Requested,
    Starting,
    Copying,
    Ending,
}

/// The phase `c` cycles after the transfer was requested.
pub open spec fn state_at(c: int) -> DmaState {
    if c <= 0 {
        DmaState::Requested
    } else if c == 1 {
        DmaState::Starting
    } else if c < 161 {
        DmaState::Copying
    } else if c == 161 {
        DmaState::Ending
    } else {
        DmaState::Inactive
    }
}

/// Bytes copied `c` cycles after the transfer was requested.
pub open spec fn copied(c: int) -> int {
    if c <= 1 {
        0
    } else if c - 1 >= 160 {
        160
    } else {
        c - 1
    }
}

pub struct Dma {
    pub state: DmaState,
    /// first source address (page * 256)
    pub source: u16,
    /// cycles since the transfer was requested
    pub clock: u64,
}

impl Dma {
    pub open spec fn wf(&self) -> bool {
        &&& self.source % 256 == 0
        &&& (self.state is Inactive || (self.clock < 162 && self.state == state_at(self.clock as int)))
    }

    pub open spec fn active(&self) -> bool {
        !(self.state is Inactive)
    }

    pub fn new() -> (r: Dma)
        ensures
            r.wf(),
            r.source == 0,
            !r.active(),
    {
        Dma { state: DmaState::Inactive, source: 0, clock: 0 }
    }

    pub fn is_active(&self) -> (r: bool)
        ensures
            r == self.active(),
    {
        match self.state {
            DmaState::Inactive => false,
            _ => true,
        }
    }

    /// Requests a transfer from page `source`.
    pub fn initiate(&mut self, source: u8)
        ensures
            final(self).wf(),
            final(self).state == DmaState::Requested,
            final(self).source == source as int * 256,
            final(self).clock == 0,
    {
        self.state = DmaState::Requested;
        self.source = (source as u16) * 256;
        self.clock = 0;
    }

    /// Advances by `cycles`; returns the source base, the first OAM offset
    /// and the number of bytes to copy in that time.
    pub fn tick(&mut self, cycles: u8) -> (r: (u16, u16, u16))
        requires
            old(self).wf(),
        ensures
            final(self).wf(),
            !old(self).active() ==> *final(self) == *old(self) && r == (0u16, 0u16, 0u16),
            old(self).active() ==> {
                let c = old(self).clock as int + cycles;
                &&& final(self).clock == c
                &&& final(self).source == old(self).source
                &&& final(self).state == state_at(c)
                &&& r.0 == old(self).source
                &&& r.1 == copied(old(self).clock as int)
                &&& r.2 == copied(c) - copied(old(self).clock as int)
            },
            r.1 + r.2 <= 160,
            final(self).source == old(self).source,
    {
        if let DmaState::Inactive = self.state {
            return (0, 0, 0);
        }
        let old_clock = self.clock;
        let new_clock = self.clock + cycles as u64;
        let before: u16 = if old_clock <= 1 { 0 } else if old_clock - 1 >= 160 { 160 } else { (old_clock - 1) as u16 };
        let after: u16 = if new_clock <= 1 { 0 } else if new_clock - 1 >= 160 { 160 } else { (new_clock - 1) as u16 };
        self.state = if new_clock == 0 {
            DmaState::Requested
        } else if new_clock == 1 {
            DmaState::Starting
        } else if new_clock < 161 {
            DmaState::Copying
        } else if new_clock == 161 {
            DmaState::Ending
        } else {
            DmaState::Inactive
        };
        self.clock = new_clock;
        (self.source, before, after - before)
    }
}

} // verus!
