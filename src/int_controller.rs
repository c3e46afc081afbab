//! Interrupt controller: the enable (IE) and pending (IF) registers, and
//! priority arbitration among the five interrupt sources.

use vstd::prelude::*;

verus! {

/// An interrupt source, in priority order (VBlank highest).
#[derive(Copy, Clone, Debug, PartialEq, Eq, Structural)]
pub enum Interrupt {
    VBlank,
    LCDCStatus,
    Timer,
    SerialTransfer,
    Joypad,
}

impl Interrupt {
    /// The bit of this source in IE and IF.
    pub open spec fn mask(self) -> u8 {
        match self {
            Interrupt::VBlank => 0x01,
            Interrupt::LCDCStatus => 0x02,
            Interrupt::Timer => 0x04,
            Interrupt::SerialTransfer => 0x08,
            Interrupt::Joypad => 0x10,
        }
    }

    /// The entry point of this source's service routine.
    pub open spec fn spec_isr_addr(self) -> u16 {
        match self {
            Interrupt::VBlank => 0x40,
            Interrupt::LCDCStatus => 0x48,
            Interrupt::Timer => 0x50,
            Interrupt::SerialTransfer => 0x58,
            Interrupt::Joypad => 0x60,
        }
    }

    pub fn bits(&self) -> (r: u8)
        ensures
            r == self.mask(),
    {
        match self {
            Interrupt::VBlank => 0x01,
            Interrupt::LCDCStatus => 0x02,
            Interrupt::Timer => 0x04,
            Interrupt::SerialTransfer => 0x08,
            Interrupt::Joypad => 0x10,
        }
    }

    /// The source whose mask is exactly `bits`, if any.
    pub fn from_bits(bits: u8) -> (r: Option<Interrupt>)
        ensures
            r matches Some(i) ==> i.mask() == bits,
            r is None ==> bits != 0x01 && bits != 0x02 && bits != 0x04 && bits != 0x08 && bits
                != 0x10,
    {
        match bits {
            1 => Some(Interrupt::VBlank),
            2 => Some(Interrupt::LCDCStatus),
            4 => Some(Interrupt::Timer),
            8 => Some(Interrupt::SerialTransfer),
            16 => Some(Interrupt::Joypad),
            _ => None,
        }
    }

    pub fn isr_addr(&self) -> (r: u16)
        ensures
            r == self.spec_isr_addr(),
    {
        match *self {
            Interrupt::VBlank => 0x40,
            Interrupt::LCDCStatus => 0x48,
            Interrupt::Timer => 0x50,
            Interrupt::SerialTransfer => 0x58,
            Interrupt::Joypad => 0x60,
        }
    }
}

/// The source of highest priority among those set in `m`.
pub open spec fn highest_priority(m: u8) -> Option<Interrupt> {
    if m & 0x01 != 0 {
        Some(Interrupt::VBlank)
    } else if m & 0x02 != 0 {
        Some(Interrupt::LCDCStatus)
    } else if m & 0x04 != 0 {
        Some(Interrupt::Timer)
    } else if m & 0x08 != 0 {
        Some(Interrupt::SerialTransfer)
    } else if m & 0x10 != 0 {
        Some(Interrupt::Joypad)
    } else {
        None
    }
}

/// The mask of the source of highest priority among those set in `m`,
/// or 0.
pub fn get_highest_priority(m: u8) -> (r: u8)
    ensures
        r == (match highest_priority(m) {
            Some(i) => i.mask(),
            None => 0u8,
        }),
{
    if m & 0x01 != 0 {
        0x01
    } else if m & 0x02 != 0 {
        0x02
    } else if m & 0x04 != 0 {
        0x04
    } else if m & 0x08 != 0 {
        0x08
    } else if m & 0x10 != 0 {
        0x10
    } else {
        0
    }
}

/// The IE and IF registers. All eight bits are stored; only the low five
/// name interrupt sources.
#[derive(Copy, Clone, Debug, PartialEq, Eq, Structural)]
pub struct IntController {
    pub enabled: u8,
    pub pending: u8,
}

impl IntController {
    /// The sources that are both enabled and pending.
    pub open spec fn requested(self) -> u8 {
        self.enabled & self.pending & 0x1F
    }

    pub open spec fn spec_set_pending(self, source: Interrupt) -> IntController {
        IntController { pending: self.pending | source.mask(), ..self }
    }

    pub fn new() -> (r: IntController)
        ensures
            r.enabled == 0 && r.pending == 0,
    {
        IntController { enabled: 0, pending: 0 }
    }

    pub fn read_enabled_reg(&self) -> (r: u8)
        ensures
            r == self.enabled,
    {
        self.enabled
    }

    pub fn write_enabled_reg(&mut self, value: u8)
        ensures
            *final(self) == (IntController { enabled: value, ..*old(self) }),
    {
        self.enabled = value;
    }

    pub fn read_pending_reg(&self) -> (r: u8)
        ensures
            r == self.pending,
    {
        self.pending
    }

    pub fn write_pending_reg(&mut self, value: u8)
        ensures
            *final(self) == (IntController { pending: value, ..*old(self) }),
    {
        self.pending = value;
    }

    /// Marks `int` pending.
    pub fn set_int_pending(&mut self, source: Interrupt)
        ensures
            *final(self) == old(self).spec_set_pending(source),
    {
        self.pending = self.pending | source.bits();
    }

    /// Whether some source is both enabled and pending.
    pub fn has_irq(&self) -> (r: bool)
        ensures
            r == (self.requested() != 0),
    {
        self.enabled & self.pending & 0x1F != 0
    }

    /// Takes the requested source of highest priority: clears it in IF and
    /// returns it. Returns `None`, changing nothing, when none is requested.
    pub fn ack_irq(&mut self) -> (r: Option<Interrupt>)
        ensures
            r == highest_priority(old(self).requested()),
            r is Some <==> old(self).requested() != 0,
            r is None ==> *final(self) == *old(self),
            r matches Some(i) ==> *final(self) == (IntController {
                pending: old(self).pending & !i.mask(),
                ..*old(self)
            }),
    {
        let allowed = self.enabled & self.pending & 0x1F;
        let highest = get_highest_priority(allowed);
        let r = Interrupt::from_bits(highest);
        proof {
            lemma_highest_priority(self.enabled, self.pending);
        }
        if highest != 0 {
            self.pending = self.pending & !highest;
        }
        r
    }
}

proof fn lemma_highest_priority(e: u8, p: u8)
    ensures
        highest_priority(e & p & 0x1F) is None <==> e & p & 0x1F == 0,
{
    let m = e & p & 0x1F;
    assert(m == e & p & 0x1F ==> (m == 0 <==> (m & 0x01 == 0 && m & 0x02 == 0 && m & 0x04 == 0 && m
        & 0x08 == 0 && m & 0x10 == 0))) by (bit_vector);
}

} // verus!
