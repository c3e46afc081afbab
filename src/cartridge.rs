//! Cartridge: ROM, external RAM, and the bank controller that maps them.

use vstd::prelude::*;

verus! {

pub const ROM_BANK_SIZE: usize = 16384;
pub const RAM_BANK_SIZE: usize = 8192;
/// Offset of the cartridge type byte in the ROM header.
pub const TYPE_BYTE_OFS: usize = 0x147;

/// What the cartridge header's type byte declares.
#[derive(Copy, Clone, Debug, PartialEq, Eq, Structural)]
pub struct CartridgeFeatures {
    pub mbc1: bool,
    pub mbc2: bool,
    pub mbc3: bool,
    pub mbc5: bool,
    pub mmm01: bool,
    pub ram: bool,
    pub sram: bool,
    pub battery: bool,
    pub rumble: bool,
}

/// Offset of the RAM size byte in the ROM header.
pub const RAM_SIZE_OFS: usize = 0x149;

/// The RAM size that a header's RAM size byte declares.
pub open spec fn spec_ram_size(code: u8) -> int {
    if code == 1 {
        2048
    } else if code == 2 {
        8192
    } else if code == 3 {
        32768
    } else if code == 4 {
        131072
    } else if code == 5 {
        65536
    } else {
        0
    }
}

pub fn ram_size_of(code: u8) -> (r: usize)
    ensures
        r == spec_ram_size(code),
{
    match code {
        1 => 2048,
        2 => 8192,
        3 => 32768,
        4 => 131072,
        5 => 65536,
        _ => 0,
    }
}

/// The RAM a loadable ROM declares: its type has RAM and its header gives
/// the size (none otherwise).
pub open spec fn declared_ram(rom: Seq<u8>) -> int {
    let t = rom[TYPE_BYTE_OFS as int];
    if (t == 0x02 || t == 0x03 || t == 0x08 || t == 0x09) && rom.len() > RAM_SIZE_OFS {
        spec_ram_size(rom[RAM_SIZE_OFS as int])
    } else {
        0
    }
}

/// The type bytes this core knows.
pub open spec fn known_type(b: u8) -> bool {
    b == 0x00 || b == 0x01 || b == 0x02 || b == 0x03 || b == 0x05 || b == 0x06 || b == 0x08 || b
        == 0x09 || b == 0x0B || b == 0x0C || b == 0x0D || b == 0x12 || b == 0x13 || (0x19 <= b
        <= 0x1E)
}

impl CartridgeFeatures {
    pub open spec fn none() -> CartridgeFeatures {
        CartridgeFeatures {
            mbc1: false,
            mbc2: false,
            mbc3: false,
            mbc5: false,
            mmm01: false,
            ram: false,
            sram: false,
            battery: false,
            rumble: false,
        }
    }

    /// The features a known type byte declares; `None` for an unknown one.
    pub fn from_type_byte(value: u8) -> (r: Option<CartridgeFeatures>)
        ensures
            r is Some <==> known_type(value),
            r matches Some(f) ==> {
                &&& f.mbc1 <==> (0x01 <= value <= 0x03)
                &&& f.mbc2 <==> (value == 0x05 || value == 0x06)
                &&& f.mbc3 <==> (value == 0x12 || value == 0x13)
                &&& f.mbc5 <==> (0x19 <= value <= 0x1E)
                &&& f.mmm01 <==> (0x0B <= value <= 0x0D)
                &&& f.ram <==> (value == 0x02 || value == 0x03 || value == 0x08 || value == 0x09
                    || value == 0x12 || value == 0x13 || value == 0x1A || value == 0x1B)
                &&& f.sram <==> (value == 0x0C || value == 0x0D || value == 0x1D || value == 0x1E)
                &&& f.battery <==> (value == 0x03 || value == 0x06 || value == 0x09 || value == 0x0D
                    || value == 0x13 || value == 0x1B || value == 0x1E)
                &&& f.rumble <==> (0x1C <= value <= 0x1E)
            },
    {
        let n = CartridgeFeatures {
            mbc1: false,
            mbc2: false,
            mbc3: false,
            mbc5: false,
            mmm01: false,
            ram: false,
            sram: false,
            battery: false,
            rumble: false,
        };
        match value {
            0x00 => Some(n),
            0x01 => Some(CartridgeFeatures { mbc1: true, ..n }),
            0x02 => Some(CartridgeFeatures { mbc1: true, ram: true, ..n }),
            0x03 => Some(CartridgeFeatures { mbc1: true, ram: true, battery: true, ..n }),
            0x05 => Some(CartridgeFeatures { mbc2: true, ..n }),
            0x06 => Some(CartridgeFeatures { mbc2: true, battery: true, ..n }),
            0x08 => Some(CartridgeFeatures { ram: true, ..n }),
            0x09 => Some(CartridgeFeatures { ram: true, battery: true, ..n }),
            0x0B => Some(CartridgeFeatures { mmm01: true, ..n }),
            0x0C => Some(CartridgeFeatures { mmm01: true, sram: true, ..n }),
            0x0D => Some(CartridgeFeatures { mmm01: true, sram: true, battery: true, ..n }),
            0x12 => Some(CartridgeFeatures { mbc3: true, ram: true, ..n }),
            0x13 => Some(CartridgeFeatures { mbc3: true, ram: true, battery: true, ..n }),
            0x19 => Some(CartridgeFeatures { mbc5: true, ..n }),
            0x1A => Some(CartridgeFeatures { mbc5: true, ram: true, ..n }),
            0x1B => Some(CartridgeFeatures { mbc5: true, ram: true, battery: true, ..n }),
            0x1C => Some(CartridgeFeatures { mbc5: true, rumble: true, ..n }),
            0x1D => Some(CartridgeFeatures { mbc5: true, rumble: true, sram: true, ..n }),
            0x1E => Some(
                CartridgeFeatures { mbc5: true, rumble: true, sram: true, battery: true, ..n },
            ),
            _ => None,
        }
    }
}

/// The bank controller of a cartridge.
#[derive(Copy, Clone, Debug, PartialEq, Eq, Structural)]
pub enum MBC {
    NoMbc,
    MBC1,
    MBC2,
    MBC3,
    MBC5,
}

impl MBC {
    pub fn from_features(features: CartridgeFeatures) -> (r: MBC)
        ensures
            r == (if features.mbc1 {
                MBC::MBC1
            } else if features.mbc2 {
                MBC::MBC2
            } else if features.mbc3 {
                MBC::MBC3
            } else if features.mbc5 {
                MBC::MBC5
            } else {
                MBC::NoMbc
            }),
    {
        if features.mbc1 {
            MBC::MBC1
        } else if features.mbc2 {
            MBC::MBC2
        } else if features.mbc3 {
            MBC::MBC3
        } else if features.mbc5 {
            MBC::MBC5
        } else {
            MBC::NoMbc
        }
    }
}

/// Why a cartridge could not be constructed.
#[derive(Copy, Clone, Debug, PartialEq, Eq, Structural)]
pub enum CartridgeError {
    /// the ROM is too short to hold a header
    MalformedHeader,
    /// the type byte is unknown, or names a controller this core lacks
    Unsupported(u8),
}

/// Why a ROM cannot be loaded, if it cannot: too short for a header, or a
/// type byte that is unknown or names an MBC2, MBC3 or MBC5.
pub open spec fn load_error(rom: Seq<u8>) -> Option<CartridgeError> {
    if rom.len() <= TYPE_BYTE_OFS {
        Some(CartridgeError::MalformedHeader)
    } else {
        let t = rom[TYPE_BYTE_OFS as int];
        if known_type(t) && !(t == 0x05 || t == 0x06 || t == 0x12 || t == 0x13 || (0x19 <= t <= 0x1E)) {
            None
        } else {
            Some(CartridgeError::Unsupported(t))
        }
    }
}

/// A cartridge with no controller or with an MBC1.
pub struct Cartridge {
    pub rom: Vec<u8>,
    /// selected bank for 0x4000..=0x7FFF: low five bits, then two upper bits
    pub rom_bank: u8,
    pub ram: Vec<u8>,
    pub ram_bank: u8,
    /// MBC1: the 0x4000..=0x5FFF writes select the RAM bank
    pub ram_mode: bool,
    pub ram_enabled: bool,
    pub mbc: MBC,
}

/// The ROM bank register after a write of `value` to 0x2000..=0x3FFF: the
/// low five bits are replaced, 0 standing for 1.
pub open spec fn rom_bank_low(bank: u8, value: u8) -> u8 {
    let v = value % 32;
    ((bank / 32) * 32 + if v == 0 { 1 } else { v }) as u8
}

/// The ROM bank register after a write of `value` to 0x4000..=0x5FFF in ROM
/// mode: bits 5..=6 are replaced.
pub open spec fn rom_bank_high(bank: u8, value: u8) -> u8 {
    ((bank % 32) + (value % 4) * 32) as u8
}

impl Cartridge {
    pub open spec fn wf(&self) -> bool {
        &&& 1 <= self.rom_bank < 128
        &&& self.rom_bank % 32 != 0
        &&& self.ram_bank < 4
        &&& (self.mbc is NoMbc || self.mbc is MBC1)
        &&& self.ram@.len() <= 131072
    }

    /// The byte of the ROM at `i`, 0xFF past its end.
    pub open spec fn rom_at(&self, i: int) -> u8 {
        if 0 <= i < self.rom@.len() {
            self.rom@[i]
        } else {
            0xFF
        }
    }

    /// The bank mapped at 0x4000..=0x7FFF.
    pub open spec fn bank1(&self) -> int {
        if self.mbc is MBC1 {
            self.rom_bank as int
        } else {
            1
        }
    }

    /// `f` is this cartridge after a write of `value` to `addr` in the ROM
    /// area: an MBC1 latches RAM enable, the low and high ROM bank bits, the
    /// RAM bank or the banking mode; without a controller nothing changes.
    pub open spec fn write_post(self, f: Cartridge, addr: u16, value: u8) -> bool {
        let o = self;
        &&& f.rom@ == o.rom@ && f.ram@ == o.ram@
        &&& f.mbc == o.mbc
        &&& o.mbc is NoMbc ==> f == o
        &&& o.mbc is MBC1 ==> if addr < 0x2000 {
            f == Cartridge { ram_enabled: value == 0x0A, ..o }
        } else if addr < 0x4000 {
            f == Cartridge { rom_bank: rom_bank_low(o.rom_bank, value), ..o }
        } else if addr < 0x6000 {
            if o.ram_mode {
                f == Cartridge { ram_bank: value % 4, ..o }
            } else {
                f == Cartridge { rom_bank: rom_bank_high(o.rom_bank, value), ..o }
            }
        } else {
            f == Cartridge { ram_mode: value % 2 == 1, ..o }
        }
    }

    /// Whether reads and writes of `addr` (an offset into 0xA000..=0xBFFF)
    /// reach the RAM: it is enabled and has a byte there.
    pub open spec fn ram_hit(&self, addr: u16) -> bool {
        self.ram_enabled && self.ram_index(addr) < self.ram@.len()
    }

    pub open spec fn ram_index(&self, addr: u16) -> int {
        RAM_BANK_SIZE * self.ram_bank + addr
    }

    /// Reads the type byte and sets up the controller, ROM bank 1 and a
    /// zeroed RAM of the size the header declares. Fails on a ROM too
    /// short for a header and on a type byte that is unknown or names an
    /// MBC2, MBC3 or MBC5.
    pub fn new(rom: Vec<u8>) -> (r: Result<Cartridge, CartridgeError>)
        ensures
            r matches Err(e) ==> load_error(rom@) == Some(e),
            r is Ok <==> load_error(rom@) is None,
            r matches Ok(c) ==> {
                &&& c.wf()
                &&& c.rom@ == rom@
                &&& c.rom_bank == 1 && c.ram_bank == 0 && !c.ram_mode && !c.ram_enabled
                &&& (c.mbc is MBC1 <==> (0x01 <= rom@[TYPE_BYTE_OFS as int] <= 0x03))
                &&& c.ram@.len() == declared_ram(rom@)
                &&& forall|i: int| 0 <= i < c.ram@.len() ==> c.ram@[i] == 0
            },
    {
        if rom.len() <= TYPE_BYTE_OFS {
            return Err(CartridgeError::MalformedHeader);
        }
        let t = rom[TYPE_BYTE_OFS];
        let features = match CartridgeFeatures::from_type_byte(t) {
            Some(f) => f,
            None => {
                return Err(CartridgeError::Unsupported(t));
            },
        };
        let mbc = MBC::from_features(features);
        match mbc {
            MBC::NoMbc | MBC::MBC1 => {},
            _ => {
                return Err(CartridgeError::Unsupported(t));
            },
        }
        let ram_size: usize = if features.ram && rom.len() > RAM_SIZE_OFS {
            ram_size_of(rom[RAM_SIZE_OFS])
        } else {
            0
        };
        Ok(Cartridge {
            rom,
            rom_bank: 1,
            ram: vec![0u8; ram_size],
            ram_bank: 0,
            ram_mode: false,
            ram_enabled: false,
            mbc,
        })
    }

    /// The byte at `addr` of ROM bank 0.
    pub fn read_rom_bank0(&self, addr: u16) -> (r: u8)
        ensures
            r == self.rom_at(addr as int),
    {
        if (addr as usize) < self.rom.len() {
            self.rom[addr as usize]
        } else {
            0xFF
        }
    }

    /// The byte at `addr` of the bank mapped at 0x4000..=0x7FFF.
    pub fn read_rom_bank1(&self, addr: u16) -> (r: u8)
        requires
            self.wf(),
            addr < ROM_BANK_SIZE,
        ensures
            r == self.rom_at(ROM_BANK_SIZE * self.bank1() + addr),
    {
        let bank: usize = match self.mbc {
            MBC::MBC1 => self.rom_bank as usize,
            _ => 1,
        };
        let i = ROM_BANK_SIZE * bank + addr as usize;
        if i < self.rom.len() {
            self.rom[i]
        } else {
            0xFF
        }
    }

    /// A write to the ROM area, which reaches the bank controller.
    pub fn write(&mut self, addr: u16, value: u8)
        requires
            old(self).wf(),
            addr < 0x8000,
        ensures
            final(self).wf(),
            old(self).write_post(*final(self), addr, value),
    {
        match self.mbc {
            MBC::MBC1 => {
                if addr < 0x2000 {
                    self.ram_enabled = value == 0x0A;
                } else if addr < 0x4000 {
                    let v = value % 32;
                    let low = if v == 0 { 1 } else { v };
                    self.rom_bank = (self.rom_bank / 32) * 32 + low;
                } else if addr < 0x6000 {
                    if self.ram_mode {
                        self.ram_bank = value % 4;
                    } else {
                        self.rom_bank = self.rom_bank % 32 + (value % 4) * 32;
                    }
                } else {
                    self.ram_mode = value % 2 == 1;
                }
            },
            _ => {},
        }
    }

    /// A read of cartridge RAM; 0 while it is disabled or absent.
    pub fn read_ram(&self, addr: u16) -> (r: u8)
        requires
            self.wf(),
            addr < RAM_BANK_SIZE,
        ensures
            r == (if self.ram_hit(addr) { self.ram@[self.ram_index(addr)] } else { 0 }),
    {
        let i = RAM_BANK_SIZE * self.ram_bank as usize + addr as usize;
        if self.ram_enabled && i < self.ram.len() {
            self.ram[i]
        } else {
            0x00
        }
    }

    /// A write of cartridge RAM; ignored while it is disabled or absent.
    pub fn write_ram(&mut self, addr: u16, value: u8)
        requires
            old(self).wf(),
            addr < RAM_BANK_SIZE,
        ensures
            final(self).wf(),
            final(self).ram@ == (if old(self).ram_hit(addr) {
                old(self).ram@.update(old(self).ram_index(addr), value)
            } else {
                old(self).ram@
            }),
            *final(self) == (Cartridge { ram: final(self).ram, ..*old(self) }),
    {
        let i = RAM_BANK_SIZE * self.ram_bank as usize + addr as usize;
        if self.ram_enabled && i < self.ram.len() {
            self.ram.set(i, value);
        }
    }
}

/// Writing cartridge RAM while it is enabled and reading the same address
/// gives the value written.
pub proof fn law_cart_ram_round_trip(c: Cartridge, post: Cartridge, addr: u16, v: u8)
    requires
        c.wf(),
        addr < RAM_BANK_SIZE,
        c.ram_hit(addr),
        post.ram@ == c.ram@.update(c.ram_index(addr), v),
        post.ram_bank == c.ram_bank && post.ram_enabled == c.ram_enabled,
    ensures
        post.ram_hit(addr) && post.ram@[post.ram_index(addr)] == v,
{
}

/// The MBC1 ROM bank register never selects bank 0 (nor 0x20, 0x40, 0x60):
/// every write keeps it in 1..=0x7F with nonzero low five bits.
pub proof fn law_mbc1_bank_nonzero(bank: u8, value: u8)
    requires
        1 <= bank < 128,
        bank % 32 != 0,
    ensures
        1 <= rom_bank_low(bank, value) < 128 && rom_bank_low(bank, value) % 32 != 0,
        1 <= rom_bank_high(bank, value) < 128 && rom_bank_high(bank, value) % 32 != 0,
{
}

} // verus!
