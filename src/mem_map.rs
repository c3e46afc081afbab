//! The address map: which region each 16-bit address falls in, and its
//! offset there.

use vstd::prelude::*;

verus! {

pub const ROM_BANK0_LO: u16 = 0x0000;
pub const ROM_BANK1_LO: u16 = 0x4000;
pub const TILE_DATA_LO: u16 = 0x8000;
pub const TILE_MAP1_LO: u16 = 0x9800;
pub const TILE_MAP2_LO: u16 = 0x9C00;
pub const ERAM_LO: u16 = 0xA000;
pub const RAM_LO: u16 = 0xC000;
pub const RAM_LO2: u16 = 0xE000;
pub const SPRITES_LO: u16 = 0xFE00;
pub const UNMAPPED_LO: u16 = 0xFEA0;
pub const IO_LO: u16 = 0xFF00;
pub const ZRAM_LO: u16 = 0xFF80;
pub const INT_ENABLE_REG: u16 = 0xFFFF;

/// A region of the address space and the offset within it.
#[derive(Copy, Clone, Debug, PartialEq, Eq, Structural)]
pub enum Addr {
    ROMBank0(u16),
    ROMBank1(u16),
    TileData(u16),
    TileMap1(u16),
    TileMap2(u16),
    ERAM(u16),
    RAM(u16),
    Sprites(u16),
    IO(u16),
    ZRAM(u16),
    Zero,
}

/// The region of `a`: ROM bank 0 and 1, tile data, the two tile maps,
/// cartridge RAM, work RAM (with its mirror folded onto it), OAM, an
/// unmapped gap, I/O registers, high RAM, and IE (an I/O register).
pub open spec fn region(a: u16) -> Addr {
    if a < 0x4000 {
        Addr::ROMBank0(a)
    } else if a < 0x8000 {
        Addr::ROMBank1((a - 0x4000) as u16)
    } else if a < 0x9800 {
        Addr::TileData((a - 0x8000) as u16)
    } else if a < 0x9C00 {
        Addr::TileMap1((a - 0x9800) as u16)
    } else if a < 0xA000 {
        Addr::TileMap2((a - 0x9C00) as u16)
    } else if a < 0xC000 {
        Addr::ERAM((a - 0xA000) as u16)
    } else if a < 0xE000 {
        Addr::RAM((a - 0xC000) as u16)
    } else if a < 0xFE00 {
        Addr::RAM((a - 0xE000) as u16)
    } else if a < 0xFEA0 {
        Addr::Sprites((a - 0xFE00) as u16)
    } else if a < 0xFF00 {
        Addr::Zero
    } else if a < 0xFF80 {
        Addr::IO((a - 0xFF00) as u16)
    } else if a < 0xFFFF {
        Addr::ZRAM((a - 0xFF80) as u16)
    } else {
        Addr::IO((a - 0xFF00) as u16)
    }
}

/// Whether `a` lies in high RAM.
pub open spec fn in_zram(a: u16) -> bool {
    0xFF80 <= a < 0xFFFF
}

pub fn map_address(addr: u16) -> (r: Addr)
    ensures
        r == region(addr),
        r matches Addr::TileData(o) ==> o < 0x1800,
        r matches Addr::TileMap1(o) ==> o < 0x400,
        r matches Addr::TileMap2(o) ==> o < 0x400,
        r matches Addr::ERAM(o) ==> o < 0x2000,
        r matches Addr::RAM(o) ==> o < 0x2000,
        r matches Addr::Sprites(o) ==> o < 0xA0,
        r matches Addr::ZRAM(o) ==> o < 0x7F,
        r matches Addr::IO(o) ==> o < 0x80 || o == 0xFF,
        r matches Addr::ROMBank0(o) ==> o < 0x4000,
        r matches Addr::ROMBank1(o) ==> o < 0x4000,
{
    if addr < ROM_BANK1_LO {
        Addr::ROMBank0(addr)
    } else if addr < TILE_DATA_LO {
        Addr::ROMBank1(addr - ROM_BANK1_LO)
    } else if addr < TILE_MAP1_LO {
        Addr::TileData(addr - TILE_DATA_LO)
    } else if addr < TILE_MAP2_LO {
        Addr::TileMap1(addr - TILE_MAP1_LO)
    } else if addr < ERAM_LO {
        Addr::TileMap2(addr - TILE_MAP2_LO)
    } else if addr < RAM_LO {
        Addr::ERAM(addr - ERAM_LO)
    } else if addr < RAM_LO2 {
        Addr::RAM(addr - RAM_LO)
    } else if addr < SPRITES_LO {
        Addr::RAM(addr - RAM_LO2)
    } else if addr < UNMAPPED_LO {
        Addr::Sprites(addr - SPRITES_LO)
    } else if addr < IO_LO {
        Addr::Zero
    } else if addr < ZRAM_LO {
        Addr::IO(addr - IO_LO)
    } else if addr < INT_ENABLE_REG {
        Addr::ZRAM(addr - ZRAM_LO)
    } else {
        Addr::IO(addr - IO_LO)
    }
}

} // verus!
