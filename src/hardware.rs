//! The system bus: routes CPU accesses to ROM, RAM, video memory and the
//! I/O registers, locks the bus during OAM DMA, and advances the clocked
//! subsystems.

use vstd::prelude::*;
use crate::bus::Bus;
use crate::cartridge::{load_error, Cartridge, CartridgeError, ROM_BANK_SIZE};
use crate::dma::{copied, state_at, Dma, DmaState};
use crate::events::Events;
use crate::gpu::{settle, settle_fb, Color, Gpu, Palette, FRAME_CYCLES, OAM_SIZE, TILE_MAP_SIZE};
use crate::int_controller::{highest_priority, IntController, Interrupt};
use crate::joypad::{Joypad, Key};
use crate::mem_map::{in_zram, map_address, region, Addr};
use crate::memory::Memory;
use crate::timer::{rate_of, Timer};

verus! {

/// Size of the boot ROM mapped over the first bytes of ROM bank 0.
pub const BIOS_SIZE: usize = 256;
/// Address of the DMA trigger register.
pub const DMA_REG: u16 = 0xFF46;

pub struct Hardware {
    pub memory: Memory,
    pub gpu: Gpu,
    pub timer: Timer,
    pub joypad: Joypad,
    pub int_controller: IntController,
    pub bios_mapped: bool,
    pub bios: Vec<u8>,
    pub cartridge: Cartridge,
    pub dma: Dma,
}

/// The row selection a write of `v` to the joypad register makes.
pub open spec fn joypad_select(v: u8) -> u8 {
    if v & 0x30 == 0 {
        2
    } else if v & 0x30 == 0x20 {
        0
    } else if v & 0x30 == 0x10 {
        1
    } else {
        3
    }
}

impl Hardware {
    pub open spec fn wf(&self) -> bool {
        &&& self.memory.wf()
        &&& self.gpu.wf()
        &&& self.timer.wf()
        &&& self.joypad.wf()
        &&& self.cartridge.wf()
        &&& self.dma.wf()
    }

    /// The byte at `a` of the boot ROM, 0xFF past its end.
    pub open spec fn bios_at(&self, a: int) -> u8 {
        if 0 <= a < self.bios@.len() {
            self.bios@[a]
        } else {
            0xFF
        }
    }

    /// What a read of I/O register `a` (offset from 0xFF00) returns.
    pub open spec fn io_read(&self, a: u16) -> u8 {
        let g = self.gpu;
        if a == 0x00 {
            self.joypad.spec_read()
        } else if a == 0x04 {
            self.timer.divider_reg
        } else if a == 0x05 {
            self.timer.counter_reg
        } else if a == 0x06 {
            self.timer.modulo_reg
        } else if a == 0x07 {
            self.timer.control_reg
        } else if a == 0x0F {
            self.int_controller.pending
        } else if a == 0x40 {
            g.lcdc_reg
        } else if a == 0x41 {
            (g.stat_reg & 0xF8) | (if g.line == g.line_match_reg { 4u8 } else { 0u8 }) | g.mode.spec_bits()
        } else if a == 0x42 {
            g.scroll_y
        } else if a == 0x43 {
            g.scroll_x
        } else if a == 0x44 {
            g.line
        } else if a == 0x45 {
            g.line_match_reg
        } else if a == 0x47 {
            g.bg_palette.data
        } else if a == 0x48 {
            g.obj_palette0.data
        } else if a == 0x49 {
            g.obj_palette1.data
        } else if a == 0x4A {
            g.window_y
        } else if a == 0x4B {
            g.window_x
        } else if a == 0xFF {
            self.int_controller.enabled
        } else {
            0
        }
    }

    /// What a read of `addr` returns, the DMA lock aside.
    pub open spec fn spec_read_byte(&self, addr: u16) -> u8 {
        match region(addr) {
            Addr::ROMBank0(a) => if self.bios_mapped && a < BIOS_SIZE {
                self.bios_at(a as int)
            } else {
                self.cartridge.rom_at(a as int)
            },
            Addr::ROMBank1(a) => self.cartridge.rom_at(ROM_BANK_SIZE * self.cartridge.bank1() + a),
            Addr::TileData(a) => self.gpu.tiles@[a as int],
            Addr::TileMap1(a) => self.gpu.tile_map@[a as int],
            Addr::TileMap2(a) => self.gpu.tile_map@[TILE_MAP_SIZE + a],
            Addr::ERAM(a) => if self.cartridge.ram_hit(a) {
                self.cartridge.ram@[self.cartridge.ram_index(a)]
            } else {
                0
            },
            Addr::RAM(a) => self.memory.ram@[a as int],
            Addr::ZRAM(a) => self.memory.zram@[a as int],
            Addr::Sprites(a) => self.gpu.oam@[a as int],
            Addr::Zero => 0,
            Addr::IO(a) => self.io_read(a),
        }
    }

    /// `post` is this system after a write of `v` to I/O register `a`.
    pub open spec fn io_write(self, post: Hardware, a: u16, v: u8) -> bool {
        let g = self.gpu;
        let t = self.timer;
        if a == 0x00 {
            post == Hardware { joypad: Joypad { active_column: joypad_select(v), ..self.joypad }, ..self }
        } else if a == 0x04 {
            post == Hardware { timer: Timer { divider_reg: 0, ..t }, ..self }
        } else if a == 0x05 {
            post == Hardware { timer: Timer { counter_reg: v, ..t }, ..self }
        } else if a == 0x06 {
            post == Hardware { timer: Timer { modulo_reg: v, ..t }, ..self }
        } else if a == 0x07 {
            post == Hardware {
                timer: Timer { control_reg: v, counter_rate: rate_of(v), active: v & 0x04 != 0, ..t },
                ..self
            }
        } else if a == 0x0F {
            post == Hardware { int_controller: IntController { pending: v, ..self.int_controller }, ..self }
        } else if a == 0xFF {
            post == Hardware { int_controller: IntController { enabled: v, ..self.int_controller }, ..self }
        } else if a == 0x40 {
            post == Hardware { gpu: Gpu { lcdc_reg: v, ..g }, ..self }
        } else if a == 0x41 {
            post == Hardware { gpu: Gpu { stat_reg: v & 0xF8, ..g }, ..self }
        } else if a == 0x42 {
            post == Hardware { gpu: Gpu { scroll_y: v, ..g }, ..self }
        } else if a == 0x43 {
            post == Hardware { gpu: Gpu { scroll_x: v, ..g }, ..self }
        } else if a == 0x45 {
            post == Hardware { gpu: Gpu { line_match_reg: v, ..g }, ..self }
        } else if a == 0x46 {
            post == Hardware {
                dma: Dma { state: DmaState::Requested, source: (v as int * 256) as u16, clock: 0 },
                ..self
            }
        } else if a == 0x47 {
            post == Hardware { gpu: Gpu { bg_palette: Palette { data: v }, ..g }, ..self }
        } else if a == 0x48 {
            post == Hardware { gpu: Gpu { obj_palette0: Palette { data: v }, ..g }, ..self }
        } else if a == 0x49 {
            post == Hardware { gpu: Gpu { obj_palette1: Palette { data: v }, ..g }, ..self }
        } else if a == 0x4A {
            post == Hardware { gpu: Gpu { window_y: v, ..g }, ..self }
        } else if a == 0x4B {
            post == Hardware { gpu: Gpu { window_x: v, ..g }, ..self }
        } else if a == 0x50 && v != 0 {
            post == Hardware { bios_mapped: false, ..self }
        } else {
            post == self
        }
    }

    /// `post` is this system after a write of `v` to `addr`, the DMA lock
    /// aside. ROM, the unmapped gap and LY are not writable.
    pub open spec fn write_byte_post(self, post: Hardware, addr: u16, v: u8) -> bool {
        match region(addr) {
            Addr::ROMBank0(_) | Addr::ROMBank1(_) => post == Hardware { cartridge: post.cartridge, ..self }
                && self.cartridge.write_post(post.cartridge, addr, v),
            Addr::TileData(a) => post == Hardware { gpu: post.gpu, ..self } && post.gpu == Gpu {
                tiles: post.gpu.tiles,
                ..self.gpu
            } && post.gpu.tiles@ == self.gpu.tiles@.update(a as int, v),
            Addr::TileMap1(a) => post == Hardware { gpu: post.gpu, ..self } && post.gpu == Gpu {
                tile_map: post.gpu.tile_map,
                ..self.gpu
            } && post.gpu.tile_map@ == self.gpu.tile_map@.update(a as int, v),
            Addr::TileMap2(a) => post == Hardware { gpu: post.gpu, ..self } && post.gpu == Gpu {
                tile_map: post.gpu.tile_map,
                ..self.gpu
            } && post.gpu.tile_map@ == self.gpu.tile_map@.update(TILE_MAP_SIZE + a, v),
            Addr::ERAM(a) => post == Hardware { cartridge: post.cartridge, ..self } && post.cartridge
                == Cartridge { ram: post.cartridge.ram, ..self.cartridge } && post.cartridge.ram@ == (
            if self.cartridge.ram_hit(a) {
                self.cartridge.ram@.update(self.cartridge.ram_index(a), v)
            } else {
                self.cartridge.ram@
            }),
            Addr::RAM(a) => post == Hardware { memory: post.memory, ..self } && post.memory == Memory {
                ram: post.memory.ram,
                ..self.memory
            } && post.memory.ram@ == self.memory.ram@.update(a as int, v),
            Addr::ZRAM(a) => post == Hardware { memory: post.memory, ..self } && post.memory == Memory {
                zram: post.memory.zram,
                ..self.memory
            } && post.memory.zram@ == self.memory.zram@.update(a as int, v),
            Addr::Sprites(a) => post == Hardware { gpu: post.gpu, ..self } && post.gpu == Gpu {
                oam: post.gpu.oam,
                ..self.gpu
            } && post.gpu.oam@ == self.gpu.oam@.update(a as int, v),
            Addr::Zero => post == self,
            Addr::IO(a) => self.io_write(post, a, v),
        }
    }

    /// Whether the DMA lock hides `addr` from the CPU: a transfer runs and
    /// `addr` is outside high RAM.
    pub open spec fn locked(&self, addr: u16) -> bool {
        self.dma.active() && !in_zram(addr)
    }

    /// A system with this boot ROM and cartridge ROM; fails as
    /// [`Cartridge::new`] does.
    pub fn new(bios: Vec<u8>, cart_rom: Vec<u8>) -> (r: Result<Hardware, CartridgeError>)
        ensures
            r matches Ok(h) ==> h.wf() && h.bios_mapped && h.bios@ == bios@ && h.cartridge.rom@ == cart_rom@ && !h.dma.active(),
            r matches Err(e) ==> load_error(cart_rom@) == Some(e),
            r is Ok <==> load_error(cart_rom@) is None,
    {
        let cartridge = match Cartridge::new(cart_rom) {
            Ok(c) => c,
            Err(e) => {
                return Err(e);
            },
        };
        Ok(Hardware {
            memory: Memory::new(),
            gpu: Gpu::new(),
            timer: Timer::new(),
            joypad: Joypad::new(),
            int_controller: IntController::new(),
            bios_mapped: true,
            bios,
            cartridge,
            dma: Dma::new(),
        })
    }

    fn read_io(&self, a: u16) -> (r: u8)
        requires
            self.wf(),
        ensures
            r == self.io_read(a),
    {
        match a {
            0x00 => self.joypad.read_joypad_reg(),
            0x04 => self.timer.read_divider_reg(),
            0x05 => self.timer.read_counter_reg(),
            0x06 => self.timer.read_modulo_reg(),
            0x07 => self.timer.read_control_reg(),
            0x0F => self.int_controller.read_pending_reg(),
            0x40 => self.gpu.read_lcdc_reg(),
            0x41 => self.gpu.read_stat_reg(),
            0x42 => self.gpu.read_scroll_y_reg(),
            0x43 => self.gpu.read_scroll_x_reg(),
            0x44 => self.gpu.read_line_reg(),
            0x45 => self.gpu.read_line_match_reg(),
            0x47 => self.gpu.read_bg_palette_reg(),
            0x48 => self.gpu.read_obj_palette0_reg(),
            0x49 => self.gpu.read_obj_palette1_reg(),
            0x4A => self.gpu.read_window_y_reg(),
            0x4B => self.gpu.read_window_x_reg(),
            0xFF => self.int_controller.read_enabled_reg(),
            _ => 0,
        }
    }

    /// The byte at `addr`, the DMA lock aside.
    pub fn read_byte(&self, addr: u16) -> (r: u8)
        requires
            self.wf(),
        ensures
            r == self.spec_read_byte(addr),
    {
        match map_address(addr) {
            Addr::ROMBank0(a) => {
                if self.bios_mapped && (a as usize) < BIOS_SIZE {
                    if (a as usize) < self.bios.len() {
                        self.bios[a as usize]
                    } else {
                        0xFF
                    }
                } else {
                    self.cartridge.read_rom_bank0(a)
                }
            },
            Addr::ROMBank1(a) => self.cartridge.read_rom_bank1(a),
            Addr::TileData(a) => self.gpu.read_tile_data(a),
            Addr::TileMap1(a) => self.gpu.read_tile_map1(a),
            Addr::TileMap2(a) => self.gpu.read_tile_map2(a),
            Addr::ERAM(a) => self.cartridge.read_ram(a),
            Addr::RAM(a) => self.memory.read_ram(a),
            Addr::ZRAM(a) => self.memory.read_zram(a),
            Addr::Sprites(a) => self.gpu.read_oam(a),
            Addr::Zero => 0x00,
            Addr::IO(a) => self.read_io(a),
        }
    }

    fn write_io(&mut self, a: u16, value: u8)
        requires
            old(self).wf(),
        ensures
            final(self).wf(),
            old(self).io_write(*final(self), a, value),
    {
        match a {
            0x00 => self.joypad.write_joypad_reg(value),
            0x04 => self.timer.write_divider_reg(value),
            0x05 => self.timer.write_counter_reg(value),
            0x06 => self.timer.write_modulo_reg(value),
            0x07 => self.timer.write_control_reg(value),
            0x0F => self.int_controller.write_pending_reg(value),
            0xFF => self.int_controller.write_enabled_reg(value),
            0x40 => self.gpu.write_lcdc_reg(value),
            0x41 => self.gpu.write_stat_reg(value),
            0x42 => self.gpu.write_scroll_y_reg(value),
            0x43 => self.gpu.write_scroll_x_reg(value),
            0x45 => self.gpu.write_line_match_reg(value),
            0x46 => self.dma.initiate(value),
            0x47 => self.gpu.write_bg_palette_reg(value),
            0x48 => self.gpu.write_obj_palette0_reg(value),
            0x49 => self.gpu.write_obj_palette1_reg(value),
            0x4A => self.gpu.write_window_y_reg(value),
            0x4B => self.gpu.write_window_x_reg(value),
            0x50 => {
                if value != 0 {
                    self.bios_mapped = false;
                }
            },
            _ => {},
        }
    }

    /// Writes `value` to `addr`, the DMA lock aside.
    pub fn write_byte(&mut self, addr: u16, value: u8)
        requires
            old(self).wf(),
        ensures
            final(self).wf(),
            old(self).write_byte_post(*final(self), addr, value),
    {
        match map_address(addr) {
            Addr::ROMBank0(_) => self.cartridge.write(addr, value),
            Addr::ROMBank1(_) => self.cartridge.write(addr, value),
            Addr::TileData(a) => self.gpu.write_tile_data(a, value),
            Addr::TileMap1(a) => self.gpu.write_tile_map1(a, value),
            Addr::TileMap2(a) => self.gpu.write_tile_map2(a, value),
            Addr::ERAM(a) => self.cartridge.write_ram(a, value),
            Addr::RAM(a) => self.memory.write_ram(a, value),
            Addr::Sprites(a) => self.gpu.write_oam(a, value),
            Addr::ZRAM(a) => self.memory.write_zram(a, value),
            Addr::Zero => {},
            Addr::IO(a) => self.write_io(a, value),
        }
    }

    pub fn framebuffer(&self) -> (r: &Vec<Color>)
        ensures
            r@ == self.gpu.framebuffer@,
    {
        self.gpu.get_framebuffer()
    }

    /// Presses `key`, raising the Joypad interrupt.
    pub fn press_key(&mut self, key: Key)
        ensures
            final(self).int_controller == old(self).int_controller.spec_set_pending(Interrupt::Joypad),
            *final(self) == (Hardware { joypad: final(self).joypad, int_controller: final(self).int_controller, ..*old(self) }),
            key.spec_column() == 0 ==> final(self).joypad == (Joypad { dpad: old(self).joypad.dpad | key.mask(), ..old(self).joypad }),
            key.spec_column() == 1 ==> final(self).joypad == (Joypad { buttons: old(self).joypad.buttons | key.mask(), ..old(self).joypad }),
    {
        self.joypad.key_pressed(key, &mut self.int_controller);
    }

    /// Releases `key`.
    pub fn release_key(&mut self, key: Key)
        ensures
            *final(self) == (Hardware { joypad: final(self).joypad, ..*old(self) }),
            key.spec_column() == 0 ==> final(self).joypad == (Joypad { dpad: old(self).joypad.dpad & !key.mask(), ..old(self).joypad }),
            key.spec_column() == 1 ==> final(self).joypad == (Joypad { buttons: old(self).joypad.buttons & !key.mask(), ..old(self).joypad }),
    {
        self.joypad.key_released(key);
    }
}

impl Bus for Hardware {
    open spec fn bus_wf(&self) -> bool {
        self.wf()
    }

    /// 0xFF outside high RAM while a DMA transfer runs.
    open spec fn spec_read(&self, addr: u16) -> u8 {
        if self.locked(addr) {
            0xFF
        } else {
            self.spec_read_byte(addr)
        }
    }

    /// Ignored outside high RAM while a DMA transfer runs, but for the DMA
    /// register itself.
    open spec fn spec_write(self, post: Self, addr: u16, value: u8) -> bool {
        if self.locked(addr) && addr != DMA_REG {
            post == self
        } else {
            self.write_byte_post(post, addr, value)
        }
    }

    open spec fn spec_has_irq(&self) -> bool {
        self.int_controller.requested() != 0
    }

    open spec fn spec_ack(self, post: Self, r: Option<Interrupt>) -> bool {
        &&& r == highest_priority(self.int_controller.requested())
        &&& post == Hardware { int_controller: post.int_controller, ..self }
        &&& r is None ==> post.int_controller == self.int_controller
        &&& r matches Some(i) ==> post.int_controller == IntController {
            pending: self.int_controller.pending & !i.mask(),
            ..self.int_controller
        }
    }

    /// The DMA transfer, the timer and the PPU advance; nothing else changes
    /// but OAM, the frame buffer and the interrupt requests.
    open spec fn spec_update(self, post: Self, cycles: u8, r: Events) -> bool {
        let total = self.timer.threshold as int + cycles as int;
        &&& post.memory == self.memory
        &&& post.cartridge == self.cartridge
        &&& post.joypad == self.joypad
        &&& post.bios == self.bios && post.bios_mapped == self.bios_mapped
        &&& post.timer == (Timer { threshold: (total % 4) as u8, ..self.timer }).run((total / 4) as nat).0
        &&& post.gpu.position() == (self.gpu.position() + cycles) % (FRAME_CYCLES as int)
        &&& ({
            let t = (Timer { threshold: (total % 4) as u8, ..self.timer }).run((total / 4) as nat);
            let ic1 = if t.1 { self.int_controller.spec_set_pending(Interrupt::Timer) } else { self.int_controller };
            let g = self.gpu;
            (post.gpu.mode, post.gpu.line, post.gpu.clock as int, post.int_controller, r.render)
                == settle(g.mode, g.line, g.clock + cycles, g.stat_reg, g.line_match_reg, g.lcdc_reg, ic1)
        })
        &&& post.gpu.lcdc_reg == self.gpu.lcdc_reg && post.gpu.stat_reg == self.gpu.stat_reg
        &&& post.gpu.line_match_reg == self.gpu.line_match_reg
        &&& post.gpu.tiles@ == self.gpu.tiles@ && post.gpu.tile_map@ == self.gpu.tile_map@
        &&& post.gpu.scroll_x == self.gpu.scroll_x && post.gpu.scroll_y == self.gpu.scroll_y
        &&& post.gpu.window_x == self.gpu.window_x && post.gpu.window_y == self.gpu.window_y
        &&& post.gpu.framebuffer@ == settle_fb(Gpu { oam: post.gpu.oam, ..self.gpu }, self.gpu.mode, self.gpu.line,
            self.gpu.clock + cycles, self.gpu.framebuffer@)
        &&& post.gpu.bg_palette == self.gpu.bg_palette
        &&& post.gpu.obj_palette0 == self.gpu.obj_palette0 && post.gpu.obj_palette1 == self.gpu.obj_palette1
        &&& (self.dma.active() ==> post.dma.clock == self.dma.clock + cycles && post.dma.source == self.dma.source
            && post.dma.state == state_at(self.dma.clock + cycles))
        &&& (self.dma.active() ==> forall|j: int| 0 <= j < OAM_SIZE ==> #[trigger] post.gpu.oam@[j] == if copied(
            self.dma.clock as int,
        ) <= j < copied(self.dma.clock + cycles) {
            self.spec_read_byte((self.dma.source + j) as u16)
        } else {
            self.gpu.oam@[j]
        })
        &&& (!self.dma.active() ==> post.gpu.oam@ == self.gpu.oam@)
        &&& (!self.dma.active() ==> post.dma == self.dma)
        &&& post.int_controller.enabled == self.int_controller.enabled
        &&& !r.fault
    }

    fn read(&self, addr: u16) -> (r: u8) {
        if self.dma.is_active() && !(0xFF80 <= addr && addr < 0xFFFF) {
            return 0xFF;
        }
        self.read_byte(addr)
    }

    fn write(&mut self, addr: u16, value: u8) {
        if self.dma.is_active() && !(0xFF80 <= addr && addr < 0xFFFF) && addr != DMA_REG {
            return ;
        }
        self.write_byte(addr, value)
    }

    fn has_irq(&self) -> (r: bool) {
        self.int_controller.has_irq()
    }

    fn ack_irq(&mut self) -> (r: Option<Interrupt>) {
        self.int_controller.ack_irq()
    }

    fn update(&mut self, cycles: u8) -> (r: Events) {
        let ghost g_in = self.gpu;
        if self.dma.is_active() {
            let (source, ofs, len) = self.dma.tick(cycles);
            let ghost h0 = *self;
            let mut i: u16 = ofs;
            while i < ofs + len
                invariant
                    ofs <= i <= ofs + len <= 160,
                    self.wf(),
                    self.memory == h0.memory && self.cartridge == h0.cartridge,
                    self.joypad == h0.joypad && self.timer == h0.timer,
                    self.bios == h0.bios && self.bios_mapped == h0.bios_mapped,
                    self.dma == h0.dma && self.int_controller == h0.int_controller,
                    self.gpu.position() == h0.gpu.position(),
                    self.gpu.mode == h0.gpu.mode && self.gpu.line == h0.gpu.line && self.gpu.clock == h0.gpu.clock,
                    self.gpu.lcdc_reg == h0.gpu.lcdc_reg && self.gpu.stat_reg == h0.gpu.stat_reg,
                    self.gpu.line_match_reg == h0.gpu.line_match_reg,
                    self.gpu.tiles@ == h0.gpu.tiles@ && self.gpu.tile_map@ == h0.gpu.tile_map@,
                    self.gpu == (Gpu { oam: self.gpu.oam, ..h0.gpu }),
                    source == h0.dma.source,
                    h0.dma.source % 256 == 0,
                    h0.gpu.oam@.len() == OAM_SIZE,
                    forall|j: int| 0 <= j < OAM_SIZE ==> #[trigger] self.gpu.oam@[j] == if ofs <= j < i {
                        h0.spec_read_byte((source + j) as u16)
                    } else {
                        h0.gpu.oam@[j]
                    },
                decreases ofs + len - i,
            {
                let a = source.wrapping_add(i);
                proof {
                    assert(a == source + i);
                    if let Addr::Sprites(k) = region(a) {
                        assert(source == 0xFE00);
                        assert(k == i);
                    }
                    assert(self.spec_read_byte(a) == h0.spec_read_byte(a));
                }
                let value = self.read_byte(a);
                self.gpu.write_oam(i, value);
                i = i + 1;
            }
        }
        assert(self.gpu == (Gpu { oam: self.gpu.oam, ..g_in }));
        self.timer.tick(cycles, &mut self.int_controller);
        self.gpu.step(cycles, &mut self.int_controller)
    }
}

/// While a DMA transfer runs, every read outside high RAM returns 0xFF.
pub proof fn law_dma_read_lock(h: Hardware, addr: u16)
    requires
        h.dma.active(),
        !in_zram(addr),
    ensures
        h.spec_read(addr) == 0xFF,
{
}

/// A byte written to work RAM (or its mirror), to high RAM, or to enabled
/// cartridge RAM reads back, when no DMA transfer locks the bus.
pub proof fn law_ram_round_trip(h: Hardware, post: Hardware, addr: u16, v: u8)
    requires
        h.wf(),
        !h.dma.active(),
        h.spec_write(post, addr, v),
        (0xC000 <= addr < 0xFE00) || (0xFF80 <= addr < 0xFFFF) || (0xA000 <= addr < 0xC000
            && h.cartridge.ram_hit((addr - 0xA000) as u16)),
    ensures
        post.spec_read(addr) == v,
{
    if 0xA000 <= addr < 0xC000 {
        let a = (addr - 0xA000) as u16;
    }
}

} // verus!
