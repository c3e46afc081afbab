//! Picture processing unit: the mode state machine that paces each
//! scanline, video memory, and the line renderer.

use vstd::prelude::*;
use crate::events::Events;
use crate::int_controller::{IntController, Interrupt};
use crate::gpu_render::{lemma_render_same, render_fb};

verus! {

pub const SCREEN_WIDTH: usize = 160;
pub const SCREEN_HEIGHT: usize = 144;
pub const TILE_DATA_SIZE: usize = 6144;
pub const TILE_MAP_SIZE: usize = 1024;
pub const OAM_SIZE: usize = 160;
pub const FRAMEBUFFER_SIZE: usize = 23040;
/// M-cycles of one frame: 154 lines.
pub const FRAME_CYCLES: u32 = 17556;

/// One of the four gray levels.
#[derive(Copy, Clone, Debug, PartialEq, Eq, Structural)]
pub enum Color {
    White,
    LightGray,
    DarkGray,
    Black,
}

/// The gray level numbered `n` (0 lightest).
pub open spec fn shade(n: int) -> Color {
    if n == 0 {
        Color::White
    } else if n == 1 {
        Color::LightGray
    } else if n == 2 {
        Color::DarkGray
    } else {
        Color::Black
    }
}

impl Color {
    pub fn to_rgb(&self) -> (r: (u8, u8, u8))
        ensures
            *self == Color::White ==> r == (0xFFu8, 0xFFu8, 0xFFu8),
            *self == Color::LightGray ==> r == (0xC0u8, 0xC0u8, 0xC0u8),
            *self == Color::DarkGray ==> r == (0x60u8, 0x60u8, 0x60u8),
            *self == Color::Black ==> r == (0u8, 0u8, 0u8),
    {
        match *self {
            Color::White => (0xFF, 0xFF, 0xFF),
            Color::LightGray => (0xC0, 0xC0, 0xC0),
            Color::DarkGray => (0x60, 0x60, 0x60),
            Color::Black => (0x00, 0x00, 0x00),
        }
    }
}

/// A palette register: four 2-bit shades, indexed by color code.
#[derive(Copy, Clone, Debug, PartialEq, Eq, Structural)]
pub struct Palette {
    pub data: u8,
}

impl Palette {
    /// The shade that color code `code` (its two low bits) maps to.
    pub open spec fn spec_color(self, code: u8) -> Color {
        let k = code % 4;
        shade(
            if k == 0 {
                self.data as int % 4
            } else if k == 1 {
                self.data as int / 4 % 4
            } else if k == 2 {
                self.data as int / 16 % 4
            } else {
                self.data as int / 64
            },
        )
    }

    pub fn new() -> (r: Palette)
        ensures
            r.data == 0,
    {
        Palette { data: 0 }
    }

    pub fn get_color(&self, color_id: u8) -> (r: Color)
        ensures
            r == self.spec_color(color_id),
    {
        let k = color_id % 4;
        let n = if k == 0 {
            self.data % 4
        } else if k == 1 {
            self.data / 4 % 4
        } else if k == 2 {
            self.data / 16 % 4
        } else {
            self.data / 64
        };
        if n == 0 {
            Color::White
        } else if n == 1 {
            Color::LightGray
        } else if n == 2 {
            Color::DarkGray
        } else {
            Color::Black
        }
    }
}

/// The PPU mode; its number is what STAT's two low bits read.
#[derive(Copy, Clone, Debug, PartialEq, Eq, Structural)]
pub enum GpuMode {
    HBlank,
    VBlank,
    ScanlineOAM,
    ScanlineVRAM,
}

impl GpuMode {
    pub open spec fn spec_bits(self) -> u8 {
        match self {
            GpuMode::HBlank => 0,
            GpuMode::VBlank => 1,
            GpuMode::ScanlineOAM => 2,
            GpuMode::ScanlineVRAM => 3,
        }
    }

    /// M-cycles spent in the mode (per line for VBlank).
    pub open spec fn length(self) -> u32 {
        match self {
            GpuMode::HBlank => 51,
            GpuMode::VBlank => 114,
            GpuMode::ScanlineOAM => 20,
            GpuMode::ScanlineVRAM => 43,
        }
    }

    /// M-cycles into a visible line at which the mode begins.
    pub open spec fn start(self) -> int {
        match self {
            GpuMode::ScanlineOAM => 0,
            GpuMode::ScanlineVRAM => 20,
            GpuMode::HBlank => 63,
            GpuMode::VBlank => 0,
        }
    }

    pub fn bits(&self) -> (r: u8)
        ensures
            r == self.spec_bits(),
    {
        match *self {
            GpuMode::HBlank => 0,
            GpuMode::VBlank => 1,
            GpuMode::ScanlineOAM => 2,
            GpuMode::ScanlineVRAM => 3,
        }
    }

    pub fn from_bits(value: u8) -> (r: GpuMode)
        ensures
            r.spec_bits() == value % 4,
    {
        match value % 4 {
            0 => GpuMode::HBlank,
            1 => GpuMode::VBlank,
            2 => GpuMode::ScanlineOAM,
            _ => GpuMode::ScanlineVRAM,
        }
    }

    fn length_of(&self) -> (r: u32)
        ensures
            r == self.length(),
    {
        match *self {
            GpuMode::HBlank => 51,
            GpuMode::VBlank => 114,
            GpuMode::ScanlineOAM => 20,
            GpuMode::ScanlineVRAM => 43,
        }
    }
}

/// The two-bit color code of column `x` (0 leftmost) of a tile row whose
/// bit planes are `lo` and `hi`.
pub open spec fn code_at(lo: u8, hi: u8, x: u8) -> u8 {
    (((hi >> ((7 - x) as u8)) & 1) * 2 + ((lo >> ((7 - x) as u8)) & 1)) as u8
}

/// The byte read as a two's complement number.
pub open spec fn signed_index(b: u8) -> int {
    if b < 128 { b as int } else { b as int - 256 }
}

/// PPU registers, video memory, OAM (raw, four bytes per sprite: y, x, tile,
/// attributes) and the frame buffer (row-major, 160 x 144).
pub struct Gpu {
    pub mode: GpuMode,
    pub clock: u32,
    pub line: u8,
    pub line_match_reg: u8,
    pub lcdc_reg: u8,
    pub stat_reg: u8,
    pub scroll_x: u8,
    pub scroll_y: u8,
    pub window_x: u8,
    pub window_y: u8,
    pub bg_palette: Palette,
    pub obj_palette0: Palette,
    pub obj_palette1: Palette,
    pub tiles: Vec<u8>,
    pub tile_map: Vec<u8>,
    pub oam: Vec<u8>,
    pub framebuffer: Vec<Color>,
}

impl Gpu {
    /// The memories have their sizes.
    pub open spec fn mem_ok(&self) -> bool {
        &&& self.tiles@.len() == TILE_DATA_SIZE
        &&& self.tile_map@.len() == 2 * TILE_MAP_SIZE
        &&& self.oam@.len() == OAM_SIZE
        &&& self.framebuffer@.len() == FRAMEBUFFER_SIZE
    }

    pub open spec fn wf(&self) -> bool {
        &&& self.mem_ok()
        &&& self.line <= 153
        &&& (self.mode is VBlank <==> self.line >= 144)
        &&& self.clock < self.mode.length()
    }

    /// M-cycles since the start of the frame.
    pub open spec fn position(&self) -> int {
        self.line as int * 114 + self.mode.start() + self.clock as int
    }

    /// The registers and memories other than mode, clock, line and frame
    /// buffer are those of `o`.
    pub open spec fn same_regs(&self, o: &Gpu) -> bool {
        &&& self.line_match_reg == o.line_match_reg
        &&& self.lcdc_reg == o.lcdc_reg
        &&& self.stat_reg == o.stat_reg
        &&& self.scroll_x == o.scroll_x && self.scroll_y == o.scroll_y
        &&& self.window_x == o.window_x && self.window_y == o.window_y
        &&& self.bg_palette == o.bg_palette
        &&& self.obj_palette0 == o.obj_palette0 && self.obj_palette1 == o.obj_palette1
        &&& self.tiles@ == o.tiles@ && self.tile_map@ == o.tile_map@ && self.oam@ == o.oam@
    }

    /// All zero, all white, display off, at the start of a frame.
    pub fn new() -> (r: Gpu)
        ensures
            r.wf(),
            r.position() == 0,
            r.stat_reg == 0x90,
    {
        Gpu {
            mode: GpuMode::ScanlineOAM,
            clock: 0,
            line: 0,
            line_match_reg: 0,
            lcdc_reg: 0,
            stat_reg: 0x90,
            scroll_x: 0,
            scroll_y: 0,
            window_x: 0,
            window_y: 0,
            bg_palette: Palette::new(),
            obj_palette0: Palette::new(),
            obj_palette1: Palette::new(),
            tiles: vec![0u8; TILE_DATA_SIZE],
            tile_map: vec![0u8; 2 * TILE_MAP_SIZE],
            oam: vec![0u8; OAM_SIZE],
            framebuffer: vec![Color::White; FRAMEBUFFER_SIZE],
        }
    }

    pub fn get_framebuffer(&self) -> (r: &Vec<Color>)
        ensures
            r@ == self.framebuffer@,
    {
        &self.framebuffer
    }

    pub fn read_tile_data(&self, addr: u16) -> (r: u8)
        requires
            self.wf(),
            addr < TILE_DATA_SIZE,
        ensures
            r == self.tiles@[addr as int],
    {
        self.tiles[addr as usize]
    }

    pub fn write_tile_data(&mut self, addr: u16, value: u8)
        requires
            old(self).wf(),
            addr < TILE_DATA_SIZE,
        ensures
            final(self).tiles@ == old(self).tiles@.update(addr as int, value),
            *final(self) == (Gpu { tiles: final(self).tiles, ..*old(self) }),
            final(self).wf(),
    {
        self.tiles.set(addr as usize, value);
    }

    pub fn read_tile_map1(&self, addr: u16) -> (r: u8)
        requires
            self.wf(),
            addr < TILE_MAP_SIZE,
        ensures
            r == self.tile_map@[addr as int],
    {
        self.tile_map[addr as usize]
    }

    pub fn write_tile_map1(&mut self, addr: u16, value: u8)
        requires
            old(self).wf(),
            addr < TILE_MAP_SIZE,
        ensures
            final(self).tile_map@ == old(self).tile_map@.update(addr as int, value),
            *final(self) == (Gpu { tile_map: final(self).tile_map, ..*old(self) }),
            final(self).wf(),
    {
        self.tile_map.set(addr as usize, value);
    }

    pub fn read_tile_map2(&self, addr: u16) -> (r: u8)
        requires
            self.wf(),
            addr < TILE_MAP_SIZE,
        ensures
            r == self.tile_map@[TILE_MAP_SIZE + addr],
    {
        self.tile_map[TILE_MAP_SIZE + addr as usize]
    }

    pub fn write_tile_map2(&mut self, addr: u16, value: u8)
        requires
            old(self).wf(),
            addr < TILE_MAP_SIZE,
        ensures
            final(self).tile_map@ == old(self).tile_map@.update(TILE_MAP_SIZE + addr, value),
            *final(self) == (Gpu { tile_map: final(self).tile_map, ..*old(self) }),
            final(self).wf(),
    {
        self.tile_map.set(TILE_MAP_SIZE + addr as usize, value);
    }

    /// A byte of OAM: sprite `addr / 4`, field `addr % 4` (y, x, tile,
    /// attributes).
    pub fn read_oam(&self, addr: u16) -> (r: u8)
        requires
            self.wf(),
            addr < OAM_SIZE,
        ensures
            r == self.oam@[addr as int],
    {
        self.oam[addr as usize]
    }

    /// Writes a byte of OAM.
    pub fn write_oam(&mut self, addr: u16, value: u8)
        requires
            old(self).wf(),
            addr < OAM_SIZE,
        ensures
            final(self).oam@ == old(self).oam@.update(addr as int, value),
            *final(self) == (Gpu { oam: final(self).oam, ..*old(self) }),
            final(self).wf(),
    {
        self.oam.set(addr as usize, value);
    }

    pub fn read_lcdc_reg(&self) -> (r: u8)
        ensures
            r == self.lcdc_reg,
    {
        self.lcdc_reg
    }

    /// Display switches take effect from the next line; the frame buffer is
    /// kept.
    pub fn write_lcdc_reg(&mut self, value: u8)
        ensures
            *final(self) == (Gpu { lcdc_reg: value, ..*old(self) }),
    {
        self.lcdc_reg = value;
    }

    /// The interrupt-source enables, the line-match flag (bit 2) and the mode.
    pub fn read_stat_reg(&self) -> (r: u8)
        ensures
            r == (self.stat_reg & 0xF8) | (if self.line == self.line_match_reg { 4u8 } else { 0u8 }) | self.mode.spec_bits(),
    {
        let m: u8 = if self.line == self.line_match_reg { 4 } else { 0 };
        (self.stat_reg & 0xF8) | m | self.mode.bits()
    }

    /// Only the interrupt-source enables (bits 3..=7) are writable.
    pub fn write_stat_reg(&mut self, value: u8)
        ensures
            *final(self) == (Gpu { stat_reg: value & 0xF8, ..*old(self) }),
    {
        self.stat_reg = value & 0xF8;
    }

    pub fn read_scroll_y_reg(&self) -> (r: u8)
        ensures
            r == self.scroll_y,
    {
        self.scroll_y
    }

    pub fn write_scroll_y_reg(&mut self, value: u8)
        ensures
            *final(self) == (Gpu { scroll_y: value, ..*old(self) }),
    {
        self.scroll_y = value;
    }

    pub fn read_scroll_x_reg(&self) -> (r: u8)
        ensures
            r == self.scroll_x,
    {
        self.scroll_x
    }

    pub fn write_scroll_x_reg(&mut self, value: u8)
        ensures
            *final(self) == (Gpu { scroll_x: value, ..*old(self) }),
    {
        self.scroll_x = value;
    }

    /// LY, the line being drawn. Writes to it are ignored.
    pub fn read_line_reg(&self) -> (r: u8)
        ensures
            r == self.line,
    {
        self.line
    }

    pub fn read_line_match_reg(&self) -> (r: u8)
        ensures
            r == self.line_match_reg,
    {
        self.line_match_reg
    }

    pub fn write_line_match_reg(&mut self, value: u8)
        ensures
            *final(self) == (Gpu { line_match_reg: value, ..*old(self) }),
    {
        self.line_match_reg = value;
    }

    pub fn read_bg_palette_reg(&self) -> (r: u8)
        ensures
            r == self.bg_palette.data,
    {
        self.bg_palette.data
    }

    pub fn write_bg_palette_reg(&mut self, value: u8)
        ensures
            *final(self) == (Gpu { bg_palette: Palette { data: value }, ..*old(self) }),
    {
        self.bg_palette = Palette { data: value };
    }

    pub fn read_obj_palette0_reg(&self) -> (r: u8)
        ensures
            r == self.obj_palette0.data,
    {
        self.obj_palette0.data
    }

    pub fn write_obj_palette0_reg(&mut self, value: u8)
        ensures
            *final(self) == (Gpu { obj_palette0: Palette { data: value }, ..*old(self) }),
    {
        self.obj_palette0 = Palette { data: value };
    }

    pub fn read_obj_palette1_reg(&self) -> (r: u8)
        ensures
            r == self.obj_palette1.data,
    {
        self.obj_palette1.data
    }

    pub fn write_obj_palette1_reg(&mut self, value: u8)
        ensures
            *final(self) == (Gpu { obj_palette1: Palette { data: value }, ..*old(self) }),
    {
        self.obj_palette1 = Palette { data: value };
    }

    pub fn read_window_y_reg(&self) -> (r: u8)
        ensures
            r == self.window_y,
    {
        self.window_y
    }

    pub fn write_window_y_reg(&mut self, value: u8)
        ensures
            *final(self) == (Gpu { window_y: value, ..*old(self) }),
    {
        self.window_y = value;
    }

    pub fn read_window_x_reg(&self) -> (r: u8)
        ensures
            r == self.window_x,
    {
        self.window_x
    }

    pub fn write_window_x_reg(&mut self, value: u8)
        ensures
            *final(self) == (Gpu { window_x: value, ..*old(self) }),
    {
        self.window_x = value;
    }

    /// Enters `mode`, raising the interrupts that entry causes: LCD STAT when
    /// STAT enables that mode's source (HBlank bit 3, VBlank bit 4, OAM bit
    /// 5), and VBlank on every entry into VBlank.
    pub fn update_mode(&mut self, mode: GpuMode, int_controller: &mut IntController)
        ensures
            *final(self) == (Gpu { mode, ..*old(self) }),
            *final(int_controller) == mode_irq(old(self).stat_reg, mode, *old(int_controller)),
    {
        match mode {
            GpuMode::HBlank => {
                if self.stat_reg & 0x08 != 0 {
                    int_controller.set_int_pending(Interrupt::LCDCStatus);
                }
            },
            GpuMode::ScanlineOAM => {
                if self.stat_reg & 0x20 != 0 {
                    int_controller.set_int_pending(Interrupt::LCDCStatus);
                }
            },
            GpuMode::VBlank => {
                if self.stat_reg & 0x10 != 0 {
                    int_controller.set_int_pending(Interrupt::LCDCStatus);
                }
                int_controller.set_int_pending(Interrupt::VBlank);
            },
            GpuMode::ScanlineVRAM => {},
        }
        self.mode = mode;
    }

    /// Advances by `cycles` M-cycles, passing through every mode boundary
    /// reached: OAM scan 20, pixel transfer 43 (the line is drawn at its
    /// end), HBlank 51, then the next line; after line 143 ten VBlank lines of
    /// 114 each. Raises RENDER on entering VBlank with the display on.
    pub fn step(&mut self, cycles: u8, int_controller: &mut IntController) -> (r: Events)
        requires
            old(self).wf(),
        ensures
            final(self).wf(),
            final(self).same_regs(old(self)),
            final(self).position() == (old(self).position() + cycles) % (FRAME_CYCLES as int),
            lcd_irqs_only(*old(int_controller), *final(int_controller)),
            !r.fault,
            r.render ==> old(self).lcdc_reg & 0x80 != 0,
            (final(self).mode, final(self).line, final(self).clock as int, *final(int_controller), r.render)
                == settle(old(self).mode, old(self).line, old(self).clock + cycles, old(self).stat_reg,
                old(self).line_match_reg, old(self).lcdc_reg, *old(int_controller)),
            *final(self) == (Gpu {
                mode: final(self).mode,
                line: final(self).line,
                clock: final(self).clock,
                framebuffer: final(self).framebuffer,
                ..*old(self)
            }),
            final(self).framebuffer@ == settle_fb(*old(self), old(self).mode, old(self).line,
                old(self).clock + cycles, old(self).framebuffer@),
    {
        let ghost start = *self;
        let ghost ic0 = *int_controller;
        self.clock = self.clock + cycles as u32;
        let mut events = Events::empty();
        proof {
            lemma_lcd_irqs_refl(*int_controller);
        }
        while self.clock >= self.mode.length_of()
            invariant
                self.tiles@.len() == TILE_DATA_SIZE,
                self.tile_map@.len() == 2 * TILE_MAP_SIZE,
                self.oam@.len() == OAM_SIZE,
                self.framebuffer@.len() == FRAMEBUFFER_SIZE,
                self.line <= 153,
                self.mode is VBlank <==> self.line >= 144,
                self.clock < 114 + 256,
                self.same_regs(&start),
                self.position() % (FRAME_CYCLES as int) == (start.position() + cycles) % (FRAME_CYCLES as int),
                lcd_irqs_only(ic0, *int_controller),
                ({
                    let (m, l, c, i, rr) = settle(self.mode, self.line, self.clock as int, start.stat_reg,
                        start.line_match_reg, start.lcdc_reg, *int_controller);
                    (m, l, c, i, events.render || rr) == settle(start.mode, start.line, start.clock + cycles,
                        start.stat_reg, start.line_match_reg, start.lcdc_reg, ic0)
                }),
                !events.fault,
                events.render ==> start.lcdc_reg & 0x80 != 0,
                *self == (Gpu { mode: self.mode, line: self.line, clock: self.clock, framebuffer: self.framebuffer, ..start }),
                settle_fb(start, self.mode, self.line, self.clock as int, self.framebuffer@)
                    == settle_fb(start, start.mode, start.line, start.clock + cycles, start.framebuffer@),
            decreases self.clock,
        {
            let ghost ic1 = *int_controller;
            let ghost cur = *self;
            let r = self.advance(int_controller);
            proof {
                lemma_render_same(cur, start, cur.line, cur.framebuffer@);
            }
            proof {
                lemma_lcd_irqs_trans(ic0, ic1, *int_controller);
            }
            if r {
                events.render = true;
            }
        }
        proof {
            assert(self.position() >= 0 && self.position() < FRAME_CYCLES as int);
            vstd::arithmetic::div_mod::lemma_small_mod(self.position() as nat, FRAME_CYCLES as nat);
        }
        events
    }

    /// Crosses one mode boundary; returns whether a frame is complete with
    /// the display on.
    fn advance(&mut self, int_controller: &mut IntController) -> (render: bool)
        requires
            old(self).tiles@.len() == TILE_DATA_SIZE,
            old(self).tile_map@.len() == 2 * TILE_MAP_SIZE,
            old(self).oam@.len() == OAM_SIZE,
            old(self).framebuffer@.len() == FRAMEBUFFER_SIZE,
            old(self).line <= 153,
            old(self).mode is VBlank <==> old(self).line >= 144,
            old(self).clock >= old(self).mode.length(),
        ensures
            final(self).tiles@.len() == TILE_DATA_SIZE,
            final(self).tile_map@.len() == 2 * TILE_MAP_SIZE,
            final(self).oam@.len() == OAM_SIZE,
            final(self).framebuffer@.len() == FRAMEBUFFER_SIZE,
            final(self).line <= 153,
            final(self).mode is VBlank <==> final(self).line >= 144,
            final(self).same_regs(old(self)),
            final(self).clock == old(self).clock - old(self).mode.length(),
            final(self).position() == old(self).position() || final(self).position() == old(self).position() - FRAME_CYCLES as int,
            lcd_irqs_only(*old(int_controller), *final(int_controller)),
            render ==> old(self).lcdc_reg & 0x80 != 0,
            (final(self).mode, final(self).line, final(self).clock as int, *final(int_controller), render)
                == transition(old(self).mode, old(self).line, old(self).clock as int, old(self).stat_reg,
                old(self).line_match_reg, old(self).lcdc_reg, *old(int_controller)),
            *final(self) == (Gpu {
                mode: final(self).mode,
                line: final(self).line,
                clock: final(self).clock,
                framebuffer: final(self).framebuffer,
                ..*old(self)
            }),
            final(self).framebuffer@ == if old(self).mode is ScanlineVRAM {
                render_fb(*old(self), old(self).line, old(self).framebuffer@)
            } else {
                old(self).framebuffer@
            },
    {
        let ghost g0 = *self;
        let ghost ic0 = *int_controller;
        proof {
            lemma_lcd_irqs_refl(ic0);
        }
        let mut render = false;
        let mut next_line = self.line;
        match self.mode {
            GpuMode::HBlank => {
                self.clock = self.clock - 51;
                next_line = self.line + 1;
                if next_line == 144 {
                    self.update_mode(GpuMode::VBlank, int_controller);
                    proof {
                        lemma_mode_irq(self.stat_reg, GpuMode::VBlank, ic0);
                    }
                    render = self.lcdc_reg & 0x80 != 0;
                } else {
                    self.update_mode(GpuMode::ScanlineOAM, int_controller);
                    proof {
                        lemma_mode_irq(self.stat_reg, GpuMode::ScanlineOAM, ic0);
                    }
                }
            },
            GpuMode::VBlank => {
                self.clock = self.clock - 114;
                if self.line >= 153 {
                    self.update_mode(GpuMode::ScanlineOAM, int_controller);
                    proof {
                        lemma_mode_irq(self.stat_reg, GpuMode::ScanlineOAM, ic0);
                    }
                    next_line = 0;
                } else {
                    next_line = self.line + 1;
                }
            },
            GpuMode::ScanlineOAM => {
                self.clock = self.clock - 20;
                self.update_mode(GpuMode::ScanlineVRAM, int_controller);
                proof {
                    lemma_mode_irq(self.stat_reg, GpuMode::ScanlineVRAM, ic0);
                }
            },
            GpuMode::ScanlineVRAM => {
                self.clock = self.clock - 43;
                self.update_mode(GpuMode::HBlank, int_controller);
                proof {
                    lemma_mode_irq(self.stat_reg, GpuMode::HBlank, ic0);
                }
                let ghost gr = *self;
                self.render_line();
                proof {
                    lemma_render_same(gr, g0, gr.line, gr.framebuffer@);
                }
            },
        }
        if next_line != self.line {
            self.line = next_line;
            if self.stat_reg & 0x40 != 0 && next_line == self.line_match_reg {
                let ghost ic1 = *int_controller;
                int_controller.set_int_pending(Interrupt::LCDCStatus);
                proof {
                    lemma_lcd_irqs_set(ic1, Interrupt::LCDCStatus);
                    lemma_lcd_irqs_trans(ic0, ic1, *int_controller);
                }
            }
        }
        render
    }
}

/// The LCD STAT request that a change of LY to `line` makes when STAT
/// enables the line-match source (bit 6) and LY equals LYC.
pub open spec fn line_irq(stat: u8, lyc: u8, line: u8, ic: IntController) -> IntController {
    if stat & 0x40 != 0 && line == lyc {
        ic.spec_set_pending(Interrupt::LCDCStatus)
    } else {
        ic
    }
}

/// One mode boundary crossed from (`mode`, `line`, `clock`): the next mode,
/// line and remaining clock, the interrupt controller after the requests
/// the boundary makes, and whether a frame was completed with the display on.
pub open spec fn transition(mode: GpuMode, line: u8, clock: int, stat: u8, lyc: u8, lcdc: u8, ic: IntController)
    -> (GpuMode, u8, int, IntController, bool)
{
    match mode {
        GpuMode::HBlank => {
            let l = (line + 1) as u8;
            if l == 144 {
                (GpuMode::VBlank, l, clock - 51, line_irq(stat, lyc, l, mode_irq(stat, GpuMode::VBlank, ic)), lcdc & 0x80 != 0)
            } else {
                (GpuMode::ScanlineOAM, l, clock - 51, line_irq(stat, lyc, l, mode_irq(stat, GpuMode::ScanlineOAM, ic)), false)
            }
        },
        GpuMode::VBlank => if line >= 153 {
            (GpuMode::ScanlineOAM, 0u8, clock - 114, line_irq(stat, lyc, 0, mode_irq(stat, GpuMode::ScanlineOAM, ic)), false)
        } else {
            (GpuMode::VBlank, (line + 1) as u8, clock - 114, line_irq(stat, lyc, (line + 1) as u8, ic), false)
        },
        GpuMode::ScanlineOAM => (GpuMode::ScanlineVRAM, line, clock - 20, ic, false),
        GpuMode::ScanlineVRAM => (GpuMode::HBlank, line, clock - 43, mode_irq(stat, GpuMode::HBlank, ic), false),
    }
}

/// Every mode boundary reached with `clock` cycles in the current mode,
/// crossed in turn; the render flag says whether any completed a frame.
pub open spec fn settle(mode: GpuMode, line: u8, clock: int, stat: u8, lyc: u8, lcdc: u8, ic: IntController)
    -> (GpuMode, u8, int, IntController, bool)
    decreases clock,
{
    if clock < mode.length() as int || clock < 0 {
        (mode, line, clock, ic, false)
    } else {
        let (m2, l2, c2, ic2, r2) = transition(mode, line, clock, stat, lyc, lcdc, ic);
        let (m3, l3, c3, ic3, r3) = settle(m2, l2, c2, stat, lyc, lcdc, ic2);
        (m3, l3, c3, ic3, r2 || r3)
    }
}

/// The frame buffer after every mode boundary reached with `clock` cycles
/// in the current mode is crossed, drawing from the registers and memories
/// of `g`: each end of pixel transfer draws the line it ends.
pub open spec fn settle_fb(g: Gpu, mode: GpuMode, line: u8, clock: int, fb: Seq<Color>) -> Seq<Color>
    decreases clock,
{
    if clock < mode.length() as int || clock < 0 {
        fb
    } else {
        let (m2, l2, c2, i2, r2) = transition(mode, line, clock, g.stat_reg, g.line_match_reg, g.lcdc_reg,
            IntController { enabled: 0, pending: 0 });
        let fb2 = if mode is ScanlineVRAM { render_fb(g, line, fb) } else { fb };
        settle_fb(g, m2, l2, c2, fb2)
    }
}

/// The interrupt controller after entering `mode` with STAT register `stat`.
pub open spec fn mode_irq(stat: u8, mode: GpuMode, ic: IntController) -> IntController {
    match mode {
        GpuMode::HBlank => if stat & 0x08 != 0 {
            ic.spec_set_pending(Interrupt::LCDCStatus)
        } else {
            ic
        },
        GpuMode::ScanlineOAM => if stat & 0x20 != 0 {
            ic.spec_set_pending(Interrupt::LCDCStatus)
        } else {
            ic
        },
        GpuMode::VBlank => if stat & 0x10 != 0 {
            ic.spec_set_pending(Interrupt::LCDCStatus).spec_set_pending(Interrupt::VBlank)
        } else {
            ic.spec_set_pending(Interrupt::VBlank)
        },
        GpuMode::ScanlineVRAM => ic,
    }
}

/// `b` is `a` with at most the VBlank and LCD STAT requests added.
pub open spec fn lcd_irqs_only(a: IntController, b: IntController) -> bool {
    &&& b.enabled == a.enabled
    &&& b.pending | 0x03 == a.pending | 0x03
    &&& b.pending & a.pending == a.pending
}

proof fn lemma_lcd_irqs_refl(a: IntController)
    ensures
        lcd_irqs_only(a, a),
{
    let p = a.pending;
    assert(p & p == p) by (bit_vector);
}

proof fn lemma_lcd_irqs_trans(a: IntController, b: IntController, c: IntController)
    requires
        lcd_irqs_only(a, b),
        lcd_irqs_only(b, c),
    ensures
        lcd_irqs_only(a, c),
{
    let (x, y, z) = (a.pending, b.pending, c.pending);
    assert(y | 3 == x | 3 && y & x == x && z | 3 == y | 3 && z & y == y ==> z | 3 == x | 3 && z
        & x == x) by (bit_vector);
}

proof fn lemma_lcd_irqs_set(a: IntController, i: Interrupt)
    requires
        i == Interrupt::LCDCStatus || i == Interrupt::VBlank,
    ensures
        lcd_irqs_only(a, a.spec_set_pending(i)),
{
    let (x, m) = (a.pending, i.mask());
    assert((m == 1 || m == 2) ==> (x | m) | 3 == x | 3 && (x | m) & x == x) by (bit_vector);
}

proof fn lemma_mode_irq(stat: u8, mode: GpuMode, ic: IntController)
    ensures
        lcd_irqs_only(ic, mode_irq(stat, mode, ic)),
{
    lemma_lcd_irqs_refl(ic);
    lemma_lcd_irqs_set(ic, Interrupt::LCDCStatus);
    lemma_lcd_irqs_set(ic, Interrupt::VBlank);
    let s = ic.spec_set_pending(Interrupt::LCDCStatus);
    lemma_lcd_irqs_set(s, Interrupt::VBlank);
    lemma_lcd_irqs_trans(ic, s, s.spec_set_pending(Interrupt::VBlank));
}

} // verus!
