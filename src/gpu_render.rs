//! Drawing of one line of the frame buffer: background, window, sprites.

use vstd::prelude::*;
use crate::gpu::{code_at, signed_index, Color, Gpu, Palette, FRAMEBUFFER_SIZE, OAM_SIZE,
    SCREEN_WIDTH, TILE_DATA_SIZE, TILE_MAP_SIZE};

verus! {

/// Most sprites drawn on one line.
pub const MAX_LINE_SPRITES: usize = 10;

impl Gpu {
    /// The color code at column `x`, row `y` of tile `tile`.
    pub open spec fn tile_code(&self, tile: int, x: int, y: int) -> u8 {
        code_at(self.tiles@[tile * 16 + 2 * y], self.tiles@[tile * 16 + 2 * y + 1], x as u8)
    }

    /// The tile that map 0 (or map 1) shows at background pixel (`px`, `py`):
    /// unsigned from the start of tile data when LCDC bit 4 is set, signed
    /// around tile 256 otherwise.
    pub open spec fn map_tile(&self, map1: bool, px: int, py: int) -> int {
        let raw = self.tile_map@[(if map1 { TILE_MAP_SIZE as int } else { 0 }) + (py / 8) * 32 + px / 8];
        if self.lcdc_reg & 0x10 != 0 {
            raw as int
        } else {
            256 + signed_index(raw)
        }
    }

    /// The background (or window) shade at screen column `x` of the current
    /// line, scrolled by SCX / SCY, from tile map 1 when `map1`.
    pub open spec fn bg_color(&self, map1: bool, x: int) -> Color {
        let px = (self.scroll_x + x) % 256;
        let py = (self.scroll_y + self.line) % 256;
        self.bg_palette.spec_color(self.tile_code(self.map_tile(map1, px, py), px % 8, py % 8))
    }

    /// Whether the window covers column `x` of the current line.
    pub open spec fn window_on(&self, x: int) -> bool {
        self.lcdc_reg & 0x20 != 0 && self.line >= self.window_y && x >= self.window_x - 7
    }

    /// The background or window shade at `x`, if either is shown there.
    pub open spec fn layer(&self, x: int) -> Option<Color> {
        if self.window_on(x) {
            Some(self.bg_color(self.lcdc_reg & 0x40 != 0, x))
        } else if self.lcdc_reg & 0x01 != 0 {
            Some(self.bg_color(self.lcdc_reg & 0x08 != 0, x))
        } else {
            None
        }
    }

    /// Whether a non-white background or window pixel is shown at `x`.
    pub open spec fn bg_prio(&self, x: int) -> bool {
        self.layer(x) matches Some(c) && c != Color::White
    }

    pub open spec fn sprite_height(&self) -> int {
        if self.lcdc_reg & 0x04 != 0 { 16 } else { 8 }
    }

    /// Whether sprite `s` has a row on the current line.
    pub open spec fn covers(&self, s: int) -> bool {
        let y = self.oam@[4 * s] as int - 16;
        y <= self.line < y + self.sprite_height()
    }

    /// The sprites among the first `n` of OAM that the current line shows:
    /// those covering it, in OAM order, at most ten.
    pub open spec fn visible_upto(&self, n: int) -> Seq<usize>
        decreases n,
    {
        if n <= 0 {
            Seq::empty()
        } else {
            let p = self.visible_upto(n - 1);
            if self.covers(n - 1) && p.len() < MAX_LINE_SPRITES {
                p.push((n - 1) as usize)
            } else {
                p
            }
        }
    }

    /// Column of sprite `s` that falls on screen column `x` (8 or more when
    /// none does); the sprite's left edge is at its x byte minus 8.
    pub open spec fn sprite_col(&self, s: int, x: int) -> int {
        (x - self.oam@[4 * s + 1] as int + 8 + 256) % 256
    }

    /// The color code of sprite `s` at screen column `x` on the current line,
    /// after the flips; a tall sprite takes its upper half from the even tile
    /// and its lower half from the odd one.
    pub open spec fn sprite_code(&self, s: int, x: int) -> u8 {
        let flags = self.oam@[4 * s + 3];
        let col = self.sprite_col(s, x);
        let x_ofs = if flags & 0x20 != 0 { 7 - col } else { col };
        let dy = self.line - (self.oam@[4 * s] as int - 16);
        let y_ofs = if flags & 0x40 != 0 { self.sprite_height() - 1 - dy } else { dy };
        let t = self.oam@[4 * s + 2];
        let tile = if self.sprite_height() == 16 {
            if y_ofs < 8 { t & 0xFE } else { t | 1 }
        } else {
            t
        };
        self.tile_code(tile as int, x_ofs, y_ofs % 8)
    }

    /// Whether sprite `s` paints screen column `x`: it covers it with a
    /// non-transparent code, and is not behind a non-white background.
    pub open spec fn sprite_paints(&self, s: int, x: int) -> bool {
        &&& self.sprite_col(s, x) < 8
        &&& self.sprite_code(s, x) != 0
        &&& !(self.oam@[4 * s + 3] & 0x80 != 0 && self.bg_prio(x))
    }

    pub open spec fn sprite_color(&self, s: int, x: int) -> Color {
        let p = if self.oam@[4 * s + 3] & 0x10 != 0 { self.obj_palette1 } else { self.obj_palette0 };
        p.spec_color(self.sprite_code(s, x))
    }

    /// Sprite `a` wins over sprite `b`: smaller x, then smaller OAM index.
    pub open spec fn wins(&self, a: int, b: int) -> bool {
        self.oam@[4 * a + 1] < self.oam@[4 * b + 1] || (self.oam@[4 * a + 1] == self.oam@[4 * b + 1] && a < b)
    }

    /// The winning sprite among the first `k` of `vis` that paint column `x`.
    pub open spec fn best_upto(&self, vis: Seq<usize>, x: int, k: int) -> Option<usize>
        decreases k,
    {
        if k <= 0 {
            None
        } else {
            let b = self.best_upto(vis, x, k - 1);
            let s = vis[k - 1];
            if self.sprite_paints(s as int, x) && (b is None || self.wins(s as int, b->0 as int)) {
                Some(s)
            } else {
                b
            }
        }
    }

    /// The shade drawn at column `x` of the current line over `prev`.
    pub open spec fn pixel(&self, x: int, prev: Color) -> Color {
        let vis = self.visible_upto(40);
        let best = if self.lcdc_reg & 0x02 != 0 { self.best_upto(vis, x, vis.len() as int) } else { None };
        match best {
            Some(s) => self.sprite_color(s as int, x),
            None => match self.layer(x) {
                Some(c) => c,
                None => prev,
            },
        }
    }

    fn tile_code_of(&self, tile: usize, x: u8, y: usize) -> (r: u8)
        requires
            self.tiles@.len() == TILE_DATA_SIZE,
            tile < 384,
            x < 8,
            y < 8,
        ensures
            r == self.tile_code(tile as int, x as int, y as int),
    {
        let lo = self.tiles[tile * 16 + 2 * y];
        let hi = self.tiles[tile * 16 + 2 * y + 1];
        let sh: u8 = 7 - x;
        assert((hi >> sh) & 1 <= 1 && (lo >> sh) & 1 <= 1) by (bit_vector);
        ((hi >> sh) & 1) * 2 + ((lo >> sh) & 1)
    }

    fn bg_color_of(&self, map1: bool, x: usize) -> (r: Color)
        requires
            x < 160,
            self.tiles@.len() == TILE_DATA_SIZE,
            self.tile_map@.len() == 2 * TILE_MAP_SIZE,
        ensures
            r == self.bg_color(map1, x as int),
    {
        let px = (self.scroll_x as usize + x) % 256;
        let py = (self.scroll_y as usize + self.line as usize) % 256;
        let base: usize = if map1 { TILE_MAP_SIZE } else { 0 };
        let raw = self.tile_map[base + (py / 8) * 32 + px / 8];
        let tile: usize = if self.lcdc_reg & 0x10 != 0 {
            raw as usize
        } else if raw < 128 {
            256 + raw as usize
        } else {
            raw as usize
        };
        let code = self.tile_code_of(tile, (px % 8) as u8, py % 8);
        self.bg_palette.get_color(code)
    }

    fn layer_of(&self, x: usize) -> (r: Option<Color>)
        requires
            x < 160,
            self.tiles@.len() == TILE_DATA_SIZE,
            self.tile_map@.len() == 2 * TILE_MAP_SIZE,
        ensures
            r == self.layer(x as int),
    {
        if self.lcdc_reg & 0x20 != 0 && self.line >= self.window_y && x + 7 >= self.window_x as usize {
            Some(self.bg_color_of(self.lcdc_reg & 0x40 != 0, x))
        } else if self.lcdc_reg & 0x01 != 0 {
            Some(self.bg_color_of(self.lcdc_reg & 0x08 != 0, x))
        } else {
            None
        }
    }

    /// The sprites the current line shows, in OAM order (at most ten).
    fn visible_sprites(&self) -> (r: Vec<usize>)
        requires
            self.oam@.len() == OAM_SIZE,
        ensures
            r@ == self.visible_upto(40),
            forall|k: int| 0 <= k < r@.len() ==> r@[k] < 40,
    {
        let h: i32 = if self.lcdc_reg & 0x04 != 0 { 16 } else { 8 };
        let mut vis: Vec<usize> = Vec::new();
        let mut i: usize = 0;
        while i < 40
            invariant
                i <= 40,
                self.oam@.len() == OAM_SIZE,
                h == self.sprite_height(),
                vis@ == self.visible_upto(i as int),
                forall|k: int| 0 <= k < vis@.len() ==> vis@[k] < i,
            decreases 40 - i,
        {
            let y = self.oam[4 * i] as i32 - 16;
            if y <= self.line as i32 && (self.line as i32) < y + h && vis.len() < MAX_LINE_SPRITES {
                vis.push(i);
            }
            i = i + 1;
        }
        vis
    }

    fn sprite_code_of(&self, s: usize, x: usize) -> (r: u8)
        requires
            x < 160,
            self.tiles@.len() == TILE_DATA_SIZE,
            self.oam@.len() == OAM_SIZE,
            s < 40,
            self.covers(s as int),
            self.sprite_col(s as int, x as int) < 8,
        ensures
            r == self.sprite_code(s as int, x as int),
    {
        let h: i32 = if self.lcdc_reg & 0x04 != 0 { 16 } else { 8 };
        let flags = self.oam[4 * s + 3];
        let col = ((x + 256 + 8 - self.oam[4 * s + 1] as usize) % 256) as u8;
        let x_ofs = if flags & 0x20 != 0 { 7 - col } else { col };
        let dy = self.line as i32 - (self.oam[4 * s] as i32 - 16);
        let y_ofs = if flags & 0x40 != 0 { h - 1 - dy } else { dy };
        let t = self.oam[4 * s + 2];
        let tile = if h == 16 {
            if y_ofs < 8 { t & 0xFE } else { t | 1 }
        } else {
            t
        };
        self.tile_code_of(tile as usize, x_ofs, (y_ofs % 8) as usize)
    }

    /// The winning sprite that paints column `x`, if any.
    fn best_sprite(&self, vis: &Vec<usize>, x: usize, prio: bool) -> (r: Option<usize>)
        requires
            x < 160,
            self.tiles@.len() == TILE_DATA_SIZE,
            self.tile_map@.len() == 2 * TILE_MAP_SIZE,
            self.oam@.len() == OAM_SIZE,
            vis@ == self.visible_upto(40),
            forall|k: int| 0 <= k < vis@.len() ==> vis@[k] < 40,
            prio == self.bg_prio(x as int),
        ensures
            r == self.best_upto(vis@, x as int, vis@.len() as int),
    {
        let mut best: Option<usize> = None;
        let mut k: usize = 0;
        while k < vis.len()
            invariant
                k <= vis@.len(),
                self.tiles@.len() == TILE_DATA_SIZE,
                self.oam@.len() == OAM_SIZE,
                vis@ == self.visible_upto(40),
                forall|j: int| 0 <= j < vis@.len() ==> vis@[j] < 40,
                prio == self.bg_prio(x as int),
                x < 160,
                best == self.best_upto(vis@, x as int, k as int),
                best matches Some(b) ==> b < 40,
            decreases vis@.len() - k,
        {
            let s = vis[k];
            proof {
                lemma_visible_cover(self, 40, k as int);
            }
            let col = (x + 256 + 8 - self.oam[4 * s + 1] as usize) % 256;
            let paints = col < 8 && self.sprite_code_of(s, x) != 0 && !(self.oam[4 * s + 3] & 0x80 != 0 && prio);
            if paints {
                let better = match best {
                    None => true,
                    Some(b) => self.oam[4 * s + 1] < self.oam[4 * b + 1] || (self.oam[4 * s + 1] == self.oam[4 * b + 1] && s < b),
                };
                if better {
                    best = Some(s);
                }
            }
            k = k + 1;
        }
        best
    }

    fn sprite_color_of(&self, s: usize, x: usize) -> (r: Color)
        requires
            x < 160,
            self.tiles@.len() == TILE_DATA_SIZE,
            self.oam@.len() == OAM_SIZE,
            s < 40,
            self.covers(s as int),
            self.sprite_col(s as int, x as int) < 8,
        ensures
            r == self.sprite_color(s as int, x as int),
    {
        let p: Palette = if self.oam[4 * s + 3] & 0x10 != 0 { self.obj_palette1 } else { self.obj_palette0 };
        p.get_color(self.sprite_code_of(s, x))
    }

    /// Draws the current line: background, then the window over it, then up
    /// to ten sprites, the one with the smallest x (then the lowest OAM index)
    /// in front.
    pub fn render_line(&mut self)
        requires
            old(self).mem_ok(),
            old(self).line < 144,
        ensures
            final(self).mem_ok(),
            *final(self) == (Gpu { framebuffer: final(self).framebuffer, ..*old(self) }),
            final(self).framebuffer@ == render_fb(*old(self), old(self).line, old(self).framebuffer@),
            forall|i: int| 0 <= i < FRAMEBUFFER_SIZE ==> #[trigger] final(self).framebuffer@[i] == if old(self).line * 160 <= i < old(self).line * 160 + 160 {
                old(self).pixel(i - old(self).line * 160, old(self).framebuffer@[i])
            } else {
                old(self).framebuffer@[i]
            },
    {
        let ghost g = *self;
        let vis = self.visible_sprites();
        let row = self.line as usize * SCREEN_WIDTH;
        let mut colors: Vec<Color> = Vec::new();
        let mut x: usize = 0;
        while x < SCREEN_WIDTH
            invariant
                x <= SCREEN_WIDTH,
                row == g.line * 160,
                g.line < 144,
                g.mem_ok(),
                *self == g,
                vis@ == g.visible_upto(40),
                forall|k: int| 0 <= k < vis@.len() ==> vis@[k] < 40,
                colors@.len() == x,
                forall|j: int| 0 <= j < x ==> #[trigger] colors@[j] == g.pixel(j, g.framebuffer@[row + j]),
            decreases SCREEN_WIDTH - x,
        {
            let c = self.pixel_of(&vis, x, self.framebuffer[row + x]);
            colors.push(c);
            x = x + 1;
        }
        let mut x: usize = 0;
        while x < SCREEN_WIDTH
            invariant
                x <= SCREEN_WIDTH,
                row == g.line * 160,
                g.line < 144,
                *self == (Gpu { framebuffer: self.framebuffer, ..g }),
                self.framebuffer@.len() == FRAMEBUFFER_SIZE,
                colors@.len() == SCREEN_WIDTH,
                forall|j: int| 0 <= j < SCREEN_WIDTH ==> #[trigger] colors@[j] == g.pixel(j, g.framebuffer@[row + j]),
                forall|i: int| 0 <= i < FRAMEBUFFER_SIZE ==> #[trigger] self.framebuffer@[i] == if row <= i < row + x {
                    colors@[i - row]
                } else {
                    g.framebuffer@[i]
                },
            decreases SCREEN_WIDTH - x,
        {
            self.framebuffer.set(row + x, colors[x]);
            x = x + 1;
        }
        assert forall|i: int| 0 <= i < FRAMEBUFFER_SIZE implies #[trigger] self.framebuffer@[i] == if g.line * 160 <= i < g.line * 160 + 160 {
            g.pixel(i - g.line * 160, g.framebuffer@[i])
        } else {
            g.framebuffer@[i]
        } by {
            if row <= i < row + 160 {
                assert(colors@[i - row] == g.pixel(i - row, g.framebuffer@[row + (i - row)]));
            }
        }
        assert(Gpu { line: g.line, ..g } == g);
        assert(self.framebuffer@ =~= render_fb(g, g.line, g.framebuffer@));
    }

    /// The shade drawn at column `x` of the current line over `prev`.
    fn pixel_of(&self, vis: &Vec<usize>, x: usize, prev: Color) -> (r: Color)
        requires
            self.mem_ok(),
            x < 160,
            vis@ == self.visible_upto(40),
            forall|k: int| 0 <= k < vis@.len() ==> vis@[k] < 40,
        ensures
            r == self.pixel(x as int, prev),
    {
        let layer = self.layer_of(x);
        let prio = match layer {
            Some(c) => match c {
                Color::White => false,
                _ => true,
            },
            None => false,
        };
        let best = if self.lcdc_reg & 0x02 != 0 { self.best_sprite(vis, x, prio) } else { None };
        match best {
            Some(s) => {
                proof {
                    lemma_best_paints(self, vis@, x as int, vis@.len() as int);
                    lemma_visible_cover_all(self);
                    let j = choose|j: int| 0 <= j < vis@.len() && vis@[j] == s;
                    assert(self.covers(vis@[j] as int));
                }
                self.sprite_color_of(s, x)
            },
            None => match layer {
                Some(c) => c,
                None => prev,
            },
        }
    }
}

/// The frame buffer `fb` after line `line` is drawn from the registers and
/// memories of `g`.
pub open spec fn render_fb(g: Gpu, line: u8, fb: Seq<Color>) -> Seq<Color> {
    Seq::new(
        fb.len(),
        |i: int|
            if line * 160 <= i < line * 160 + 160 {
                (Gpu { line, ..g }).pixel(i - line * 160, fb[i])
            } else {
                fb[i]
            },
    )
}

/// Whether `a` and `b` agree on everything a drawn line depends on.
pub open spec fn same_picture(a: Gpu, b: Gpu) -> bool {
    &&& a.line == b.line && a.lcdc_reg == b.lcdc_reg
    &&& a.scroll_x == b.scroll_x && a.scroll_y == b.scroll_y
    &&& a.window_x == b.window_x && a.window_y == b.window_y
    &&& a.bg_palette == b.bg_palette && a.obj_palette0 == b.obj_palette0 && a.obj_palette1 == b.obj_palette1
    &&& a.tiles@ == b.tiles@ && a.tile_map@ == b.tile_map@ && a.oam@ == b.oam@
}

proof fn lemma_visible_same(a: Gpu, b: Gpu, n: int)
    requires
        same_picture(a, b),
    ensures
        a.visible_upto(n) == b.visible_upto(n),
    decreases n,
{
    if n > 0 {
        lemma_visible_same(a, b, n - 1);
    }
}

proof fn lemma_best_same(a: Gpu, b: Gpu, vis: Seq<usize>, x: int, k: int)
    requires
        same_picture(a, b),
    ensures
        a.best_upto(vis, x, k) == b.best_upto(vis, x, k),
    decreases k,
{
    if k > 0 {
        lemma_best_same(a, b, vis, x, k - 1);
        let s = vis[k - 1] as int;
        assert(a.sprite_paints(s, x) == b.sprite_paints(s, x));
    }
}

/// A drawn pixel depends only on what [`same_picture`] compares.
pub proof fn lemma_pixel_same(a: Gpu, b: Gpu, x: int, prev: Color)
    requires
        same_picture(a, b),
    ensures
        a.pixel(x, prev) == b.pixel(x, prev),
{
    lemma_visible_same(a, b, 40);
    let vis = a.visible_upto(40);
    lemma_best_same(a, b, vis, x, vis.len() as int);
    assert(a.layer(x) == b.layer(x));
    if let Some(s) = a.best_upto(vis, x, vis.len() as int) {
        assert(a.sprite_color(s as int, x) == b.sprite_color(s as int, x));
    }
}

/// Drawing a line from `a` or from `b` gives the same frame buffer when they
/// agree on what a picture depends on.
pub proof fn lemma_render_same(a: Gpu, b: Gpu, line: u8, fb: Seq<Color>)
    requires
        same_picture(Gpu { line, ..a }, Gpu { line, ..b }),
    ensures
        render_fb(a, line, fb) == render_fb(b, line, fb),
{
    assert forall|i: int| 0 <= i < fb.len() implies render_fb(a, line, fb)[i] == render_fb(b, line, fb)[i] by {
        if line * 160 <= i < line * 160 + 160 {
            lemma_pixel_same(Gpu { line, ..a }, Gpu { line, ..b }, i - line * 160, fb[i]);
        }
    }
    assert(render_fb(a, line, fb) =~= render_fb(b, line, fb));
}

/// Every sprite listed as visible covers the current line.
proof fn lemma_visible_cover(g: &Gpu, n: int, k: int)
    requires
        n <= 40,
        0 <= k < g.visible_upto(n).len(),
    ensures
        g.covers(g.visible_upto(n)[k] as int),
        g.visible_upto(n)[k] < n,
    decreases n,
{
    if n > 0 {
        let p = g.visible_upto(n - 1);
        if g.covers(n - 1) && p.len() < MAX_LINE_SPRITES {
            assert(g.visible_upto(n) == p.push((n - 1) as usize));
            if k < p.len() {
                lemma_visible_cover(g, n - 1, k);
                assert(g.visible_upto(n)[k] == p[k]);
            } else {
                assert(g.visible_upto(n)[k] == (n - 1) as usize);
            }
        } else {
            lemma_visible_cover(g, n - 1, k);
        }
    }
}

proof fn lemma_visible_cover_all(g: &Gpu)
    ensures
        forall|k: int| 0 <= k < g.visible_upto(40).len() ==> g.covers(#[trigger] g.visible_upto(40)[k] as int),
{
    assert forall|k: int| 0 <= k < g.visible_upto(40).len() implies g.covers(#[trigger] g.visible_upto(40)[k] as int) by {
        lemma_visible_cover(g, 40, k);
    }
}

/// The winning sprite is one of `vis` that paints the column.
proof fn lemma_best_paints(g: &Gpu, vis: Seq<usize>, x: int, k: int)
    requires
        0 <= k <= vis.len(),
    ensures
        g.best_upto(vis, x, k) matches Some(s) ==> g.sprite_paints(s as int, x) && exists|j: int| 0 <= j < k && vis[j] == s,
    decreases k,
{
    if k > 0 {
        lemma_best_paints(g, vis, x, k - 1);
    }
}

} // verus!
