use crate::mapper::{Mapper, MapperState};
use crate::palette::{lookup_color, system_color};
use crate::ppu::{PPURegisters, PpuState, PPU, PRE_RENDER_LINE, SCANLINE_END_CYCLE};
use vstd::prelude::*;

verus! {

/// The VRAM address one tile to the right: coarse X grows, and past column 31
/// it wraps to 0 and the horizontal nametable bit flips.
pub open spec fn coarse_x_step(v: u16) -> u16 {
    if v & 0x001F == 31 {
        (v & 0xFFE0) ^ 0x0400
    } else {
        (v + 1) as u16
    }
}

/// The VRAM address one pixel row down: fine Y grows; past 7 it wraps to 0
/// and coarse Y grows; past row 29 coarse Y wraps to 0 and the vertical
/// nametable bit flips; rows 30 and 31 wrap to 0 without the flip.
pub open spec fn fine_y_step(v: u16) -> u16 {
    if v & 0x7000 != 0x7000 {
        (v + 0x1000) as u16
    } else {
        let w = v & 0x8FFF;
        let row = w & 0x03E0;
        if row == 0x03A0 {
            (w ^ 0x0800) & 0xFC1F
        } else if row >= 0x03C0 {
            w & 0xFC1F
        } else {
            (w + 0x20) as u16
        }
    }
}

/// `v` with its horizontal bits (coarse X and the horizontal nametable bit)
/// replaced by those of `t`.
pub open spec fn copy_horizontal(v: u16, t: u16) -> u16 {
    (v & 0xFBE0) | (t & 0x041F)
}

/// `v` with its vertical bits (fine Y, coarse Y and the vertical nametable
/// bit) replaced by those of `t`.
pub open spec fn copy_vertical(v: u16, t: u16) -> u16 {
    (v & 0x841F) | (t & 0x7BE0)
}

/// The two-bit colour that bit `bit` of the two pattern planes encodes.
pub open spec fn plane_color(low: u8, high: u8, bit: u8) -> u8 {
    ((low >> bit) & 0x01) | (((high >> bit) & 0x01) << 1)
}

/// Bit facts behind the scroll steps: each keeps a 15-bit address within 15
/// bits, and the additions do not carry out of their field.
pub(crate) proof fn lemma_scroll_steps_fit(v: u16, t: u16)
    by (bit_vector)
    requires
        v <= 0x7FFF,
        t <= 0x7FFF,
    ensures
        v & 0x001F != 31 ==> v + 1 <= 0x7FFF,
        (v & 0xFFE0) ^ 0x0400 <= 0x7FFF,
        v & 0x7000 != 0x7000 ==> v + 0x1000 <= 0x7FFF,
        ((v & 0x8FFF) ^ 0x0800) & 0xFC1F <= 0x7FFF,
        (v & 0x8FFF) & 0xFC1F <= 0x7FFF,
        (v & 0x8FFF) & 0x03E0 != 0x03A0 && (v & 0x8FFF) & 0x03E0 < 0x03C0 ==> (v & 0x8FFF) + 0x20
            <= 0x7FFF,
        (v & 0xFBE0) | (t & 0x041F) <= 0x7FFF,
        (v & 0x841F) | (t & 0x7BE0) <= 0x7FFF,
{
}

/// Bit facts behind the pixel decode: the fields cut out of an address or an
/// attribute byte are as narrow as their masks.
proof fn lemma_pixel_fields_fit(v: u16, low: u8, high: u8, bit: u8, attribute: u8, shift: u8)
    by (bit_vector)
    requires
        bit < 8,
        shift < 8,
    ensures
        (v >> 12) & 0x07 <= 7,
        ((v >> 4) & 0x04) | (v & 0x02) <= 6,
        ((low >> bit) & 0x01) | (((high >> bit) & 0x01) << 1) <= 3,
        (attribute >> shift) & 0x03 <= 3,
        attribute & 0x03 <= 3,
{
}

/// What one sprite contributes to a pixel. A colour of 0 means nothing.
#[derive(Clone, Copy, Debug)]
pub struct SpritePixel {
    pub color: u8,
    pub palette: u8,
    /// The sprite is drawn in front of the background.
    pub front: bool,
    /// The sprite is entry 0 of sprite memory.
    pub zero: bool,
}

impl PpuState {
    pub open spec fn show_background(self) -> bool {
        self.registers.mask & 0x08 != 0
    }

    pub open spec fn show_sprites(self) -> bool {
        self.registers.mask & 0x10 != 0
    }

    pub open spec fn show_left_background(self) -> bool {
        self.registers.mask & 0x02 != 0
    }

    pub open spec fn show_left_sprites(self) -> bool {
        self.registers.mask & 0x04 != 0
    }

    /// Background and sprites are both switched on.
    pub open spec fn rendering(self) -> bool {
        self.show_background() && self.show_sprites()
    }

    pub open spec fn sprite_height(self) -> u32 {
        if self.registers.control & 0x20 != 0 {
            16
        } else {
            8
        }
    }

    pub open spec fn background_page(self) -> u16 {
        if self.registers.control & 0x10 != 0 {
            0x1000
        } else {
            0
        }
    }

    pub open spec fn sprite_page(self) -> u16 {
        if self.registers.control & 0x08 != 0 {
            0x1000
        } else {
            0
        }
    }

    /// Column within its tile of the background pixel at screen column `x`.
    pub open spec fn tile_column(self, x: u32) -> u8 {
        ((self.registers.fine_x as u32 + x) % 8) as u8
    }

    /// Colour index and palette number of the background at screen column
    /// `x`, read through the current VRAM address.
    pub open spec fn background_pixel(self, mapper: MapperState, x: u32) -> (u8, u8) {
        let v = self.registers.vram_addr;
        let tile = self.read(mapper, 0x2000 | (v & 0x0FFF));
        let pattern = (self.background_page() + tile as u16 * 16 + ((v >> 12) & 0x07)) as u16;
        let bit = (7 - self.tile_column(x)) as u8;
        let attribute = self.read(
            mapper,
            0x23C0 | (v & 0x0C00) | ((v >> 4) & 0x38) | ((v >> 2) & 0x07),
        );
        let shift = (((v >> 4) & 0x04) | (v & 0x02)) as u8;
        (
            plane_color(self.read(mapper, pattern), self.read(mapper, (pattern + 8) as u16), bit),
            (attribute >> shift) & 0x03,
        )
    }

    /// The colour shown for a background pixel: the backdrop for colour 0,
    /// else the entry of the chosen background palette.
    pub open spec fn background_color(self, color: u8, palette: u8) -> u32 {
        if color == 0 {
            system_color(self.palette_ram[0])
        } else {
            system_color(self.palette_ram[palette as int * 4 + color as int])
        }
    }

    /// The colour shown for an opaque sprite pixel.
    pub open spec fn sprite_color(self, color: u8, palette: u8) -> u32 {
        system_color(self.palette_ram[16 + palette as int * 4 + color as int])
    }

    /// Row of sprite `index` that falls on line `y`, counted from the
    /// sprite's top (one line below its Y byte) and after vertical flip.
    pub open spec fn sprite_row(self, index: u8, y: u32) -> u32 {
        let height = self.sprite_height() as int;
        let row = (y as int - (self.oam_ram[index as int * 4] as int + 1)) % height;
        if self.oam_ram[index as int * 4 + 2] & 0x80 != 0 {
            (height - 1 - row) as u32
        } else {
            row as u32
        }
    }

    /// Address of the low pattern plane of row `row` of sprite `index`. An
    /// 8-pixel sprite takes its table from the control register; a 16-pixel
    /// sprite takes it from bit 0 of its tile byte and uses a pair of tiles.
    pub open spec fn sprite_pattern(self, index: u8, row: u32) -> u16 {
        let tile = self.oam_ram[index as int * 4 + 1] as u16;
        if self.sprite_height() == 8 {
            (self.sprite_page() + tile * 16 + row) as u16
        } else {
            ((tile % 2) * 0x1000 + (tile / 2 * 2 + row / 8) * 16 + row % 8) as u16
        }
    }

    /// Colour index sprite `index` shows at column `x` of line `y`; 0 where
    /// it does not reach or is transparent.
    pub open spec fn sprite_pixel_color(self, mapper: MapperState, index: u8, x: u32, y: u32) -> u8 {
        let left = self.oam_ram[index as int * 4 + 3] as u32;
        if x < left || x >= left + 8 {
            0
        } else {
            let column = x - left;
            let bit = if self.oam_ram[index as int * 4 + 2] & 0x40 == 0 {
                (7 - column) as u8
            } else {
                column as u8
            };
            let pattern = self.sprite_pattern(index, self.sprite_row(index, y));
            plane_color(self.read(mapper, pattern), self.read(mapper, (pattern + 8) as u16), bit)
        }
    }

    /// First slot at or after `from` whose sprite is opaque at the pixel, or
    /// the number of slots if there is none.
    pub open spec fn first_opaque(self, mapper: MapperState, x: u32, y: u32, from: int) -> int
        decreases self.line_sprites.len() - from,
    {
        if from >= self.line_sprites.len() {
            self.line_sprites.len() as int
        } else if self.sprite_pixel_color(mapper, self.line_sprites[from], x, y) != 0 {
            from
        } else {
            self.first_opaque(mapper, x, y, from + 1)
        }
    }

    /// The sprite pixel at column `x` of line `y`: that of the first opaque
    /// sprite among those found for the line.
    pub open spec fn sprite_pixel(self, mapper: MapperState, x: u32, y: u32) -> SpritePixel {
        let slot = self.first_opaque(mapper, x, y, 0);
        if slot >= self.line_sprites.len() {
            SpritePixel { color: 0, palette: 0, front: false, zero: false }
        } else {
            let index = self.line_sprites[slot];
            let attribute = self.oam_ram[index as int * 4 + 2];
            SpritePixel {
                color: self.sprite_pixel_color(mapper, index, x, y),
                palette: attribute & 0x03,
                front: attribute & 0x20 == 0,
                zero: index == 0,
            }
        }
    }

    /// Colour of the pixel at column `x` of line `y`, and whether it is a
    /// sprite-zero hit. A layer that is switched off, or masked in the left
    /// eight columns, is transparent. An opaque sprite pixel shows over a
    /// transparent background, or over an opaque one if the sprite is in
    /// front. The hit needs sprite 0 and the background both opaque, and
    /// never happens in column 255.
    pub open spec fn pixel(self, mapper: MapperState, x: u32, y: u32) -> (u32, bool) {
        let background = if self.show_background() && (x >= 8 || self.show_left_background()) {
            self.background_pixel(mapper, x)
        } else {
            (0u8, 0u8)
        };
        let sprite = if self.show_sprites() && (x >= 8 || self.show_left_sprites()) {
            self.sprite_pixel(mapper, x, y)
        } else {
            SpritePixel { color: 0, palette: 0, front: false, zero: false }
        };
        (
            if sprite.color != 0 && (background.0 == 0 || sprite.front) {
                self.sprite_color(sprite.color, sprite.palette)
            } else {
                self.background_color(background.0, background.1)
            },
            sprite.color != 0 && sprite.zero && background.0 != 0 && x != 255,
        )
    }

    /// The VRAM address after the pixel of dot `dot` when the background is
    /// on: one tile right after the last column of a tile, and one row down
    /// after dot 256.
    pub open spec fn scrolled(self, dot: u32) -> u16 {
        let v = self.registers.vram_addr;
        let across = if self.tile_column((dot - 1) as u32) == 7 {
            coarse_x_step(v)
        } else {
            v
        };
        if dot == 256 {
            fine_y_step(across)
        } else {
            across
        }
    }

    /// Work of a visible dot: the pixel goes to the frame being drawn, a hit
    /// sets the sprite-zero flag, and the VRAM address moves on.
    pub open spec fn render_dot(self, mapper: MapperState) -> PpuState {
        let x = (self.scanline_cycle - 1) as u32;
        let (color, hit) = self.pixel(mapper, x, self.scanline);
        PpuState {
            back_buffer: self.back_buffer.update(self.scanline as int * 256 + x as int, color),
            registers: PPURegisters {
                status: if hit {
                    self.registers.status | 0x40
                } else {
                    self.registers.status
                },
                vram_addr: if self.show_background() {
                    self.scrolled(self.scanline_cycle)
                } else {
                    self.registers.vram_addr
                },
                ..self.registers
            },
            ..self
        }
    }

    /// Sprite `index` covers line `line`: the line is one of the
    /// `sprite_height` lines starting at the sprite's Y byte.
    pub open spec fn sprite_on_line(self, index: int, line: u32) -> bool {
        let top = self.oam_ram[index * 4] as int;
        top <= line && line - top < self.sprite_height()
    }

    /// Walks sprite memory from entry `from`, appending to `found` the
    /// sprites on line `line` until eight are held. The flag tells whether a
    /// ninth was met.
    pub open spec fn sprites_from(self, line: u32, from: int, found: Seq<u8>) -> (Seq<u8>, bool)
        decreases 64 - from,
    {
        if from >= 64 {
            (found, false)
        } else if !self.sprite_on_line(from, line) {
            self.sprites_from(line, from + 1, found)
        } else if found.len() >= 8 {
            (found, true)
        } else {
            self.sprites_from(line, from + 1, found.push(from as u8))
        }
    }

    /// The state after sprite evaluation on the current line: the sprites
    /// found replace the previous ones, and meeting a ninth sets the
    /// overflow flag. The walk starts at the entry the OAM address names.
    pub open spec fn evaluate_sprites(self) -> PpuState {
        let (found, overflow) = self.sprites_from(
            self.scanline,
            self.registers.oam_addr as int / 4,
            Seq::empty(),
        );
        PpuState {
            line_sprites: found,
            registers: PPURegisters {
                status: if overflow {
                    self.registers.status | 0x20
                } else {
                    self.registers.status
                },
                ..self.registers
            },
            ..self
        }
    }

    /// The state with the horizontal bits of `t` copied into `v`, if
    /// rendering is on.
    pub open spec fn reload_horizontal(self) -> PpuState {
        if self.rendering() {
            self.with_registers(
                PPURegisters {
                    vram_addr: copy_horizontal(
                        self.registers.vram_addr,
                        self.registers.tmp_vram_addr,
                    ),
                    ..self.registers
                },
            )
        } else {
            self
        }
    }

    /// The state with the vertical bits of `t` copied into `v`, if rendering
    /// is on.
    pub open spec fn reload_vertical(self) -> PpuState {
        if self.rendering() {
            self.with_registers(
                PPURegisters {
                    vram_addr: copy_vertical(
                        self.registers.vram_addr,
                        self.registers.tmp_vram_addr,
                    ),
                    ..self.registers
                },
            )
        } else {
            self
        }
    }

    /// What happens at the current dot, before the beam moves, and whether
    /// the unit raises NMI.
    ///
    /// Pre-render line: dot 1 clears the three status flags, dot 257 drops
    /// the sprites found and reloads the horizontal bits, dots 280 to 304
    /// reload the vertical bits. Visible lines: dots 1 to 256 draw, dot 257
    /// reloads the horizontal bits and evaluates sprites. Line 240: the last
    /// dot publishes the frame. Line 241: dot 1 sets VBlank and raises NMI
    /// if the control register asks for it.
    pub open spec fn dot_work(self, mapper: MapperState) -> (PpuState, bool) {
        let r = self.registers;
        let line = self.scanline;
        let dot = self.scanline_cycle;
        if line == PRE_RENDER_LINE {
            if dot == 1 {
                (self.with_registers(PPURegisters { status: r.status & 0x1F, ..r }), false)
            } else if dot == 257 {
                ((PpuState { line_sprites: Seq::empty(), ..self }).reload_horizontal(), false)
            } else if 280 <= dot <= 304 {
                (self.reload_vertical(), false)
            } else {
                (self, false)
            }
        } else if line < 240 {
            if 1 <= dot <= 256 {
                (self.render_dot(mapper), false)
            } else if dot == 257 {
                (self.reload_horizontal().evaluate_sprites(), false)
            } else {
                (self, false)
            }
        } else if line == 240 {
            if dot == SCANLINE_END_CYCLE {
                (PpuState { frame_buffer: self.back_buffer, ..self }, false)
            } else {
                (self, false)
            }
        } else if line == 241 && dot == 1 {
            (
                self.with_registers(PPURegisters { status: r.status | 0x80, ..r }),
                r.control & 0x80 != 0,
            )
        } else {
            (self, false)
        }
    }

    /// Last dot of the current line: 340, or 339 on the pre-render line of an
    /// odd frame while rendering is on.
    pub open spec fn line_end(self) -> u32 {
        if self.scanline == PRE_RENDER_LINE && !self.even_frame && self.rendering() {
            339
        } else {
            SCANLINE_END_CYCLE
        }
    }

    /// The state with the beam moved one dot on. Leaving the pre-render line
    /// starts line 0 and flips the frame parity.
    pub open spec fn advance(self) -> PpuState {
        if self.scanline_cycle < self.line_end() {
            PpuState { scanline_cycle: (self.scanline_cycle + 1) as u32, ..self }
        } else if self.scanline < PRE_RENDER_LINE {
            PpuState { scanline: (self.scanline + 1) as u32, scanline_cycle: 0, ..self }
        } else {
            PpuState { scanline: 0, scanline_cycle: 0, even_frame: !self.even_frame, ..self }
        }
    }

    /// One dot of the picture unit: the state afterwards, and whether NMI
    /// was raised.
    pub open spec fn tick(self, mapper: MapperState) -> (PpuState, bool) {
        let (worked, nmi) = self.dot_work(mapper);
        (worked.advance(), nmi)
    }
}

impl PPU {
    fn show_background(&self) -> (r: bool)
        ensures
            r == self@.show_background(),
    {
        self.registers.mask & 0x08 != 0
    }

    fn show_sprites(&self) -> (r: bool)
        ensures
            r == self@.show_sprites(),
    {
        self.registers.mask & 0x10 != 0
    }

    fn rendering(&self) -> (r: bool)
        ensures
            r == self@.rendering(),
    {
        self.show_background() && self.show_sprites()
    }

    fn get_sprite_height(&self) -> (r: u32)
        ensures
            r == self@.sprite_height(),
    {
        if self.registers.control & 0x20 != 0 {
            16
        } else {
            8
        }
    }

    fn get_bg_page(&self) -> (r: u16)
        ensures
            r == self@.background_page(),
    {
        if self.registers.control & 0x10 != 0 {
            0x1000
        } else {
            0
        }
    }

    fn get_sprite_page(&self) -> (r: u16)
        ensures
            r == self@.sprite_page(),
    {
        if self.registers.control & 0x08 != 0 {
            0x1000
        } else {
            0
        }
    }

    fn plane_color(low: u8, high: u8, bit: u8) -> (r: u8)
        requires
            bit < 8,
        ensures
            r == plane_color(low, high, bit),
            r <= 3,
    {
        proof {
            lemma_pixel_fields_fit(0, low, high, bit, 0, 0);
        }
        ((low >> bit) & 0x01) | (((high >> bit) & 0x01) << 1)
    }

    fn background_pixel(&self, mapper: &Mapper, x: u32) -> (r: (u8, u8))
        requires
            self.wf(),
            mapper.wf(),
            x < 256,
        ensures
            r == self@.background_pixel(mapper@, x),
            r.0 <= 3,
            r.1 <= 3,
    {
        let v = self.registers.vram_addr;
        let shift = (((v >> 4) & 0x04) | (v & 0x02)) as u8;
        proof {
            lemma_pixel_fields_fit(v, 0, 0, 0, 0, 0);
        }
        let tile = self.read(mapper, 0x2000 | (v & 0x0FFF));
        let pattern = self.get_bg_page() + tile as u16 * 16 + ((v >> 12) & 0x07);
        let bit = 7 - ((self.registers.fine_x as u32 + x) % 8) as u8;
        let attribute = self.read(
            mapper,
            0x23C0 | (v & 0x0C00) | ((v >> 4) & 0x38) | ((v >> 2) & 0x07),
        );
        proof {
            lemma_pixel_fields_fit(v, 0, 0, 0, attribute, shift);
        }
        let low = self.read(mapper, pattern);
        let high = self.read(mapper, pattern + 8);
        (Self::plane_color(low, high, bit), (attribute >> shift) & 0x03)
    }

    fn fetch_background_color(&self, color: u8, palette: u8) -> (r: u32)
        requires
            self.wf(),
            color <= 3,
            palette <= 3,
        ensures
            r == self@.background_color(color, palette),
    {
        if color == 0 {
            lookup_color(self.palette_ram[0])
        } else {
            lookup_color(self.palette_ram[palette as usize * 4 + color as usize])
        }
    }

    fn fetch_sprite_color(&self, color: u8, palette: u8) -> (r: u32)
        requires
            self.wf(),
            color <= 3,
            palette <= 3,
        ensures
            r == self@.sprite_color(color, palette),
    {
        lookup_color(self.palette_ram[16 + palette as usize * 4 + color as usize])
    }

    fn sprite_row(&self, index: u8, y: u32) -> (r: u32)
        requires
            self.wf(),
            index < 64,
            y < 240,
        ensures
            r == self@.sprite_row(index, y),
            r < self@.sprite_height(),
    {
        let height = self.get_sprite_height();
        let top = self.oam_ram[index as usize * 4] as u32 + 1;
        let row = (y + 512 - top) % height;
        assert(row as int == (y as int - top as int) % (height as int)) by {
            if height == 8 {
                assert((y + 512 - top) % 8 == (y - top) % 8);
            } else {
                assert((y + 512 - top) % 16 == (y - top) % 16);
            }
        }
        if self.oam_ram[index as usize * 4 + 2] & 0x80 != 0 {
            height - 1 - row
        } else {
            row
        }
    }

    fn sprite_pattern(&self, index: u8, row: u32) -> (r: u16)
        requires
            self.wf(),
            index < 64,
            row < self@.sprite_height(),
        ensures
            r == self@.sprite_pattern(index, row),
            r < 0x2000,
    {
        let tile = self.oam_ram[index as usize * 4 + 1] as u16;
        if self.get_sprite_height() == 8 {
            self.get_sprite_page() + tile * 16 + row as u16
        } else {
            (tile % 2) * 0x1000 + (tile / 2 * 2 + (row / 8) as u16) * 16 + (row % 8) as u16
        }
    }

    fn sprite_pixel_color(&self, mapper: &Mapper, index: u8, x: u32, y: u32) -> (r: u8)
        requires
            self.wf(),
            mapper.wf(),
            index < 64,
            x < 256,
            y < 240,
        ensures
            r == self@.sprite_pixel_color(mapper@, index, x, y),
            r <= 3,
    {
        let left = self.oam_ram[index as usize * 4 + 3] as u32;
        if x < left || x >= left + 8 {
            0
        } else {
            let column = x - left;
            let bit = if self.oam_ram[index as usize * 4 + 2] & 0x40 == 0 {
                (7 - column) as u8
            } else {
                column as u8
            };
            let row = self.sprite_row(index, y);
            let pattern = self.sprite_pattern(index, row);
            let low = self.read(mapper, pattern);
            let high = self.read(mapper, pattern + 8);
            Self::plane_color(low, high, bit)
        }
    }

    fn sprite_pixel(&self, mapper: &Mapper, x: u32, y: u32) -> (r: SpritePixel)
        requires
            self.wf(),
            mapper.wf(),
            x < 256,
            y < 240,
        ensures
            r == self@.sprite_pixel(mapper@, x, y),
            r.color <= 3,
            r.palette <= 3,
    {
        let mut slot: usize = 0;
        while slot < self.line_sprites.len()
            invariant
                self.wf(),
                mapper.wf(),
                x < 256,
                y < 240,
                slot <= self.line_sprites.len(),
                self@.first_opaque(mapper@, x, y, slot as int) == self@.first_opaque(
                    mapper@,
                    x,
                    y,
                    0,
                ),
            decreases self.line_sprites.len() - slot,
        {
            let index = self.line_sprites[slot];
            let color = self.sprite_pixel_color(mapper, index, x, y);
            if color != 0 {
                let attribute = self.oam_ram[index as usize * 4 + 2];
                proof {
                    lemma_pixel_fields_fit(0, 0, 0, 0, attribute, 0);
                }
                return SpritePixel {
                    color,
                    palette: attribute & 0x03,
                    front: attribute & 0x20 == 0,
                    zero: index == 0,
                };
            }
            slot += 1;
        }
        SpritePixel { color: 0, palette: 0, front: false, zero: false }
    }

    fn pixel(&self, mapper: &Mapper, x: u32, y: u32) -> (r: (u32, bool))
        requires
            self.wf(),
            mapper.wf(),
            x < 256,
            y < 240,
        ensures
            r == self@.pixel(mapper@, x, y),
    {
        let background = if self.show_background() && (x >= 8 || self.registers.mask & 0x02
            != 0) {
            self.background_pixel(mapper, x)
        } else {
            (0u8, 0u8)
        };
        let sprite = if self.show_sprites() && (x >= 8 || self.registers.mask & 0x04 != 0) {
            self.sprite_pixel(mapper, x, y)
        } else {
            SpritePixel { color: 0, palette: 0, front: false, zero: false }
        };
        let color = if sprite.color != 0 && (background.0 == 0 || sprite.front) {
            self.fetch_sprite_color(sprite.color, sprite.palette)
        } else {
            self.fetch_background_color(background.0, background.1)
        };
        (color, sprite.color != 0 && sprite.zero && background.0 != 0 && x != 255)
    }

    fn scrolled(&self, dot: u32) -> (r: u16)
        requires
            self.wf(),
            1 <= dot <= 256,
        ensures
            r == self@.scrolled(dot),
            r <= 0x7FFF,
    {
        let v = self.registers.vram_addr;
        proof {
            lemma_scroll_steps_fit(v, 0);
        }
        let across = if ((self.registers.fine_x as u32 + (dot - 1)) % 8) as u8 == 7 {
            if v & 0x001F == 31 {
                (v & 0xFFE0) ^ 0x0400
            } else {
                v + 1
            }
        } else {
            v
        };
        if dot == 256 {
            proof {
                lemma_scroll_steps_fit(across, 0);
            }
            if across & 0x7000 != 0x7000 {
                across + 0x1000
            } else {
                let w = across & 0x8FFF;
                let row = w & 0x03E0;
                if row == 0x03A0 {
                    (w ^ 0x0800) & 0xFC1F
                } else if row >= 0x03C0 {
                    w & 0xFC1F
                } else {
                    w + 0x20
                }
            }
        } else {
            across
        }
    }

    fn render_dot(&mut self, mapper: &Mapper)
        requires
            old(self).wf(),
            mapper.wf(),
            old(self).scanline < 240,
            1 <= old(self).scanline_cycle <= 256,
        ensures
            final(self).wf(),
            final(self)@ == old(self)@.render_dot(mapper@),
    {
        let x = self.scanline_cycle - 1;
        let (color, hit) = self.pixel(mapper, x, self.scanline);
        let next = if self.show_background() {
            self.scrolled(self.scanline_cycle)
        } else {
            self.registers.vram_addr
        };
        self.back_buffer.set(self.scanline as usize * 256 + x as usize, color);
        if hit {
            self.registers.status = self.registers.status | 0x40;
        }
        self.registers.vram_addr = next;
    }

    fn evaluate_sprites(&mut self)
        requires
            old(self).wf(),
        ensures
            final(self).wf(),
            final(self)@ == old(self)@.evaluate_sprites(),
    {
        let ghost before = self@;
        let height = self.get_sprite_height();
        let line = self.scanline;
        let mut found: Vec<u8> = Vec::with_capacity(8);
        let mut overflow = false;
        let mut index: usize = self.registers.oam_addr as usize / 4;
        while index < 64 && !overflow
            invariant
                self@ == before,
                before.wf(),
                height == before.sprite_height(),
                line == before.scanline,
                index <= 64,
                found@.len() <= 8,
                forall|i: int| 0 <= i < found@.len() ==> #[trigger] found@[i] < 64,
                !overflow ==> before.sprites_from(line, index as int, found@) == before.sprites_from(
                    line,
                    before.registers.oam_addr as int / 4,
                    Seq::empty(),
                ),
                overflow ==> (found@, true) == before.sprites_from(
                    line,
                    before.registers.oam_addr as int / 4,
                    Seq::empty(),
                ),
            decreases 64 - index + (if overflow { 0int } else { 1int }),
        {
            let top = self.oam_ram[index * 4] as u32;
            if top <= line && line - top < height {
                if found.len() >= 8 {
                    overflow = true;
                } else {
                    found.push(index as u8);
                    index += 1;
                }
            } else {
                index += 1;
            }
        }
        self.line_sprites = found;
        if overflow {
            self.registers.status = self.registers.status | 0x20;
        }
    }

    /// Advances the picture unit by one dot. `nmi` is set when the unit
    /// raises the interrupt and otherwise left alone; `irq` is never touched.
    pub fn step(&mut self, mapper: &Mapper, nmi: &mut bool, irq: &mut bool)
        requires
            old(self).wf(),
            mapper.wf(),
        ensures
            final(self).wf(),
            final(self)@ == old(self)@.tick(mapper@).0,
            *final(nmi) == (*old(nmi) || old(self)@.tick(mapper@).1),
            *final(irq) == *old(irq),
    {
        let line = self.scanline;
        let dot = self.scanline_cycle;
        let v = self.registers.vram_addr;
        let t = self.registers.tmp_vram_addr;
        proof {
            lemma_scroll_steps_fit(v, t);
        }
        if line == PRE_RENDER_LINE {
            if dot == 1 {
                self.registers.status = self.registers.status & 0x1F;
            } else if dot == 257 {
                self.line_sprites.clear();
                if self.rendering() {
                    self.registers.vram_addr = (v & 0xFBE0) | (t & 0x041F);
                }
            } else if dot >= 280 && dot <= 304 {
                if self.rendering() {
                    self.registers.vram_addr = (v & 0x841F) | (t & 0x7BE0);
                }
            }
        } else if line < 240 {
            if dot >= 1 && dot <= 256 {
                self.render_dot(mapper);
            } else if dot == 257 {
                if self.rendering() {
                    self.registers.vram_addr = (v & 0xFBE0) | (t & 0x041F);
                }
                self.evaluate_sprites();
            }
        } else if line == 240 {
            if dot == SCANLINE_END_CYCLE {
                self.frame_buffer = self.back_buffer.clone();
            }
        } else if line == 241 && dot == 1 {
            self.registers.status = self.registers.status | 0x80;
            if self.registers.control & 0x80 != 0 {
                *nmi = true;
            }
        }
        let end: u32 = if self.scanline == PRE_RENDER_LINE && !self.even_frame
            && self.rendering() {
            339
        } else {
            SCANLINE_END_CYCLE
        };
        if self.scanline_cycle < end {
            self.scanline_cycle = self.scanline_cycle + 1;
        } else if self.scanline < PRE_RENDER_LINE {
            self.scanline = self.scanline + 1;
            self.scanline_cycle = 0;
        } else {
            self.scanline = 0;
            self.scanline_cycle = 0;
            self.even_frame = !self.even_frame;
        }
    }
}

} // verus!
