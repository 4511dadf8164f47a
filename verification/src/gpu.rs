//! The pixel pipeline: video memory, the scanline state machine and the
//! renderer that composes background, window and sprites.

use vstd::prelude::*;
use crate::helper::MemoryRegister;
use crate::interrupt::{InterruptFlag, InterruptHandler};
use crate::memory_map::{
    BGP, LCDC, LY, LYC, OAM_END, OAM_START, OBP0, OBP1, SCX, SCY, STAT, TILE_RAM_END, VRAM_END,
    VRAM_START, WX, WY,
};
use crate::oam::{Oam, OAM_SIZE};
use crate::sink::VideoSink;
use crate::vram::{Vram, VRAM_SIZE};

verus! {

pub const FRAME_WIDTH: usize = 160;

pub const FRAME_HEIGHT: usize = 144;

/// Pixels in one frame.
pub const FRAME_SIZE: usize = 23040;

/// Tiles that fit in the tile data area of video RAM.
pub const TILE_COUNT: usize = 384;

/// Sprites that fit in sprite attribute memory.
pub const SPRITE_COUNT: usize = 40;

/// Sprites that are drawn on one scanline at most.
pub const SPRITES_PER_LINE: usize = 10;

/// Clock cycles for one scanline.
pub const TOTAL_SCANLINE_CYCLES: u16 = 456;

/// Cycle in a scanline at which the search of sprite memory ends.
pub const OAM_CUTOFF: u16 = 80;

/// Cycle in a scanline at which the transfer of pixels ends.
pub const TRANSFER_CUTOFF: u16 = 252;

/// Scanlines in one frame, the ten blanked ones included.
pub const SCANLINES: u8 = 154;

/// Clock cycles for one frame.
pub const FRAME_CYCLES: u32 = 70224;

/// Width of the picture that `get_tiles` draws.
pub const TILE_SHEET_WIDTH: usize = 128;

/// Height of the picture that `get_tiles` draws.
pub const TILE_SHEET_HEIGHT: usize = 192;

/// What a read of locked or absent memory gives.
pub const LOCKED: u8 = 0xFF;

/// What a fresh frame buffer is filled with.
pub const BLANK_PIXEL: u32 = 0xFF00FF;

/// The four phases of the LCD controller.
#[derive(Clone, Copy, Debug, PartialEq, Eq, Structural)]
pub enum StatusMode {
    HBlank,
    VBlank,
    Oam,
    Transfer,
}

impl StatusMode {
    /// The number of the phase, as the two low bits of `STAT` show it.
    pub open spec fn spec_number(self) -> u8 {
        match self {
            StatusMode::HBlank => 0,
            StatusMode::VBlank => 1,
            StatusMode::Oam => 2,
            StatusMode::Transfer => 3,
        }
    }

    #[verifier::when_used_as_spec(spec_number)]
    pub fn number(self) -> (n: u8)
        ensures
            n == self.spec_number(),
    {
        match self {
            StatusMode::HBlank => 0,
            StatusMode::VBlank => 1,
            StatusMode::Oam => 2,
            StatusMode::Transfer => 3,
        }
    }
}

/// One sprite, decoded from its four bytes of attribute memory.
#[derive(Clone, Copy, Debug, PartialEq, Eq, Structural)]
pub struct SpriteEntry {
    /// Scanline of the sprite's top row; negative when it starts above the screen.
    pub y_pos: i32,
    /// Column of the sprite's left edge; negative when it starts left of the screen.
    pub x_pos: i32,
    pub tile_id: u8,
    pub behind_background: bool,
    pub x_flip: bool,
    pub y_flip: bool,
    pub use_palette_one: bool,
}

impl SpriteEntry {
    pub open spec fn spec_new() -> SpriteEntry {
        SpriteEntry::spec_decode(0, 0, 0, 0)
    }

    /// The sprite that four zero bytes stand for.
    pub fn new() -> (sprite: SpriteEntry)
        ensures
            sprite == SpriteEntry::spec_new(),
    {
        SpriteEntry::decode(0, 0, 0, 0)
    }

    /// The sprite that the four bytes of an entry stand for: the position is
    /// stored with an offset of 16 rows and 8 columns, the attribute byte
    /// holds the priority, the two flips and the palette choice in its bits
    /// 7 to 4.
    pub open spec fn spec_decode(y: u8, x: u8, tile: u8, attributes: u8) -> SpriteEntry {
        SpriteEntry {
            y_pos: (y - 16) as i32,
            x_pos: (x - 8) as i32,
            tile_id: tile,
            behind_background: attributes & 0x80 != 0,
            y_flip: attributes & 0x40 != 0,
            x_flip: attributes & 0x20 != 0,
            use_palette_one: attributes & 0x10 != 0,
        }
    }

    #[verifier::when_used_as_spec(spec_decode)]
    pub fn decode(y: u8, x: u8, tile: u8, attributes: u8) -> (sprite: SpriteEntry)
        ensures
            sprite == SpriteEntry::spec_decode(y, x, tile, attributes),
        no_unwind
    {
        SpriteEntry {
            y_pos: y as i32 - 16,
            x_pos: x as i32 - 8,
            tile_id: tile,
            behind_background: attributes & 0x80 != 0,
            y_flip: attributes & 0x40 != 0,
            x_flip: attributes & 0x20 != 0,
            use_palette_one: attributes & 0x10 != 0,
        }
    }
}

/// One entry of the tile cache: the 64 shades of a tile, row by row, and
/// whether video RAM has been written since they were decoded.
#[derive(Debug)]
pub struct TileEntry {
    pub dirty: bool,
    pub pixels: Vec<u8>,
}

impl TileEntry {
    /// An entry that has not been decoded yet.
    pub fn new() -> (tile: TileEntry)
        ensures
            tile.dirty,
            tile.pixels@ == Seq::new(64, |i: int| 0u8),
    {
        let tile = TileEntry { dirty: true, pixels: vec![0u8; 64] };
        assert(tile.pixels@ =~= Seq::new(64, |i: int| 0u8));
        tile
    }
}

/// Facts about single bits and pairs of bits taken out of a byte.
pub proof fn lemma_small_fields(v: u8, s: u8)
    by (bit_vector)
    ensures
        (v >> s) & 1 <= 1,
        (v >> s) & 3 <= 3,
{
}

/// The shade of the pixel in column `x` (0 is leftmost) of a tile row stored
/// as the two bytes `lo` and `hi`: bit `7 - x` of `lo` is the low bit of the
/// shade and the same bit of `hi` the high bit.
pub open spec fn spec_shade_of(lo: u8, hi: u8, x: u8) -> u8 {
    ((((hi >> (7 - x) as u8) & 1) * 2) + ((lo >> (7 - x) as u8) & 1)) as u8
}

#[verifier::when_used_as_spec(spec_shade_of)]
pub fn shade_of(lo: u8, hi: u8, x: u8) -> (shade: u8)
    requires
        x < 8,
    ensures
        shade == spec_shade_of(lo, hi, x),
        shade < 4,
{
    let shift: u8 = 7 - x;
    proof {
        lemma_small_fields(hi, shift);
        lemma_small_fields(lo, shift);
    }
    ((hi >> shift) & 1) * 2 + ((lo >> shift) & 1)
}

/// The shade of the pixel at column `x`, row `y` of tile `tile`, decoded
/// from the 16 bytes the tile takes up in video RAM.
pub open spec fn tile_shade(vram: Seq<u8>, tile: int, x: int, y: int) -> u8 {
    spec_shade_of(vram[tile * 16 + y * 2], vram[tile * 16 + y * 2 + 1], x as u8)
}

/// The 64 shades of tile `tile`, row by row.
pub open spec fn tile_pixels(vram: Seq<u8>, tile: int) -> Seq<u8> {
    Seq::new(64, |k: int| tile_shade(vram, tile, k % 8, k / 8))
}

/// The colour shown for each of the four display shades.
pub open spec fn spec_shade_color(shade: u8) -> u32 {
    if shade == 0 {
        0xEEEEEE
    } else if shade == 1 {
        0x999999
    } else if shade == 2 {
        0x666666
    } else {
        0x222222
    }
}

#[verifier::when_used_as_spec(spec_shade_color)]
pub fn shade_color(shade: u8) -> (color: u32)
    ensures
        color == spec_shade_color(shade),
{
    if shade == 0 {
        0xEEEEEE
    } else if shade == 1 {
        0x999999
    } else if shade == 2 {
        0x666666
    } else {
        0x222222
    }
}

/// The colour of shade index `shade` under `palette`: the palette's bits
/// `2 * shade` and `2 * shade + 1` name the display shade.
pub open spec fn spec_colorize(shade: u8, palette: u8) -> u32 {
    spec_shade_color((palette >> (2 * shade) as u8) & 3)
}

/// The sprite that entry `index` of sprite attribute memory stands for.
pub open spec fn sprite_at(oam: Seq<u8>, index: int) -> SpriteEntry {
    SpriteEntry::spec_decode(
        oam[index * 4],
        oam[index * 4 + 1],
        oam[index * 4 + 2],
        oam[index * 4 + 3],
    )
}


/// What the LCD controller holds: its memories, its registers, the frame
/// it is drawing and how far into the frame it is.
pub struct GpuModel {
    pub vram: Seq<u8>,
    pub oam: Seq<u8>,
    pub frame: Seq<u32>,
    pub lcdc: u8,
    /// The byte last written to `STAT`; its bits 3 to 6 enable the four
    /// sources of the status interrupt.
    pub stat: u8,
    pub mode: StatusMode,
    /// Whether `LY` was equal to `LYC` when last compared.
    pub coincidence: bool,
    pub lyc: u8,
    pub ly: u8,
    pub bgp: u8,
    pub obp0: u8,
    pub obp1: u8,
    pub scy: u8,
    pub scx: u8,
    pub wy: u8,
    pub wx: u8,
    /// Clock cycles since the current scanline began.
    pub dot: u16,
}

/// What advancing the controller gave: the controller afterwards, the
/// interrupts it asked for, and the last frame it finished, if any.
pub struct Ticked {
    pub gpu: GpuModel,
    pub vblank: bool,
    pub stat: bool,
    pub frame: Option<Seq<u32>>,
}

impl Ticked {
    /// Nothing happened but that the controller is now `gpu`.
    pub open spec fn quiet(gpu: GpuModel) -> Ticked {
        Ticked { gpu, vblank: false, stat: false, frame: None }
    }

    /// What `self` followed by `next` gave together.
    pub open spec fn followed_by(self, next: Ticked) -> Ticked {
        Ticked {
            gpu: next.gpu,
            vblank: self.vblank || next.vblank,
            stat: self.stat || next.stat,
            frame: if next.frame is Some {
                next.frame
            } else {
                self.frame
            },
        }
    }
}

/// The phase the controller is in at cycle `dot` of scanline `ly`.
pub open spec fn mode_at(ly: u8, dot: u16) -> StatusMode {
    if ly >= FRAME_HEIGHT {
        StatusMode::VBlank
    } else if dot < OAM_CUTOFF {
        StatusMode::Oam
    } else if dot < TRANSFER_CUTOFF {
        StatusMode::Transfer
    } else {
        StatusMode::HBlank
    }
}

impl GpuModel {
    /// Bit 7 of `LCDC` switches the controller on.
    pub open spec fn enabled(self) -> bool {
        self.lcdc & 0x80 != 0
    }

    /// The memories have their sizes, the scanline and the cycle in it are in
    /// range, and the phase is the one that goes with them. A controller
    /// that is switched off rests at the start of the frame, in `HBlank`.
    pub open spec fn wf(self) -> bool {
        &&& self.vram.len() == VRAM_SIZE
        &&& self.oam.len() == OAM_SIZE
        &&& self.frame.len() == FRAME_SIZE
        &&& self.ly < SCANLINES
        &&& self.dot < TOTAL_SCANLINE_CYCLES
        &&& if self.enabled() {
            self.mode == mode_at(self.ly, self.dot)
        } else {
            self.mode == StatusMode::HBlank && self.ly == 0 && self.dot == 0
        }
    }

    /// The controller as it is after the boot program.
    pub open spec fn initial() -> GpuModel {
        GpuModel {
            vram: Seq::new(VRAM_SIZE as nat, |i: int| 0u8),
            oam: Seq::new(OAM_SIZE as nat, |i: int| 0u8),
            frame: Seq::new(FRAME_SIZE as nat, |i: int| BLANK_PIXEL),
            lcdc: 0x91,
            stat: 0x00,
            mode: StatusMode::Oam,
            coincidence: false,
            lyc: 0x00,
            ly: 0x00,
            bgp: 0xFC,
            obp0: 0x00,
            obp1: 0x00,
            scy: 0x00,
            scx: 0x00,
            wy: 0x00,
            wx: 0x00,
            dot: 0,
        }
    }

    /// `STAT` as the processor sees it: bits 3 to 7 as written, bit 2 the
    /// result of the last comparison of `LY` and `LYC`, bits 1 and 0 the phase.
    pub open spec fn stat_byte(self) -> u8 {
        (self.stat & 0xF8) | (if self.coincidence {
            0x04u8
        } else {
            0x00u8
        }) | self.mode.number()
    }

    /// Whether the processor can reach video RAM: not while pixels are transferred.
    pub open spec fn vram_open(self) -> bool {
        self.mode != StatusMode::Transfer
    }

    /// Whether the processor can reach sprite memory: not while it is
    /// searched and not while pixels are transferred.
    pub open spec fn oam_open(self) -> bool {
        self.mode != StatusMode::Transfer && self.mode != StatusMode::Oam
    }

    /// What a read of `address` by the processor gives.
    pub open spec fn read(self, address: u16) -> u8 {
        if VRAM_START <= address <= VRAM_END {
            if self.vram_open() {
                self.vram[address - VRAM_START]
            } else {
                LOCKED
            }
        } else if OAM_START <= address <= OAM_END {
            if self.oam_open() {
                self.oam[address - OAM_START]
            } else {
                LOCKED
            }
        } else if address == LCDC {
            self.lcdc
        } else if address == STAT {
            self.stat_byte()
        } else if address == SCY {
            self.scy
        } else if address == SCX {
            self.scx
        } else if address == LY {
            self.ly
        } else if address == LYC {
            self.lyc
        } else if address == BGP {
            self.bgp
        } else if address == OBP0 {
            self.obp0
        } else if address == OBP1 {
            self.obp1
        } else if address == WY {
            self.wy
        } else if address == WX {
            self.wx
        } else {
            LOCKED
        }
    }

    /// What a read of `address` gives to the controller itself, for which
    /// video RAM and sprite memory are never locked.
    pub open spec fn read_raw(self, address: u16) -> u8 {
        if VRAM_START <= address <= VRAM_END {
            self.vram[address - VRAM_START]
        } else if OAM_START <= address <= OAM_END {
            self.oam[address - OAM_START]
        } else {
            self.read(address)
        }
    }

    /// The controller at the start of the frame, in the phase that goes with
    /// it: the search of sprite memory when switched on, `HBlank` when off.
    pub open spec fn restarted(self) -> GpuModel {
        GpuModel {
            ly: 0,
            dot: 0,
            mode: if self.enabled() {
                StatusMode::Oam
            } else {
                StatusMode::HBlank
            },
            ..self
        }
    }

    /// The controller after `data` was written to `LCDC`. Switching the
    /// controller on or off takes it back to the start of the frame.
    pub open spec fn with_lcdc(self, data: u8) -> GpuModel {
        let written = GpuModel { lcdc: data, ..self };
        if written.enabled() != self.enabled() {
            written.restarted()
        } else {
            written
        }
    }

    /// The controller after the processor wrote `data` to `address`. Writes
    /// to locked memory and to addresses the controller does not own are dropped.
    pub open spec fn write(self, address: u16, data: u8) -> GpuModel {
        if VRAM_START <= address <= VRAM_END {
            if self.vram_open() {
                GpuModel { vram: self.vram.update(address - VRAM_START, data), ..self }
            } else {
                self
            }
        } else if OAM_START <= address <= OAM_END {
            if self.oam_open() {
                self.with_oam_byte((address - OAM_START) as u16, data)
            } else {
                self
            }
        } else if address == LCDC {
            self.with_lcdc(data)
        } else if address == STAT {
            GpuModel { stat: data, ..self }
        } else if address == SCY {
            GpuModel { scy: data, ..self }
        } else if address == SCX {
            GpuModel { scx: data, ..self }
        } else if address == LY {
            self.restarted()
        } else if address == LYC {
            GpuModel { lyc: data, ..self }
        } else if address == BGP {
            GpuModel { bgp: data, ..self }
        } else if address == OBP0 {
            GpuModel { obp0: data, ..self }
        } else if address == OBP1 {
            GpuModel { obp1: data, ..self }
        } else if address == WY {
            GpuModel { wy: data, ..self }
        } else if address == WX {
            GpuModel { wx: data, ..self }
        } else {
            self
        }
    }

    /// The controller with byte `offset` of sprite memory set to `data`,
    /// whatever phase it is in.
    pub open spec fn with_oam_byte(self, offset: u16, data: u8) -> GpuModel {
        GpuModel { oam: self.oam.update(offset as int, data), ..self }
    }

    /// The tile that entry `index` of a tile map names. With bit 4 of `LCDC`
    /// set, entries count tiles from the start of video RAM; otherwise they
    /// are signed and count from tile 256.
    pub open spec fn tile_for(self, index: u8) -> int {
        if self.lcdc & 0x10 != 0 || index >= 128 {
            index as int
        } else {
            256 + index
        }
    }

    /// The shade at column `x`, row `y` (both counted in pixels) of the
    /// 256 by 256 picture that the tile map at `map` describes.
    pub open spec fn map_shade(self, map: u16, x: int, y: int) -> u8 {
        tile_shade(
            self.vram,
            self.tile_for(self.vram[map - VRAM_START + (y / 8) * 32 + x / 8]),
            x % 8,
            y % 8,
        )
    }

    /// Where the tile map of the background lies: bit 3 of `LCDC` chooses.
    pub open spec fn background_map(self) -> u16 {
        if self.lcdc & 0x08 != 0 {
            0x9C00
        } else {
            0x9800
        }
    }

    /// Where the tile map of the window lies: bit 6 of `LCDC` chooses.
    pub open spec fn window_map(self) -> u16 {
        if self.lcdc & 0x40 != 0 {
            0x9C00
        } else {
            0x9800
        }
    }

    /// Bit 0 of `LCDC` shows the background.
    pub open spec fn background_on(self) -> bool {
        self.lcdc & 0x01 != 0
    }

    /// Bit 5 of `LCDC` shows the window.
    pub open spec fn window_on(self) -> bool {
        self.lcdc & 0x20 != 0
    }

    /// Bit 1 of `LCDC` shows the sprites.
    pub open spec fn sprites_on(self) -> bool {
        self.lcdc & 0x02 != 0
    }

    /// The shade of the background at column `x` of the current scanline:
    /// the background picture, scrolled by `SCX` and `SCY`, wraps around.
    pub open spec fn background_shade(self, x: int) -> u8 {
        self.map_shade(self.background_map(), (x + self.scx) % 256, (self.ly + self.scy) % 256)
    }

    /// Whether the window covers column `x` of the current scanline: it
    /// starts at scanline `WY` and column `WX - 7` and reaches to the right
    /// and lower edges of the screen.
    pub open spec fn window_covers(self, x: int) -> bool {
        self.ly >= self.wy && x + 7 >= self.wx
    }

    /// The shade of the window at column `x` of the current scanline.
    pub open spec fn window_shade(self, x: int) -> u8 {
        self.map_shade(self.window_map(), x + 7 - self.wx, self.ly - self.wy)
    }

    /// Whether background or window put a shade other than 0 at column `x`.
    pub open spec fn opaque_at(self, x: int) -> bool {
        ||| self.background_on() && self.background_shade(x) != 0
        ||| self.window_on() && self.window_covers(x) && self.window_shade(x) != 0
    }

    /// Rows in a sprite: 16 with bit 2 of `LCDC` set, else 8.
    pub open spec fn sprite_height(self) -> int {
        if self.lcdc & 0x04 != 0 {
            16
        } else {
            8
        }
    }

    /// Whether sprite `index` has a row on the current scanline.
    pub open spec fn sprite_on_line(self, index: int) -> bool {
        sprite_at(self.oam, index).y_pos <= self.ly < sprite_at(self.oam, index).y_pos
            + self.sprite_height()
    }

    /// How many of the sprites before `index` have a row on the current scanline.
    pub open spec fn sprites_before(self, index: int) -> nat
        decreases index,
    {
        if index <= 0 {
            0
        } else {
            self.sprites_before(index - 1) + if self.sprite_on_line(index - 1) {
                1nat
            } else {
                0nat
            }
        }
    }

    /// Whether sprite `index` is among the ten sprites drawn on the current
    /// scanline: the first ten, in the order of sprite memory, that have a
    /// row on it.
    pub open spec fn sprite_selected(self, index: int) -> bool {
        self.sprite_on_line(index) && self.sprites_before(index) < SPRITES_PER_LINE
    }

    /// The shade that sprite `index` has at column `x` of the current
    /// scanline; 0, which is transparent, where the sprite does not reach.
    /// A tall sprite takes its upper half from the even tile of a pair and
    /// its lower half from the odd one.
    pub open spec fn sprite_shade(self, index: int, x: int) -> u8 {
        let sprite = sprite_at(self.oam, index);
        let column = x - sprite.x_pos;
        let row = self.ly - sprite.y_pos;
        let tile_column = if sprite.x_flip {
            7 - column
        } else {
            column
        };
        let tile_row = if sprite.y_flip {
            self.sprite_height() - 1 - row
        } else {
            row
        };
        let tile = if self.sprite_height() == 16 {
            sprite.tile_id - sprite.tile_id % 2 + tile_row / 8
        } else {
            sprite.tile_id as int
        };
        if 0 <= column < 8 {
            tile_shade(self.vram, tile, tile_column, tile_row % 8)
        } else {
            0
        }
    }

    /// Whether sprite `index` puts a pixel at column `x` of the current
    /// scanline: it is one of the ten, is not transparent there, and is not
    /// hidden behind background or window.
    pub open spec fn sprite_draws(self, index: int, x: int) -> bool {
        &&& self.sprite_selected(index)
        &&& self.sprite_shade(index, x) != 0
        &&& !(sprite_at(self.oam, index).behind_background && self.opaque_at(x))
    }

    /// The colour sprite `index` has at column `x`.
    pub open spec fn sprite_color(self, index: int, x: int) -> u32 {
        spec_colorize(
            self.sprite_shade(index, x),
            if sprite_at(self.oam, index).use_palette_one {
                self.obp1
            } else {
                self.obp0
            },
        )
    }

    /// The first sprite from `from` on that puts a pixel at column `x`: of
    /// overlapping sprites the one earlier in sprite memory is on top.
    pub open spec fn top_sprite(self, x: int, from: int) -> Option<int>
        decreases SPRITE_COUNT - from,
    {
        if from >= SPRITE_COUNT {
            None
        } else if self.sprite_draws(from, x) {
            Some(from)
        } else {
            self.top_sprite(x, from + 1)
        }
    }

    /// The colour at column `x` of the current scanline once it is drawn:
    /// the topmost sprite, else the window, else the background, else what
    /// the frame held before.
    pub open spec fn pixel(self, x: int) -> u32 {
        if self.sprites_on() && self.top_sprite(x, 0) is Some {
            self.sprite_color(self.top_sprite(x, 0)->Some_0, x)
        } else if self.window_on() && self.window_covers(x) {
            spec_colorize(self.window_shade(x), self.bgp)
        } else if self.background_on() {
            spec_colorize(self.background_shade(x), self.bgp)
        } else {
            self.frame[self.ly * FRAME_WIDTH + x]
        }
    }

    /// The controller with the background drawn into the first `columns`
    /// columns of the current scanline.
    pub open spec fn background_upto(self, columns: int) -> GpuModel {
        GpuModel {
            frame: Seq::new(
                FRAME_SIZE as nat,
                |i: int|
                    if i / (FRAME_WIDTH as int) == self.ly && i % (FRAME_WIDTH as int) < columns {
                        spec_colorize(self.background_shade(i % (FRAME_WIDTH as int)), self.bgp)
                    } else {
                        self.frame[i]
                    },
            ),
            ..self
        }
    }

    /// The controller with the window drawn into the first `columns` columns
    /// of the current scanline, where it covers them.
    pub open spec fn window_upto(self, columns: int) -> GpuModel {
        GpuModel {
            frame: Seq::new(
                FRAME_SIZE as nat,
                |i: int|
                    if i / (FRAME_WIDTH as int) == self.ly && i % (FRAME_WIDTH as int) < columns
                        && self.window_covers(i % (FRAME_WIDTH as int)) {
                        spec_colorize(self.window_shade(i % (FRAME_WIDTH as int)), self.bgp)
                    } else {
                        self.frame[i]
                    },
            ),
            ..self
        }
    }

    /// The controller with the sprites drawn into the first `columns`
    /// columns of the current scanline.
    pub open spec fn sprites_upto(self, columns: int) -> GpuModel {
        GpuModel {
            frame: Seq::new(
                FRAME_SIZE as nat,
                |i: int|
                    if i / (FRAME_WIDTH as int) == self.ly && i % (FRAME_WIDTH as int) < columns
                        && self.top_sprite(i % (FRAME_WIDTH as int), 0) is Some {
                        self.sprite_color(
                            self.top_sprite(i % (FRAME_WIDTH as int), 0)->Some_0,
                            i % (FRAME_WIDTH as int),
                        )
                    } else {
                        self.frame[i]
                    },
            ),
            ..self
        }
    }

    /// The controller with the current scanline drawn into the frame.
    pub open spec fn render_line(self) -> GpuModel {
        GpuModel {
            frame: Seq::new(
                FRAME_SIZE as nat,
                |i: int|
                    if i / (FRAME_WIDTH as int) == self.ly {
                        self.pixel(i % (FRAME_WIDTH as int))
                    } else {
                        self.frame[i]
                    },
            ),
            ..self
        }
    }

    /// The controller with `LY` compared to `LYC` anew.
    pub open spec fn compared(self) -> GpuModel {
        GpuModel { coincidence: self.ly == self.lyc, ..self }
    }

    /// Whether a new comparison finds `LY` equal to `LYC` where the last
    /// one did not, with bit 6 of `STAT` set to report it.
    pub open spec fn coincidence_rises(self) -> bool {
        !self.coincidence && self.ly == self.lyc && self.stat & 0x40 != 0
    }

    /// The cycle of the scanline at which the current phase ends.
    pub open spec fn boundary(self) -> u16 {
        if self.ly >= FRAME_HEIGHT {
            TOTAL_SCANLINE_CYCLES
        } else if self.dot < OAM_CUTOFF {
            OAM_CUTOFF
        } else if self.dot < TRANSFER_CUTOFF {
            TRANSFER_CUTOFF
        } else {
            TOTAL_SCANLINE_CYCLES
        }
    }

    /// What beginning scanline `ly` gives: the phase becomes `mode`, which
    /// asks for a status interrupt if it is newly entered and bit `enable`
    /// of `STAT` is set, and `LY` is compared to `LYC`.
    pub open spec fn begin_line(self, ly: u8, mode: StatusMode, enable: u8) -> Ticked {
        let begun = GpuModel { ly, dot: 0, mode, ..self };
        Ticked {
            gpu: begun.compared(),
            vblank: false,
            stat: (mode != self.mode && self.stat & enable != 0) || begun.coincidence_rises(),
            frame: None,
        }
    }

    /// What the end of the current phase gives. The search of sprite memory
    /// gives way to the transfer; at the end of the transfer the scanline is
    /// drawn and `HBlank` entered; at the end of a scanline the next begins,
    /// where scanline 144 begins the vertical blank, which asks for its
    /// interrupt and hands over the frame, and scanline 153 is followed by
    /// scanline 0.
    pub open spec fn cross(self) -> Ticked {
        if self.ly >= FRAME_HEIGHT {
            if self.ly >= SCANLINES - 1 {
                self.begin_line(0, StatusMode::Oam, 0x20)
            } else {
                self.begin_line((self.ly + 1) as u8, StatusMode::VBlank, 0x10)
            }
        } else if self.dot < OAM_CUTOFF {
            Ticked::quiet(GpuModel { dot: OAM_CUTOFF, mode: StatusMode::Transfer, ..self })
        } else if self.dot < TRANSFER_CUTOFF {
            Ticked {
                gpu: GpuModel {
                    dot: TRANSFER_CUTOFF,
                    mode: StatusMode::HBlank,
                    ..self.render_line()
                },
                vblank: false,
                stat: self.stat & 0x08 != 0,
                frame: None,
            }
        } else if self.ly == FRAME_HEIGHT - 1 {
            Ticked {
                vblank: true,
                frame: Some(self.frame),
                ..self.begin_line(FRAME_HEIGHT as u8, StatusMode::VBlank, 0x10)
            }
        } else {
            self.begin_line((self.ly + 1) as u8, StatusMode::Oam, 0x20)
        }
    }

    /// Whether `cycles` clock cycles leave the controller in its current phase.
    pub open spec fn stays(self, cycles: nat) -> bool {
        self.dot + cycles < self.boundary() || self.dot >= self.boundary()
    }

    /// What `cycles` clock cycles give as far as the end of the current
    /// phase: the cycles are counted if the phase lasts longer, and the
    /// phase ends if not.
    pub open spec fn phase(self, cycles: nat) -> Ticked {
        if self.stays(cycles) {
            Ticked::quiet(GpuModel { dot: (self.dot + cycles) as u16, ..self })
        } else {
            self.cross()
        }
    }

    /// How many of `cycles` clock cycles are left when the current phase ends.
    pub open spec fn phase_rest(self, cycles: nat) -> nat {
        if self.stays(cycles) {
            0
        } else {
            (cycles - (self.boundary() - self.dot)) as nat
        }
    }

    /// What `cycles` clock cycles give to a controller that is switched on:
    /// phase after phase, until the cycles are used up.
    pub open spec fn advance(self, cycles: nat) -> Ticked
        decreases cycles,
    {
        if self.stays(cycles) {
            self.phase(cycles)
        } else {
            self.phase(cycles).followed_by(self.phase(cycles).gpu.advance(self.phase_rest(cycles)))
        }
    }

    /// What `cycles` clock cycles give. `LY` is compared to `LYC` first; a
    /// controller that is switched off does nothing else and asks for no
    /// interrupt.
    pub open spec fn tick(self, cycles: nat) -> Ticked {
        if self.enabled() {
            Ticked { stat: self.coincidence_rises(), ..Ticked::quiet(self.compared()) }.followed_by(
                self.compared().advance(cycles),
            )
        } else {
            Ticked::quiet(self.compared())
        }
    }

    /// How far into the frame the controller is, in clock cycles.
    pub open spec fn frame_position(self) -> int {
        self.ly * TOTAL_SCANLINE_CYCLES + self.dot
    }

    /// The picture of all 384 tiles, sixteen to a row, in the colours of the
    /// background palette.
    pub open spec fn tile_sheet(self) -> Seq<u32> {
        Seq::new(
            (TILE_SHEET_WIDTH * TILE_SHEET_HEIGHT) as nat,
            |i: int|
                spec_colorize(
                    tile_shade(self.vram, sheet_tile(i), (i % 128) % 8, (i / 128) % 8),
                    self.bgp,
                ),
        )
    }
}


/// The LCD controller.
pub struct Gpu {
    vram: Vram,
    oam: Oam,
    tile_cache: Vec<TileEntry>,
    sprite_table: Vec<SpriteEntry>,
    frame_buffer: Vec<u32>,
    lcdc: MemoryRegister,
    stat: MemoryRegister,
    lyc: MemoryRegister,
    ly: MemoryRegister,
    bgp: MemoryRegister,
    obp0: MemoryRegister,
    obp1: MemoryRegister,
    scy: MemoryRegister,
    scx: MemoryRegister,
    wy: MemoryRegister,
    wx: MemoryRegister,
    mode: StatusMode,
    coincidence: bool,
    dot: u16,
}

impl View for Gpu {
    type V = GpuModel;

    closed spec fn view(&self) -> GpuModel {
        GpuModel {
            vram: self.vram@,
            oam: self.oam@,
            frame: self.frame_buffer@,
            lcdc: self.lcdc.value,
            stat: self.stat.value,
            mode: self.mode,
            coincidence: self.coincidence,
            lyc: self.lyc.value,
            ly: self.ly.value,
            bgp: self.bgp.value,
            obp0: self.obp0.value,
            obp1: self.obp1.value,
            scy: self.scy.value,
            scx: self.scx.value,
            wy: self.wy.value,
            wx: self.wx.value,
            dot: self.dot,
        }
    }
}

/// Whether the tile cache `tiles` agrees with video RAM: every entry that
/// is not marked dirty holds the shades that its tile decodes to.
pub open spec fn tiles_agree(tiles: Seq<TileEntry>, vram: Seq<u8>) -> bool {
    &&& tiles.len() == TILE_COUNT
    &&& forall|t: int|
        0 <= t < TILE_COUNT ==> (#[trigger] tiles[t]).pixels@.len() == 64 && (!tiles[t].dirty
            ==> tiles[t].pixels@ == tile_pixels(vram, t))
}

/// Whether the sprite table `sprites` agrees with sprite memory.
pub open spec fn sprites_agree(sprites: Seq<SpriteEntry>, oam: Seq<u8>) -> bool {
    &&& sprites.len() == SPRITE_COUNT
    &&& forall|i: int| 0 <= i < SPRITE_COUNT ==> #[trigger] sprites[i] == sprite_at(oam, i)
}

impl Gpu {
    /// The tile cache and the sprite table agree with the memories they
    /// are decoded from.
    pub closed spec fn caches_agree(&self) -> bool {
        tiles_agree(self.tile_cache@, self.vram@) && sprites_agree(self.sprite_table@, self.oam@)
    }

    #[verifier::type_invariant]
    pub open spec fn inv(&self) -> bool {
        self@.wf() && self.caches_agree()
    }

    /// Whether the tile cache holds the decoded shades of tile `id`.
    pub closed spec fn cached(&self, id: int) -> bool {
        !self.tile_cache@[id].dirty
    }

    /// Whether every tile that `self` holds decoded, `later` holds decoded too.
    pub open spec fn cache_kept(&self, later: &Gpu) -> bool {
        forall|id: int| 0 <= id < TILE_COUNT && self.cached(id) ==> later.cached(id)
    }

    pub fn new() -> (gpu: Gpu)
        ensures
            gpu@ == GpuModel::initial(),
            forall|id: int| 0 <= id < TILE_COUNT ==> !gpu.cached(id),
    {
        let mut tile_cache: Vec<TileEntry> = Vec::new();
        while tile_cache.len() < TILE_COUNT
            invariant
                tile_cache@.len() <= TILE_COUNT,
                forall|t: int|
                    0 <= t < tile_cache@.len() ==> (#[trigger] tile_cache@[t]).dirty
                        && tile_cache@[t].pixels@.len() == 64,
            decreases TILE_COUNT - tile_cache@.len(),
        {
            tile_cache.push(TileEntry::new());
        }
        let mut sprite_table: Vec<SpriteEntry> = Vec::new();
        while sprite_table.len() < SPRITE_COUNT
            invariant
                sprite_table@.len() <= SPRITE_COUNT,
                forall|i: int|
                    0 <= i < sprite_table@.len() ==> #[trigger] sprite_table@[i]
                        == SpriteEntry::spec_new(),
            decreases SPRITE_COUNT - sprite_table@.len(),
        {
            sprite_table.push(SpriteEntry::new());
        }
        let vram = Vram::new();
        let oam = Oam::new();
        let frame_buffer = vec![BLANK_PIXEL; FRAME_SIZE];
        assert(frame_buffer@ =~= Seq::new(FRAME_SIZE as nat, |i: int| BLANK_PIXEL));
        assert(0x91u8 & 0x80 != 0) by (bit_vector);
        Gpu {
            vram,
            oam,
            tile_cache,
            sprite_table,
            frame_buffer,
            lcdc: MemoryRegister::new(0x91),
            stat: MemoryRegister::new(0x00),
            lyc: MemoryRegister::new(0x00),
            ly: MemoryRegister::new(0x00),
            bgp: MemoryRegister::new(0xFC),
            obp0: MemoryRegister::new(0x00),
            obp1: MemoryRegister::new(0x00),
            scy: MemoryRegister::new(0x00),
            scx: MemoryRegister::new(0x00),
            wy: MemoryRegister::new(0x00),
            wx: MemoryRegister::new(0x00),
            mode: StatusMode::Oam,
            coincidence: false,
            dot: 0,
        }
    }

    /// The colour of shade index `shade` under `palette`.
    pub fn colorize(shade: u8, palette: u8) -> (color: u32)
        requires
            shade < 4,
        ensures
            color == spec_colorize(shade, palette),
    {
        shade_color((palette >> (2 * shade)) & 3)
    }

    /// The frame as far as it is drawn.
    pub fn frame(&self) -> (frame: &Vec<u32>)
        ensures
            frame@ == self@.frame,
    {
        &self.frame_buffer
    }

    pub fn display_enabled(&self) -> (enabled: bool)
        ensures
            enabled == self@.enabled(),
    {
        self.lcdc.value & 0x80 != 0
    }

    pub fn get_mode(&self) -> (mode: StatusMode)
        ensures
            mode == self@.mode,
    {
        self.mode
    }

    /// Reads as the controller itself does: video RAM and sprite memory are
    /// never locked.
    pub fn read_raw(&self, address: u16) -> (value: u8)
        ensures
            value == self@.read_raw(address),
            self@.wf(),
    {
        proof {
            use_type_invariant(self);
        }
        if VRAM_START <= address && address <= VRAM_END {
            self.vram.read(address - VRAM_START)
        } else if OAM_START <= address && address <= OAM_END {
            self.oam.read(address - OAM_START)
        } else {
            self.read(address)
        }
    }

    /// Reads as the processor does.
    pub fn read(&self, address: u16) -> (value: u8)
        ensures
            value == self@.read(address),
            self@.wf(),
    {
        proof {
            use_type_invariant(self);
        }
        if VRAM_START <= address && address <= VRAM_END {
            match self.mode {
                StatusMode::Transfer => LOCKED,
                _ => self.vram.read(address - VRAM_START),
            }
        } else if OAM_START <= address && address <= OAM_END {
            match self.mode {
                StatusMode::Transfer => LOCKED,
                StatusMode::Oam => LOCKED,
                _ => self.oam.read(address - OAM_START),
            }
        } else if address == LCDC {
            self.lcdc.get()
        } else if address == STAT {
            let coincidence: u8 = if self.coincidence {
                0x04
            } else {
                0x00
            };
            (self.stat.get() & 0xF8) | coincidence | self.mode.number()
        } else if address == SCY {
            self.scy.get()
        } else if address == SCX {
            self.scx.get()
        } else if address == LY {
            self.ly.get()
        } else if address == LYC {
            self.lyc.get()
        } else if address == BGP {
            self.bgp.get()
        } else if address == OBP0 {
            self.obp0.get()
        } else if address == OBP1 {
            self.obp1.get()
        } else if address == WY {
            self.wy.get()
        } else if address == WX {
            self.wx.get()
        } else {
            LOCKED
        }
    }

    /// Puts the controller at the start of the frame.
    fn restart(&mut self)
        ensures
            final(self)@ == old(self)@.restarted(),
            forall|id: int| final(self).cached(id) == old(self).cached(id),
    {
        proof {
            use_type_invariant(&*self);
        }
        let mode = if self.display_enabled() {
            StatusMode::Oam
        } else {
            StatusMode::HBlank
        };
        self.store_position(0, 0, mode);
    }

    /// Stores scanline, cycle and phase in one step.
    fn place(
        line: &mut MemoryRegister,
        cycle: &mut u16,
        phase: &mut StatusMode,
        ly: u8,
        dot: u16,
        mode: StatusMode,
    )
        ensures
            final(line).value == ly,
            *final(cycle) == dot,
            *final(phase) == mode,
        no_unwind
    {
        line.set(ly);
        *cycle = dot;
        *phase = mode;
    }

    /// Stores `LCDC` and the start of the frame in one step.
    fn switch(
        lcdc: &mut MemoryRegister,
        line: &mut MemoryRegister,
        cycle: &mut u16,
        phase: &mut StatusMode,
        data: u8,
        mode: StatusMode,
    )
        ensures
            final(lcdc).value == data,
            final(line).value == 0,
            *final(cycle) == 0,
            *final(phase) == mode,
        no_unwind
    {
        lcdc.set(data);
        line.set(0);
        *cycle = 0;
        *phase = mode;
    }

    /// Sets scanline, cycle and phase together.
    fn store_position(&mut self, ly: u8, dot: u16, mode: StatusMode)
        requires
            ly < SCANLINES,
            dot < TOTAL_SCANLINE_CYCLES,
            if old(self)@.enabled() {
                mode == mode_at(ly, dot)
            } else {
                mode == StatusMode::HBlank && ly == 0 && dot == 0
            },
        ensures
            final(self)@ == (GpuModel { ly, dot, mode, ..old(self)@ }),
            forall|id: int| final(self).cached(id) == old(self).cached(id),
    {
        proof {
            use_type_invariant(&*self);
        }
        Self::place(&mut self.ly, &mut self.dot, &mut self.mode, ly, dot, mode);
    }

    fn update_lcdc(&mut self, data: u8)
        ensures
            final(self)@ == old(self)@.with_lcdc(data),
            forall|id: int| final(self).cached(id) == old(self).cached(id),
    {
        proof {
            use_type_invariant(&*self);
        }
        let was_enabled = self.display_enabled();
        let now_enabled = data & 0x80 != 0;
        let mode = if now_enabled {
            StatusMode::Oam
        } else {
            StatusMode::HBlank
        };
        if was_enabled != now_enabled {
            Self::switch(&mut self.lcdc, &mut self.ly, &mut self.dot, &mut self.mode, data, mode);
        } else {
            self.lcdc.set(data);
        }
    }

    /// Stores a byte of sprite memory and decodes the sprite it belongs to.
    fn store_oam(oam: &mut Oam, sprites: &mut Vec<SpriteEntry>, offset: u16, data: u8)
        requires
            offset < OAM_SIZE,
            old(oam).inv(),
            sprites_agree(old(sprites)@, old(oam)@),
        ensures
            final(oam)@ == old(oam)@.update(offset as int, data),
            final(oam).inv(),
            sprites_agree(final(sprites)@, final(oam)@),
        no_unwind
    {
        oam.write(offset, data);
        proof {
            use_type_invariant(&*oam);
        }
        let index: u16 = offset / 4;
        let base: u16 = index * 4;
        let entry = SpriteEntry::decode(
            oam.read(base),
            oam.read(base + 1),
            oam.read(base + 2),
            oam.read(base + 3),
        );
        sprites[index as usize] = entry;
    }

    /// Sets a byte of sprite memory, whatever phase the controller is in.
    pub fn write_oam(&mut self, offset: u16, data: u8)
        requires
            offset < OAM_SIZE,
        ensures
            final(self)@ == old(self)@.with_oam_byte(offset, data),
            forall|id: int| final(self).cached(id) == old(self).cached(id),
    {
        proof {
            use_type_invariant(&*self);
            use_type_invariant(&self.oam);
        }
        Self::store_oam(&mut self.oam, &mut self.sprite_table, offset, data);
    }

    /// Stores a byte of video RAM and marks the tile it belongs to, if it
    /// belongs to one, as no longer decoded.
    fn store_vram(vram: &mut Vram, tiles: &mut Vec<TileEntry>, offset: u16, data: u8)
        requires
            offset < VRAM_SIZE,
            old(vram).inv(),
            tiles_agree(old(tiles)@, old(vram)@),
        ensures
            final(vram)@ == old(vram)@.update(offset as int, data),
            final(vram).inv(),
            tiles_agree(final(tiles)@, final(vram)@),
            forall|t: int|
                0 <= t < TILE_COUNT ==> (#[trigger] final(tiles)@[t]).dirty == (old(tiles)@[t].dirty
                    || t == offset / 16),
        no_unwind
    {
        vram.write(offset, data);
        proof {
            use_type_invariant(&*vram);
        }
        if offset <= TILE_RAM_END - VRAM_START {
            let id: usize = (offset / 16) as usize;
            tiles[id].dirty = true;
        }
        proof {
            assert forall|t: int| 0 <= t < TILE_COUNT && !(#[trigger] tiles@[t]).dirty implies tiles@[t].pixels@
                == tile_pixels(vram@, t) by {
                assert(tiles@[t] == old(tiles)@[t]);
                assert(tile_pixels(vram@, t) =~= tile_pixels(old(vram)@, t));
            }
        }
    }

    /// Writes as the processor does. Writes to locked memory and to
    /// addresses the controller does not own are dropped. A write to the
    /// tile data marks the tile it falls in as no longer decoded.
    pub fn write(&mut self, address: u16, data: u8)
        ensures
            final(self)@ == old(self)@.write(address, data),
            forall|id: int|
                0 <= id < TILE_COUNT ==> final(self).cached(id) == (old(self).cached(id) && !(
                VRAM_START <= address <= TILE_RAM_END && old(self)@.vram_open() && id == (address
                    - VRAM_START) / 16)),
    {
        proof {
            use_type_invariant(&*self);
            use_type_invariant(&self.oam);
            use_type_invariant(&self.vram);
        }
        if VRAM_START <= address && address <= VRAM_END {
            match self.mode {
                StatusMode::Transfer => {},
                _ => {
                    Self::store_vram(
                        &mut self.vram,
                        &mut self.tile_cache,
                        address - VRAM_START,
                        data,
                    );
                },
            }
        } else if OAM_START <= address && address <= OAM_END {
            match self.mode {
                StatusMode::Transfer => {},
                StatusMode::Oam => {},
                _ => {
                    self.write_oam(address - OAM_START, data);
                },
            }
        } else if address == LCDC {
            self.update_lcdc(data);
        } else if address == STAT {
            self.stat.set(data);
        } else if address == SCY {
            self.scy.set(data);
        } else if address == SCX {
            self.scx.set(data);
        } else if address == LY {
            self.restart();
        } else if address == LYC {
            self.lyc.set(data);
        } else if address == BGP {
            self.bgp.set(data);
        } else if address == OBP0 {
            self.obp0.set(data);
        } else if address == OBP1 {
            self.obp1.set(data);
        } else if address == WY {
            self.wy.set(data);
        } else if address == WX {
            self.wx.set(data);
        }
    }
}


/// If none of the sprites from `from` up to `to` puts a pixel at column `x`,
/// the topmost sprite from `from` on is the topmost from `to` on.
pub proof fn lemma_top_sprite_skips(gpu: GpuModel, x: int, from: int, to: int)
    requires
        0 <= from <= to <= SPRITE_COUNT,
        forall|j: int| from <= j < to ==> !gpu.sprite_draws(j, x),
    ensures
        gpu.top_sprite(x, from) == gpu.top_sprite(x, to),
    decreases to - from,
{
    if from < to {
        lemma_top_sprite_skips(gpu, x, from + 1, to);
    }
}

/// How many sprites lie on the scanline does not depend on the frame.
pub proof fn lemma_counts_ignore_frame(a: GpuModel, b: GpuModel, index: int)
    requires
        b == (GpuModel { frame: b.frame, ..a }),
    ensures
        a.sprites_before(index) == b.sprites_before(index),
    decreases index,
{
    if index > 0 {
        lemma_counts_ignore_frame(a, b, index - 1);
    }
}

/// The topmost sprite at a column does not depend on the frame.
pub proof fn lemma_sprites_ignore_frame_from(a: GpuModel, b: GpuModel, x: int, from: int)
    requires
        b == (GpuModel { frame: b.frame, ..a }),
    ensures
        a.top_sprite(x, from) == b.top_sprite(x, from),
    decreases SPRITE_COUNT - from,
{
    if from < SPRITE_COUNT {
        lemma_counts_ignore_frame(a, b, from);
        lemma_sprites_ignore_frame_from(a, b, x, from + 1);
    }
}

impl Gpu {
    /// The cache entry of tile `id`.
    pub fn get_tile(&self, id: usize) -> (tile: TileEntry)
        requires
            id < TILE_COUNT,
        ensures
            tile.dirty == !self.cached(id as int),
            tile.pixels@.len() == 64,
            self.cached(id as int) ==> tile.pixels@ == tile_pixels(self@.vram, id as int),
    {
        proof {
            use_type_invariant(self);
        }
        let entry = &self.tile_cache[id];
        TileEntry { dirty: entry.dirty, pixels: crate::mbc::copy_bytes(&entry.pixels) }
    }

    /// Decodes tile `id` from video RAM into the tile cache.
    pub fn refresh_tile(&mut self, id: usize)
        requires
            id < TILE_COUNT,
        ensures
            final(self)@ == old(self)@,
            final(self).cached(id as int),
            forall|other: int|
                0 <= other < TILE_COUNT && other != id ==> final(self).cached(other) == old(
                    self,
                ).cached(other),
    {
        proof {
            use_type_invariant(&*self);
        }
        let mut pixels: Vec<u8> = Vec::with_capacity(64);
        let mut k: u16 = 0;
        while k < 64
            invariant
                k <= 64,
                id < TILE_COUNT,
                self@.vram.len() == VRAM_SIZE,
                pixels@.len() == k,
                forall|j: int|
                    0 <= j < k ==> #[trigger] pixels@[j] == tile_shade(
                        self@.vram,
                        id as int,
                        j % 8,
                        j / 8,
                    ),
            decreases 64 - k,
        {
            let row: u16 = k / 8;
            let offset: u16 = id as u16 * 16 + row * 2;
            let lo: u8 = self.vram.read(offset);
            let hi: u8 = self.vram.read(offset + 1);
            pixels.push(shade_of(lo, hi, (k % 8) as u8));
            k = k + 1;
        }
        assert(pixels@ =~= tile_pixels(self@.vram, id as int));
        Self::store_tile(&mut self.tile_cache, Ghost(self.vram@), id, pixels);
    }

    /// Puts freshly decoded shades into the tile cache.
    fn store_tile(tiles: &mut Vec<TileEntry>, Ghost(vram): Ghost<Seq<u8>>, id: usize, pixels: Vec<u8>)
        requires
            id < TILE_COUNT,
            tiles_agree(old(tiles)@, vram),
            pixels@ == tile_pixels(vram, id as int),
        ensures
            tiles_agree(final(tiles)@, vram),
            !final(tiles)@[id as int].dirty,
            forall|t: int|
                0 <= t < TILE_COUNT && t != id ==> #[trigger] final(tiles)@[t] == old(tiles)@[t],
        no_unwind
    {
        tiles[id] = TileEntry { dirty: false, pixels };
        proof {
            assert forall|t: int| 0 <= t < TILE_COUNT implies (#[trigger] tiles@[t]).pixels@.len()
                == 64 && (!tiles@[t].dirty ==> tiles@[t].pixels@ == tile_pixels(vram, t)) by {
                if t != id {
                    assert(tiles@[t] == old(tiles)@[t]);
                }
            }
        }
    }

    /// The shade at column `x`, row `y` of tile `tile`, through the tile cache.
    fn tile_pixel(&mut self, tile: usize, x: u8, y: u8) -> (shade: u8)
        requires
            tile < TILE_COUNT,
            x < 8,
            y < 8,
        ensures
            final(self)@ == old(self)@,
            shade == tile_shade(old(self)@.vram, tile as int, x as int, y as int),
            shade < 4,
            old(self).cache_kept(final(self)),
            final(self).cached(tile as int),
    {
        proof {
            use_type_invariant(&*self);
        }
        if self.tile_cache[tile].dirty {
            self.refresh_tile(tile);
        }
        proof {
            use_type_invariant(&*self);
            lemma_small_fields(
                self@.vram[tile * 16 + y * 2 + 1],
                (7 - x) as u8,
            );
            lemma_small_fields(self@.vram[tile * 16 + y * 2], (7 - x) as u8);
            assert(self.tile_cache@[tile as int].pixels@[(y * 8 + x) as int] == tile_shade(
                self@.vram,
                tile as int,
                (y * 8 + x) % 8,
                (y * 8 + x) / 8,
            ));
        }
        self.tile_cache[tile].pixels[(y * 8 + x) as usize]
    }

    /// The shade at column `x`, row `y` of the picture that the tile map at
    /// `map` describes.
    fn map_pixel(&mut self, map: u16, x: u16, y: u16) -> (shade: u8)
        requires
            map == 0x9800 || map == 0x9C00,
            x < 256,
            y < 256,
        ensures
            final(self)@ == old(self)@,
            shade == old(self)@.map_shade(map, x as int, y as int),
            shade < 4,
            old(self).cache_kept(final(self)),
    {
        proof {
            use_type_invariant(&*self);
        }
        let index: u8 = self.vram.read(map - VRAM_START + (y / 8) * 32 + x / 8);
        let tile: usize = if self.lcdc.value & 0x10 != 0 || index >= 128 {
            index as usize
        } else {
            256 + index as usize
        };
        self.tile_pixel(tile, (x % 8) as u8, (y % 8) as u8)
    }

    /// Draws the background into the current scanline, and notes in
    /// `bg_priority` the columns where its shade is not 0.
    fn draw_background(&mut self, bg_priority: &mut Vec<bool>)
        requires
            old(self)@.ly < FRAME_HEIGHT,
            old(bg_priority)@.len() == FRAME_WIDTH,
        ensures
            final(self)@ == old(self)@.background_upto(FRAME_WIDTH as int),
            final(bg_priority)@.len() == FRAME_WIDTH,
            forall|x: int|
                0 <= x < FRAME_WIDTH ==> #[trigger] final(bg_priority)@[x] == (old(bg_priority)@[x]
                    || old(self)@.background_shade(x) != 0),
            old(self).cache_kept(final(self)),
    {
        proof {
            use_type_invariant(&*self);
        }
        let ghost scene = self@;
        let palette: u8 = self.bgp.get();
        let map: u16 = if self.lcdc.value & 0x08 != 0 {
            0x9C00
        } else {
            0x9800
        };
        let line: usize = self.ly.get() as usize;
        let y: u16 = (self.ly.get() as u16 + self.scy.get() as u16) % 256;
        let scroll: u16 = self.scx.get() as u16;
        let start: usize = line * FRAME_WIDTH;
        assert(self@ =~= scene.background_upto(0)) by {
            assert(self@.frame =~= scene.background_upto(0).frame);
        }
        let mut i: usize = 0;
        while i < FRAME_WIDTH
            invariant
                i <= FRAME_WIDTH,
                scene.wf(),
                scene.ly < FRAME_HEIGHT,
                line == scene.ly,
                start == line * FRAME_WIDTH,
                palette == scene.bgp,
                map == scene.background_map(),
                y == (scene.ly + scene.scy) % 256,
                scroll == scene.scx,
                self@ == scene.background_upto(i as int),
                old(self).cache_kept(self),
                bg_priority@.len() == FRAME_WIDTH,
                forall|x: int|
                    0 <= x < i ==> #[trigger] bg_priority@[x] == (old(bg_priority)@[x]
                        || scene.background_shade(x) != 0),
                forall|x: int| i <= x < FRAME_WIDTH ==> #[trigger] bg_priority@[x] == old(bg_priority)@[x],
            decreases FRAME_WIDTH - i,
        {
            let x: u16 = (i as u16 + scroll) % 256;
            let shade: u8 = self.map_pixel(map, x, y);
            let color: u32 = Gpu::colorize(shade, palette);
            if shade != 0 {
                bg_priority[i] = true;
            }
            proof {
                use_type_invariant(&*self);
            }
            self.frame_buffer[start + i] = color;
            proof {
                assert(self@.frame =~= scene.background_upto(i + 1).frame);
            }
            i = i + 1;
        }
    }

    /// Draws the window into the current scanline where it covers it, and
    /// notes in `bg_priority` the columns where its shade is not 0.
    fn draw_window(&mut self, bg_priority: &mut Vec<bool>)
        requires
            old(self)@.ly < FRAME_HEIGHT,
            old(bg_priority)@.len() == FRAME_WIDTH,
        ensures
            final(self)@ == old(self)@.window_upto(FRAME_WIDTH as int),
            final(bg_priority)@.len() == FRAME_WIDTH,
            forall|x: int|
                0 <= x < FRAME_WIDTH ==> #[trigger] final(bg_priority)@[x] == (old(bg_priority)@[x]
                    || (old(self)@.window_covers(x) && old(self)@.window_shade(x) != 0)),
            old(self).cache_kept(final(self)),
    {
        proof {
            use_type_invariant(&*self);
        }
        let ghost scene = self@;
        let palette: u8 = self.bgp.get();
        let window_y: u8 = self.wy.get();
        let window_x: usize = self.wx.get() as usize;
        let line: u8 = self.ly.get();
        assert(self@ =~= scene.window_upto(0)) by {
            assert(self@.frame =~= scene.window_upto(0).frame);
        }
        if line < window_y {
            assert(self@ =~= scene.window_upto(FRAME_WIDTH as int)) by {
                assert(self@.frame =~= scene.window_upto(FRAME_WIDTH as int).frame);
            }
            return ;
        }
        let map: u16 = if self.lcdc.value & 0x40 != 0 {
            0x9C00
        } else {
            0x9800
        };
        let y: u16 = (line - window_y) as u16;
        let start: usize = line as usize * FRAME_WIDTH;
        let mut i: usize = 0;
        while i < FRAME_WIDTH
            invariant
                i <= FRAME_WIDTH,
                scene.wf(),
                scene.ly < FRAME_HEIGHT,
                scene.ly >= scene.wy,
                line == scene.ly,
                start == line * FRAME_WIDTH,
                palette == scene.bgp,
                map == scene.window_map(),
                y == scene.ly - scene.wy,
                window_x == scene.wx,
                self@ == scene.window_upto(i as int),
                old(self).cache_kept(self),
                bg_priority@.len() == FRAME_WIDTH,
                forall|x: int|
                    0 <= x < i ==> #[trigger] bg_priority@[x] == (old(bg_priority)@[x] || (
                    scene.window_covers(x) && scene.window_shade(x) != 0)),
                forall|x: int| i <= x < FRAME_WIDTH ==> #[trigger] bg_priority@[x] == old(bg_priority)@[x],
            decreases FRAME_WIDTH - i,
        {
            if i + 7 >= window_x {
                let x: u16 = (i + 7 - window_x) as u16;
                let shade: u8 = self.map_pixel(map, x, y);
                let color: u32 = Gpu::colorize(shade, palette);
                if shade != 0 {
                    bg_priority[i] = true;
                }
                proof {
                    use_type_invariant(&*self);
                }
                self.frame_buffer[start + i] = color;
            }
            proof {
                assert(self@.frame =~= scene.window_upto(i + 1).frame);
            }
            i = i + 1;
        }
    }
}


impl Gpu {
    /// Which of the forty sprites are drawn on the current scanline.
    fn select_sprites(&self) -> (selected: Vec<bool>)
        ensures
            selected@.len() == SPRITE_COUNT,
            forall|i: int|
                0 <= i < SPRITE_COUNT ==> #[trigger] selected@[i] == self@.sprite_selected(i),
    {
        proof {
            use_type_invariant(self);
        }
        let line: i32 = self.ly.get() as i32;
        let height: i32 = if self.lcdc.value & 0x04 != 0 {
            16
        } else {
            8
        };
        let mut selected: Vec<bool> = Vec::with_capacity(SPRITE_COUNT);
        let mut count: usize = 0;
        let mut i: usize = 0;
        while i < SPRITE_COUNT
            invariant
                i <= SPRITE_COUNT,
                line == self@.ly,
                height == self@.sprite_height(),
                sprites_agree(self.sprite_table@, self@.oam),
                self@.oam.len() == OAM_SIZE,
                count == self@.sprites_before(i as int),
                count <= i,
                selected@.len() == i,
                forall|j: int| 0 <= j < i ==> #[trigger] selected@[j] == self@.sprite_selected(j),
            decreases SPRITE_COUNT - i,
        {
            let sprite = self.sprite_table[i];
            assert(sprite == sprite_at(self@.oam, i as int));
            let on_line = sprite.y_pos <= line && line < sprite.y_pos + height;
            selected.push(on_line && count < SPRITES_PER_LINE);
            if on_line {
                count = count + 1;
            }
            i = i + 1;
        }
        selected
    }

    /// The shade that sprite `index`, which has a row on the current
    /// scanline, has at column `x`.
    fn sprite_pixel(&mut self, index: usize, x: usize) -> (shade: u8)
        requires
            index < SPRITE_COUNT,
            x < FRAME_WIDTH,
            old(self)@.sprite_on_line(index as int),
        ensures
            final(self)@ == old(self)@,
            shade == old(self)@.sprite_shade(index as int, x as int),
            shade < 4,
            old(self).cache_kept(final(self)),
    {
        proof {
            use_type_invariant(&*self);
        }
        let sprite = self.sprite_table[index];
        assert(sprite == sprite_at(self@.oam, index as int));
        let height: i32 = if self.lcdc.value & 0x04 != 0 {
            16
        } else {
            8
        };
        let column: i32 = x as i32 - sprite.x_pos;
        if column < 0 || column >= 8 {
            return 0;
        }
        let row: i32 = self.ly.get() as i32 - sprite.y_pos;
        let tile_column: i32 = if sprite.x_flip {
            7 - column
        } else {
            column
        };
        let tile_row: i32 = if sprite.y_flip {
            height - 1 - row
        } else {
            row
        };
        let tile: i32 = if height == 16 {
            sprite.tile_id as i32 - (sprite.tile_id % 2) as i32 + tile_row / 8
        } else {
            sprite.tile_id as i32
        };
        self.tile_pixel(tile as usize, tile_column as u8, (tile_row % 8) as u8)
    }

    /// Draws the sprites into the current scanline. `bg_priority` says in
    /// which columns background or window put a shade other than 0.
    fn draw_sprites(&mut self, bg_priority: &Vec<bool>)
        requires
            old(self)@.ly < FRAME_HEIGHT,
            bg_priority@.len() == FRAME_WIDTH,
            forall|x: int|
                0 <= x < FRAME_WIDTH ==> #[trigger] bg_priority@[x] == old(self)@.opaque_at(x),
        ensures
            final(self)@ == old(self)@.sprites_upto(FRAME_WIDTH as int),
            old(self).cache_kept(final(self)),
    {
        proof {
            use_type_invariant(&*self);
        }
        let ghost scene = self@;
        let selected = self.select_sprites();
        let start: usize = self.ly.get() as usize * FRAME_WIDTH;
        let palette_zero: u8 = self.obp0.get();
        let palette_one: u8 = self.obp1.get();
        assert(self@ =~= scene.sprites_upto(0)) by {
            assert(self@.frame =~= scene.sprites_upto(0).frame);
        }
        let mut x: usize = 0;
        while x < FRAME_WIDTH
            invariant
                x <= FRAME_WIDTH,
                scene.wf(),
                scene.ly < FRAME_HEIGHT,
                start == scene.ly * FRAME_WIDTH,
                palette_zero == scene.obp0,
                palette_one == scene.obp1,
                bg_priority@.len() == FRAME_WIDTH,
                forall|c: int| 0 <= c < FRAME_WIDTH ==> #[trigger] bg_priority@[c] == scene.opaque_at(c),
                selected@.len() == SPRITE_COUNT,
                forall|i: int|
                    0 <= i < SPRITE_COUNT ==> #[trigger] selected@[i] == scene.sprite_selected(i),
                self@ == scene.sprites_upto(x as int),
                old(self).cache_kept(self),
            decreases FRAME_WIDTH - x,
        {
            let mut i: usize = 0;
            let mut found = false;
            while i < SPRITE_COUNT && !found
                invariant
                    i <= SPRITE_COUNT,
                    x < FRAME_WIDTH,
                    scene.wf(),
                    scene.ly < FRAME_HEIGHT,
                    start == scene.ly * FRAME_WIDTH,
                    palette_zero == scene.obp0,
                    palette_one == scene.obp1,
                    bg_priority@.len() == FRAME_WIDTH,
                    bg_priority@[x as int] == scene.opaque_at(x as int),
                    selected@.len() == SPRITE_COUNT,
                    forall|k: int|
                        0 <= k < SPRITE_COUNT ==> #[trigger] selected@[k] == scene.sprite_selected(
                            k,
                        ),
                    !found ==> self@ == scene.sprites_upto(x as int),
                    !found ==> forall|j: int| 0 <= j < i ==> !scene.sprite_draws(j, x as int),
                    found ==> self@ == scene.sprites_upto(x + 1),
                    old(self).cache_kept(self),
                decreases SPRITE_COUNT - i + (if found { 0int } else { 1int }),
            {
                if selected[i] {
                    proof {
                        use_type_invariant(&*self);
                    }
                    let sprite = self.sprite_table[i];
                    assert(sprite == sprite_at(self@.oam, i as int));
                    let shade: u8 = self.sprite_pixel(i, x);
                    if shade != 0 && !(sprite.behind_background && bg_priority[x]) {
                        let palette: u8 = if sprite.use_palette_one {
                            palette_one
                        } else {
                            palette_zero
                        };
                        let color: u32 = Gpu::colorize(shade, palette);
                        proof {
                            use_type_invariant(&*self);
                            assert(scene.sprite_draws(i as int, x as int));
                            lemma_top_sprite_skips(scene, x as int, 0, i as int);
                        }
                        self.frame_buffer[start + x] = color;
                        proof {
                            assert(self@.frame =~= scene.sprites_upto(x + 1).frame);
                        }
                        found = true;
                    }
                }
                if !found {
                    i = i + 1;
                }
            }
            proof {
                if !found {
                    lemma_top_sprite_skips(scene, x as int, 0, SPRITE_COUNT as int);
                    assert(self@.frame =~= scene.sprites_upto(x + 1).frame);
                }
            }
            x = x + 1;
        }
    }

    /// Draws the current scanline into the frame: background, window and
    /// sprites, each if `LCDC` shows it.
    fn update_scanline(&mut self)
        requires
            old(self)@.ly < FRAME_HEIGHT,
        ensures
            final(self)@ == old(self)@.render_line(),
            old(self).cache_kept(final(self)),
    {
        proof {
            use_type_invariant(&*self);
        }
        let ghost scene = self@;
        let mut bg_priority: Vec<bool> = vec![false; FRAME_WIDTH];
        if self.lcdc.value & 0x01 != 0 {
            self.draw_background(&mut bg_priority);
        }
        let ghost with_background = self@;
        if self.lcdc.value & 0x20 != 0 {
            self.draw_window(&mut bg_priority);
        }
        let ghost with_window = self@;
        if self.lcdc.value & 0x02 != 0 {
            self.draw_sprites(&bg_priority);
        }
        proof {
            assert forall|i: int| 0 <= i < FRAME_SIZE implies self@.frame[i]
                == scene.render_line().frame[i] by {
                let x = i % (FRAME_WIDTH as int);
                lemma_sprites_ignore_frame_from(scene, with_window, x, 0);
            }
            assert(self@.frame =~= scene.render_line().frame);
        }
    }
}


/// The tile that pixel `i` of the tile sheet, counted row by row, belongs to.
pub open spec fn sheet_tile(i: int) -> int {
    ((i / 128) / 8) * 16 + (i % 128) / 8
}

/// The interrupt controller after the controller asked for what `ticked` says.
pub open spec fn raised(interrupt: InterruptHandler, ticked: Ticked) -> InterruptHandler {
    let after_vblank = if ticked.vblank {
        interrupt.with_request(InterruptFlag::VBlank)
    } else {
        interrupt
    };
    if ticked.stat {
        after_vblank.with_request(InterruptFlag::Lcdc)
    } else {
        after_vblank
    }
}

/// What the sink holds after `ticked`: the last frame finished, or what it
/// held before where none was.
pub open spec fn delivered(sink: Option<Seq<u32>>, ticked: Ticked) -> Option<Seq<u32>> {
    if ticked.frame is Some {
        ticked.frame
    } else {
        sink
    }
}

impl Gpu {
    /// Compares `LY` to `LYC` anew and says whether that asks for a status
    /// interrupt.
    fn line_compare(&mut self) -> (rises: bool)
        ensures
            final(self)@ == old(self)@.compared(),
            rises == old(self)@.coincidence_rises(),
            forall|id: int| final(self).cached(id) == old(self).cached(id),
    {
        proof {
            use_type_invariant(&*self);
        }
        let equal = self.ly.get() == self.lyc.get();
        let rises = !self.coincidence && equal && self.stat.value & 0x40 != 0;
        self.coincidence = equal;
        rises
    }

    /// Begins scanline `ly` in phase `mode` and says whether that asks for a
    /// status interrupt.
    fn begin_line(&mut self, ly: u8, mode: StatusMode, enable: u8) -> (stat: bool)
        requires
            old(self)@.enabled(),
            ly < SCANLINES,
            mode == mode_at(ly, 0),
        ensures
            final(self)@ == old(self)@.begin_line(ly, mode, enable).gpu,
            stat == old(self)@.begin_line(ly, mode, enable).stat,
            forall|id: int| final(self).cached(id) == old(self).cached(id),
    {
        let entered = mode != self.mode && self.stat.value & enable != 0;
        self.store_position(ly, 0, mode);
        let rises = self.line_compare();
        entered || rises
    }

    /// Ends the current phase.
    fn cross(&mut self, video_sink: &mut VideoSink) -> (asked: (bool, bool))
        requires
            old(self)@.enabled(),
        ensures
            final(self)@ == old(self)@.cross().gpu,
            asked.0 == old(self)@.cross().vblank,
            asked.1 == old(self)@.cross().stat,
            final(video_sink)@ == delivered(old(video_sink)@, old(self)@.cross()),
            final(self)@.enabled(),
            old(self).cache_kept(final(self)),
    {
        proof {
            use_type_invariant(&*self);
        }
        let line: u8 = self.ly.get();
        if line >= FRAME_HEIGHT as u8 {
            if line >= SCANLINES - 1 {
                (false, self.begin_line(0, StatusMode::Oam, 0x20))
            } else {
                (false, self.begin_line(line + 1, StatusMode::VBlank, 0x10))
            }
        } else if self.dot < OAM_CUTOFF {
            self.store_position(line, OAM_CUTOFF, StatusMode::Transfer);
            (false, false)
        } else if self.dot < TRANSFER_CUTOFF {
            let stat = self.stat.value & 0x08 != 0;
            self.update_scanline();
            self.store_position(line, TRANSFER_CUTOFF, StatusMode::HBlank);
            (false, stat)
        } else if line == FRAME_HEIGHT as u8 - 1 {
            let frame = self.frame_buffer.clone();
            assert(frame@ =~= self.frame_buffer@);
            video_sink.append(frame);
            (true, self.begin_line(FRAME_HEIGHT as u8, StatusMode::VBlank, 0x10))
        } else {
            (false, self.begin_line(line + 1, StatusMode::Oam, 0x20))
        }
    }

    /// Counts `left` clock cycles as far as the end of the current phase,
    /// and says how many are left over and which interrupts were asked for.
    fn phase(&mut self, left: usize, video_sink: &mut VideoSink) -> (done: (usize, bool, bool))
        requires
            old(self)@.enabled(),
        ensures
            final(self)@ == old(self)@.phase(left as nat).gpu,
            done.0 == old(self)@.phase_rest(left as nat),
            done.1 == old(self)@.phase(left as nat).vblank,
            done.2 == old(self)@.phase(left as nat).stat,
            final(video_sink)@ == delivered(old(video_sink)@, old(self)@.phase(left as nat)),
            final(self)@.enabled(),
            final(self)@.wf(),
            old(self)@.wf(),
            old(self).cache_kept(final(self)),
    {
        proof {
            use_type_invariant(&*self);
        }
        let line: u8 = self.ly.get();
        let boundary: u16 = if line >= FRAME_HEIGHT as u8 {
            TOTAL_SCANLINE_CYCLES
        } else if self.dot < OAM_CUTOFF {
            OAM_CUTOFF
        } else if self.dot < TRANSFER_CUTOFF {
            TRANSFER_CUTOFF
        } else {
            TOTAL_SCANLINE_CYCLES
        };
        let room: u16 = boundary - self.dot;
        if left < room as usize {
            let dot: u16 = self.dot + left as u16;
            let mode = self.mode;
            self.store_position(line, dot, mode);
            proof {
                use_type_invariant(&*self);
            }
            (0, false, false)
        } else {
            let asked = self.cross(video_sink);
            proof {
                use_type_invariant(&*self);
            }
            (left - room as usize, asked.0, asked.1)
        }
    }

    /// Advances the controller by `cycles` clock cycles. Interrupts it asks
    /// for are recorded in `interrupt`; a frame it finishes goes to `video_sink`.
    pub fn cycles(
        &mut self,
        cycles: usize,
        interrupt: &mut InterruptHandler,
        video_sink: &mut VideoSink,
    )
        ensures
            final(self)@ == old(self)@.tick(cycles as nat).gpu,
            *final(interrupt) == raised(*old(interrupt), old(self)@.tick(cycles as nat)),
            final(video_sink)@ == delivered(old(video_sink)@, old(self)@.tick(cycles as nat)),
            final(self)@.wf(),
            old(self).cache_kept(final(self)),
    {
        proof {
            use_type_invariant(&*self);
        }
        let ghost before = self@;
        let rises = self.line_compare();
        proof {
            use_type_invariant(&*self);
        }
        if !self.display_enabled() {
            return ;
        }
        let mut vblank = false;
        let mut stat = rises;
        let ghost mut frame: Option<Seq<u32>> = None;
        let mut left: usize = cycles;
        proof {
            lemma_advance_nothing(self@);
        }
        while left > 0
            invariant
                self@.enabled(),
                self@.wf(),
                before.tick(cycles as nat) == (Ticked { gpu: self@, vblank, stat, frame }).followed_by(
                    self@.advance(left as nat),
                ),
                video_sink@ == delivered(old(video_sink)@, Ticked { gpu: self@, vblank, stat, frame }),
                old(self).cache_kept(self),
            decreases left,
        {
            let ghost here = self@;
            let ghost so_far = Ticked { gpu: here, vblank, stat, frame };
            let done = self.phase(left, video_sink);
            proof {
                let step = here.phase(left as nat);
                lemma_advance_unfolds(here, left as nat);
                assert(before.tick(cycles as nat) == so_far.followed_by(
                    step.followed_by(step.gpu.advance(done.0 as nat)),
                ));
                frame = so_far.followed_by(step).frame;
                assert(so_far.followed_by(step.followed_by(step.gpu.advance(done.0 as nat)))
                    == so_far.followed_by(step).followed_by(step.gpu.advance(done.0 as nat)));
            }
            vblank = vblank || done.1;
            stat = stat || done.2;
            left = done.0;
        }
        proof {
            lemma_advance_nothing(self@);
        }
        if vblank {
            interrupt.request_interrupt(InterruptFlag::VBlank);
        }
        if stat {
            interrupt.request_interrupt(InterruptFlag::Lcdc);
        }
    }

    /// A picture of all 384 tiles, sixteen to a row, in the colours of the
    /// background palette: 128 pixels wide and 192 high.
    pub fn get_tiles(&mut self) -> (display: Vec<u32>)
        ensures
            final(self)@ == old(self)@,
            display@ == old(self)@.tile_sheet(),
            forall|id: int| 0 <= id < TILE_COUNT ==> final(self).cached(id),
    {
        let palette: u8 = self.bgp.get();
        let mut display: Vec<u32> = Vec::with_capacity(TILE_SHEET_WIDTH * TILE_SHEET_HEIGHT);
        let mut i: usize = 0;
        while i < TILE_SHEET_WIDTH * TILE_SHEET_HEIGHT
            invariant
                i <= TILE_SHEET_WIDTH * TILE_SHEET_HEIGHT,
                self@ == old(self)@,
                palette == self@.bgp,
                display@.len() == i,
                forall|j: int| 0 <= j < i ==> #[trigger] display@[j] == self@.tile_sheet()[j],
                forall|j: int| 0 <= j < i ==> self.cached(#[trigger] sheet_tile(j)),
            decreases TILE_SHEET_WIDTH * TILE_SHEET_HEIGHT - i,
        {
            let column: usize = i % TILE_SHEET_WIDTH;
            let row: usize = i / TILE_SHEET_WIDTH;
            let tile: usize = (row / 8) * 16 + column / 8;
            let ghost before = *self;
            let shade: u8 = self.tile_pixel(tile, (column % 8) as u8, (row % 8) as u8);
            proof {
                assert forall|j: int| 0 <= j <= i implies self.cached(#[trigger] sheet_tile(j)) by {
                    if j < i {
                        assert(before.cached(sheet_tile(j)));
                    }
                }
            }
            display.push(Gpu::colorize(shade, palette));
            i = i + 1;
        }
        assert(display@ =~= self@.tile_sheet());
        proof {
            assert forall|id: int| 0 <= id < TILE_COUNT implies self.cached(id) by {
                let j = ((id / 16) * 8) * 128 + (id % 16) * 8;
                assert(sheet_tile(j) == id);
            }
        }
        display
    }
}

/// A controller that is well-formed and switched on stays in its phase
/// when no cycle is counted.
pub proof fn lemma_advance_nothing(gpu: GpuModel)
    requires
        gpu.wf(),
    ensures
        gpu.advance(0) == Ticked::quiet(gpu),
{
}

/// Advancing is ending the current phase and advancing by what is left.
pub proof fn lemma_advance_unfolds(gpu: GpuModel, cycles: nat)
    requires
        gpu.wf(),
        gpu.enabled(),
    ensures
        gpu.phase(cycles).gpu.wf(),
        gpu.advance(cycles) == gpu.phase(cycles).followed_by(
            gpu.phase(cycles).gpu.advance(gpu.phase_rest(cycles)),
        ),
{
    if gpu.stays(cycles) {
        lemma_advance_nothing(gpu.phase(cycles).gpu);
    }
}

/// While the controller is switched on, its place in the frame moves on by
/// just the cycles counted, modulo the 70224 cycles of a frame: `LY` goes
/// through 0 to 153 once in every frame.
pub proof fn lemma_frame_position(gpu: GpuModel, cycles: nat)
    requires
        gpu.wf(),
        gpu.enabled(),
    ensures
        gpu.tick(cycles).gpu.wf(),
        gpu.tick(cycles).gpu.enabled(),
        gpu.tick(cycles).gpu.frame_position() == (gpu.frame_position() + cycles) % (
        FRAME_CYCLES as int),
        gpu.tick(cycles).gpu.ly == ((gpu.frame_position() + cycles) % (FRAME_CYCLES as int)) / (
        TOTAL_SCANLINE_CYCLES as int),
{
    lemma_advance_position(gpu.compared(), cycles);
}

/// What `lemma_frame_position` says, for the advance without the comparison
/// of `LY` and `LYC` that goes before it.
pub proof fn lemma_advance_position(gpu: GpuModel, cycles: nat)
    requires
        gpu.wf(),
        gpu.enabled(),
    ensures
        gpu.advance(cycles).gpu.wf(),
        gpu.advance(cycles).gpu.enabled(),
        gpu.advance(cycles).gpu.frame_position() == (gpu.frame_position() + cycles) % (
        FRAME_CYCLES as int),
    decreases cycles,
{
    if gpu.stays(cycles) {
    } else {
        let room = (gpu.boundary() - gpu.dot) as nat;
        let next = gpu.cross().gpu;
        assert(next.wf() && next.enabled());
        assert(next.frame_position() == (gpu.frame_position() + room) % (FRAME_CYCLES as int));
        lemma_advance_position(next, (cycles - room) as nat);
        let position = gpu.frame_position();
        let rest = cycles - room;
        vstd::arithmetic::div_mod::lemma_add_mod_noop(position + room, rest, FRAME_CYCLES as int);
        vstd::arithmetic::div_mod::lemma_mod_twice(position + room, FRAME_CYCLES as int);
        vstd::arithmetic::div_mod::lemma_add_mod_noop(
            (position + room) % (FRAME_CYCLES as int),
            rest,
            FRAME_CYCLES as int,
        );
    }
}

/// While the controller is switched off, `LY` is 0, the phase is `HBlank`,
/// and counting cycles asks for no interrupt and finishes no frame.
pub proof fn lemma_disabled_rests(gpu: GpuModel, cycles: nat)
    requires
        gpu.wf(),
        !gpu.enabled(),
    ensures
        gpu.ly == 0,
        gpu.mode == StatusMode::HBlank,
        gpu.tick(cycles).gpu == gpu.compared(),
        !gpu.tick(cycles).vblank,
        !gpu.tick(cycles).stat,
        gpu.tick(cycles).frame is None,
{
}

/// A write by the processor leaves the controller well-formed.
pub proof fn lemma_write_keeps_wf(gpu: GpuModel, address: u16, data: u8)
    requires
        gpu.wf(),
    ensures
        gpu.write(address, data).wf(),
{
}

} // verus!
