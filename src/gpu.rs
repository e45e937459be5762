use vstd::prelude::*;

use crate::color::{color_of, rgb_of, GBColor};
use crate::registers::{
    lcdc_decode, lcdc_encode, LCDControl, LCDPosition, Mode, TileSelector,
};

verus! {

/// Size in bytes of the tile data and tile map memory.
pub const VRAM_SIZE: usize = 8192;

/// Size in bytes of the sprite attribute memory.
pub const OAM_SIZE: usize = 160;

/// Width of the display in pixels.
pub const SCREEN_WIDTH: usize = 160;

/// Height of the display in pixels.
pub const SCREEN_HEIGHT: usize = 144;

/// Number of pixels in a frame.
pub const FRAME_SIZE: usize = 23040;

/// Video memory.
///
/// `data` holds tile data and tile maps, addressed from 0 (bus address 0x8000):
///  - 0x0000-0x07FF: tile set 1, tiles 0-127
///  - 0x0800-0x0FFF: tile set 1, tiles 128-255; tile set 0, tiles 128-255
///  - 0x1000-0x17FF: tile set 0, tiles 0-127
///  - 0x1800-0x1BFF: tile map 0
///  - 0x1C00-0x1FFF: tile map 1
///
/// Each tile is 16 bytes: 8 rows of two bytes, the low bit plane first. The
/// ordinal of pixel `c` of a row is bit `c` of the low byte plus twice bit `c`
/// of the high byte.
///
/// `oam` holds sprite attributes (bus addresses 0xFE00-0xFE9F).
pub struct VideoMemory {
    data: [u8; 8192],
    oam: [u8; 160],
}

/// A decoded 8x8 tile, row-major.
pub struct Tile {
    pub pixels: [GBColor; 64],
}

impl Tile {
    pub fn new() -> (r: Tile)
        ensures
            forall|i: int| 0 <= i < 64 ==> r.pixels@[i] == GBColor::Off,
    {
        Tile { pixels: [GBColor::Off; 64] }
    }
}

/// Errors on the register interface.
#[derive(Copy, Clone, PartialEq, Eq, Structural, Debug)]
pub enum GpuError {
    /// No register answers at this address.
    UnmappedAddress(usize),
    /// The palette register cannot be read back.
    WriteToReadOnly,
}

/// The ordinal (0 to 3) of pixel `bit` of a row held in the bytes `low` and `high`.
pub open spec fn pixel_ordinal(low: u8, high: u8, bit: u8) -> u8 {
    (((low >> bit) & 1u8) + 2 * ((high >> bit) & 1u8)) as u8
}

/// Address of the first byte of a tile: tile 0 of set 1 is tile 128 of set 0.
pub open spec fn tile_base(set: TileSelector, tile: int) -> int {
    (if set == TileSelector::Set1 {
        0x800int
    } else {
        0int
    }) + tile * 16
}

/// The shade of pixel `pixel` (0 to 63, row-major) of a tile.
pub open spec fn tile_pixel(data: Seq<u8>, set: TileSelector, tile: int, pixel: int) -> GBColor {
    let addr = tile_base(set, tile) + (pixel / 8) * 2;
    color_of(pixel_ordinal(data[addr], data[addr + 1], (pixel % 8) as u8))
}

/// The 64 shades of a tile, decoded row by row: row `r` comes from the two
/// bytes at `2 * r`, and column `c` of it from bit `c` of each.
pub open spec fn decode_tile(data: Seq<u8>, set: TileSelector, tile: int) -> Seq<GBColor> {
    Seq::new(
        64,
        |k: int|
            {
                let row_addr = tile_base(set, tile) + 2 * (k / 8);
                color_of(pixel_ordinal(data[row_addr], data[row_addr + 1], (k % 8) as u8))
            },
    )
}

/// Reading one pixel agrees with decoding the whole tile, for every tile and pixel.
pub proof fn lemma_pixel_matches_tile(data: Seq<u8>, set: TileSelector, tile: int, pixel: int)
    requires
        0 <= pixel < 64,
    ensures
        tile_pixel(data, set, tile, pixel) == decode_tile(data, set, tile)[pixel],
{
}

proof fn lemma_bit_le_one()
    ensures
        forall|x: u8, i: u8| #[trigger] ((x >> i) & 1u8) <= 1u8,
{
    assert(forall|x: u8, i: u8| #[trigger] ((x >> i) & 1u8) <= 1u8) by (bit_vector);
}

fn row_pixel(low: u8, high: u8, bit: u8) -> (r: GBColor)
    requires
        bit < 8,
    ensures
        r == color_of(pixel_ordinal(low, high, bit)),
{
    proof {
        lemma_bit_le_one();
    }
    let low_bit = (low >> bit) & 1;
    let high_bit = (high >> bit) & 1;
    GBColor::from_u8(low_bit + high_bit * 2)
}

/// Start of the tile map that a selector picks.
pub open spec fn map_base(map: TileSelector) -> int {
    if map == TileSelector::Set1 {
        0x1C00int
    } else {
        0x1800int
    }
}

/// Color of column `col` (0 to 159) of display line `line`: the background
/// plane is 256 pixels wide and high, scrolled by the position register, and
/// wraps around in both directions (32 tiles across).
pub open spec fn scanline_pixel(
    vram: Seq<u8>,
    lcdc: LCDControl,
    pos: LCDPosition,
    line: u8,
    col: int,
) -> (u8, u8, u8) {
    let v = (line + pos.scroll_y) % 256;
    let h = pos.scroll_x + col;
    let tile = vram[map_base(lcdc.bg_tile_map) + v / 8 + (h / 8) % 32];
    rgb_of(tile_pixel(vram, lcdc.bgw_tile_data_select, tile as int, (v % 8) * 8 + h % 8))
}

/// `frame` after line `line` has been drawn into it; every other line is kept.
#[verifier::opaque]
pub open spec fn render_line(
    vram: Seq<u8>,
    lcdc: LCDControl,
    lcdp: LCDPosition,
    line: u8,
    frame: Seq<(u8, u8, u8)>,
) -> Seq<(u8, u8, u8)> {
    Seq::new(
        FRAME_SIZE as nat,
        |j: int|
            if line * SCREEN_WIDTH <= j < line * SCREEN_WIDTH + SCREEN_WIDTH {
                scanline_pixel(vram, lcdc, lcdp, line, j - line * SCREEN_WIDTH)
            } else {
                frame[j]
            },
    )
}

/// How the column within a tile and the tile-map column move when the
/// horizontal position `h` advances by one pixel.
proof fn lemma_column_step(h: int)
    requires
        0 <= h,
    ensures
        h % 8 + 1 == 8 ==> (h + 1) % 8 == 0 && ((h + 1) / 8) % 32 == ((h / 8) % 32 + 1) % 32,
        h % 8 + 1 != 8 ==> (h + 1) % 8 == h % 8 + 1 && (h + 1) / 8 == h / 8,
{
}

/// Number of cycles that a phase of each mode lasts.
pub open spec fn mode_length(m: Mode) -> int {
    match m {
        Mode::OAMRead => 80,
        Mode::VRAMRead => 172,
        Mode::HBlank => 204,
        Mode::VBlank => 456,
    }
}

/// The line once a phase of mode `m` completes on line `line`: a horizontal
/// blank moves to the next line, a vertical blank too until line 153, after
/// which the frame starts over at line 0.
pub open spec fn line_after(m: Mode, line: u8) -> u8 {
    match m {
        Mode::HBlank => ((line + 1) % 256) as u8,
        Mode::VBlank => if line >= 153 {
            0u8
        } else {
            (line + 1) as u8
        },
        _ => line,
    }
}

/// The mode once a phase of mode `m` completes on line `line`.
pub open spec fn mode_after(m: Mode, line: u8) -> Mode {
    match m {
        Mode::OAMRead => Mode::VRAMRead,
        Mode::VRAMRead => Mode::HBlank,
        Mode::HBlank => if line_after(m, line) == 143 {
            Mode::VBlank
        } else {
            Mode::OAMRead
        },
        Mode::VBlank => if line >= 153 {
            Mode::OAMRead
        } else {
            Mode::VBlank
        },
    }
}

/// The state after `delta` more cycles. Cycles accumulate until the current
/// phase's length is reached; then the counter restarts at 0 (the excess is
/// dropped) and the next phase begins. Completing a pixel transfer draws the
/// current line if it is on screen; reaching line 143 from a horizontal blank
/// raises the vertical-blank flag.
pub open spec fn advance(s: GpuView, delta: u32) -> GpuView {
    let total = s.cycles + delta;
    if total < mode_length(s.mode) {
        GpuView { cycles: total as u32, ..s }
    } else {
        GpuView {
            mode: mode_after(s.mode, s.line),
            cycles: 0,
            line: line_after(s.mode, s.line),
            vblank_int: s.vblank_int || (s.mode == Mode::HBlank && line_after(s.mode, s.line) == 143),
            frame: if s.mode == Mode::VRAMRead && s.line < SCREEN_HEIGHT {
                render_line(s.vram, s.lcdc, s.lcdp, s.line, s.frame)
            } else {
                s.frame
            },
            ..s
        }
    }
}

/// What reading the register at bus address `addr` gives.
pub open spec fn register_read(s: GpuView, addr: usize) -> Result<u8, GpuError> {
    if addr == 0xFF40 {
        Ok(lcdc_encode(s.lcdc))
    } else if addr == 0xFF42 {
        Ok(s.lcdp.scroll_x)
    } else if addr == 0xFF43 {
        Ok(s.lcdp.scroll_y)
    } else if addr == 0xFF44 {
        Ok(s.line)
    } else if addr == 0xFF47 {
        Err(GpuError::WriteToReadOnly)
    } else {
        Err(GpuError::UnmappedAddress(addr))
    }
}

/// The state after writing `data` to the register at bus address `addr`, or
/// the error if no register takes writes there. The palette register accepts
/// writes and ignores them.
pub open spec fn register_write(s: GpuView, addr: usize, data: u8) -> Result<GpuView, GpuError> {
    if addr == 0xFF40 {
        Ok(GpuView { lcdc: lcdc_decode(data), ..s })
    } else if addr == 0xFF42 {
        Ok(GpuView { lcdp: LCDPosition { scroll_x: data, ..s.lcdp }, ..s })
    } else if addr == 0xFF43 {
        Ok(GpuView { lcdp: LCDPosition { scroll_y: data, ..s.lcdp }, ..s })
    } else if addr == 0xFF44 {
        Ok(GpuView { line: data, ..s })
    } else if addr == 0xFF47 {
        Ok(s)
    } else {
        Err(GpuError::UnmappedAddress(addr))
    }
}

/// The state after the frame has been read: the vertical-blank flag is cleared.
pub open spec fn frame_read(s: GpuView) -> GpuView {
    GpuView { vblank_int: false, ..s }
}

/// Reading the frame consumes the vertical-blank flag, and reading it again
/// changes nothing further.
pub proof fn lemma_frame_read_consumes_flag(s: GpuView)
    ensures
        !frame_read(s).vblank_int,
        frame_read(frame_read(s)) == frame_read(s),
        frame_read(s).frame == s.frame,
{
}

/// One full line from the start of its OAM search: after 80 cycles the pixel
/// transfer begins; after 172 more it ends with the line drawn and a
/// horizontal blank begins; after 204 more the next line starts, with an OAM
/// search, or with the vertical blank (and its flag raised) when that line is 143.
pub proof fn lemma_line_cycle(s: GpuView)
    requires
        s.mode == Mode::OAMRead,
        s.cycles == 0,
        s.line < SCREEN_HEIGHT,
    ensures
        advance(s, 80) == (GpuView { mode: Mode::VRAMRead, ..s }),
        advance(advance(s, 80), 172) == (GpuView {
            mode: Mode::HBlank,
            frame: render_line(s.vram, s.lcdc, s.lcdp, s.line, s.frame),
            ..s
        }),
        advance(advance(advance(s, 80), 172), 204) == (GpuView {
            mode: if s.line + 1 == 143 {
                Mode::VBlank
            } else {
                Mode::OAMRead
            },
            line: (s.line + 1) as u8,
            vblank_int: s.vblank_int || s.line + 1 == 143,
            frame: render_line(s.vram, s.lcdc, s.lcdp, s.line, s.frame),
            ..s
        }),
{
}

/// The state after `n` full on-screen lines of 80 + 172 + 204 cycles.
pub open spec fn run_lines(s: GpuView, n: nat) -> GpuView
    decreases n,
{
    if n == 0 {
        s
    } else {
        advance(advance(advance(run_lines(s, (n - 1) as nat), 80), 172), 204)
    }
}

/// The state after `n` lines of 456 cycles each.
pub open spec fn run_blank_lines(s: GpuView, n: nat) -> GpuView
    decreases n,
{
    if n == 0 {
        s
    } else {
        advance(run_blank_lines(s, (n - 1) as nat), 456)
    }
}

proof fn lemma_run_lines(s: GpuView, n: nat)
    requires
        s.mode == Mode::OAMRead,
        s.cycles == 0,
        s.line == 0,
        n <= 142,
    ensures
        run_lines(s, n).mode == Mode::OAMRead,
        run_lines(s, n).cycles == 0,
        run_lines(s, n).line == n,
        run_lines(s, n).vblank_int == s.vblank_int,
    decreases n,
{
    if n > 0 {
        lemma_run_lines(s, (n - 1) as nat);
        lemma_line_cycle(run_lines(s, (n - 1) as nat));
    }
}

proof fn lemma_run_blank_lines(s: GpuView, n: nat)
    requires
        s.mode == Mode::VBlank,
        s.cycles == 0,
        s.line == 143,
        n <= 10,
    ensures
        run_blank_lines(s, n).mode == Mode::VBlank,
        run_blank_lines(s, n).cycles == 0,
        run_blank_lines(s, n).line == 143 + n,
    decreases n,
{
    if n > 0 {
        lemma_run_blank_lines(s, (n - 1) as nat);
    }
}

/// A frame from its first line: after 143 full lines the vertical blank
/// begins on line 143 with its flag raised; 10 lines of 456 cycles later it is
/// on line 153, and one more line wraps to line 0 and a new OAM search.
pub proof fn lemma_frame_boundary(s: GpuView)
    requires
        s.mode == Mode::OAMRead,
        s.cycles == 0,
        s.line == 0,
    ensures
        run_lines(s, 143).mode == Mode::VBlank,
        run_lines(s, 143).line == 143,
        run_lines(s, 143).vblank_int,
        run_blank_lines(run_lines(s, 143), 10).mode == Mode::VBlank,
        run_blank_lines(run_lines(s, 143), 10).line == 153,
        run_blank_lines(run_lines(s, 143), 11).mode == Mode::OAMRead,
        run_blank_lines(run_lines(s, 143), 11).line == 0,
        run_blank_lines(run_lines(s, 143), 11).cycles == 0,
{
    lemma_run_lines(s, 142);
    lemma_line_cycle(run_lines(s, 142));
    lemma_run_blank_lines(run_lines(s, 143), 10);
}

/// The whole graphics unit: timing state, video memory, registers and the
/// frame being drawn.
pub struct GPU {
    mode: Mode,
    vblank_int: bool,
    line: u8,
    cycles: u32,
    vram: VideoMemory,
    lcdc: LCDControl,
    lcdp: LCDPosition,
    framebuffer: [(u8, u8, u8); 23040],
}

/// Abstract state of the graphics unit: what its contracts speak of.
pub ghost struct GpuView {
    pub mode: Mode,
    /// a finished frame waits to be read
    pub vblank_int: bool,
    pub line: u8,
    pub cycles: u32,
    /// tile data and tile maps, `VRAM_SIZE` bytes
    pub vram: Seq<u8>,
    /// sprite attributes, `OAM_SIZE` bytes
    pub oam: Seq<u8>,
    pub lcdc: LCDControl,
    pub lcdp: LCDPosition,
    /// `FRAME_SIZE` pixels, row-major
    pub frame: Seq<(u8, u8, u8)>,
}

impl View for GPU {
    type V = GpuView;

    closed spec fn view(&self) -> GpuView {
        GpuView {
            mode: self.mode,
            vblank_int: self.vblank_int,
            line: self.line,
            cycles: self.cycles,
            vram: self.vram.data@,
            oam: self.vram.oam@,
            lcdc: self.lcdc,
            lcdp: self.lcdp,
            frame: self.framebuffer@,
        }
    }
}

impl GPU {
    /// A unit with zeroed memory and registers, in `HBlank` on line 0.
    pub fn new() -> (r: GPU)
        ensures
            r@.mode == Mode::HBlank,
            !r@.vblank_int,
            r@.line == 0,
            r@.cycles == 0,
            r@.vram == Seq::new(VRAM_SIZE as nat, |i: int| 0u8),
            r@.oam == Seq::new(OAM_SIZE as nat, |i: int| 0u8),
            r@.frame == Seq::new(FRAME_SIZE as nat, |i: int| (0u8, 0u8, 0u8)),
            r@.lcdc == lcdc_decode(0),
            r@.lcdp == (LCDPosition { scroll_y: 0, scroll_x: 0, window_y: 0, window_x: 0 }),
    {
        let r = GPU {
            mode: Mode::HBlank,
            vblank_int: false,
            line: 0,
            cycles: 0,
            vram: VideoMemory { data: [0; 8192], oam: [0; 160] },
            lcdc: LCDControl::new(),
            lcdp: LCDPosition::new(),
            framebuffer: [(0, 0, 0); 23040],
        };
        assert(r@.vram =~= Seq::new(VRAM_SIZE as nat, |i: int| 0u8));
        assert(r@.oam =~= Seq::new(OAM_SIZE as nat, |i: int| 0u8));
        assert(r@.frame =~= Seq::new(FRAME_SIZE as nat, |i: int| (0u8, 0u8, 0u8)));
        r
    }

    /// Decodes a whole tile.
    pub fn get_tile(&self, set: TileSelector, tile_index: usize) -> (r: Tile)
        requires
            tile_index < 256,
        ensures
            r.pixels@ == decode_tile(self@.vram, set, tile_index as int),
    {
        let base: usize = if let TileSelector::Set1 = set {
            0x800
        } else {
            0
        } + tile_index * 16;
        let mut pixels = [GBColor::Off; 64];
        let mut row: usize = 0;
        while row < 8
            invariant
                row <= 8,
                base == tile_base(set, tile_index as int),
                base + 16 <= VRAM_SIZE,
                forall|k: int|
                    0 <= k < row * 8 ==> pixels@[k] == #[trigger] decode_tile(
                        self.vram.data@,
                        set,
                        tile_index as int,
                    )[k],
            decreases 8 - row,
        {
            let low = self.vram.data[base + row * 2];
            let high = self.vram.data[base + row * 2 + 1];
            let mut i: usize = 0;
            while i < 8
                invariant
                    row < 8,
                    i <= 8,
                    base == tile_base(set, tile_index as int),
                    base + 16 <= VRAM_SIZE,
                    low == self.vram.data@[base + row * 2],
                    high == self.vram.data@[base + row * 2 + 1],
                    forall|k: int|
                        0 <= k < row * 8 + i ==> pixels@[k] == #[trigger] decode_tile(
                            self.vram.data@,
                            set,
                            tile_index as int,
                        )[k],
                decreases 8 - i,
            {
                pixels[row * 8 + i] = row_pixel(low, high, i as u8);
                proof {
                    let k = row * 8 + i;
                    assert(k / 8 == row as int);
                    assert(k % 8 == i as int);
                }
                i += 1;
            }
            row += 1;
        }
        Tile { pixels }
    }

    /// Decodes pixel `pixel_index` (0 to 63, row-major) of a tile.
    pub fn get_tile_pixel(&self, set: TileSelector, tile_index: usize, pixel_index: usize) -> (r: GBColor)
        requires
            tile_index < 256,
            pixel_index < 64,
        ensures
            r == tile_pixel(self@.vram, set, tile_index as int, pixel_index as int),
    {
        let base: usize = if let TileSelector::Set1 = set {
            0x800
        } else {
            0
        } + tile_index * 16;
        let addr = base + (pixel_index / 8) * 2;
        row_pixel(self.vram.data[addr], self.vram.data[addr + 1], (pixel_index % 8) as u8)
    }

    /// Draws the background of the current line into the frame.
    fn render_scanline(&mut self)
        requires
            old(self)@.line < SCREEN_HEIGHT,
        ensures
            final(self)@ == (GpuView {
                frame: render_line(
                    old(self)@.vram,
                    old(self)@.lcdc,
                    old(self)@.lcdp,
                    old(self)@.line,
                    old(self)@.frame,
                ),
                ..old(self)@
            }),
    {
        let map: usize = if let TileSelector::Set1 = self.lcdc.bg_tile_map {
            0x1C00
        } else {
            0x1800
        };
        let sx = self.lcdp.scroll_x;
        let v: u16 = (self.line as u16 + self.lcdp.scroll_y as u16) % 256;
        let row: usize = (v / 8) as usize;
        let y: usize = (v % 8) as usize;
        let mut x: usize = (sx % 8) as usize;
        let mut x_offset: usize = (sx / 8) as usize;
        let fb_offset: usize = self.line as usize * SCREEN_WIDTH;
        let mut tile_index = self.read_vram(map + row + x_offset);
        let ghost s0 = self@;
        let mut i: usize = 0;
        while i < SCREEN_WIDTH
            invariant
                i <= SCREEN_WIDTH,
                s0 == old(self)@,
                s0.line < SCREEN_HEIGHT,
                self@ == (GpuView { frame: self@.frame, ..s0 }),
                map == map_base(s0.lcdc.bg_tile_map),
                sx == s0.lcdp.scroll_x,
                v == (s0.line + s0.lcdp.scroll_y) % 256,
                row == v / 8,
                y == v % 8,
                fb_offset == s0.line * SCREEN_WIDTH,
                x == (sx + i) % 8,
                x_offset == ((sx + i) / 8) % 32,
                tile_index == s0.vram[map + row + x_offset],
                forall|j: int|
                    0 <= j < FRAME_SIZE ==> #[trigger] self@.frame[j] == if fb_offset <= j < fb_offset
                        + i {
                        scanline_pixel(s0.vram, s0.lcdc, s0.lcdp, s0.line, j - fb_offset)
                    } else {
                        s0.frame[j]
                    },
            decreases SCREEN_WIDTH - i,
        {
            let ghost h = sx + i;
            let pixel = self.get_tile_pixel(
                self.lcdc.bgw_tile_data_select,
                tile_index as usize,
                y * 8 + x,
            );
            let rgb = pixel.to_u8u8u8();
            self.framebuffer[fb_offset + i] = rgb;
            proof {
                lemma_column_step(h);
            }
            x += 1;
            if x == 8 {
                x = 0;
                x_offset = (x_offset + 1) % 32;
                tile_index = self.read_vram(map + row + x_offset);
            }
            i += 1;
        }
        reveal(render_line);
        assert(self@.frame =~= render_line(s0.vram, s0.lcdc, s0.lcdp, s0.line, s0.frame));
    }

    /// The frame; reading it clears the vertical-blank flag.
    pub fn get_framebuffer(&mut self) -> (r: &[(u8, u8, u8)])
        ensures
            r@ == old(self)@.frame,
            final(self)@ == frame_read(old(self)@),
    {
        if self.vblank_int {
            self.vblank_int = false;
        }
        self.framebuffer.as_slice()
    }

    /// The current mode.
    pub fn mode(&self) -> (r: Mode)
        ensures
            r == self@.mode,
    {
        self.mode
    }

    /// Whether a finished frame waits to be read.
    pub fn vblank_pending(&self) -> (r: bool)
        ensures
            r == self@.vblank_int,
    {
        self.vblank_int
    }

    pub fn read_register(&self, addr: usize) -> (r: Result<u8, GpuError>)
        ensures
            r == register_read(self@, addr),
    {
        if addr == 0xFF40 {
            Ok(self.lcdc.as_u8())
        } else if addr == 0xFF42 {
            Ok(self.lcdp.scroll_x)
        } else if addr == 0xFF43 {
            Ok(self.lcdp.scroll_y)
        } else if addr == 0xFF44 {
            Ok(self.line)
        } else if addr == 0xFF47 {
            Err(GpuError::WriteToReadOnly)
        } else {
            Err(GpuError::UnmappedAddress(addr))
        }
    }

    pub fn write_register(&mut self, addr: usize, data: u8) -> (r: Result<(), GpuError>)
        ensures
            match register_write(old(self)@, addr, data) {
                Ok(s) => r == Ok::<(), GpuError>(()) && final(self)@ == s,
                Err(e) => r == Err::<(), GpuError>(e) && final(self)@ == old(self)@,
            },
    {
        if addr == 0xFF40 {
            self.lcdc.set_from_u8(data);
            Ok(())
        } else if addr == 0xFF42 {
            self.lcdp.scroll_x = data;
            Ok(())
        } else if addr == 0xFF43 {
            self.lcdp.scroll_y = data;
            Ok(())
        } else if addr == 0xFF44 {
            self.line = data;
            Ok(())
        } else if addr == 0xFF47 {
            Ok(())
        } else {
            Err(GpuError::UnmappedAddress(addr))
        }
    }

    /// Advances the unit by `delta` cycles; to be called after each
    /// instruction the processor executes, with the cycles it took.
    #[verifier::rlimit(40)]
    pub fn emulate(&mut self, delta: u32)
        ensures
            final(self)@ == advance(old(self)@, delta),
            final(self)@.cycles < mode_length(final(self)@.mode),
    {
        let total: u64 = self.cycles as u64 + delta as u64;
        match self.mode {
            Mode::OAMRead => {
                if total >= 80 {
                    self.cycles = 0;
                    self.mode = Mode::VRAMRead;
                } else {
                    self.cycles = total as u32;
                }
            },
            Mode::VRAMRead => {
                if total >= 172 {
                    self.cycles = 0;
                    self.mode = Mode::HBlank;
                    if (self.line as usize) < SCREEN_HEIGHT {
                        self.render_scanline();
                    }
                } else {
                    self.cycles = total as u32;
                }
            },
            Mode::HBlank => {
                if total >= 204 {
                    self.cycles = 0;
                    self.line = if self.line == 255 {
                        0
                    } else {
                        self.line + 1
                    };
                    if self.line == 143 {
                        self.vblank_int = true;
                        self.mode = Mode::VBlank;
                    } else {
                        self.mode = Mode::OAMRead;
                    }
                } else {
                    self.cycles = total as u32;
                }
            },
            Mode::VBlank => {
                if total >= 456 {
                    self.cycles = 0;
                    if self.line >= 153 {
                        self.line = 0;
                        self.mode = Mode::OAMRead;
                    } else {
                        self.line = self.line + 1;
                    }
                } else {
                    self.cycles = total as u32;
                }
            },
        }
    }

    pub fn write_vram(&mut self, addr: usize, value: u8)
        requires
            addr < VRAM_SIZE,
        ensures
            final(self)@ == (GpuView { vram: old(self)@.vram.update(addr as int, value), ..old(self)@ }),
    {
        self.vram.data[addr] = value;
    }

    pub fn read_vram(&self, addr: usize) -> (r: u8)
        requires
            addr < VRAM_SIZE,
        ensures
            r == self@.vram[addr as int],
    {
        self.vram.data[addr]
    }

    pub fn write_oam(&mut self, addr: usize, value: u8)
        requires
            addr < OAM_SIZE,
        ensures
            final(self)@ == (GpuView { oam: old(self)@.oam.update(addr as int, value), ..old(self)@ }),
    {
        self.vram.oam[addr] = value;
    }

    pub fn read_oam(&self, addr: usize) -> (r: u8)
        requires
            addr < OAM_SIZE,
        ensures
            r == self@.oam[addr as int],
    {
        self.vram.oam[addr]
    }
}

} // verus!
