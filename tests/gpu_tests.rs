use jeebie::color::GBColor;
use jeebie::gpu::{GpuError, Tile, GPU};
use jeebie::registers::{LCDControl, LCDPosition, LCDStatus, Mode, SpriteSize, TileSelector};

const LCDC: usize = 0xFF40;
const SCROLL_X: usize = 0xFF42;
const SCROLL_Y: usize = 0xFF43;
const LINE: usize = 0xFF44;
const PALETTE: usize = 0xFF47;

const WHITE: (u8, u8, u8) = (255, 255, 255);
const LIGHT: (u8, u8, u8) = (192, 192, 192);
const DARK: (u8, u8, u8) = (96, 96, 96);
const BLACK: (u8, u8, u8) = (0, 0, 0);

/// A unit at the start of the OAM search of line 0.
fn at_line_start() -> GPU {
    let mut gpu = GPU::new();
    gpu.emulate(204);
    assert_eq!(gpu.mode(), Mode::OAMRead);
    gpu.write_register(LINE, 0).unwrap();
    gpu
}

/// Runs the OAM search and pixel transfer of the current line.
fn draw_current_line(gpu: &mut GPU) {
    gpu.emulate(80);
    gpu.emulate(172);
}

#[test]
fn get_tile_test() {
    let mut gpu = GPU::new();
    // first row of tile 0 in set 0: pixels 0 1 2 3 3 2 1 0
    gpu.write_vram(0, 0b0101_1010u8);
    gpu.write_vram(1, 0b0011_1100u8);

    let tile = gpu.get_tile(TileSelector::Set0, 0);

    assert_eq!(tile.pixels[0], GBColor::Off);
    assert_eq!(tile.pixels[1], GBColor::On33);
    assert_eq!(tile.pixels[2], GBColor::On66);
    assert_eq!(tile.pixels[3], GBColor::On);

    assert_eq!(tile.pixels[4], GBColor::On);
    assert_eq!(tile.pixels[5], GBColor::On66);
    assert_eq!(tile.pixels[6], GBColor::On33);
    assert_eq!(tile.pixels[7], GBColor::Off);

    for i in 8..64 {
        assert_eq!(tile.pixels[i], GBColor::Off);
    }
}

#[test]
fn get_pixel_test() {
    let mut gpu = GPU::new();
    gpu.write_vram(0, 0b0101_1010u8);
    gpu.write_vram(1, 0b0011_1100u8);

    assert_eq!(gpu.get_tile_pixel(TileSelector::Set0, 0, 0), GBColor::Off);
    assert_eq!(gpu.get_tile_pixel(TileSelector::Set0, 0, 1), GBColor::On33);
    assert_eq!(gpu.get_tile_pixel(TileSelector::Set0, 0, 2), GBColor::On66);
    assert_eq!(gpu.get_tile_pixel(TileSelector::Set0, 0, 3), GBColor::On);

    assert_eq!(gpu.get_tile_pixel(TileSelector::Set0, 0, 4), GBColor::On);
    assert_eq!(gpu.get_tile_pixel(TileSelector::Set0, 0, 5), GBColor::On66);
    assert_eq!(gpu.get_tile_pixel(TileSelector::Set0, 0, 6), GBColor::On33);
    assert_eq!(gpu.get_tile_pixel(TileSelector::Set0, 0, 7), GBColor::Off);
}

#[test]
fn pixel_agrees_with_tile() {
    let mut gpu = GPU::new();
    for i in 0..0x1800usize {
        gpu.write_vram(i, (i * 37 + 11) as u8);
    }
    for set in [TileSelector::Set0, TileSelector::Set1] {
        for tile_index in [0usize, 1, 77, 128, 255] {
            let tile = gpu.get_tile(set, tile_index);
            for p in 0..64 {
                assert_eq!(gpu.get_tile_pixel(set, tile_index, p), tile.pixels[p]);
            }
        }
    }
}

#[test]
fn later_rows_and_tiles_decode() {
    let mut gpu = GPU::new();
    // row 3 of tile 5: low plane 0b1000_0001, high plane 0b1000_0000
    gpu.write_vram(5 * 16 + 6, 0b1000_0001);
    gpu.write_vram(5 * 16 + 7, 0b1000_0000);
    let tile = gpu.get_tile(TileSelector::Set0, 5);
    assert_eq!(tile.pixels[24], GBColor::On33);
    assert_eq!(tile.pixels[31], GBColor::On);
    for c in 1..7 {
        assert_eq!(tile.pixels[24 + c], GBColor::Off);
    }
    assert_eq!(gpu.get_tile_pixel(TileSelector::Set0, 5, 31), GBColor::On);
}

#[test]
fn set1_tile0_is_set0_tile128() {
    let mut gpu = GPU::new();
    gpu.write_vram(0x800, 0b1111_0000);
    gpu.write_vram(0x801, 0b1100_1100);
    for p in 0..64 {
        assert_eq!(
            gpu.get_tile_pixel(TileSelector::Set1, 0, p),
            gpu.get_tile_pixel(TileSelector::Set0, 128, p)
        );
    }
    assert_eq!(gpu.get_tile_pixel(TileSelector::Set1, 0, 7), GBColor::On);
    assert_eq!(gpu.get_tile_pixel(TileSelector::Set1, 0, 2), GBColor::On66);
    assert_eq!(gpu.get_tile_pixel(TileSelector::Set1, 0, 4), GBColor::On33);
}

#[test]
fn new_tile_is_blank() {
    let tile = Tile::new();
    for i in 0..64 {
        assert_eq!(tile.pixels[i], GBColor::Off);
    }
}

#[test]
fn color_ordinals_and_rgb() {
    assert_eq!(GBColor::from_u8(0), GBColor::Off);
    assert_eq!(GBColor::from_u8(1), GBColor::On33);
    assert_eq!(GBColor::from_u8(2), GBColor::On66);
    assert_eq!(GBColor::from_u8(3), GBColor::On);
    assert_eq!(GBColor::Off.to_u8u8u8(), WHITE);
    assert_eq!(GBColor::On33.to_u8u8u8(), LIGHT);
    assert_eq!(GBColor::On66.to_u8u8u8(), DARK);
    assert_eq!(GBColor::On.to_u8u8u8(), BLACK);
}

#[test]
fn control_register_round_trip() {
    for b in 0..=255u8 {
        let mut c = LCDControl::new();
        c.set_from_u8(b);
        assert_eq!(c.as_u8(), b);
    }
}

#[test]
fn control_register_fields() {
    let mut c = LCDControl::new();
    assert_eq!(c.as_u8(), 0);
    c.set_from_u8(0b1001_0100);
    assert!(c.lcd_enable);
    assert_eq!(c.window_tile_map, TileSelector::Set0);
    assert!(!c.window_enable);
    assert_eq!(c.bgw_tile_data_select, TileSelector::Set1);
    assert_eq!(c.bg_tile_map, TileSelector::Set0);
    assert_eq!(c.sprite_size, SpriteSize::Size16);
    assert!(!c.sprite_enable);
    assert!(!c.bg_enable);
}

#[test]
fn status_register_round_trip() {
    for b in 0..=255u8 {
        let mut s = LCDStatus::new();
        s.set_from_u8(b);
        assert_eq!(s.to_u8(), b & 0x7F);
    }
}

#[test]
fn status_register_fields() {
    let mut s = LCDStatus::new();
    assert_eq!(s.to_u8(), 0);
    assert_eq!(s.mode, Mode::HBlank);
    s.set_from_u8(0b1100_0110);
    assert!(s.coincidence_irq);
    assert!(!s.oam_irq);
    assert!(!s.vblank_irq);
    assert!(!s.hblank_irq);
    assert!(s.coincidence_flag);
    assert_eq!(s.mode, Mode::OAMRead);
    s.set_from_u8(0b0000_0011);
    assert_eq!(s.mode, Mode::VRAMRead);
    s.set_from_u8(0b0000_0001);
    assert_eq!(s.mode, Mode::VBlank);
}

#[test]
fn position_starts_at_zero() {
    let p = LCDPosition::new();
    assert_eq!((p.scroll_y, p.scroll_x, p.window_y, p.window_x), (0, 0, 0, 0));
}

#[test]
fn registers_read_back() {
    let mut gpu = GPU::new();
    assert_eq!(gpu.read_register(LCDC), Ok(0));
    assert_eq!(gpu.write_register(LCDC, 0x91), Ok(()));
    assert_eq!(gpu.read_register(LCDC), Ok(0x91));
    assert_eq!(gpu.write_register(SCROLL_X, 12), Ok(()));
    assert_eq!(gpu.write_register(SCROLL_Y, 34), Ok(()));
    assert_eq!(gpu.read_register(SCROLL_X), Ok(12));
    assert_eq!(gpu.read_register(SCROLL_Y), Ok(34));
    assert_eq!(gpu.write_register(LINE, 77), Ok(()));
    assert_eq!(gpu.read_register(LINE), Ok(77));
}

#[test]
fn register_errors() {
    let mut gpu = GPU::new();
    assert_eq!(gpu.write_register(PALETTE, 0xE4), Ok(()));
    assert_eq!(gpu.read_register(PALETTE), Err(GpuError::WriteToReadOnly));
    assert_eq!(gpu.read_register(0xFF41), Err(GpuError::UnmappedAddress(0xFF41)));
    assert_eq!(gpu.write_register(0xFF45, 1), Err(GpuError::UnmappedAddress(0xFF45)));
    assert_eq!(gpu.read_register(0x8000), Err(GpuError::UnmappedAddress(0x8000)));
}

#[test]
fn vram_and_oam_are_separate() {
    let mut gpu = GPU::new();
    gpu.write_vram(8191, 0xAB);
    gpu.write_oam(159, 0xCD);
    gpu.write_oam(0, 0x12);
    assert_eq!(gpu.read_vram(8191), 0xAB);
    assert_eq!(gpu.read_oam(159), 0xCD);
    assert_eq!(gpu.read_oam(0), 0x12);
    assert_eq!(gpu.read_vram(0), 0);
    assert_eq!(gpu.read_vram(159), 0);
}

#[test]
fn mode_cycle_thresholds() {
    let mut gpu = at_line_start();
    // tile 0, row 0: every pixel has ordinal 1
    gpu.write_vram(0, 0xFF);
    gpu.emulate(79);
    assert_eq!(gpu.mode(), Mode::OAMRead);
    gpu.emulate(1);
    assert_eq!(gpu.mode(), Mode::VRAMRead);
    gpu.emulate(172);
    assert_eq!(gpu.mode(), Mode::HBlank);
    assert_eq!(gpu.read_register(LINE), Ok(0));
    let frame = gpu.get_framebuffer().to_vec();
    assert_eq!(frame.len(), 160 * 144);
    for col in 0..160 {
        assert_eq!(frame[col], LIGHT);
        assert_eq!(frame[160 + col], BLACK);
    }
    gpu.emulate(204);
    assert_eq!(gpu.read_register(LINE), Ok(1));
    assert_eq!(gpu.mode(), Mode::OAMRead);
}

#[test]
fn excess_cycles_are_dropped() {
    let mut gpu = GPU::new();
    gpu.emulate(300);
    assert_eq!(gpu.mode(), Mode::OAMRead);
    assert_eq!(gpu.read_register(LINE), Ok(1));
    gpu.emulate(79);
    assert_eq!(gpu.mode(), Mode::OAMRead);
    gpu.emulate(1);
    assert_eq!(gpu.mode(), Mode::VRAMRead);
}

#[test]
fn frame_boundary() {
    let mut gpu = at_line_start();
    for line in 0..143u8 {
        assert_eq!(gpu.read_register(LINE), Ok(line));
        assert!(!gpu.vblank_pending());
        gpu.emulate(80);
        gpu.emulate(172);
        gpu.emulate(204);
    }
    assert_eq!(gpu.mode(), Mode::VBlank);
    assert_eq!(gpu.read_register(LINE), Ok(143));
    assert!(gpu.vblank_pending());
    for _ in 0..10 {
        gpu.emulate(456);
        assert_eq!(gpu.mode(), Mode::VBlank);
    }
    assert_eq!(gpu.read_register(LINE), Ok(153));
    gpu.emulate(456);
    assert_eq!(gpu.read_register(LINE), Ok(0));
    assert_eq!(gpu.mode(), Mode::OAMRead);
}

#[test]
fn full_frame_takes_70224_cycles_after_first_search() {
    let mut gpu = at_line_start();
    let mut total: u32 = 0;
    while !gpu.vblank_pending() {
        gpu.emulate(4);
        total += 4;
    }
    // 143 lines of 456 cycles reach the vertical blank
    assert_eq!(total, 143 * 456);
    while gpu.mode() != Mode::OAMRead {
        gpu.emulate(4);
        total += 4;
    }
    assert_eq!(total, 154 * 456);
    assert_eq!(gpu.read_register(LINE), Ok(0));
}

#[test]
fn horizontal_tile_map_wrap() {
    let mut gpu = at_line_start();
    // tile 1 row 0: ordinal 1; tile 2 row 0: ordinal 2; tile 3 row 0: ordinal 3
    gpu.write_vram(16, 0xFF);
    gpu.write_vram(33, 0xFF);
    gpu.write_vram(48, 0xFF);
    gpu.write_vram(49, 0xFF);
    // map 0: column 31 holds tile 1, column 0 holds tile 2, offset 32 holds tile 3
    gpu.write_vram(0x1800 + 31, 1);
    gpu.write_vram(0x1800, 2);
    gpu.write_vram(0x1800 + 32, 3);
    gpu.write_register(SCROLL_X, 252).unwrap();
    draw_current_line(&mut gpu);
    let frame = gpu.get_framebuffer().to_vec();
    for col in 0..4 {
        assert_eq!(frame[col], LIGHT);
    }
    for col in 4..12 {
        assert_eq!(frame[col], DARK);
    }
    for col in 12..20 {
        assert_eq!(frame[col], WHITE);
    }
}

#[test]
fn scroll_within_tile() {
    let mut gpu = at_line_start();
    // tile 1 row 0: only the pixel in column 5 is set
    gpu.write_vram(16, 0b0010_0000);
    gpu.write_vram(0x1800 + 1, 1);
    gpu.write_register(SCROLL_X, 3).unwrap();
    draw_current_line(&mut gpu);
    let frame = gpu.get_framebuffer().to_vec();
    // column c shows background x = c + 3; x = 13 is column 5 of tile 1
    for col in 0..20 {
        let expected = if col == 10 { LIGHT } else { WHITE };
        assert_eq!(frame[col], expected);
    }
}

#[test]
fn vertical_scroll_wraps() {
    let mut gpu = at_line_start();
    gpu.emulate(80);
    gpu.emulate(172);
    gpu.emulate(204);
    // now on line 1; scroll 255 makes the background row (1 + 255) mod 256 = 0
    gpu.write_register(SCROLL_Y, 255).unwrap();
    gpu.write_vram(0, 0xFF);
    gpu.write_vram(1, 0xFF);
    draw_current_line(&mut gpu);
    let frame = gpu.get_framebuffer().to_vec();
    for col in 0..160 {
        assert_eq!(frame[160 + col], BLACK);
        assert_eq!(frame[col], WHITE);
    }
}

#[test]
fn tile_data_and_map_selectors() {
    let mut gpu = at_line_start();
    // bit 4: tile set 1 (tile 0 starts at 0x800); bit 3: tile map 1 (0x1C00)
    gpu.write_register(LCDC, 0b0001_1000).unwrap();
    gpu.write_vram(0x1C00, 2);
    gpu.write_vram(0x800 + 2 * 16 + 1, 0xFF);
    draw_current_line(&mut gpu);
    let frame = gpu.get_framebuffer().to_vec();
    for col in 0..8 {
        assert_eq!(frame[col], DARK);
    }
    assert_eq!(frame[8], WHITE);
}

#[test]
fn vblank_flag_consumed_once() {
    let mut gpu = at_line_start();
    for _ in 0..143 {
        gpu.emulate(80);
        gpu.emulate(172);
        gpu.emulate(204);
    }
    assert!(gpu.vblank_pending());
    let first = gpu.get_framebuffer().to_vec();
    assert!(!gpu.vblank_pending());
    let second = gpu.get_framebuffer().to_vec();
    assert!(!gpu.vblank_pending());
    assert_eq!(first, second);
    assert_eq!(gpu.mode(), Mode::VBlank);
    assert_eq!(gpu.read_register(LINE), Ok(143));
}

#[test]
fn off_screen_line_is_not_drawn() {
    let mut gpu = at_line_start();
    gpu.write_vram(0, 0xFF);
    gpu.write_register(LINE, 200).unwrap();
    draw_current_line(&mut gpu);
    assert_eq!(gpu.mode(), Mode::HBlank);
    let frame = gpu.get_framebuffer().to_vec();
    assert!(frame.iter().all(|p| *p == BLACK));
}
