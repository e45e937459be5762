use vstd::prelude::*;

verus! {

/// Whether bit `bit` (0 = least significant) of `value` is 1.
pub open spec fn bit_set(value: u8, bit: u8) -> bool {
    (value >> bit) & 1u8 == 1u8
}

/// The byte whose bits, from bit 7 down to bit 0, are the given flags.
pub open spec fn pack_bits(
    b7: bool,
    b6: bool,
    b5: bool,
    b4: bool,
    b3: bool,
    b2: bool,
    b1: bool,
    b0: bool,
) -> u8 {
    (if b7 { 0x80u8 } else { 0u8 }) | (if b6 { 0x40u8 } else { 0u8 }) | (if b5 { 0x20u8 } else { 0u8 })
        | (if b4 { 0x10u8 } else { 0u8 }) | (if b3 { 0x08u8 } else { 0u8 }) | (if b2 { 0x04u8 } else {
        0u8
    }) | (if b1 { 0x02u8 } else { 0u8 }) | (if b0 { 0x01u8 } else { 0u8 })
}

/// Each bit of a packed byte is the flag given for it.
pub proof fn lemma_pack_bits(b7: bool, b6: bool, b5: bool, b4: bool, b3: bool, b2: bool, b1: bool, b0: bool)
    ensures
        bit_set(pack_bits(b7, b6, b5, b4, b3, b2, b1, b0), 7) == b7,
        bit_set(pack_bits(b7, b6, b5, b4, b3, b2, b1, b0), 6) == b6,
        bit_set(pack_bits(b7, b6, b5, b4, b3, b2, b1, b0), 5) == b5,
        bit_set(pack_bits(b7, b6, b5, b4, b3, b2, b1, b0), 4) == b4,
        bit_set(pack_bits(b7, b6, b5, b4, b3, b2, b1, b0), 3) == b3,
        bit_set(pack_bits(b7, b6, b5, b4, b3, b2, b1, b0), 2) == b2,
        bit_set(pack_bits(b7, b6, b5, b4, b3, b2, b1, b0), 1) == b1,
        bit_set(pack_bits(b7, b6, b5, b4, b3, b2, b1, b0), 0) == b0,
{
    let r = pack_bits(b7, b6, b5, b4, b3, b2, b1, b0);
    assert((((r >> 7u8) & 1u8 == 1u8) == b7) && (((r >> 6u8) & 1u8 == 1u8) == b6) && (((r >> 5u8) & 1u8 == 1u8) == b5) && (((r >> 4u8) & 1u8 == 1u8) == b4) && (((r >> 3u8) & 1u8 == 1u8) == b3) && (((r >> 2u8) & 1u8 == 1u8) == b2) && (((r >> 1u8) & 1u8 == 1u8) == b1) && (((r >> 0u8) & 1u8 == 1u8) == b0)
    ) by (bit_vector)
        requires
            r == (if b7 { 0x80u8 } else { 0u8 }) | (if b6 { 0x40u8 } else { 0u8 }) | (if b5 {
                0x20u8
            } else {
                0u8
            }) | (if b4 { 0x10u8 } else { 0u8 }) | (if b3 { 0x08u8 } else { 0u8 }) | (if b2 {
                0x04u8
            } else {
                0u8
            }) | (if b1 { 0x02u8 } else { 0u8 }) | (if b0 { 0x01u8 } else { 0u8 }),
    ;
}

/// Packing the bits of a byte gives the byte back.
pub proof fn lemma_unpack_pack(b: u8)
    ensures
        pack_bits(
            bit_set(b, 7),
            bit_set(b, 6),
            bit_set(b, 5),
            bit_set(b, 4),
            bit_set(b, 3),
            bit_set(b, 2),
            bit_set(b, 1),
            bit_set(b, 0),
        ) == b,
{
    assert((if (b >> 7u8) & 1u8 == 1u8 { 0x80u8 } else { 0u8 }) | (if (b >> 6u8) & 1u8 == 1u8 {
        0x40u8
    } else {
        0u8
    }) | (if (b >> 5u8) & 1u8 == 1u8 { 0x20u8 } else { 0u8 }) | (if (b >> 4u8) & 1u8 == 1u8 {
        0x10u8
    } else {
        0u8
    }) | (if (b >> 3u8) & 1u8 == 1u8 { 0x08u8 } else { 0u8 }) | (if (b >> 2u8) & 1u8 == 1u8 {
        0x04u8
    } else {
        0u8
    }) | (if (b >> 1u8) & 1u8 == 1u8 { 0x02u8 } else { 0u8 }) | (if (b >> 0u8) & 1u8 == 1u8 {
        0x01u8
    } else {
        0u8
    }) == b) by (bit_vector);
}

/// Tests bit `bit` of `value`.
pub fn is_set(value: u8, bit: u8) -> (r: bool)
    requires
        bit < 8,
    ensures
        r == bit_set(value, bit),
{
    (value >> bit) & 1 == 1
}

/// Chooses one of the two tile sets, or one of the two tile maps.
#[derive(Copy, Clone, PartialEq, Eq, Structural, Debug)]
pub enum TileSelector {
    Set0,
    Set1,
}

/// Sprite size mode: 8x8 or 8x16 pixels.
#[derive(Copy, Clone, PartialEq, Eq, Structural, Debug)]
pub enum SpriteSize {
    Size8,
    Size16,
}

/// The timing phase the graphics unit is in.
///  - `HBlank` (ordinal 0): horizontal blanking, memory freely accessible.
///  - `VBlank` (ordinal 1): vertical blanking, memory freely accessible.
///  - `OAMRead` (ordinal 2): the controller reads sprite attribute memory.
///  - `VRAMRead` (ordinal 3): the controller reads sprite memory and video memory.
#[derive(Copy, Clone, PartialEq, Eq, Structural, Debug)]
pub enum Mode {
    HBlank,
    VBlank,
    OAMRead,
    VRAMRead,
}

/// The two-bit ordinal of a mode, as found in the status register.
pub open spec fn mode_ordinal(m: Mode) -> u8 {
    match m {
        Mode::HBlank => 0,
        Mode::VBlank => 1,
        Mode::OAMRead => 2,
        Mode::VRAMRead => 3,
    }
}

/// The mode with a given two-bit ordinal.
pub open spec fn mode_of(n: u8) -> Mode {
    if n == 0 {
        Mode::HBlank
    } else if n == 1 {
        Mode::VBlank
    } else if n == 2 {
        Mode::OAMRead
    } else {
        Mode::VRAMRead
    }
}

/// The selector that a single register bit stands for.
pub open spec fn selector_of(bit: bool) -> TileSelector {
    if bit {
        TileSelector::Set1
    } else {
        TileSelector::Set0
    }
}

/// LCD control register.
///  - bit 7: display enable
///  - bit 6: window tile map (0 = map 0, 1 = map 1)
///  - bit 5: window enable
///  - bit 4: background and window tile data (0 = set 0, 1 = set 1)
///  - bit 3: background tile map (0 = map 0, 1 = map 1)
///  - bit 2: sprite size (0 = 8x8, 1 = 8x16)
///  - bit 1: sprite enable
///  - bit 0: background enable
#[derive(Copy, Clone, PartialEq, Eq, Structural, Debug)]
pub struct LCDControl {
    pub lcd_enable: bool,
    pub window_tile_map: TileSelector,
    pub window_enable: bool,
    pub bgw_tile_data_select: TileSelector,
    pub bg_tile_map: TileSelector,
    pub sprite_size: SpriteSize,
    pub sprite_enable: bool,
    pub bg_enable: bool,
}

/// The control register that a byte encodes.
pub open spec fn lcdc_decode(b: u8) -> LCDControl {
    LCDControl {
        lcd_enable: bit_set(b, 7),
        window_tile_map: selector_of(bit_set(b, 6)),
        window_enable: bit_set(b, 5),
        bgw_tile_data_select: selector_of(bit_set(b, 4)),
        bg_tile_map: selector_of(bit_set(b, 3)),
        sprite_size: if bit_set(b, 2) { SpriteSize::Size16 } else { SpriteSize::Size8 },
        sprite_enable: bit_set(b, 1),
        bg_enable: bit_set(b, 0),
    }
}

/// The byte that encodes a control register.
pub open spec fn lcdc_encode(c: LCDControl) -> u8 {
    pack_bits(
        c.lcd_enable,
        c.window_tile_map == TileSelector::Set1,
        c.window_enable,
        c.bgw_tile_data_select == TileSelector::Set1,
        c.bg_tile_map == TileSelector::Set1,
        c.sprite_size == SpriteSize::Size16,
        c.sprite_enable,
        c.bg_enable,
    )
}

fn selector_from_bit(bit: bool) -> (r: TileSelector)
    ensures
        r == selector_of(bit),
{
    if bit {
        TileSelector::Set1
    } else {
        TileSelector::Set0
    }
}

fn flag(b: bool, mask: u8) -> (r: u8)
    ensures
        r == (if b { mask } else { 0u8 }),
{
    if b {
        mask
    } else {
        0
    }
}

fn pack(b7: bool, b6: bool, b5: bool, b4: bool, b3: bool, b2: bool, b1: bool, b0: bool) -> (r: u8)
    ensures
        r == pack_bits(b7, b6, b5, b4, b3, b2, b1, b0),
{
    flag(b7, 0x80) | flag(b6, 0x40) | flag(b5, 0x20) | flag(b4, 0x10) | flag(b3, 0x08) | flag(b2, 0x04)
        | flag(b1, 0x02) | flag(b0, 0x01)
}

impl LCDControl {
    pub fn new() -> (r: LCDControl)
        ensures
            r == lcdc_decode(0),
    {
        proof {
            assert(forall|i: u8| i < 8 ==> !bit_set(0u8, i)) by (bit_vector);
        }
        LCDControl {
            lcd_enable: false,
            window_tile_map: TileSelector::Set0,
            window_enable: false,
            bgw_tile_data_select: TileSelector::Set0,
            bg_tile_map: TileSelector::Set0,
            sprite_size: SpriteSize::Size8,
            sprite_enable: false,
            bg_enable: false,
        }
    }

    /// Sets every field from a byte value.
    pub fn set_from_u8(&mut self, data: u8)
        ensures
            *final(self) == lcdc_decode(data),
    {
        self.lcd_enable = is_set(data, 7);
        self.window_tile_map = selector_from_bit(is_set(data, 6));
        self.window_enable = is_set(data, 5);
        self.bgw_tile_data_select = selector_from_bit(is_set(data, 4));
        self.bg_tile_map = selector_from_bit(is_set(data, 3));
        self.sprite_size = if is_set(data, 2) {
            SpriteSize::Size16
        } else {
            SpriteSize::Size8
        };
        self.sprite_enable = is_set(data, 1);
        self.bg_enable = is_set(data, 0);
    }

    /// The register as a byte.
    pub fn as_u8(&self) -> (r: u8)
        ensures
            r == lcdc_encode(*self),
            bit_set(r, 7) == self.lcd_enable,
            bit_set(r, 6) == (self.window_tile_map == TileSelector::Set1),
            bit_set(r, 5) == self.window_enable,
            bit_set(r, 4) == (self.bgw_tile_data_select == TileSelector::Set1),
            bit_set(r, 3) == (self.bg_tile_map == TileSelector::Set1),
            bit_set(r, 2) == (self.sprite_size == SpriteSize::Size16),
            bit_set(r, 1) == self.sprite_enable,
            bit_set(r, 0) == self.bg_enable,
    {
        let r = pack(
            self.lcd_enable,
            self.window_tile_map == TileSelector::Set1,
            self.window_enable,
            self.bgw_tile_data_select == TileSelector::Set1,
            self.bg_tile_map == TileSelector::Set1,
            self.sprite_size == SpriteSize::Size16,
            self.sprite_enable,
            self.bg_enable,
        );
        proof {
            lemma_pack_bits(
                self.lcd_enable,
                self.window_tile_map == TileSelector::Set1,
                self.window_enable,
                self.bgw_tile_data_select == TileSelector::Set1,
                self.bg_tile_map == TileSelector::Set1,
                self.sprite_size == SpriteSize::Size16,
                self.sprite_enable,
                self.bg_enable,
            );
        }
        r
    }
}

/// Encoding a decoded control byte gives the byte back, for all 256 values.
pub proof fn lemma_lcdc_round_trip(b: u8)
    ensures
        lcdc_encode(lcdc_decode(b)) == b,
{
    lemma_unpack_pack(b);
}

/// Decoding an encoded control register gives the register back.
pub proof fn lemma_lcdc_decode_encode(c: LCDControl)
    ensures
        lcdc_decode(lcdc_encode(c)) == c,
{
    lemma_pack_bits(
        c.lcd_enable,
        c.window_tile_map == TileSelector::Set1,
        c.window_enable,
        c.bgw_tile_data_select == TileSelector::Set1,
        c.bg_tile_map == TileSelector::Set1,
        c.sprite_size == SpriteSize::Size16,
        c.sprite_enable,
        c.bg_enable,
    );
}

/// LCD status register.
///  - bit 6: coincidence interrupt enable
///  - bit 5: OAM-search interrupt enable
///  - bit 4: vertical-blank interrupt enable
///  - bit 3: horizontal-blank interrupt enable
///  - bit 2: coincidence flag
///  - bits 1-0: the current mode's ordinal
/// Bit 7 is unused: it is dropped on decoding and encoded as 0.
#[derive(Copy, Clone, PartialEq, Eq, Structural, Debug)]
pub struct LCDStatus {
    pub coincidence_irq: bool,
    pub oam_irq: bool,
    pub vblank_irq: bool,
    pub hblank_irq: bool,
    pub coincidence_flag: bool,
    pub mode: Mode,
}

/// The status register that a byte encodes.
pub open spec fn stat_decode(b: u8) -> LCDStatus {
    LCDStatus {
        coincidence_irq: bit_set(b, 6),
        oam_irq: bit_set(b, 5),
        vblank_irq: bit_set(b, 4),
        hblank_irq: bit_set(b, 3),
        coincidence_flag: bit_set(b, 2),
        mode: mode_of(b & 3u8),
    }
}

/// The byte that encodes a status register.
pub open spec fn stat_encode(s: LCDStatus) -> u8 {
    pack_bits(
        false,
        s.coincidence_irq,
        s.oam_irq,
        s.vblank_irq,
        s.hblank_irq,
        s.coincidence_flag,
        false,
        false,
    ) | mode_ordinal(s.mode)
}

fn mode_from_bits(n: u8) -> (r: Mode)
    requires
        n < 4,
    ensures
        r == mode_of(n),
        mode_ordinal(r) == n,
{
    if n == 0 {
        Mode::HBlank
    } else if n == 1 {
        Mode::VBlank
    } else if n == 2 {
        Mode::OAMRead
    } else {
        Mode::VRAMRead
    }
}

fn mode_to_bits(m: Mode) -> (r: u8)
    ensures
        r == mode_ordinal(m),
{
    match m {
        Mode::HBlank => 0,
        Mode::VBlank => 1,
        Mode::OAMRead => 2,
        Mode::VRAMRead => 3,
    }
}

impl LCDStatus {
    pub fn new() -> (r: LCDStatus)
        ensures
            r == stat_decode(0),
    {
        proof {
            assert(forall|i: u8| i < 8 ==> !bit_set(0u8, i)) by (bit_vector);
            assert(0u8 & 3u8 == 0u8) by (bit_vector);
        }
        LCDStatus {
            coincidence_irq: false,
            oam_irq: false,
            vblank_irq: false,
            hblank_irq: false,
            coincidence_flag: false,
            mode: Mode::HBlank,
        }
    }

    /// Sets every field from a byte value; bit 7 is ignored.
    pub fn set_from_u8(&mut self, data: u8)
        ensures
            *final(self) == stat_decode(data),
    {
        self.coincidence_irq = is_set(data, 6);
        self.oam_irq = is_set(data, 5);
        self.vblank_irq = is_set(data, 4);
        self.hblank_irq = is_set(data, 3);
        self.coincidence_flag = is_set(data, 2);
        proof {
            assert(data & 3u8 < 4u8) by (bit_vector);
        }
        self.mode = mode_from_bits(data & 3);
    }

    /// The register as a byte; bit 7 is 0 and bits 1-0 hold the mode.
    pub fn to_u8(&self) -> (r: u8)
        ensures
            r == stat_encode(*self),
            r & 3u8 == mode_ordinal(self.mode),
            !bit_set(r, 7),
            bit_set(r, 6) == self.coincidence_irq,
            bit_set(r, 5) == self.oam_irq,
            bit_set(r, 4) == self.vblank_irq,
            bit_set(r, 3) == self.hblank_irq,
            bit_set(r, 2) == self.coincidence_flag,
    {
        let flags = pack(
            false,
            self.coincidence_irq,
            self.oam_irq,
            self.vblank_irq,
            self.hblank_irq,
            self.coincidence_flag,
            false,
            false,
        );
        let m = mode_to_bits(self.mode);
        proof {
            let p = pack_bits(
                false,
                self.coincidence_irq,
                self.oam_irq,
                self.vblank_irq,
                self.hblank_irq,
                self.coincidence_flag,
                false,
                false,
            );
            lemma_pack_bits(
                false,
                self.coincidence_irq,
                self.oam_irq,
                self.vblank_irq,
                self.hblank_irq,
                self.coincidence_flag,
                false,
                false,
            );
            assert(flags == p);
            lemma_or_low_bits(p, m);
        }
        flags | m
    }
}

/// Or-ing a two-bit value into a byte whose two low bits are clear keeps the
/// upper bits and sets the low two bits to that value.
proof fn lemma_or_low_bits(p: u8, m: u8)
    requires
        m < 4,
        !bit_set(p, 1),
        !bit_set(p, 0),
    ensures
        (p | m) & 3u8 == m,
        bit_set(p | m, 7) == bit_set(p, 7),
        bit_set(p | m, 6) == bit_set(p, 6),
        bit_set(p | m, 5) == bit_set(p, 5),
        bit_set(p | m, 4) == bit_set(p, 4),
        bit_set(p | m, 3) == bit_set(p, 3),
        bit_set(p | m, 2) == bit_set(p, 2),
{
    assert(((p | m) & 3u8 == m) && (((p | m) >> 7u8) & 1u8 == (p >> 7u8) & 1u8) && (((p | m) >> 6u8)
        & 1u8 == (p >> 6u8) & 1u8) && (((p | m) >> 5u8) & 1u8 == (p >> 5u8) & 1u8) && (((p | m)
        >> 4u8) & 1u8 == (p >> 4u8) & 1u8) && (((p | m) >> 3u8) & 1u8 == (p >> 3u8) & 1u8) && (((p
        | m) >> 2u8) & 1u8 == (p >> 2u8) & 1u8)) by (bit_vector)
        requires
            m < 4u8,
            (p >> 1u8) & 1u8 != 1u8,
            (p >> 0u8) & 1u8 != 1u8,
    ;
}

/// Encoding a decoded status byte gives the byte back with bit 7 cleared, for
/// all 256 values: bit 7 is the one bit that does not survive.
pub proof fn lemma_stat_round_trip(b: u8)
    ensures
        stat_encode(stat_decode(b)) == b & 0x7Fu8,
{
    let p = pack_bits(false, bit_set(b, 6), bit_set(b, 5), bit_set(b, 4), bit_set(b, 3), bit_set(b, 2), false, false);
    assert(b & 3u8 < 4u8) by (bit_vector);
    assert(mode_ordinal(mode_of(b & 3u8)) == b & 3u8);
    assert(p | (b & 3u8) == b & 0x7Fu8) by (bit_vector)
        requires
            p == (if false { 0x80u8 } else { 0u8 }) | (if (b >> 6u8) & 1u8 == 1u8 { 0x40u8 } else {
                0u8
            }) | (if (b >> 5u8) & 1u8 == 1u8 { 0x20u8 } else { 0u8 }) | (if (b >> 4u8) & 1u8 == 1u8 {
                0x10u8
            } else {
                0u8
            }) | (if (b >> 3u8) & 1u8 == 1u8 { 0x08u8 } else { 0u8 }) | (if (b >> 2u8) & 1u8 == 1u8 {
                0x04u8
            } else {
                0u8
            }) | (if false { 0x02u8 } else { 0u8 }) | (if false { 0x01u8 } else { 0u8 }),
    ;
}

/// Decoding an encoded status register gives the register back.
pub proof fn lemma_stat_decode_encode(s: LCDStatus)
    ensures
        stat_decode(stat_encode(s)) == s,
{
    let p = pack_bits(
        false,
        s.coincidence_irq,
        s.oam_irq,
        s.vblank_irq,
        s.hblank_irq,
        s.coincidence_flag,
        false,
        false,
    );
    lemma_pack_bits(
        false,
        s.coincidence_irq,
        s.oam_irq,
        s.vblank_irq,
        s.hblank_irq,
        s.coincidence_flag,
        false,
        false,
    );
    lemma_or_low_bits(p, mode_ordinal(s.mode));
}

/// Scroll and window position.
#[derive(Copy, Clone, PartialEq, Eq, Structural, Debug)]
pub struct LCDPosition {
    pub scroll_y: u8,
    pub scroll_x: u8,
    pub window_y: u8,
    /// the window's horizontal position plus 7: 7 stands for x = 0
    pub window_x: u8,
}

impl LCDPosition {
    pub fn new() -> (r: LCDPosition)
        ensures
            r.scroll_y == 0,
            r.scroll_x == 0,
            r.window_y == 0,
            r.window_x == 0,
    {
        LCDPosition { scroll_y: 0, scroll_x: 0, window_y: 0, window_x: 0 }
    }
}

} // verus!
