//! Parsed view of the LCD registers (0x4000000 - 0x4000055).
//!
//! Background modes:
//!     tile modes:
//! 0: 4 tile layers (bg0 - bg3)
//! 1: 2 tile layers + 1 rotates/scaled tile layer (bg0 - bg2)
//! 2: 2 rotated/scaled tile layers (bg2, bg3)
//!     bitmap modes (all use bg 2):
//! 3: 240x160 15 bit bitmap with no page flip
//! 4: 240x160 8 bit bitmap with page flip. the 8 bits here are an index into
//!    the background palette at 0x5000000
//! 5: 160x128 15 bit bitmap with page flip

use vstd::prelude::*;
use crate::mem::RawMemory;
use crate::mem::Memory;
use crate::util::{
    fixed_hw, fixed_word, halfword_of, spec_halfword_of, spec_word_of, to_fixed_hw, to_fixed_word,
    word_of,
};

verus! {

/// Address: 0x4000000 - REG_DISPCNT (The display control register)
///                            R
/// F E D C  B A 9 8  7 6 5 4  3 2 1 0
/// W U U S  L L L L  F D B A  C M M M
#[derive(Clone, Copy, Debug, PartialEq, Eq)]
pub struct DispCnt {
    /// 0-2 (M) = The video mode
    pub bg_mode: u8,
    /// 4   (A) = the starting address of the bitmap in bitmapped modes
    ///           (mode 4 and 5), used for page flipping
    pub frame_base: u32,
    /// 5   (B) = if set, allow access to VRAM/OAM/PAL during HBlank
    pub hblank_interval_free: bool,
    /// 8-B (L) = enable the display of BGi
    pub bg_enabled: [bool; 4],
    /// D-E (U) = enable the display of window i
    pub window_enabled: [bool; 2],
    /// F   (W) = Enable Sprite Windows
    pub obj_win_enabled: bool,
}

impl DispCnt {
    /// The register that its two raw bytes hold.
    pub open spec fn spec_of_bytes(lo: u8, hi: u8) -> DispCnt {
        DispCnt {
            bg_mode: lo & 0x7,
            frame_base: if (lo & 0x10) > 0 {
                0x600_A000
            } else {
                0x600_0000
            },
            hblank_interval_free: (lo & 0x20) == 0x20,
            bg_enabled: [(hi & 1) > 0, (hi & 2) > 0, (hi & 4) > 0, (hi & 8) > 0],
            window_enabled: [(hi & 0x20) == 0x20, (hi & 0x40) == 0x40],
            obj_win_enabled: (hi & 0x80) == 0x80,
        }
    }

    /// Decode the two bytes of the register.
    #[verifier::when_used_as_spec(spec_of_bytes)]
    pub fn of_bytes(lo: u8, hi: u8) -> (r: DispCnt)
        ensures
            r == DispCnt::spec_of_bytes(lo, hi),
    {
        DispCnt {
            bg_mode: lo & 0x7,
            frame_base: if (lo & 0x10) > 0 {
                0x600_A000
            } else {
                0x600_0000
            },
            hblank_interval_free: (lo & 0x20) == 0x20,
            bg_enabled: [(hi & 1) > 0, (hi & 2) > 0, (hi & 4) > 0, (hi & 8) > 0],
            window_enabled: [(hi & 0x20) == 0x20, (hi & 0x40) == 0x40],
            obj_win_enabled: (hi & 0x80) == 0x80,
        }
    }

    /// The register while both its bytes are zero.
    pub fn new() -> (r: DispCnt)
        ensures
            r == DispCnt::spec_of_bytes(0, 0),
    {
        DispCnt::of_bytes(0, 0)
    }
}

/// Address: 0x4000004 - REG_DISPSTAT
///                              R R R
/// F E D C  B A 9 8  7 6 5 4  3 2 1 0
/// T T T T  T T T T  X X Y H  V Z G W
/// The three status bits are written by the display driver only.
#[derive(Clone, Copy, Debug, PartialEq, Eq, Structural)]
pub struct DispStat {
    /// 0   (W) = V Refresh status. This will be 0 during VDraw, and 1 during VBlank.
    pub is_vblank: bool,
    /// 1   (G) = H Refresh status. This will be 0 during HDraw, and 1 during HBlank
    pub is_hblank: bool,
    /// 2   (Z) = VCount Triggered Status. Set when the line counter equals the trigger.
    pub vcount_triggered: bool,
    /// 3   (V) = Enables LCD's VBlank IRQ. This interrupt goes off at the start of VBlank.
    pub vblank_irq_enabled: bool,
    /// 4   (H) = Enables LCD's HBlank IRQ. This interrupt goes off at the start of HBlank.
    pub hblank_irq_enabled: bool,
    /// 5   (Y) = Enable VCount trigger IRQ. Goes off when VCount line trigger is reached.
    pub vcount_irq_enabled: bool,
    /// 8-F (T) = Vcount line trigger.
    pub vcount_line_trigger: u8,
}

impl DispStat {
    /// The register while both its bytes are zero.
    pub fn new() -> (r: DispStat)
        ensures
            r == DispStat::spec_of_bytes(0, 0),
    {
        DispStat::of_bytes(0, 0)
    }

    /// The register that its two raw bytes hold: three status bits, three
    /// interrupt enable bits, and the trigger line.
    pub open spec fn spec_of_bytes(lo: u8, hi: u8) -> DispStat {
        DispStat {
            is_vblank: (lo & 0x1) == 0x1,
            is_hblank: (lo & 0x2) == 0x2,
            vcount_triggered: (lo & 0x4) == 0x4,
            vblank_irq_enabled: (lo & 0x8) == 0x8,
            hblank_irq_enabled: (lo & 0x10) == 0x10,
            vcount_irq_enabled: (lo & 0x20) == 0x20,
            vcount_line_trigger: hi,
        }
    }

    /// Decode the two bytes of the register.
    #[verifier::when_used_as_spec(spec_of_bytes)]
    pub fn of_bytes(lo: u8, hi: u8) -> (r: DispStat)
        ensures
            r == DispStat::spec_of_bytes(lo, hi),
    {
        DispStat {
            is_vblank: (lo & 0x1) == 0x1,
            is_hblank: (lo & 0x2) == 0x2,
            vcount_triggered: (lo & 0x4) == 0x4,
            vblank_irq_enabled: (lo & 0x8) == 0x8,
            hblank_irq_enabled: (lo & 0x10) == 0x10,
            vcount_irq_enabled: (lo & 0x20) == 0x20,
            vcount_line_trigger: hi,
        }
    }
}

/// Address: 0x400008 - 0x40001E: Background Registers
/// F E D C  B A 9 8  7 6 5 4  3 2 1 0
/// Z Z V M  M M M M  A C X X  S S P P
#[derive(Clone, Copy, Debug, PartialEq, Eq, Structural)]
pub struct BgCnt {
    /// 0-1 (P) = Priority - 0 highest, 3 is the lowest
    pub priority: u8,
    /// 2-3 (S) = Starting address of character tile data
    ///           Address = 0x6000000 + S * 0x4000
    pub tile_addr: u32,
    /// 6   (C) = Mosiac effect - 1 on, 0 off
    pub mosaic_enabled: bool,
    /// 7   (A) = Color palette type: 8 for one 256 color palette, 4 for
    ///           sixteen 16 color palettes
    pub depth: u8,
    /// 8-C (M) = Starting address of character tile map
    ///           Address = 0x6000000 + M * 0x800
    pub map_addr: u32,
    /// D   (V) = Screen Over: whether rotational backgrounds repeat at the edges
    pub overflow: bool,
    /// E-F (Z) = Size of tile map: 256x256, 512x256, 256x512, 512x512
    pub width: u16,
    pub height: u16,
}

impl BgCnt {
    /// The register while both its bytes are zero.
    pub fn new() -> (r: BgCnt)
        ensures
            r == BgCnt::spec_of_bytes(0, 0),
    {
        BgCnt::of_bytes(0, 0)
    }

    /// The register that its two raw bytes hold.
    pub open spec fn spec_of_bytes(lo: u8, hi: u8) -> BgCnt {
        let size = hi / 64;
        BgCnt {
            priority: lo & 3,
            tile_addr: (0x600_0000 + ((lo / 4) % 4) * 0x4000) as u32,
            mosaic_enabled: (lo & 0x40) == 0x40,
            depth: if lo >= 128 {
                8
            } else {
                4
            },
            map_addr: (0x600_0000 + (hi % 32) * 0x800) as u32,
            overflow: (hi & 0x20) == 0x20,
            width: if size == 1 || size == 3 {
                512
            } else {
                256
            },
            height: if size == 2 || size == 3 {
                512
            } else {
                256
            },
        }
    }

    /// Decode the two bytes of the register.
    #[verifier::when_used_as_spec(spec_of_bytes)]
    pub fn of_bytes(lo: u8, hi: u8) -> (r: BgCnt)
        ensures
            r == BgCnt::spec_of_bytes(lo, hi),
    {
        let size: u8 = hi / 64;
        BgCnt {
            priority: lo & 3,
            tile_addr: 0x600_0000 + (((lo / 4) % 4) as u32) * 0x4000,
            mosaic_enabled: (lo & 0x40) == 0x40,
            depth: if lo >= 128 {
                8
            } else {
                4
            },
            map_addr: 0x600_0000 + ((hi % 32) as u32) * 0x800,
            overflow: (hi & 0x20) == 0x20,
            width: if size == 1 || size == 3 {
                512
            } else {
                256
            },
            height: if size == 2 || size == 3 {
                512
            } else {
                256
            },
        }
    }
}

/// The scroll of a background that its two raw bytes hold; only ten bits
/// exist.
pub open spec fn spec_scroll_of_bytes(lo: u8, hi: u8) -> u16 {
    (lo as u16) | ((hi as u16 & 3) << 8)
}

#[verifier::when_used_as_spec(spec_scroll_of_bytes)]
pub fn scroll_of_bytes(lo: u8, hi: u8) -> (r: u16)
    ensures
        r == spec_scroll_of_bytes(lo, hi),
{
    (lo as u16) | ((hi as u16 & 3) << 8)
}

/// The parameters of one rotated/scaled background, in units of 1/256.
#[derive(Clone, Copy, Debug, PartialEq, Eq, Structural)]
pub struct BgAffineParams {
    pub dx: i32,
    pub dmx: i32,
    pub dy: i32,
    pub dmy: i32,
    pub ref_x: i32,
    pub ref_y: i32,
}

impl BgAffineParams {
    /// The parameters while all their bytes are zero.
    pub fn new() -> (r: BgAffineParams)
        ensures
            r == BgAffineParams::spec_of_parts(0, 0, 0, 0, 0, 0),
    {
        BgAffineParams::of_parts(0, 0, 0, 0, 0, 0)
    }

    /// The parameters that four raw halfwords in 8.8 fixed point and two
    /// raw words in 19.8 fixed point hold.
    pub open spec fn spec_of_parts(
        dx: u16,
        dmx: u16,
        dy: u16,
        dmy: u16,
        ref_x: u32,
        ref_y: u32,
    ) -> BgAffineParams {
        BgAffineParams {
            dx: fixed_hw(dx) as i32,
            dmx: fixed_hw(dmx) as i32,
            dy: fixed_hw(dy) as i32,
            dmy: fixed_hw(dmy) as i32,
            ref_x: fixed_word(ref_x) as i32,
            ref_y: fixed_word(ref_y) as i32,
        }
    }

    /// Decode the halfwords and words of one parameter set.
    #[verifier::when_used_as_spec(spec_of_parts)]
    pub fn of_parts(dx: u16, dmx: u16, dy: u16, dmy: u16, ref_x: u32, ref_y: u32) -> (r:
        BgAffineParams)
        ensures
            r == BgAffineParams::spec_of_parts(dx, dmx, dy, dmy, ref_x, ref_y),
    {
        BgAffineParams {
            dx: to_fixed_hw(dx),
            dmx: to_fixed_hw(dmx),
            dy: to_fixed_hw(dy),
            dmy: to_fixed_hw(dmy),
            ref_x: to_fixed_word(ref_x),
            ref_y: to_fixed_word(ref_y),
        }
    }
}

/// Specifies the corners of a window. Note that the upper number is exclusive
/// and the lower number is inclusive (i.e. x in [left, right))
#[derive(Clone, Copy, Debug, PartialEq, Eq, Structural)]
pub struct WindowCoords {
    pub top: u8,
    pub bottom: u8,
    pub left: u8,
    pub right: u8,
}

impl WindowCoords {
    /// The window while all its bytes are zero.
    pub fn new() -> (r: WindowCoords)
        ensures
            r == WindowCoords::spec_of_bytes(0, 0, 0, 0),
    {
        WindowCoords::of_bytes(0, 0, 0, 0)
    }

    /// The window that its four raw bytes hold. The right and bottom edges
    /// are capped at the screen size, and lie at the screen edge where the
    /// capped byte would lie before the left or top edge.
    pub open spec fn spec_of_bytes(right: u8, left: u8, bottom: u8, top: u8) -> WindowCoords {
        let capped_right: u8 = if right > 240 {
            240
        } else {
            right
        };
        let capped_bottom: u8 = if bottom > 160 {
            160
        } else {
            bottom
        };
        WindowCoords {
            top,
            bottom: if capped_bottom < top {
                160
            } else {
                capped_bottom
            },
            left,
            right: if left > capped_right {
                240
            } else {
                capped_right
            },
        }
    }

    /// Decode the four bytes of one window.
    #[verifier::when_used_as_spec(spec_of_bytes)]
    pub fn of_bytes(right: u8, left: u8, bottom: u8, top: u8) -> (r: WindowCoords)
        ensures
            r == WindowCoords::spec_of_bytes(right, left, bottom, top),
    {
        let capped_right: u8 = if right > 240 {
            240
        } else {
            right
        };
        let capped_bottom: u8 = if bottom > 160 {
            160
        } else {
            bottom
        };
        WindowCoords {
            top,
            bottom: if capped_bottom < top {
                160
            } else {
                capped_bottom
            },
            left,
            right: if left > capped_right {
                240
            } else {
                capped_right
            },
        }
    }
}

/// What is shown inside one window region.
#[derive(Clone, Copy, Debug, PartialEq, Eq)]
pub struct WindowSettings {
    pub bg: [bool; 4],
    pub sprite: bool,
    pub blend: bool,
}

impl WindowSettings {
    pub open spec fn spec_parse(val: u8) -> WindowSettings {
        WindowSettings {
            bg: [(val & 1) == 1, (val & 2) == 2, (val & 4) == 4, (val & 8) == 8],
            sprite: (val & 16) == 16,
            blend: (val & 32) == 32,
        }
    }

    /// Parse one window setting byte.
    #[verifier::when_used_as_spec(spec_parse)]
    pub fn parse(val: u8) -> (r: WindowSettings)
        ensures
            r == WindowSettings::spec_parse(val),
    {
        WindowSettings {
            bg: [(val & 1) == 1, (val & 2) == 2, (val & 4) == 4, (val & 8) == 8],
            sprite: (val & 16) == 16,
            blend: (val & 32) == 32,
        }
    }

    pub fn new() -> (r: WindowSettings)
        ensures
            r == WindowSettings::spec_parse(0),
    {
        WindowSettings::parse(0)
    }
}

#[derive(Clone, Copy, Debug, PartialEq, Eq, Structural)]
pub enum BlendType {
    Off,
    AlphaBlend,
    Lighten,
    Darken,
}

/// The colour special effect selection.
#[derive(Clone, Copy, Debug, PartialEq, Eq)]
pub struct BlendParams {
    /// bg0-bg3, sprite, backdrop
    pub source: [bool; 6],
    pub mode: BlendType,
    /// bg0-bg3, sprite, backdrop
    pub target: [bool; 6],
}

/// The six layer bits of a blend control byte.
pub open spec fn spec_layer_bits(val: u8) -> [bool; 6] {
    [
        (val & 1) == 1,
        (val & 2) == 2,
        (val & 4) == 4,
        (val & 8) == 8,
        (val & 16) == 16,
        (val & 32) == 32,
    ]
}

#[verifier::when_used_as_spec(spec_layer_bits)]
pub fn layer_bits(val: u8) -> (r: [bool; 6])
    ensures
        r == spec_layer_bits(val),
{
    [
        (val & 1) == 1,
        (val & 2) == 2,
        (val & 4) == 4,
        (val & 8) == 8,
        (val & 16) == 16,
        (val & 32) == 32,
    ]
}

impl BlendParams {
    /// The selection while both control bytes are zero.
    pub fn new() -> (r: BlendParams)
        ensures
            r == BlendParams::spec_of_bytes(0, 0),
    {
        BlendParams::of_bytes(0, 0)
    }

    /// The selection that the two raw control bytes hold.
    pub open spec fn spec_of_bytes(lo: u8, hi: u8) -> BlendParams {
        let mode = lo / 64;
        BlendParams {
            source: spec_layer_bits(lo),
            mode: if mode == 0 {
                BlendType::Off
            } else if mode == 1 {
                BlendType::AlphaBlend
            } else if mode == 2 {
                BlendType::Lighten
            } else {
                BlendType::Darken
            },
            target: spec_layer_bits(hi),
        }
    }

    /// Decode the two control bytes.
    #[verifier::when_used_as_spec(spec_of_bytes)]
    pub fn of_bytes(lo: u8, hi: u8) -> (r: BlendParams)
        ensures
            r == BlendParams::spec_of_bytes(lo, hi),
    {
        let mode: u8 = lo / 64;
        BlendParams {
            source: layer_bits(lo),
            mode: if mode == 0 {
                BlendType::Off
            } else if mode == 1 {
                BlendType::AlphaBlend
            } else if mode == 2 {
                BlendType::Lighten
            } else {
                BlendType::Darken
            },
            target: layer_bits(hi),
        }
    }
}

/// A 5 bit blend coefficient in sixteenths, capped at 16/16.
pub open spec fn spec_to_coeff(raw: u8) -> u8 {
    if raw > 16 {
        16
    } else {
        raw
    }
}

/// takes a 5 bit value and parses it as an effect coefficent, in sixteenths
#[verifier::when_used_as_spec(spec_to_coeff)]
pub fn to_coeff(raw: u8) -> (r: u8)
    ensures
        r == spec_to_coeff(raw),
{
    if raw > 16 {
        16
    } else {
        raw
    }
}

/// Contains all graphics related information from the LCD display I/O registers.
/// The data in this struct is a mirror of the data from addresses
/// 0x4000000 - 0x4000060
#[derive(Clone, Copy, Debug, PartialEq, Eq)]
pub struct LCD {
    pub disp_cnt: DispCnt,
    pub disp_stat: DispStat,
    /// Stores the current Y location of the current line being drawn
    pub vcount: u8,
    pub bg_cnt: [BgCnt; 4],
    pub bg_offset_x: [u16; 4],
    pub bg_offset_y: [u16; 4],
    pub bg_affine: [BgAffineParams; 2],
    pub window_coords: [WindowCoords; 2],
    /// win0 inside, win1 inside, win0 outside, win1 outside
    pub window_settings: [WindowSettings; 4],
    pub bg_mos_hsize: u8,
    pub bg_mos_vsize: u8,
    pub obj_mos_hsize: u8,
    pub obj_mos_vsize: u8,
    pub blend_params: BlendParams,
    /// blend weights in sixteenths
    pub alpha_a_coef: u8,
    pub alpha_b_coef: u8,
    pub brightness_coef: u8,
}

impl LCD {
    /// The parsed registers that the raw register bytes `io` hold: every
    /// field is a function of the bytes of its register and of nothing
    /// else.
    #[verifier::opaque]
    pub open spec fn spec_decode(io: [u8; 0x400]) -> LCD {
        LCD {
            disp_cnt: DispCnt::spec_of_bytes(io[0x00], io[0x01]),
            disp_stat: DispStat::spec_of_bytes(io[0x04], io[0x05]),
            vcount: io[0x06],
            bg_cnt: [
                BgCnt::spec_of_bytes(io[0x08], io[0x09]),
                BgCnt::spec_of_bytes(io[0x0A], io[0x0B]),
                BgCnt::spec_of_bytes(io[0x0C], io[0x0D]),
                BgCnt::spec_of_bytes(io[0x0E], io[0x0F]),
            ],
            bg_offset_x: [
                spec_scroll_of_bytes(io[0x10], io[0x11]),
                spec_scroll_of_bytes(io[0x14], io[0x15]),
                spec_scroll_of_bytes(io[0x18], io[0x19]),
                spec_scroll_of_bytes(io[0x1C], io[0x1D]),
            ],
            bg_offset_y: [
                spec_scroll_of_bytes(io[0x12], io[0x13]),
                spec_scroll_of_bytes(io[0x16], io[0x17]),
                spec_scroll_of_bytes(io[0x1A], io[0x1B]),
                spec_scroll_of_bytes(io[0x1E], io[0x1F]),
            ],
            bg_affine: [
                BgAffineParams::spec_of_parts(
                    spec_halfword_of(io[0x20], io[0x21]),
                    spec_halfword_of(io[0x22], io[0x23]),
                    spec_halfword_of(io[0x24], io[0x25]),
                    spec_halfword_of(io[0x26], io[0x27]),
                    spec_word_of(io[0x28], io[0x29], io[0x2A], io[0x2B]),
                    spec_word_of(io[0x2C], io[0x2D], io[0x2E], io[0x2F]),
                ),
                BgAffineParams::spec_of_parts(
                    spec_halfword_of(io[0x30], io[0x31]),
                    spec_halfword_of(io[0x32], io[0x33]),
                    spec_halfword_of(io[0x34], io[0x35]),
                    spec_halfword_of(io[0x36], io[0x37]),
                    spec_word_of(io[0x38], io[0x39], io[0x3A], io[0x3B]),
                    spec_word_of(io[0x3C], io[0x3D], io[0x3E], io[0x3F]),
                ),
            ],
            window_coords: [
                WindowCoords::spec_of_bytes(io[0x40], io[0x41], io[0x44], io[0x45]),
                WindowCoords::spec_of_bytes(io[0x42], io[0x43], io[0x46], io[0x47]),
            ],
            window_settings: [
                WindowSettings::spec_parse(io[0x48]),
                WindowSettings::spec_parse(io[0x49]),
                WindowSettings::spec_parse(io[0x4A]),
                WindowSettings::spec_parse(io[0x4B]),
            ],
            bg_mos_hsize: io[0x4C] & 0xF,
            bg_mos_vsize: io[0x4C] >> 4,
            obj_mos_hsize: io[0x4D] & 0xF,
            obj_mos_vsize: io[0x4D] >> 4,
            blend_params: BlendParams::spec_of_bytes(io[0x50], io[0x51]),
            alpha_a_coef: spec_to_coeff(io[0x52]),
            alpha_b_coef: spec_to_coeff(io[0x53]),
            brightness_coef: spec_to_coeff(io[0x54]),
        }
    }

    /// The display status and the line counter in the decode are those of
    /// their own bytes.
    pub proof fn lemma_decode_status(io: [u8; 0x400])
        ensures
            LCD::spec_decode(io).disp_stat == DispStat::spec_of_bytes(io[0x04], io[0x05]),
            LCD::spec_decode(io).vcount == io[0x06],
    {
        reveal(LCD::spec_decode);
    }

    /// The decode reads the bytes of the LCD registers and no others.
    pub proof fn lemma_decode_reads(a: [u8; 0x400], b: [u8; 0x400])
        requires
            forall|k: int| 0 <= k < 0x56 ==> a[k] == b[k],
        ensures
            LCD::spec_decode(a) == LCD::spec_decode(b),
    {
        reveal(LCD::spec_decode);
    }

    /// Decode the LCD registers from the raw register bytes.
    pub fn parse(raw: &RawMemory) -> (r: LCD)
        ensures
            r == LCD::spec_decode(*raw.io),
    {
        reveal(LCD::spec_decode);
        LCD {
            disp_cnt: DispCnt::of_bytes(raw.io[0x00], raw.io[0x01]),
            disp_stat: DispStat::of_bytes(raw.io[0x04], raw.io[0x05]),
            vcount: raw.io[0x06],
            bg_cnt: [
                BgCnt::of_bytes(raw.io[0x08], raw.io[0x09]),
                BgCnt::of_bytes(raw.io[0x0A], raw.io[0x0B]),
                BgCnt::of_bytes(raw.io[0x0C], raw.io[0x0D]),
                BgCnt::of_bytes(raw.io[0x0E], raw.io[0x0F]),
            ],
            bg_offset_x: [
                scroll_of_bytes(raw.io[0x10], raw.io[0x11]),
                scroll_of_bytes(raw.io[0x14], raw.io[0x15]),
                scroll_of_bytes(raw.io[0x18], raw.io[0x19]),
                scroll_of_bytes(raw.io[0x1C], raw.io[0x1D]),
            ],
            bg_offset_y: [
                scroll_of_bytes(raw.io[0x12], raw.io[0x13]),
                scroll_of_bytes(raw.io[0x16], raw.io[0x17]),
                scroll_of_bytes(raw.io[0x1A], raw.io[0x1B]),
                scroll_of_bytes(raw.io[0x1E], raw.io[0x1F]),
            ],
            bg_affine: [
                BgAffineParams::of_parts(
                    halfword_of(raw.io[0x20], raw.io[0x21]),
                    halfword_of(raw.io[0x22], raw.io[0x23]),
                    halfword_of(raw.io[0x24], raw.io[0x25]),
                    halfword_of(raw.io[0x26], raw.io[0x27]),
                    word_of(raw.io[0x28], raw.io[0x29], raw.io[0x2A], raw.io[0x2B]),
                    word_of(raw.io[0x2C], raw.io[0x2D], raw.io[0x2E], raw.io[0x2F]),
                ),
                BgAffineParams::of_parts(
                    halfword_of(raw.io[0x30], raw.io[0x31]),
                    halfword_of(raw.io[0x32], raw.io[0x33]),
                    halfword_of(raw.io[0x34], raw.io[0x35]),
                    halfword_of(raw.io[0x36], raw.io[0x37]),
                    word_of(raw.io[0x38], raw.io[0x39], raw.io[0x3A], raw.io[0x3B]),
                    word_of(raw.io[0x3C], raw.io[0x3D], raw.io[0x3E], raw.io[0x3F]),
                ),
            ],
            window_coords: [
                WindowCoords::of_bytes(raw.io[0x40], raw.io[0x41], raw.io[0x44], raw.io[0x45]),
                WindowCoords::of_bytes(raw.io[0x42], raw.io[0x43], raw.io[0x46], raw.io[0x47]),
            ],
            window_settings: [
                WindowSettings::parse(raw.io[0x48]),
                WindowSettings::parse(raw.io[0x49]),
                WindowSettings::parse(raw.io[0x4A]),
                WindowSettings::parse(raw.io[0x4B]),
            ],
            bg_mos_hsize: raw.io[0x4C] & 0xF,
            bg_mos_vsize: raw.io[0x4C] >> 4,
            obj_mos_hsize: raw.io[0x4D] & 0xF,
            obj_mos_vsize: raw.io[0x4D] >> 4,
            blend_params: BlendParams::of_bytes(raw.io[0x50], raw.io[0x51]),
            alpha_a_coef: to_coeff(raw.io[0x52]),
            alpha_b_coef: to_coeff(raw.io[0x53]),
            brightness_coef: to_coeff(raw.io[0x54]),
        }
    }

    /// The registers while every register byte is zero.
    pub open spec fn is_reset(&self) -> bool {
        *self == LCD::spec_decode(crate::mem::spec_zero_bytes())
    }

    /// The registers of a machine that was just switched on.
    pub fn new() -> (r: LCD)
        ensures
            r.is_reset(),
    {
        proof {
            reveal(LCD::spec_decode);
        }
        LCD::parse(&RawMemory::new())
    }

    /// The registers after the display driver moved on to line `vcount`.
    pub open spec fn spec_update_vcount(self, vcount: u8) -> LCD {
        LCD {
            vcount,
            disp_stat: DispStat {
                vcount_triggered: vcount == self.disp_stat.vcount_line_trigger,
                ..self.disp_stat
            },
            ..self
        }
    }

    pub fn update_vcount(&mut self, vcount: u8)
        ensures
            *final(self) == old(self).spec_update_vcount(vcount),
    {
        self.vcount = vcount;
        self.disp_stat.vcount_triggered = self.vcount == self.disp_stat.vcount_line_trigger;
    }
}

impl Memory {
    /// The memory after a byte was written to an LCD register: the parsed
    /// registers are what the raw register bytes now hold.
    pub open spec fn spec_update_graphics_byte(self, addr: u32, val: u8) -> Memory {
        Memory { graphics: LCD::spec_decode(*self.raw.io), ..self }
    }

    /// Refresh the parsed LCD registers after a byte was written to one.
    pub fn update_graphics_byte(&mut self, addr: u32, val: u8)
        ensures
            *final(self) == old(self).spec_update_graphics_byte(addr, val),
    {
        self.graphics = LCD::parse(&self.raw);
    }

    pub fn update_graphics_hw(&mut self, addr: u32, val: u32)
        ensures
            *final(self) == old(self).spec_update_graphics_byte(addr, (val % 0x100) as u8),
    {
        self.update_graphics_byte(addr, (val % 0x100) as u8);
        self.update_graphics_byte(addr.wrapping_add(1), (val / 0x100 % 0x100) as u8);
    }

    pub fn update_graphics_word(&mut self, addr: u32, val: u32)
        ensures
            *final(self) == old(self).spec_update_graphics_byte(addr, (val % 0x100) as u8),
    {
        self.update_graphics_hw(addr, val);
        self.update_graphics_hw(addr.wrapping_add(2), val / 0x1_0000);
    }
}

} // verus!
