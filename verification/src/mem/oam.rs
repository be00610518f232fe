//! Parsed view of object attribute memory: 128 sprite entries of 8 bytes.
//! Each entry is divided into 4 16 bit attributes, numbered 0 - 3. The
//! attribute 3 of 4 consecutive sprite entries (0-3, 4-7, etc.) are the affine
//! parameters A, B, C, D (dx, dmx, dy, dmy) of one group, hence there are 32
//! groups. A sprite names the group it uses in its `affine_group` field.

use vstd::prelude::*;
use vstd::array::spec_array_update;
use crate::mem::addrs::{OAM_END, OAM_START};
use crate::mem::{Memory, RawMemory};
use crate::util::{
    fixed_hw, get_bit_hw, halfword_of, spec_get_bit_hw, spec_halfword_of, to_fixed_hw,
};

verus! {

pub const BYTES_PER_OAM_ENTRY: u32 = 8;
pub const BYTES_PER_AFFINE_GROUP: u32 = 32;
pub const NUM_SPRITES: usize = 128;
pub const NUM_AFFFINE_SPRITES: usize = 32;

#[derive(Debug, Clone, Copy, PartialEq, Eq, Structural)]
pub enum SpriteType {
    Normal,
    Affine,
    Disabled,
    DoubleAffine,
}

impl SpriteType {
    pub open spec fn spec_from_u8(n: u8) -> Option<SpriteType> {
        if n == 0 {
            Some(SpriteType::Normal)
        } else if n == 1 {
            Some(SpriteType::Affine)
        } else if n == 2 {
            Some(SpriteType::Disabled)
        } else if n == 3 {
            Some(SpriteType::DoubleAffine)
        } else {
            None
        }
    }

    /// The sprite type that a two bit attribute field encodes.
    #[verifier::when_used_as_spec(spec_from_u8)]
    pub fn from_u8(n: u8) -> (r: Option<SpriteType>)
        ensures
            r == SpriteType::spec_from_u8(n),
    {
        if n == 0 {
            Some(SpriteType::Normal)
        } else if n == 1 {
            Some(SpriteType::Affine)
        } else if n == 2 {
            Some(SpriteType::Disabled)
        } else if n == 3 {
            Some(SpriteType::DoubleAffine)
        } else {
            None
        }
    }

    /// The sprite type of a two bit field; what is above 3 counts as 3.
    pub open spec fn spec_of_field(n: u8) -> SpriteType {
        match SpriteType::spec_from_u8(n) {
            Some(t) => t,
            None => SpriteType::DoubleAffine,
        }
    }

    #[verifier::when_used_as_spec(spec_of_field)]
    pub fn of_field(n: u8) -> (r: SpriteType)
        ensures
            r == SpriteType::spec_of_field(n),
    {
        match SpriteType::from_u8(n) {
            Some(t) => t,
            None => SpriteType::DoubleAffine,
        }
    }

    /// Whether a sprite of this type is drawn through an affine parameter group.
    pub fn is_affine(&self) -> (r: bool)
        ensures
            r == (*self == SpriteType::Affine || *self == SpriteType::DoubleAffine),
    {
        match *self {
            SpriteType::Affine | SpriteType::DoubleAffine => true,
            _ => false,
        }
    }
}

#[derive(Copy, Clone, Debug, PartialEq, Eq, Structural)]
pub struct Sprite {
    /// the x coordinate: for regular sprites, this is the upper left corner
    /// and for affine sprites this is the center
    pub x: u16,
    /// the y coordinate: for regular sprites, this is the upper left corner
    /// and for affine sprites this is the center
    pub y: u8,
    /// the shape and size together determine the dimensions of the sprite
    /// they are both 2 bit values
    pub shape: u8,
    pub size: u8,
    /// Indicates whether we are using a full 256 color palette, or 16 subpalettes
    pub bit_depth: u8,
    /// only valid when bit depth is 4: index of the sub palette
    pub palette_number: u8,
    /// the affine parameter group this sprite uses. only valid for affine sprites
    pub affine_group: u8,
    /// defines what kind of sprite this is
    pub mode: SpriteType,
    /// flip the entire sprite vertically. only valid for regular sprites
    pub vflip: bool,
    /// flip the entire sprite horizontally. only valid for regular sprites
    pub hflip: bool,
    /// higher priorities get drawn first; sprites cover backgrounds of the same
    /// priority and when sprites have the same priority, higher in the OAM gets
    /// drawn first
    pub priority: u8,
    /// base tile index of the sprite
    pub tile_number: u16,
}

impl Sprite {
    /// The sprite while every byte of its entry is zero.
    pub open spec fn spec_new() -> Sprite {
        Sprite::spec_of_bytes(0, 0, 0, 0, 0, 0)
    }

    /// The sprite while every byte of its entry is zero.
    pub fn new() -> (r: Sprite)
        ensures
            r == Sprite::spec_new(),
    {
        Sprite::of_bytes(0, 0, 0, 0, 0, 0)
    }

    /// Width and height in pixels for each shape (square, wide, tall) and size.
    pub open spec fn spec_dimensions(&self) -> (u8, u8) {
        let long: u8 = if self.size == 0 {
            16
        } else if self.size == 1 {
            32
        } else if self.size == 2 {
            32
        } else {
            64
        };
        let short: u8 = if self.size == 0 {
            8
        } else if self.size == 1 {
            8
        } else if self.size == 2 {
            16
        } else {
            32
        };
        if self.shape == 0 {
            let side: u8 = if self.size == 0 {
                8
            } else if self.size == 1 {
                16
            } else if self.size == 2 {
                32
            } else {
                64
            };
            (side, side)
        } else if self.shape == 1 {
            (long, short)
        } else {
            (short, long)
        }
    }

    /// return width and height of this sprite
    pub fn dimensions(&self) -> (r: (u8, u8))
        requires
            self.shape <= 2,
            self.size <= 3,
        ensures
            r == self.spec_dimensions(),
    {
        match (self.shape, self.size) {
            (0, 0) => (8, 8),
            (0, 1) => (16, 16),
            (0, 2) => (32, 32),
            (0, 3) => (64, 64),
            (1, 0) => (16, 8),
            (1, 1) => (32, 8),
            (1, 2) => (32, 16),
            (1, 3) => (64, 32),
            (2, 0) => (8, 16),
            (2, 1) => (8, 32),
            (2, 2) => (16, 32),
            _ => (32, 64),
        }
    }

    /// The sprite that the six raw bytes of its three attributes hold.
    ///
    /// attribute 0:  0-7 y, 8-9 sprite type, D colour depth, E-F shape
    /// attribute 1:  0-8 x, 9-D affine group, C hflip, D vflip, E-F size
    /// attribute 2:  0-9 tile, A-B priority, C-F palette number
    pub open spec fn spec_of_bytes(b0: u8, b1: u8, b2: u8, b3: u8, b4: u8, b5: u8) -> Sprite {
        let attr1 = spec_halfword_of(b2, b3);
        let attr2 = spec_halfword_of(b4, b5);
        Sprite {
            y: b0,
            mode: SpriteType::spec_of_field(b1 & 0b11),
            bit_depth: if (b1 & 0x20) == 0x20 {
                8
            } else {
                4
            },
            shape: (b1 >> 6) & 0b11,
            x: attr1 & 0x1FF,
            hflip: spec_get_bit_hw(attr1, 12),
            vflip: spec_get_bit_hw(attr1, 13),
            size: (attr1 >> 14) as u8,
            affine_group: ((attr1 >> 9) & 0b11111) as u8,
            tile_number: attr2 & 0x3FF,
            priority: ((attr2 >> 10) & 0b11) as u8,
            palette_number: ((attr2 >> 12) & 0xF) as u8,
        }
    }

    /// Decode the six attribute bytes of one entry.
    #[verifier::when_used_as_spec(spec_of_bytes)]
    pub fn of_bytes(b0: u8, b1: u8, b2: u8, b3: u8, b4: u8, b5: u8) -> (r: Sprite)
        ensures
            r == Sprite::spec_of_bytes(b0, b1, b2, b3, b4, b5),
    {
        let attr1: u16 = halfword_of(b2, b3);
        let attr2: u16 = halfword_of(b4, b5);
        Sprite {
            y: b0,
            mode: SpriteType::of_field(b1 & 0b11),
            bit_depth: if (b1 & 0x20) == 0x20 {
                8
            } else {
                4
            },
            shape: (b1 >> 6) & 0b11,
            x: attr1 & 0x1FF,
            hflip: get_bit_hw(attr1, 12),
            vflip: get_bit_hw(attr1, 13),
            size: (attr1 >> 14) as u8,
            affine_group: ((attr1 >> 9) & 0b11111) as u8,
            tile_number: attr2 & 0x3FF,
            priority: ((attr2 >> 10) & 0b11) as u8,
            palette_number: ((attr2 >> 12) & 0xF) as u8,
        }
    }

    /// Sprite `entry` (0..128) of the raw table `oam`.
    pub open spec fn spec_decode(oam: [u8; 0x400], entry: int) -> Sprite {
        Sprite::spec_of_bytes(
            oam[8 * entry],
            oam[8 * entry + 1],
            oam[8 * entry + 2],
            oam[8 * entry + 3],
            oam[8 * entry + 4],
            oam[8 * entry + 5],
        )
    }

    /// Decode sprite `entry` from the raw table.
    pub fn parse(raw: &RawMemory, entry: usize) -> (r: Sprite)
        requires
            entry < 128,
        ensures
            r == Sprite::spec_decode(*raw.oam, entry as int),
    {
        let base: usize = 8 * entry;
        Sprite::of_bytes(
            raw.oam[base],
            raw.oam[base + 1],
            raw.oam[base + 2],
            raw.oam[base + 3],
            raw.oam[base + 4],
            raw.oam[base + 5],
        )
    }
}

/// The parameters of one affine group, in units of 1/256.
#[derive(Copy, Clone, Debug, PartialEq, Eq, Structural)]
pub struct SpriteAffineParams {
    pub dx: i32,
    pub dmx: i32,
    pub dy: i32,
    pub dmy: i32,
}

impl SpriteAffineParams {
    /// The group while its parameters are zero.
    pub open spec fn spec_new() -> SpriteAffineParams {
        SpriteAffineParams { dx: 0, dmx: 0, dy: 0, dmy: 0 }
    }

    pub fn new() -> (r: SpriteAffineParams)
        ensures
            r == SpriteAffineParams::spec_new(),
            r == SpriteAffineParams::spec_of_parts(0, 0, 0, 0),
    {
        SpriteAffineParams { dx: 0, dmx: 0, dy: 0, dmy: 0 }
    }

    /// The group that its four raw halfwords in 8.8 fixed point hold.
    pub open spec fn spec_of_parts(dx: u16, dmx: u16, dy: u16, dmy: u16) -> SpriteAffineParams {
        SpriteAffineParams {
            dx: fixed_hw(dx) as i32,
            dmx: fixed_hw(dmx) as i32,
            dy: fixed_hw(dy) as i32,
            dmy: fixed_hw(dmy) as i32,
        }
    }

    /// Decode the four halfwords of one group.
    #[verifier::when_used_as_spec(spec_of_parts)]
    pub fn of_parts(dx: u16, dmx: u16, dy: u16, dmy: u16) -> (r: SpriteAffineParams)
        ensures
            r == SpriteAffineParams::spec_of_parts(dx, dmx, dy, dmy),
    {
        SpriteAffineParams {
            dx: to_fixed_hw(dx),
            dmx: to_fixed_hw(dmx),
            dy: to_fixed_hw(dy),
            dmy: to_fixed_hw(dmy),
        }
    }

    /// Group `group` (0..32) of the raw table `oam`: the last halfword of
    /// each of its four entries.
    pub open spec fn spec_decode(oam: [u8; 0x400], group: int) -> SpriteAffineParams {
        SpriteAffineParams::spec_of_parts(
            spec_halfword_of(oam[32 * group + 6], oam[32 * group + 7]),
            spec_halfword_of(oam[32 * group + 14], oam[32 * group + 15]),
            spec_halfword_of(oam[32 * group + 22], oam[32 * group + 23]),
            spec_halfword_of(oam[32 * group + 30], oam[32 * group + 31]),
        )
    }

    /// Decode group `group` from the raw table.
    pub fn parse(raw: &RawMemory, group: usize) -> (r: SpriteAffineParams)
        requires
            group < 32,
        ensures
            r == SpriteAffineParams::spec_decode(*raw.oam, group as int),
    {
        let base: usize = 32 * group;
        SpriteAffineParams::of_parts(
            halfword_of(raw.oam[base + 6], raw.oam[base + 7]),
            halfword_of(raw.oam[base + 14], raw.oam[base + 15]),
            halfword_of(raw.oam[base + 22], raw.oam[base + 23]),
            halfword_of(raw.oam[base + 30], raw.oam[base + 31]),
        )
    }
}

/// Stores all sprite data (a parsed version of OAM).
pub struct Sprites {
    pub sprites: [Sprite; 128],
    pub affine_params: [SpriteAffineParams; 32],
}

impl Sprites {
    /// The table while every byte of OAM is zero.
    pub fn new() -> (r: Sprites)
        ensures
            forall|i: int| 0 <= i < 128 ==> r.sprites[i] == Sprite::spec_new(),
            forall|i: int| 0 <= i < 32 ==> r.affine_params[i] == SpriteAffineParams::spec_new(),
    {
        let sprite = Sprite::new();
        let params = SpriteAffineParams::new();
        Sprites { sprites: [sprite;128], affine_params: [params;32] }
    }

    /// Whether every sprite and every affine group is what the raw table
    /// `oam` holds.
    pub open spec fn spec_agrees(self, oam: [u8; 0x400]) -> bool {
        &&& forall|e: int| 0 <= e < 128 ==> #[trigger] self.sprites[e] == Sprite::spec_decode(oam, e)
        &&& forall|g: int|
            0 <= g < 32 ==> #[trigger] self.affine_params[g] == SpriteAffineParams::spec_decode(
                oam,
                g,
            )
    }

    /// The parsed table after a byte was written to `addr` of OAM: the
    /// sprite and the affine group whose entries hold the byte are what
    /// `raw` now holds for them.
    pub open spec fn spec_update_byte(self, raw: &RawMemory, addr: u32, val: u8) -> Sprites {
        let offset = (addr - OAM_START) as int;
        Sprites {
            sprites: spec_array_update(
                self.sprites,
                offset / 8,
                Sprite::spec_decode(*raw.oam, offset / 8),
            ),
            affine_params: spec_array_update(
                self.affine_params,
                offset / 32,
                SpriteAffineParams::spec_decode(*raw.oam, offset / 32),
            ),
        }
    }

    pub fn update_byte(&mut self, raw: &RawMemory, addr: u32, val: u8)
        requires
            OAM_START <= addr <= OAM_END,
        ensures
            *final(self) == old(self).spec_update_byte(raw, addr, val),
    {
        let offset: usize = (addr - OAM_START) as usize;
        self.sprites[offset / 8] = Sprite::parse(raw, offset / 8);
        self.affine_params[offset / 32] = SpriteAffineParams::parse(raw, offset / 32);
    }
}

impl Memory {
    pub open spec fn spec_update_oam_byte(self, addr: u32, val: u8) -> Memory {
        Memory { sprites: self.sprites.spec_update_byte(&self.raw, addr, val), ..self }
    }

    pub fn update_oam_byte(&mut self, addr: u32, val: u8)
        requires
            OAM_START <= addr <= OAM_END,
        ensures
            *final(self) == old(self).spec_update_oam_byte(addr, val),
    {
        self.sprites.update_byte(&self.raw, addr, val);
    }

    pub fn update_oam_hw(&mut self, addr: u32, val: u32)
        requires
            OAM_START <= addr < OAM_END,
        ensures
            *final(self) == old(self).spec_update_oam_byte(
                addr,
                (val % 0x100) as u8,
            ).spec_update_oam_byte((addr + 1) as u32, (val / 0x100 % 0x100) as u8),
    {
        self.update_oam_byte(addr, (val % 0x100) as u8);
        self.update_oam_byte(addr + 1, (val / 0x100 % 0x100) as u8);
    }

    pub fn update_oam_word(&mut self, addr: u32, val: u32)
        requires
            OAM_START <= addr,
            addr + 3 <= OAM_END,
        ensures
            *final(self) == old(self).spec_update_oam_byte(
                addr,
                (val % 0x100) as u8,
            ).spec_update_oam_byte(
                (addr + 1) as u32,
                (val / 0x100 % 0x100) as u8,
            ).spec_update_oam_byte(
                (addr + 2) as u32,
                (val / 0x1_0000 % 0x100) as u8,
            ).spec_update_oam_byte((addr + 3) as u32, (val / 0x1_0000 / 0x100 % 0x100) as u8),
    {
        self.update_oam_hw(addr, val);
        self.update_oam_hw(addr + 2, val / 0x1_0000);
    }
}

} // verus!
