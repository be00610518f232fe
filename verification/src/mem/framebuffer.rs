//! The picture that is handed to the host: one 32 bit RGBA value per pixel.

use vstd::prelude::*;
use vstd::array::spec_array_update;
use crate::mem::oam::Sprite;
use crate::mem::Memory;

verus! {

pub const WIDTH: usize = 240;
pub const HEIGHT: usize = 160;

pub struct FrameBuffer {
    /// `HEIGHT` rows of `WIDTH` pixels, row after row
    pub pixels: Box<[u32; 38400]>,
}

impl FrameBuffer {
    /// The pixel at a position of the screen.
    pub open spec fn pixel(&self, row: int, col: int) -> u32 {
        self.pixels[row * WIDTH + col]
    }

    pub fn new() -> (r: FrameBuffer)
        ensures
            forall|i: int| 0 <= i < WIDTH * HEIGHT ==> r.pixels[i] == 0,
    {
        FrameBuffer { pixels: Box::new([0u32;38400]) }
    }
}

impl Memory {
    /// The colour of a sprite at a pixel. Sprites are drawn by the display
    /// collaborator; the core contributes none.
    pub fn render_sprite_pixel(&self, _sprite: &Sprite, _row: u32, _col: u32) -> (r: Option<u32>)
        ensures
            r is None,
    {
        None
    }

    /// The colour of a tiled background at a pixel; none, as for sprites.
    pub fn render_tile_bg(&self, _bg: usize, _row: u32, _col: u32) -> (r: Option<u32>)
        ensures
            r is None,
    {
        None
    }

    /// The colour of a rotated/scaled background at a pixel; none.
    pub fn render_affine_bg(&self, _bg: usize, _row: u32, _col: u32) -> (r: Option<u32>)
        ensures
            r is None,
    {
        None
    }

    /// The colour of a bitmap background at a pixel; none.
    pub fn render_bitmap_bg(&self, _bg: usize, _row: u32, _col: u32) -> (r: Option<u32>)
        ensures
            r is None,
    {
        None
    }

    // background modes:
    //     tile modes:
    // 0: 4 tile layers (bg0 - bg3)
    // 1: 2 tile layers + 1 affine tile layer (bg0 - bg2)
    // 2: 2 affine tile layers (bg2, bg3)
    //     bitmap modes (all use bg 2):
    // 3: 240x160 15 bit bitmap with no page flip
    // 4: 240x160 8 bit bitmap with page flip. the 8 bits here are an index into
    //    the background palette at 0x5000000
    // 5: 160x128 15 bit bitmap with page flip
    pub fn render_bg_pixel(&self, bg: usize, row: u32, col: u32) -> (r: Option<u32>)
        ensures
            r is None,
    {
        let mode = self.graphics.disp_cnt.bg_mode;
        if mode == 0 || (mode == 1 && bg <= 1) {
            self.render_tile_bg(bg, row, col)
        } else if (mode == 1 && bg == 2) || (mode == 2 && (bg == 2 || bg == 3)) {
            self.render_affine_bg(bg, row, col)
        } else if (mode == 3 || mode == 4 || mode == 5) && bg == 2 {
            self.render_bitmap_bg(bg, row, col)
        } else {
            None
        }
    }

    /// The colour of the first sprite of a priority that covers a pixel.
    pub fn render_sprites(&self, priority: u8, row: u32, col: u32) -> (r: Option<u32>)
        ensures
            r is None,
    {
        let mut i: usize = 0;
        while i < 128
            invariant
                i <= 128,
            decreases 128 - i,
        {
            if self.sprites.sprites[i].priority == priority {
                match self.render_sprite_pixel(&self.sprites.sprites[i], row, col) {
                    Some(color) => {
                        return Some(color);
                    },
                    None => {},
                }
            }
            i += 1;
        }
        None
    }

    /// The colour of the first background of a priority that covers a pixel.
    pub fn render_bgs(&self, priority: u8, row: u32, col: u32) -> (r: Option<u32>)
        ensures
            r is None,
    {
        let mut i: usize = 0;
        while i < 4
            invariant
                i <= 4,
            decreases 4 - i,
        {
            if self.graphics.bg_cnt[i].priority == priority {
                match self.render_bg_pixel(i, row, col) {
                    Some(color) => {
                        return Some(color);
                    },
                    None => {},
                }
            }
            i += 1;
        }
        None
    }

    /// The colour that the layers of one priority give a pixel: sprites
    /// cover backgrounds of the same priority.
    pub fn by_priority(&self, priority: u8, row: u32, col: u32) -> (r: Option<u32>)
        ensures
            r is None,
    {
        match self.render_sprites(priority, row, col) {
            Some(color) => Some(color),
            None => self.render_bgs(priority, row, col),
        }
    }

    /// The memory after a pixel was updated: a pixel of the screen takes
    /// the first background palette colour, as no layer gives it another;
    /// a position outside the screen changes nothing.
    #[verifier::opaque]
    pub open spec fn spec_update_pixel(self, row: u32, col: u32) -> Memory {
        if row < HEIGHT && col < WIDTH {
            Memory {
                framebuffer: FrameBuffer {
                    pixels: Box::new(
                        spec_array_update(
                            *self.framebuffer.pixels,
                            row * WIDTH + col,
                            self.palette.bg[0],
                        ),
                    ),
                },
                ..self
            }
        } else {
            self
        }
    }

    /// Update the framebuffer at the given pixel. Sprites and backgrounds
    /// are tried in order of priority; as the core draws neither, the pixel
    /// takes the first background palette color.
    pub fn update_pixel(&mut self, row: u32, col: u32)
        ensures
            *final(self) == old(self).spec_update_pixel(row, col),
            final(self).raw == old(self).raw,
            final(self).graphics == old(self).graphics,
            final(self).int == old(self).int,
            final(self).dma == old(self).dma,
            final(self).sprites == old(self).sprites,
            final(self).palette == old(self).palette,
            final(self).rom_n_cycle == old(self).rom_n_cycle,
            final(self).rom_s_cycle_fast == old(self).rom_s_cycle_fast,
            old(self).registers_agree() ==> final(self).registers_agree(),
    {
        reveal(Memory::registers_agree);
        reveal(Memory::spec_update_pixel);
        if row as usize >= HEIGHT || col as usize >= WIDTH {
            return ;
        }
        let mut color = self.palette.bg[0];
        let mut priority: u8 = 0;
        while priority < 4
            invariant
                priority <= 4,
                color == self.palette.bg[0],
                *self == *old(self),
            decreases 4 - priority,
        {
            match self.by_priority(priority, row, col) {
                Some(found) => {
                    color = found;
                    break ;
                },
                None => {},
            }
            priority += 1;
        }
        self.framebuffer.pixels[(row as usize) * WIDTH + (col as usize)] = color;
    }

    /// The memory after the pixels of a row from column `col` on were updated.
    #[verifier::opaque]
    pub open spec fn spec_update_row_from(self, row: u32, col: nat) -> Memory
        decreases WIDTH - col,
    {
        if col >= WIDTH {
            self
        } else {
            self.spec_update_pixel(row, col as u32).spec_update_row_from(row, col + 1)
        }
    }

    /// Update every pixel of one row of the screen.
    pub fn update_row(&mut self, row: u32)
        ensures
            *final(self) == old(self).spec_update_row_from(row, 0),
            final(self).raw == old(self).raw,
            final(self).graphics == old(self).graphics,
            final(self).int == old(self).int,
            final(self).dma == old(self).dma,
            final(self).sprites == old(self).sprites,
            final(self).palette == old(self).palette,
            final(self).rom_n_cycle == old(self).rom_n_cycle,
            final(self).rom_s_cycle_fast == old(self).rom_s_cycle_fast,
            old(self).registers_agree() ==> final(self).registers_agree(),
    {
        reveal(Memory::registers_agree);
        let mut col: u32 = 0;
        while col < 240
            invariant
                col <= 240,
                self.spec_update_row_from(row, col as nat) == old(self).spec_update_row_from(row, 0),
                self.raw == old(self).raw,
                self.graphics == old(self).graphics,
                self.int == old(self).int,
                self.dma == old(self).dma,
                self.sprites == old(self).sprites,
                self.palette == old(self).palette,
                self.rom_n_cycle == old(self).rom_n_cycle,
                self.rom_s_cycle_fast == old(self).rom_s_cycle_fast,
            decreases 240 - col,
        {
            proof {
                reveal(Memory::spec_update_row_from);
            }
            self.update_pixel(row, col);
            col += 1;
        }
        proof {
            reveal(Memory::spec_update_row_from);
        }
    }
}

} // verus!
