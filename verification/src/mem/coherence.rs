//! The two views of the memory mapped registers, of the palette and of the
//! sprite table: the raw bytes that a load reads, and the parsed values that
//! the core consults. The parsed values are a decode of the raw bytes, and
//! every store, every hook and every transfer keeps it so.

use vstd::prelude::*;
use crate::mem::addrs::{IO_START, OAM_END, OAM_START, PAL_END, PAL_START};
use crate::mem::io::addrs::{
    spec_dma_cnt, spec_dma_dad, spec_dma_sad, DISPSTAT_LO, DMA_END, DMA_START, GRAPHICS_END,
    GRAPHICS_START, IF_HI, IF_LO, INT_END, INT_START,
};
use crate::mem::io::dma::{spec_chunk_align, DMAChannel, IncrType, TimingMode, DMA};
use crate::mem::io::graphics::LCD;
use crate::mem::io::interrupt::{lemma_no_bits, spec_get_bit, spec_rom_n_cycle, Interrupt, InterruptBitmap};
use crate::mem::oam::{Sprite, SpriteAffineParams};
use crate::mem::palette::Palette;
use crate::mem::{spec_canonicalize_addr, spec_kept_byte, Memory, RawMemory};

verus! {

/// The bits of a byte from which the bits of another were cleared.
pub proof fn lemma_cleared_bits(old: u8, val: u8)
    by (bit_vector)
    ensures
        ((((old & !val) >> 0u8) & 1) == 1) == ((((old >> 0u8) & 1) == 1) && !(((val >> 0u8) & 1)
            == 1)),
        ((((old & !val) >> 1u8) & 1) == 1) == ((((old >> 1u8) & 1) == 1) && !(((val >> 1u8) & 1)
            == 1)),
        ((((old & !val) >> 2u8) & 1) == 1) == ((((old >> 2u8) & 1) == 1) && !(((val >> 2u8) & 1)
            == 1)),
        ((((old & !val) >> 3u8) & 1) == 1) == ((((old >> 3u8) & 1) == 1) && !(((val >> 3u8) & 1)
            == 1)),
        ((((old & !val) >> 4u8) & 1) == 1) == ((((old >> 4u8) & 1) == 1) && !(((val >> 4u8) & 1)
            == 1)),
        ((((old & !val) >> 5u8) & 1) == 1) == ((((old >> 5u8) & 1) == 1) && !(((val >> 5u8) & 1)
            == 1)),
        ((((old & !val) >> 6u8) & 1) == 1) == ((((old >> 6u8) & 1) == 1) && !(((val >> 6u8) & 1)
            == 1)),
        ((((old & !val) >> 7u8) & 1) == 1) == ((((old >> 7u8) & 1) == 1) && !(((val >> 7u8) & 1)
            == 1)),
{
}

impl RawMemory {
    /// A write of the bus changes at most the one byte that it addresses,
    /// to what the register there keeps of the write.
    pub proof fn lemma_bus_write_bytes(self, addr: u32, val: u8)
        ensures
            forall|k: int|
                0 <= k < 0x400 ==> #[trigger] self.spec_bus_write(addr, val).io[k] == (if addr
                    == IO_START + k {
                    spec_kept_byte(self.io[k], addr, val)
                } else {
                    self.io[k]
                }),
            forall|k: int|
                0 <= k < 0x400 ==> #[trigger] self.spec_bus_write(addr, val).pal[k] == (if addr
                    == PAL_START + k {
                    val
                } else {
                    self.pal[k]
                }),
            forall|k: int|
                0 <= k < 0x400 ==> #[trigger] self.spec_bus_write(addr, val).oam[k] == (if addr
                    == OAM_START + k {
                    val
                } else {
                    self.oam[k]
                }),
    {
        reveal(RawMemory::spec_bus_write);
        reveal(RawMemory::spec_set_byte);
        reveal(RawMemory::spec_get_byte);
    }

    /// A raw store changes at most the one byte that it addresses.
    pub proof fn lemma_store_bytes(self, addr: u32, val: u8)
        ensures
            forall|k: int|
                0 <= k < 0x400 ==> #[trigger] self.spec_set_byte(addr, val).io[k] == (if addr
                    == IO_START + k {
                    val
                } else {
                    self.io[k]
                }),
            addr < PAL_START ==> self.spec_set_byte(addr, val).pal == self.pal
                && self.spec_set_byte(addr, val).oam == self.oam,
    {
        reveal(RawMemory::spec_set_byte);
    }
}

impl Memory {
    /// The display, DMA and interrupt registers and the cartridge timings
    /// are what the raw register bytes hold.
    pub open spec fn io_agrees(self) -> bool {
        &&& self.graphics == LCD::spec_decode(*self.raw.io)
        &&& self.dma == DMA::spec_decode(*self.raw.io)
        &&& self.int == Interrupt::spec_decode(*self.raw.io)
        &&& self.rom_n_cycle == spec_rom_n_cycle((self.raw.io[0x204] >> 2) & 0b11)
        &&& self.rom_s_cycle_fast == ((self.raw.io[0x204] >> 4) & 1 == 1)
    }

    /// Every parsed view is the decode of the raw bytes that it stands
    /// for: the display, DMA and interrupt registers and the cartridge
    /// timings, every sprite and affine group, and every palette entry.
    #[verifier::opaque]
    pub open spec fn registers_agree(self) -> bool {
        &&& self.io_agrees()
        &&& self.sprites.spec_agrees(*self.raw.oam)
        &&& self.palette.spec_agrees(*self.raw.pal)
    }

    /// Two memories whose views agree with their raw bytes, and whose raw
    /// register, palette and sprite bytes are the same, have the same
    /// display, DMA and interrupt registers, sprites and colours.
    pub proof fn law_views_are_determined_by_raw(self, other: Memory)
        requires
            self.registers_agree(),
            other.registers_agree(),
            self.raw.io == other.raw.io,
            self.raw.oam == other.raw.oam,
            self.raw.pal == other.raw.pal,
        ensures
            self.graphics == other.graphics,
            self.dma == other.dma,
            self.int == other.int,
            self.rom_n_cycle == other.rom_n_cycle,
            self.rom_s_cycle_fast == other.rom_s_cycle_fast,
            forall|e: int| 0 <= e < 128 ==> self.sprites.sprites[e] == other.sprites.sprites[e],
            forall|g: int|
                0 <= g < 32 ==> self.sprites.affine_params[g] == other.sprites.affine_params[g],
            forall|i: int|
                0 <= i < 256 ==> self.palette.bg[i] == other.palette.bg[i]
                    && self.palette.sprite[i] == other.palette.sprite[i],
    {
        reveal(LCD::spec_decode);
        reveal(DMA::spec_decode);
        reveal(Interrupt::spec_decode);
        reveal(Memory::registers_agree);
    }

    /// What a refresh of the parsed views does: the view whose window holds
    /// the address is parsed from the raw bytes again, the others and the
    /// raw bytes stay.
    pub proof fn lemma_view_update_effect(self, addr: u32, val: u8)
        ensures
            ({
                let v = self.spec_update_view(addr, val);
                &&& v.raw == self.raw
                &&& v.framebuffer == self.framebuffer
                &&& v.graphics == (if GRAPHICS_START <= addr <= GRAPHICS_END {
                    LCD::spec_decode(*self.raw.io)
                } else {
                    self.graphics
                })
                &&& v.dma == (if DMA_START <= addr <= DMA_END {
                    DMA::spec_decode(*self.raw.io)
                } else {
                    self.dma
                })
                &&& v.int == (if INT_START <= addr <= INT_END {
                    Interrupt::spec_decode(*self.raw.io)
                } else {
                    self.int
                })
                &&& v.rom_n_cycle == (if INT_START <= addr <= INT_END {
                    spec_rom_n_cycle((self.raw.io[0x204] >> 2) & 0b11)
                } else {
                    self.rom_n_cycle
                })
                &&& v.rom_s_cycle_fast == (if INT_START <= addr <= INT_END {
                    (self.raw.io[0x204] >> 4) & 1 == 1
                } else {
                    self.rom_s_cycle_fast
                })
                &&& v.sprites == (if OAM_START <= addr <= OAM_END {
                    self.sprites.spec_update_byte(&self.raw, addr, val)
                } else {
                    self.sprites
                })
                &&& v.palette == (if PAL_START <= addr <= PAL_END {
                    self.palette.spec_refresh(&self.raw, addr)
                } else {
                    self.palette
                })
            }),
    {
        reveal(Memory::spec_update_view);
    }

    /// One byte of a store and the display registers. `before` is the raw
    /// memory before the bus wrote the byte, this memory holds the raw
    /// bytes after it and the views before the refresh. Registers that are
    /// the decode of `before` are the decode of the new raw bytes after the
    /// refresh.
    pub proof fn lemma_lcd_step(self, before: RawMemory, addr: u32, val: u8)
        requires
            forall|k: int|
                0 <= k < 0x400 && addr != IO_START + k ==> self.raw.io[k] == before.io[k],
            self.graphics == LCD::spec_decode(*before.io),
        ensures
            self.spec_update_view(addr, val).graphics == LCD::spec_decode(*self.raw.io),
    {
        reveal(LCD::spec_decode);
        self.lemma_view_update_effect(addr, val);
    }

    /// One byte of a store and the DMA channels, as in `lemma_lcd_step`.
    pub proof fn lemma_dma_step(self, before: RawMemory, addr: u32, val: u8)
        requires
            forall|k: int|
                0 <= k < 0x400 && addr != IO_START + k ==> self.raw.io[k] == before.io[k],
            self.dma == DMA::spec_decode(*before.io),
        ensures
            self.spec_update_view(addr, val).dma == DMA::spec_decode(*self.raw.io),
    {
        reveal(DMA::spec_decode);
        self.lemma_view_update_effect(addr, val);
    }

    /// One byte of a store and the interrupt registers and cartridge
    /// timings, as in `lemma_lcd_step`.
    pub proof fn lemma_int_step(self, before: RawMemory, addr: u32, val: u8)
        requires
            forall|k: int|
                0 <= k < 0x400 && addr != IO_START + k ==> self.raw.io[k] == before.io[k],
            self.int == Interrupt::spec_decode(*before.io),
            self.rom_n_cycle == spec_rom_n_cycle((before.io[0x204] >> 2) & 0b11),
            self.rom_s_cycle_fast == ((before.io[0x204] >> 4) & 1 == 1),
        ensures
            self.spec_update_view(addr, val).int == Interrupt::spec_decode(*self.raw.io),
            self.spec_update_view(addr, val).rom_n_cycle == spec_rom_n_cycle(
                (self.raw.io[0x204] >> 2) & 0b11,
            ),
            self.spec_update_view(addr, val).rom_s_cycle_fast == ((self.raw.io[0x204] >> 4) & 1
                == 1),
    {
        reveal(Interrupt::spec_decode);
        self.lemma_view_update_effect(addr, val);
    }

    /// A byte store, wherever it goes, keeps the display, DMA and
    /// interrupt registers the decode of the raw register bytes.
    pub proof fn lemma_store_keeps_io(self, a: u32, val: u8)
        requires
            self.io_agrees(),
        ensures
            self.spec_store_at(a, val).io_agrees(),
    {
        self.raw.lemma_bus_write_bytes(a, val);
        let written = Memory { raw: self.raw.spec_bus_write(a, val), ..self };
        written.lemma_lcd_step(self.raw, a, val);
        written.lemma_dma_step(self.raw, a, val);
        written.lemma_int_step(self.raw, a, val);
        written.lemma_view_update_keeps_raw(a, val);
    }

    /// A byte store keeps every sprite and affine group the decode of its
    /// raw bytes.
    pub proof fn lemma_store_keeps_sprites(self, a: u32, val: u8)
        requires
            self.sprites.spec_agrees(*self.raw.oam),
        ensures
            self.spec_store_at(a, val).sprites.spec_agrees(*self.spec_store_at(a, val).raw.oam),
    {
        self.raw.lemma_bus_write_bytes(a, val);
        let written = Memory { raw: self.raw.spec_bus_write(a, val), ..self };
        written.lemma_view_update_effect(a, val);
        written.lemma_sprites_step(self.raw, a, val);
    }

    /// One byte of a store and the sprite table, as in `lemma_lcd_step`.
    pub proof fn lemma_sprites_step(self, before: RawMemory, addr: u32, val: u8)
        requires
            self.sprites.spec_agrees(*before.oam),
            forall|k: int|
                0 <= k < 0x400 && addr != OAM_START + k ==> self.raw.oam[k] == before.oam[k],
        ensures
            self.spec_update_view(addr, val).sprites.spec_agrees(*self.raw.oam),
    {
        self.lemma_view_update_effect(addr, val);
        let v = self.spec_update_view(addr, val);
        assert forall|e: int| 0 <= e < 128 implies #[trigger] v.sprites.sprites[e]
            == Sprite::spec_decode(*self.raw.oam, e) by {
            assert(self.sprites.sprites[e] == Sprite::spec_decode(*before.oam, e));
        }
        assert forall|g: int| 0 <= g < 32 implies #[trigger] v.sprites.affine_params[g]
            == SpriteAffineParams::spec_decode(*self.raw.oam, g) by {
            assert(self.sprites.affine_params[g] == SpriteAffineParams::spec_decode(
                *before.oam,
                g,
            ));
        }
    }

    /// One byte of a store and the palette, as in `lemma_lcd_step`.
    pub proof fn lemma_palette_step(self, before: RawMemory, addr: u32, val: u8)
        requires
            self.palette.spec_agrees(*before.pal),
            forall|k: int|
                0 <= k < 0x400 && addr != PAL_START + k ==> self.raw.pal[k] == before.pal[k],
        ensures
            self.spec_update_view(addr, val).palette.spec_agrees(*self.raw.pal),
    {
        self.lemma_view_update_effect(addr, val);
        let v = self.spec_update_view(addr, val);
        let n = (addr - PAL_START) / 2;
        assert forall|i: int| 0 <= i < 256 implies #[trigger] v.palette.bg[i]
            == Palette::spec_entry(*self.raw.pal, i) by {
            assert(self.palette.bg[i] == Palette::spec_entry(*before.pal, i));
            if PAL_START <= addr <= PAL_END && n == i {
            } else {
                assert(self.raw.pal[2 * i] == before.pal[2 * i]);
                assert(self.raw.pal[2 * i + 1] == before.pal[2 * i + 1]);
            }
        }
        assert forall|i: int| 0 <= i < 256 implies #[trigger] v.palette.sprite[i]
            == Palette::spec_entry(*self.raw.pal, 256 + i) by {
            assert(self.palette.sprite[i] == Palette::spec_entry(*before.pal, 256 + i));
            if PAL_START <= addr <= PAL_END && n == 256 + i {
            } else {
                assert(self.raw.pal[2 * (256 + i)] == before.pal[2 * (256 + i)]);
                assert(self.raw.pal[2 * (256 + i) + 1] == before.pal[2 * (256 + i) + 1]);
            }
        }
    }

    /// A byte stored at any address keeps every parsed view the decode of
    /// the raw bytes.
    pub proof fn law_store_keeps_registers_agreeing(self, a: u32, val: u8)
        requires
            self.registers_agree(),
        ensures
            self.spec_store_at(a, val).registers_agree(),
            self.spec_set_byte(a, val).registers_agree(),
    {
        reveal(Memory::registers_agree);
        self.lemma_store_at_keeps(spec_canonicalize_addr(a), val);
        self.lemma_store_at_keeps(a, val);
    }

    /// A byte stored at `a` keeps every parsed view the decode of the raw
    /// bytes.
    pub proof fn lemma_store_at_keeps(self, a: u32, val: u8)
        requires
            self.registers_agree(),
        ensures
            self.spec_store_at(a, val).registers_agree(),
    {
        reveal(Memory::registers_agree);
        self.lemma_store_keeps_io(a, val);
        self.lemma_store_keeps_sprites(a, val);
        self.raw.lemma_bus_write_bytes(a, val);
        let written = Memory { raw: self.raw.spec_bus_write(a, val), ..self };
        written.lemma_view_update_effect(a, val);
        written.lemma_palette_step(self.raw, a, val);
    }
}

impl RawMemory {
    /// A raw word or halfword stored in the registers of a DMA channel
    /// changes bytes of these registers only.
    pub proof fn lemma_channel_store(self, addr: u32, val: u32)
        requires
            DMA_START <= addr < DMA_END,
        ensures
            forall|k: int|
                0 <= k < 0x400 && !(0xB0 <= k < 0xE4) ==> #[trigger] self.spec_set_word(
                    addr,
                    val,
                ).io[k] == self.io[k],
            forall|k: int|
                0 <= k < 0x400 && !(0xB0 <= k < 0xE4) ==> #[trigger] self.spec_set_halfword(
                    addr,
                    val,
                ).io[k] == self.io[k],
            self.spec_set_word(addr, val).pal == self.pal,
            self.spec_set_word(addr, val).oam == self.oam,
            self.spec_set_halfword(addr, val).pal == self.pal,
            self.spec_set_halfword(addr, val).oam == self.oam,
    {
        let b0 = (val % 0x100) as u8;
        let b1 = (val / 0x100 % 0x100) as u8;
        let b2 = (val / 0x1_0000 % 0x100) as u8;
        let b3 = (val / 0x100_0000) as u8;
        let r1 = self.spec_set_byte(addr, b0);
        let r2 = r1.spec_set_byte(addr.wrapping_add(1), b1);
        let r3 = r2.spec_set_byte(addr.wrapping_add(2), b2);
        self.lemma_store_bytes(addr, b0);
        r1.lemma_store_bytes(addr.wrapping_add(1), b1);
        r2.lemma_store_bytes(addr.wrapping_add(2), b2);
        r3.lemma_store_bytes(addr.wrapping_add(3), b3);
    }
}

impl Memory {
    /// A halfword store keeps every parsed view the decode of the raw
    /// bytes.
    pub proof fn law_halfword_store_keeps_registers_agreeing(self, addr: u32, val: u32)
        requires
            self.registers_agree(),
        ensures
            self.spec_set_halfword(addr, val).registers_agree(),
    {
        reveal(Memory::registers_agree);
        let a0 = spec_canonicalize_addr(addr);
        self.lemma_store_at_keeps(a0, (val % 0x100) as u8);
        self.spec_store_at(a0, (val % 0x100) as u8).lemma_store_at_keeps(
            a0.wrapping_add(1),
            (val / 0x100 % 0x100) as u8,
        );
    }

    /// A word store keeps every parsed view the decode of the raw bytes.
    pub proof fn law_word_store_keeps_registers_agreeing(self, addr: u32, val: u32)
        requires
            self.registers_agree(),
        ensures
            self.spec_set_word(addr, val).registers_agree(),
    {
        reveal(Memory::registers_agree);
        let a0 = spec_canonicalize_addr(addr);
        let m1 = self.spec_store_at(a0, (val % 0x100) as u8);
        let m2 = m1.spec_store_at(a0.wrapping_add(1), (val / 0x100 % 0x100) as u8);
        let m3 = m2.spec_store_at(a0.wrapping_add(2), (val / 0x1_0000 % 0x100) as u8);
        self.lemma_store_at_keeps(a0, (val % 0x100) as u8);
        m1.lemma_store_at_keeps(a0.wrapping_add(1), (val / 0x100 % 0x100) as u8);
        m2.lemma_store_at_keeps(a0.wrapping_add(2), (val / 0x1_0000 % 0x100) as u8);
        m3.lemma_store_at_keeps(a0.wrapping_add(3), (val / 0x100_0000) as u8);
    }

    /// Raw bytes that differ from those of this memory in display and
    /// interrupt request registers only, with these registers parsed from
    /// them, make a memory whose views agree with its raw bytes.
    pub proof fn lemma_with_registers_agrees(self, raw: RawMemory)
        requires
            self.registers_agree(),
            raw.pal == self.raw.pal,
            raw.oam == self.raw.oam,
            forall|k: int|
                0xB0 <= k < 0xE0 || k == 0x204 ==> #[trigger] raw.io[k] == self.raw.io[k],
        ensures
            self.spec_with_registers(raw).registers_agree(),
    {
        reveal(LCD::spec_decode);
        reveal(DMA::spec_decode);
        reveal(Interrupt::spec_decode);
        reveal(Memory::registers_agree);
    }

    /// The hooks of the display that start no transfer keep the views the
    /// decode of the raw bytes: the start of a drawn line, the start of its
    /// drawn part, and a step of the line counter.
    pub proof fn law_display_hooks_keep_registers_agreeing(self, vcount: u8)
        requires
            self.registers_agree(),
        ensures
            self.spec_on_vdraw_hook().registers_agree(),
            self.spec_on_hdraw_hook().registers_agree(),
            self.spec_on_vcount_hook(vcount).registers_agree(),
    {
        reveal(Memory::registers_agree);
        self.lemma_with_registers_agrees(self.spec_on_vdraw_hook().raw);
        self.lemma_with_registers_agrees(self.spec_on_hdraw_hook().raw);
        self.lemma_with_registers_agrees(self.spec_on_vcount_hook(vcount).raw);
    }

    /// The hook at the end of a transfer keeps the views the decode of the
    /// raw bytes.
    pub proof fn law_finish_hook_keeps_registers_agreeing(self, channel: usize)
        requires
            channel < 4,
            self.registers_agree(),
        ensures
            self.spec_on_dma_finish_hook(channel).registers_agree(),
    {
        reveal(Memory::registers_agree);
        self.lemma_with_registers_agrees(self.spec_on_dma_finish_hook(channel).raw);
    }

    /// Chunks copied by a transfer are stores like any other.
    pub proof fn lemma_copy_keeps_registers_agreeing(
        self,
        src: u32,
        dest: u32,
        src_incr: IncrType,
        dest_incr: IncrType,
        word: bool,
        count: nat,
    )
        requires
            self.registers_agree(),
        ensures
            self.spec_dma_copy(src, dest, src_incr, dest_incr, word, count).registers_agree(),
        decreases count,
    {
        reveal(Memory::registers_agree);
        reveal(Memory::spec_dma_copy);
        if count > 0 {
            let step = if word {
                4u32
            } else {
                2u32
            };
            let written = if word {
                self.spec_set_word(dest, self.spec_get_word(src))
            } else {
                self.spec_set_halfword(dest, self.spec_get_halfword(src) as u32)
            };
            if word {
                self.law_word_store_keeps_registers_agreeing(dest, self.spec_get_word(src));
            } else {
                self.law_halfword_store_keeps_registers_agreeing(
                    dest,
                    self.spec_get_halfword(src) as u32,
                );
            }
            written.lemma_copy_keeps_registers_agreeing(
                src_incr.spec_step(src, step),
                dest_incr.spec_step(dest, step),
                src_incr,
                dest_incr,
                word,
                (count - 1) as nat,
            );
        }
    }

    /// Noting the end of a transfer touches the registers of the DMA
    /// channels only, and parses them again.
    pub proof fn lemma_settle_keeps_registers_agreeing(
        self,
        channel: usize,
        ch: DMAChannel,
        end_src: u32,
        end_dest: u32,
    )
        requires
            channel < 4,
            self.registers_agree(),
        ensures
            self.spec_dma_settle(channel, ch, end_src, end_dest).registers_agree(),
    {
        reveal(LCD::spec_decode);
        reveal(Interrupt::spec_decode);
        reveal(Memory::registers_agree);
        reveal(Memory::spec_dma_settle);
        let r1 = self.raw.spec_set_word(spec_dma_sad(channel), end_src);
        let r2 = if ch.dest_incr == IncrType::Reload {
            r1
        } else {
            r1.spec_set_word(spec_dma_dad(channel), end_dest)
        };
        self.raw.lemma_channel_store(spec_dma_sad(channel), end_src);
        r1.lemma_channel_store(spec_dma_dad(channel), end_dest);
        r2.lemma_channel_store(
            spec_dma_cnt(channel),
            (r2.spec_get_halfword(spec_dma_cnt(channel)) & 0x7FFF) as u32,
        );
    }

    /// A transfer, whatever it copies and wherever, keeps the views the
    /// decode of the raw bytes.
    pub proof fn law_transfer_keeps_registers_agreeing(self, channel: usize)
        requires
            channel < 4,
            self.registers_agree(),
        ensures
            self.spec_run_dma(channel).registers_agree(),
    {
        reveal(Memory::registers_agree);
        reveal(Memory::spec_run_dma);
        let ch = self.dma.channels[channel as int];
        let src = spec_chunk_align(ch.src, ch.word);
        let dest = spec_chunk_align(ch.dest, ch.word);
        self.lemma_copy_keeps_registers_agreeing(
            src,
            dest,
            ch.src_incr,
            ch.dest_incr,
            ch.word,
            ch.count as nat,
        );
        let copied = self.spec_dma_copy(
            src,
            dest,
            ch.src_incr,
            ch.dest_incr,
            ch.word,
            ch.count as nat,
        );
        let end_src = ch.src_incr.spec_step_n(src, ch.chunk_size(), ch.count as nat);
        let end_dest = ch.dest_incr.spec_step_n(dest, ch.chunk_size(), ch.count as nat);
        copied.lemma_settle_keeps_registers_agreeing(channel, ch, end_src, end_dest);
        copied.spec_dma_settle(
            channel,
            ch,
            end_src,
            end_dest,
        ).law_finish_hook_keeps_registers_agreeing(channel);
    }

    /// The transfers that a trigger starts keep the views the decode of
    /// the raw bytes.
    pub proof fn lemma_check_keeps_registers_agreeing(self, timing: TimingMode, from: nat)
        requires
            self.registers_agree(),
        ensures
            self.spec_check_dma_from(timing, from).registers_agree(),
        decreases 4 - from,
    {
        reveal(Memory::registers_agree);
        reveal(Memory::spec_check_dma_from);
        if from < 4 {
            let ch = self.dma.channels[from as int];
            let ran = if ch.enabled && ch.timing == timing {
                self.spec_run_dma(from as usize)
            } else {
                self
            };
            if ch.enabled && ch.timing == timing {
                self.law_transfer_keeps_registers_agreeing(from as usize);
            }
            ran.lemma_check_keeps_registers_agreeing(timing, from + 1);
        }
    }

    /// The hooks at the start of VBlank and of HBlank, with every transfer
    /// that they start, keep the views the decode of the raw bytes, and so
    /// does the check for transfers that start at once.
    pub proof fn law_blank_hooks_keep_registers_agreeing(self)
        requires
            self.registers_agree(),
        ensures
            self.spec_on_vblank_hook().registers_agree(),
            self.spec_on_hblank_hook().registers_agree(),
            self.spec_check_dma(TimingMode::Now).registers_agree(),
    {
        reveal(Memory::registers_agree);
        self.lemma_with_registers_agrees(self.spec_vblank_latched().raw);
        self.lemma_with_registers_agrees(self.spec_hblank_latched().raw);
        self.lemma_check_keeps_registers_agreeing(TimingMode::Now, 0);
        self.spec_vblank_latched().lemma_check_keeps_registers_agreeing(TimingMode::VBlank, 0);
        self.spec_hblank_latched().lemma_check_keeps_registers_agreeing(TimingMode::HBlank, 0);
    }
}

/// Bit `k` (0..16) of the low halfword of `mask`.
pub open spec fn spec_halfword_bit(mask: u32, k: int) -> bool {
    if k < 8 {
        spec_get_bit((mask % 0x100) as u8, k as u8)
    } else {
        spec_get_bit((mask / 0x100 % 0x100) as u8, (k - 8) as u8)
    }
}

impl Memory {
    /// What a byte store leaves in the raw register, palette and sprite
    /// bytes: the byte that is addressed holds what its register keeps of
    /// the write (all of it, but for IF, DISPSTAT, VCOUNT and a video mode
    /// that does not exist), and every other byte is as it was.
    pub proof fn law_store_writes_one_raw_byte(self, a: u32, val: u8)
        ensures
            forall|k: int|
                0 <= k < 0x400 ==> #[trigger] self.spec_store_at(a, val).raw.io[k] == (if a
                    == IO_START + k {
                    spec_kept_byte(self.raw.io[k], a, val)
                } else {
                    self.raw.io[k]
                }),
            forall|k: int|
                0 <= k < 0x400 ==> #[trigger] self.spec_store_at(a, val).raw.pal[k] == (if a
                    == PAL_START + k {
                    val
                } else {
                    self.raw.pal[k]
                }),
            forall|k: int|
                0 <= k < 0x400 ==> #[trigger] self.spec_store_at(a, val).raw.oam[k] == (if a
                    == OAM_START + k {
                    val
                } else {
                    self.raw.oam[k]
                }),
    {
        self.raw.lemma_bus_write_bytes(a, val);
        self.lemma_store_at_raw(a, val);
    }

    /// What a halfword written to IF does to the raw bytes and the parsed
    /// registers: each byte of IF loses the bits that were written as 1,
    /// the bytes of IE and IME stay, and the parsed registers are what the
    /// raw bytes then hold.
    pub proof fn lemma_acknowledge_bytes(self, mask: u32)
        ensures
            ({
                let after = self.spec_set_halfword(IF_LO, mask);
                &&& after.raw.io[0x202] == self.raw.io[0x202] & !((mask % 0x100) as u8)
                &&& after.raw.io[0x203] == self.raw.io[0x203] & !((mask / 0x100 % 0x100) as u8)
                &&& after.raw.io[0x200] == self.raw.io[0x200]
                &&& after.raw.io[0x201] == self.raw.io[0x201]
                &&& after.raw.io[0x208] == self.raw.io[0x208]
                &&& after.int == Interrupt::spec_decode(*after.raw.io)
            }),
    {
        let lo = (mask % 0x100) as u8;
        let hi = (mask / 0x100 % 0x100) as u8;
        assert(spec_canonicalize_addr(IF_LO) == IF_LO);
        assert(IF_LO.wrapping_add(1) == IF_HI);
        let m1 = self.spec_store_at(IF_LO, lo);
        self.law_store_writes_one_raw_byte(IF_LO, lo);
        m1.law_store_writes_one_raw_byte(IF_HI, hi);
        (Memory { raw: m1.raw.spec_bus_write(IF_HI, hi), ..m1 }).lemma_view_update_effect(
            IF_HI,
            hi,
        );
        m1.lemma_store_at_raw(IF_HI, hi);
    }

    /// Acknowledging interrupts: a halfword `m` written to IF takes the
    /// register from `f` to `f & !m`. Each raw byte is the byte that was
    /// there without the bits that were written as 1, the parsed latch is
    /// what the raw bytes then hold, and so flag `k` is bit `k` of the
    /// register before the write, cleared where bit `k` of `m` is 1. No
    /// flag is set, and the raw bytes of IE and IME are as they were.
    pub proof fn law_acknowledge_clears_latched(self, mask: u32)
        ensures
            ({
                let after = self.spec_set_halfword(IF_LO, mask);
                let before = InterruptBitmap::spec_of_bytes(self.raw.io[0x202], self.raw.io[0x203]);
                &&& after.raw.io[0x202] == self.raw.io[0x202] & !((mask % 0x100) as u8)
                &&& after.raw.io[0x203] == self.raw.io[0x203] & !((mask / 0x100 % 0x100) as u8)
                &&& after.raw.io[0x200] == self.raw.io[0x200]
                &&& after.raw.io[0x201] == self.raw.io[0x201]
                &&& after.raw.io[0x208] == self.raw.io[0x208]
                &&& forall|k: int|
                    0 <= k < 14 ==> #[trigger] after.int.triggered.flags()[k] == (before.flags()[k]
                        && !spec_halfword_bit(mask, k))
                &&& self.registers_agree() ==> before == self.int.triggered
            }),
    {
        self.lemma_acknowledge_bytes(mask);
        let after = self.spec_set_halfword(IF_LO, mask);
        assert(after.int.triggered == InterruptBitmap::spec_of_bytes(
            after.raw.io[0x202],
            after.raw.io[0x203],
        )) by {
            reveal(Interrupt::spec_decode);
        }
        assert(self.registers_agree() ==> InterruptBitmap::spec_of_bytes(
            self.raw.io[0x202],
            self.raw.io[0x203],
        ) == self.int.triggered) by {
            reveal(Memory::registers_agree);
            reveal(Interrupt::spec_decode);
        }
        assert forall|k: int| 0 <= k < 14 implies #[trigger] after.int.triggered.flags()[k] == (
        InterruptBitmap::spec_of_bytes(self.raw.io[0x202], self.raw.io[0x203]).flags()[k]
            && !spec_halfword_bit(mask, k)) by {
            lemma_cleared_flag(self.raw.io[0x202], self.raw.io[0x203], mask, k);
        }
    }
}

/// Flag `k` of a latch whose bytes lost the bits of `mask`: the flag that
/// was there, cleared where bit `k` of `mask` is 1.
pub proof fn lemma_cleared_flag(lo: u8, hi: u8, mask: u32, k: int)
    requires
        0 <= k < 14,
    ensures
        InterruptBitmap::spec_of_bytes(
            lo & !((mask % 0x100) as u8),
            hi & !((mask / 0x100 % 0x100) as u8),
        ).flags()[k] == (InterruptBitmap::spec_of_bytes(lo, hi).flags()[k] && !spec_halfword_bit(
            mask,
            k,
        )),
{
    let m_lo = (mask % 0x100) as u8;
    let m_hi = (mask / 0x100 % 0x100) as u8;
    lemma_cleared_bits(lo, m_lo);
    lemma_cleared_bits(hi, m_hi);
    let f = InterruptBitmap::spec_of_bytes(lo, hi);
    let t = InterruptBitmap::spec_of_bytes(lo & !m_lo, hi & !m_hi);
    if k == 0 {
        assert(t.flags()[0] == t.vblank && f.flags()[0] == f.vblank);
    } else if k == 1 {
        assert(t.flags()[1] == t.hblank && f.flags()[1] == f.hblank);
    } else if k == 2 {
        assert(t.flags()[2] == t.vcount && f.flags()[2] == f.vcount);
    } else if k == 3 {
        assert(t.flags()[3] == t.timer[0] && f.flags()[3] == f.timer[0]);
    } else if k == 4 {
        assert(t.flags()[4] == t.timer[1] && f.flags()[4] == f.timer[1]);
    } else if k == 5 {
        assert(t.flags()[5] == t.timer[2] && f.flags()[5] == f.timer[2]);
    } else if k == 6 {
        assert(t.flags()[6] == t.timer[3] && f.flags()[6] == f.timer[3]);
    } else if k == 7 {
        assert(t.flags()[7] == t.serial && f.flags()[7] == f.serial);
    } else if k == 8 {
        assert(t.flags()[8] == t.dma[0] && f.flags()[8] == f.dma[0]);
    } else if k == 9 {
        assert(t.flags()[9] == t.dma[1] && f.flags()[9] == f.dma[1]);
    } else if k == 10 {
        assert(t.flags()[10] == t.dma[2] && f.flags()[10] == f.dma[2]);
    } else if k == 11 {
        assert(t.flags()[11] == t.dma[3] && f.flags()[11] == f.dma[3]);
    } else if k == 12 {
        assert(t.flags()[12] == t.keypad && f.flags()[12] == f.keypad);
    } else {
        assert(t.flags()[13] == t.gamepak && f.flags()[13] == f.gamepak);
    }
}

impl Memory {
    /// What a load reads after a byte store to an address that keeps
    /// stores: what the register there keeps of the byte that was written.
    /// For every address but IF, DISPSTAT, VCOUNT and a video mode that
    /// does not exist, that is the byte itself.
    pub proof fn law_byte_reads_back_what_is_kept(self, addr: u32, val: u8)
        requires
            RawMemory::spec_is_writable(spec_canonicalize_addr(addr)),
        ensures
            self.spec_set_byte(addr, val).spec_get_byte(addr) == spec_kept_byte(
                self.spec_get_byte(addr),
                spec_canonicalize_addr(addr),
                val,
            ),
    {
        let a = spec_canonicalize_addr(addr);
        self.lemma_store_at_raw(a, val);
        reveal(RawMemory::spec_bus_write);
        self.raw.lemma_read_after_write(a, spec_kept_byte(self.raw.spec_get_byte(a), a, val), a);
    }

    /// A byte store touches the view of one window: a store outside the
    /// LCD registers leaves the display registers as they were, and so for
    /// the DMA channels, the interrupt registers and cartridge timings, the
    /// sprite table and the palette. The frame buffer is never touched.
    pub proof fn law_store_touches_one_view(self, a: u32, val: u8)
        ensures
            ({
                let after = self.spec_store_at(a, val);
                &&& !(GRAPHICS_START <= a <= GRAPHICS_END) ==> after.graphics == self.graphics
                &&& !(DMA_START <= a <= DMA_END) ==> after.dma == self.dma
                &&& !(INT_START <= a <= INT_END) ==> after.int == self.int && after.rom_n_cycle
                    == self.rom_n_cycle && after.rom_s_cycle_fast == self.rom_s_cycle_fast
                &&& !(OAM_START <= a <= OAM_END) ==> after.sprites == self.sprites
                &&& !(PAL_START <= a <= PAL_END) ==> after.palette == self.palette
                &&& after.framebuffer == self.framebuffer
            }),
    {
        (Memory { raw: self.raw.spec_bus_write(a, val), ..self }).lemma_view_update_effect(a, val);
    }

    /// In a memory whose views agree with its raw bytes, a byte store
    /// touches one register: every display register, DMA channel and
    /// interrupt register that does not hold the byte at `a` is as it was.
    pub proof fn law_store_touches_one_register(self, a: u32, val: u8)
        requires
            self.registers_agree(),
        ensures
            ({
                let after = self.spec_store_at(a, val);
                let at = a - IO_START;
                let g = self.graphics;
                let h = after.graphics;
                &&& !(0x00 <= at < 0x02) ==> h.disp_cnt == g.disp_cnt
                &&& !(0x04 <= at < 0x06) ==> h.disp_stat == g.disp_stat
                &&& at != 0x06 ==> h.vcount == g.vcount
                &&& forall|i: int|
                    0 <= i < 4 && !(0x08 + 2 * i <= at < 0x0A + 2 * i) ==> #[trigger] h.bg_cnt[i]
                        == g.bg_cnt[i]
                &&& forall|i: int|
                    0 <= i < 4 && !(0x10 + 4 * i <= at < 0x12 + 4 * i)
                        ==> #[trigger] h.bg_offset_x[i] == g.bg_offset_x[i]
                &&& forall|i: int|
                    0 <= i < 4 && !(0x12 + 4 * i <= at < 0x14 + 4 * i)
                        ==> #[trigger] h.bg_offset_y[i] == g.bg_offset_y[i]
                &&& forall|i: int|
                    0 <= i < 2 && !(0x20 + 16 * i <= at < 0x30 + 16 * i)
                        ==> #[trigger] h.bg_affine[i] == g.bg_affine[i]
                &&& !(0x40 <= at < 0x48) ==> h.window_coords[0] == g.window_coords[0]
                    && h.window_coords[1] == g.window_coords[1]
                &&& forall|i: int|
                    0 <= i < 4 && at != 0x48 + i ==> #[trigger] h.window_settings[i]
                        == g.window_settings[i]
                &&& at != 0x4C ==> h.bg_mos_hsize == g.bg_mos_hsize && h.bg_mos_vsize
                    == g.bg_mos_vsize
                &&& at != 0x4D ==> h.obj_mos_hsize == g.obj_mos_hsize && h.obj_mos_vsize
                    == g.obj_mos_vsize
                &&& !(0x50 <= at < 0x52) ==> h.blend_params == g.blend_params
                &&& at != 0x52 ==> h.alpha_a_coef == g.alpha_a_coef
                &&& at != 0x53 ==> h.alpha_b_coef == g.alpha_b_coef
                &&& at != 0x54 ==> h.brightness_coef == g.brightness_coef
                &&& forall|c: int|
                    0 <= c < 4 && !(0xB0 + 12 * c <= at < 0xBC + 12 * c)
                        ==> #[trigger] after.dma.channels[c] == self.dma.channels[c]
                &&& !(0x200 <= at < 0x202) ==> after.int.enabled == self.int.enabled
                &&& !(0x202 <= at < 0x204) ==> after.int.triggered == self.int.triggered
                &&& at != 0x208 ==> after.int.master_enabled == self.int.master_enabled
                &&& at != 0x204 ==> after.rom_n_cycle == self.rom_n_cycle
                    && after.rom_s_cycle_fast == self.rom_s_cycle_fast
            }),
    {
        reveal(Memory::registers_agree);
        self.lemma_store_at_keeps(a, val);
        self.law_store_writes_one_raw_byte(a, val);
        let after = self.spec_store_at(a, val);
        assert(after.graphics == LCD::spec_decode(*after.raw.io) && self.graphics
            == LCD::spec_decode(*self.raw.io)) by {
            reveal(Memory::registers_agree);
        }
        self.lemma_lcd_registers_stay(after, a);
        assert forall|c: int| 0 <= c < 4 && !(0xB0 + 12 * c <= a - IO_START < 0xBC + 12 * c)
            implies #[trigger] after.dma.channels[c] == self.dma.channels[c] by {
            DMA::lemma_decode_reads(*after.raw.io, *self.raw.io, c);
        }
        reveal(Interrupt::spec_decode);
    }

    /// Display registers whose bytes two memories hold alike are alike in
    /// the decode of both.
    pub proof fn lemma_lcd_registers_stay(self, after: Memory, a: u32)
        requires
            self.graphics == LCD::spec_decode(*self.raw.io),
            after.graphics == LCD::spec_decode(*after.raw.io),
            forall|k: int|
                0 <= k < 0x400 && a != IO_START + k ==> #[trigger] after.raw.io[k]
                    == self.raw.io[k],
        ensures
            ({
                let at = a - IO_START;
                let g = self.graphics;
                let h = after.graphics;
                &&& !(0x00 <= at < 0x02) ==> h.disp_cnt == g.disp_cnt
                &&& !(0x04 <= at < 0x06) ==> h.disp_stat == g.disp_stat
                &&& at != 0x06 ==> h.vcount == g.vcount
                &&& forall|i: int|
                    0 <= i < 4 && !(0x08 + 2 * i <= at < 0x0A + 2 * i) ==> #[trigger] h.bg_cnt[i]
                        == g.bg_cnt[i]
                &&& forall|i: int|
                    0 <= i < 4 && !(0x10 + 4 * i <= at < 0x12 + 4 * i)
                        ==> #[trigger] h.bg_offset_x[i] == g.bg_offset_x[i]
                &&& forall|i: int|
                    0 <= i < 4 && !(0x12 + 4 * i <= at < 0x14 + 4 * i)
                        ==> #[trigger] h.bg_offset_y[i] == g.bg_offset_y[i]
                &&& forall|i: int|
                    0 <= i < 2 && !(0x20 + 16 * i <= at < 0x30 + 16 * i)
                        ==> #[trigger] h.bg_affine[i] == g.bg_affine[i]
                &&& !(0x40 <= at < 0x48) ==> h.window_coords[0] == g.window_coords[0]
                    && h.window_coords[1] == g.window_coords[1]
                &&& forall|i: int|
                    0 <= i < 4 && at != 0x48 + i ==> #[trigger] h.window_settings[i]
                        == g.window_settings[i]
                &&& at != 0x4C ==> h.bg_mos_hsize == g.bg_mos_hsize && h.bg_mos_vsize
                    == g.bg_mos_vsize
                &&& at != 0x4D ==> h.obj_mos_hsize == g.obj_mos_hsize && h.obj_mos_vsize
                    == g.obj_mos_vsize
                &&& !(0x50 <= at < 0x52) ==> h.blend_params == g.blend_params
                &&& at != 0x52 ==> h.alpha_a_coef == g.alpha_a_coef
                &&& at != 0x53 ==> h.alpha_b_coef == g.alpha_b_coef
                &&& at != 0x54 ==> h.brightness_coef == g.brightness_coef
            }),
    {
        reveal(LCD::spec_decode);
    }
}

/// The status bits of DISPSTAT after the display marked or cleared them.
pub proof fn lemma_status_marks(x: u8)
    by (bit_vector)
    ensures
        (x & !1u8) & 0x1 != 0x1,
        (x & !2u8) & 0x2 != 0x2,
        (x | 2u8) & 0x2 == 0x2,
        ((x & !3u8) | 1u8) & 0x1 == 0x1,
        ((x & !3u8) | 1u8) & 0x2 != 0x2,
        (x | 4u8) & 0x4 == 0x4,
        (x & !4u8) & 0x4 != 0x4,
        ((x | 1u8) >> 0u8) & 1 == 1,
        ((x | 2u8) >> 1u8) & 1 == 1,
        ((x | 4u8) >> 2u8) & 1 == 1,
{
}

impl Memory {
    /// What the hooks of the display leave in the parsed display status:
    /// the start of a drawn line clears the VBlank status, the start of its
    /// drawn part the HBlank status; the start of VBlank sets the VBlank
    /// status and clears the HBlank status, the start of HBlank sets the
    /// HBlank status; a step of the line counter stores the line and says
    /// whether it is the trigger line.
    pub proof fn law_hooks_mark_the_status(self, line: u8)
        ensures
            !self.spec_on_vdraw_hook().graphics.disp_stat.is_vblank,
            !self.spec_on_hdraw_hook().graphics.disp_stat.is_hblank,
            self.spec_vblank_latched().graphics.disp_stat.is_vblank,
            !self.spec_vblank_latched().graphics.disp_stat.is_hblank,
            self.spec_hblank_latched().graphics.disp_stat.is_hblank,
            self.spec_on_vcount_hook(line).graphics.vcount == line,
            self.spec_on_vcount_hook(line).graphics.disp_stat.vcount_triggered == (line
                == self.graphics.disp_stat.vcount_line_trigger),
    {
        LCD::lemma_decode_status(*self.spec_on_vdraw_hook().raw.io);
        LCD::lemma_decode_status(*self.spec_on_hdraw_hook().raw.io);
        LCD::lemma_decode_status(*self.spec_vblank_latched().raw.io);
        LCD::lemma_decode_status(*self.spec_hblank_latched().raw.io);
        LCD::lemma_decode_status(*self.spec_on_vcount_hook(line).raw.io);
        lemma_status_marks(self.raw.io[4]);
    }

    /// What the hooks of the display latch: the start of VBlank and of
    /// HBlank and a match of the line counter each latch their interrupt
    /// if DISPSTAT enables it.
    pub proof fn law_hooks_latch_enabled_interrupts(self, line: u8)
        ensures
            self.graphics.disp_stat.vblank_irq_enabled
                ==> self.spec_vblank_latched().int.triggered.vblank,
            self.graphics.disp_stat.hblank_irq_enabled
                ==> self.spec_hblank_latched().int.triggered.hblank,
            line == self.graphics.disp_stat.vcount_line_trigger
                && self.graphics.disp_stat.vcount_irq_enabled ==> self.spec_on_vcount_hook(
                line,
            ).int.triggered.vcount,
    {
        reveal(Interrupt::spec_decode);
        lemma_status_marks(self.raw.io[0x202]);
    }
}

} // verus!
