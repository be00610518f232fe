//! Parsed view of palette memory: every 15 bit colour expanded to 32 bit RGBA.

use vstd::prelude::*;
use vstd::array::spec_array_update;
use crate::mem::addrs::{PAL_END, PAL_START};
use crate::mem::{spec_canonicalize_addr, Memory, RawMemory};
use crate::util::{halfword_of, spec_halfword_of};

verus! {

/// Stores 32 bit RGBA versions of the colors in raw memory.
pub struct Palette {
    pub bg: [u32; 256],
    pub sprite: [u32; 256],
}

pub open spec fn spec_high_to_true(color: u16) -> u32 {
    let color = color as u32;
    let red = color & 0x1F;
    let green = (color >> 5) & 0x1F;
    let blue = (color >> 10) & 0x1F;
    0xFF00_0000u32 | (red << 19) | (green << 11) | (blue << 3)
}

/// convert 15 bit RGB to 32 bit RGBA: each 5 bit channel becomes the upper
/// five bits of its byte, and alpha is 0xFF
#[verifier::when_used_as_spec(spec_high_to_true)]
pub fn high_to_true(color: u16) -> (r: u32)
    ensures
        r == spec_high_to_true(color),
{
    let color: u32 = color as u32;
    let red: u32 = color & 0x1F;
    let green: u32 = (color >> 5) & 0x1F;
    let blue: u32 = (color >> 10) & 0x1F;
    0xFF00_0000u32 | (red << 19) | (green << 11) | (blue << 3)
}

impl Palette {
    /// The palette while every byte of palette memory is zero: every entry
    /// is opaque black.
    pub fn new() -> (r: Palette)
        ensures
            forall|i: int|
                0 <= i < 256 ==> r.bg[i] == spec_high_to_true(0) && r.sprite[i] == spec_high_to_true(
                    0,
                ),
    {
        let black = high_to_true(0);
        Palette { bg: [black;256], sprite: [black;256] }
    }

    /// Entry `n` (0..512, background entries first) as the raw palette
    /// memory `pal` holds it: the expansion of its halfword.
    pub open spec fn spec_entry(pal: [u8; 0x400], n: int) -> u32 {
        spec_high_to_true(spec_halfword_of(pal[2 * n], pal[2 * n + 1]))
    }

    /// Whether every entry is the expansion of the halfword that the raw
    /// palette memory `pal` holds for it.
    pub open spec fn spec_agrees(self, pal: [u8; 0x400]) -> bool {
        &&& forall|i: int| 0 <= i < 256 ==> #[trigger] self.bg[i] == Palette::spec_entry(pal, i)
        &&& forall|i: int|
            0 <= i < 256 ==> #[trigger] self.sprite[i] == Palette::spec_entry(pal, 256 + i)
    }

    /// The palette after a byte at `addr` of palette memory was written:
    /// the entry that the byte belongs to is the expansion of the halfword
    /// that `raw` now holds there.
    pub open spec fn spec_refresh(self, raw: &RawMemory, addr: u32) -> Palette {
        let n = (addr - PAL_START) / 2;
        let color = Palette::spec_entry(*raw.pal, n);
        if n < 256 {
            Palette { bg: spec_array_update(self.bg, n, color), ..self }
        } else {
            Palette { sprite: spec_array_update(self.sprite, n - 256, color), ..self }
        }
    }

    pub fn refresh(&mut self, raw: &RawMemory, addr: u32)
        requires
            PAL_START <= addr <= PAL_END,
        ensures
            *final(self) == old(self).spec_refresh(raw, addr),
    {
        let n: usize = ((addr - PAL_START) / 2) as usize;
        let color = high_to_true(halfword_of(raw.pal[2 * n], raw.pal[2 * n + 1]));
        if n < 256 {
            self.bg[n] = color;
        } else {
            self.sprite[n - 256] = color;
        }
    }

    /// Refreshing the entry of a byte from raw memory that differs from the
    /// final one only in the next byte, and then the entry of the next
    /// byte, gives what refreshing both from the final raw memory gives.
    pub proof fn lemma_refresh_early(self, early: &RawMemory, last: &RawMemory, addr: u32)
        requires
            PAL_START <= addr < PAL_END,
            forall|k: int|
                0 <= k < 0x400 && k != addr + 1 - PAL_START ==> early.pal[k] == last.pal[k],
        ensures
            self.spec_refresh(early, addr).spec_refresh(last, (addr + 1) as u32)
                == self.spec_refresh(last, addr).spec_refresh(last, (addr + 1) as u32),
    {
        let a = self.spec_refresh(early, addr).spec_refresh(last, (addr + 1) as u32);
        let b = self.spec_refresh(last, addr).spec_refresh(last, (addr + 1) as u32);
        assert(a.bg =~= b.bg);
        assert(a.sprite =~= b.sprite);
    }
}

impl Memory {
    pub open spec fn spec_update_pal_byte(self, addr: u32) -> Memory {
        Memory { palette: self.palette.spec_refresh(&self.raw, addr), ..self }
    }

    /// Refresh the palette entry that the byte at `addr` belongs to.
    pub fn update_pal_byte(&mut self, addr: u32, _val: u8)
        requires
            PAL_START <= addr <= PAL_END,
        ensures
            *final(self) == old(self).spec_update_pal_byte(addr),
    {
        self.palette.refresh(&self.raw, addr);
    }

    pub fn update_pal_hw(&mut self, addr: u32, val: u32)
        requires
            PAL_START <= addr < PAL_END,
        ensures
            *final(self) == old(self).spec_update_pal_byte(addr).spec_update_pal_byte(
                (addr + 1) as u32,
            ),
    {
        self.update_pal_byte(addr, (val % 0x100) as u8);
        self.update_pal_byte(addr + 1, (val / 0x100 % 0x100) as u8);
    }

    pub fn update_pal_word(&mut self, addr: u32, val: u32)
        requires
            PAL_START <= addr,
            addr + 3 <= PAL_END,
        ensures
            *final(self) == old(self).spec_update_pal_byte(addr).spec_update_pal_byte(
                (addr + 1) as u32,
            ).spec_update_pal_byte((addr + 2) as u32).spec_update_pal_byte((addr + 3) as u32),
    {
        self.update_pal_hw(addr, val);
        self.update_pal_hw(addr + 2, val / 0x1_0000);
    }
}

impl Palette {
    /// Refreshing an entry twice from the same raw memory is the same as
    /// refreshing it once, also with another refresh between the two.
    pub proof fn lemma_refresh_again(self, raw: &RawMemory, addr: u32, between: u32)
        requires
            PAL_START <= addr <= PAL_END,
            PAL_START <= between <= PAL_END,
        ensures
            self.spec_refresh(raw, addr).spec_refresh(raw, addr) == self.spec_refresh(raw, addr),
            self.spec_refresh(raw, addr).spec_refresh(raw, between).spec_refresh(
                raw,
                addr,
            ).spec_refresh(raw, between) == self.spec_refresh(raw, addr).spec_refresh(raw, between),
    {
        let once = self.spec_refresh(raw, addr);
        assert(once.spec_refresh(raw, addr).bg =~= once.bg);
        assert(once.spec_refresh(raw, addr).sprite =~= once.sprite);
        let twice = once.spec_refresh(raw, between);
        let again = twice.spec_refresh(raw, addr).spec_refresh(raw, between);
        assert(again.bg =~= twice.bg);
        assert(again.sprite =~= twice.sprite);
    }
}

impl RawMemory {
    /// A raw store changes at most the one byte of palette memory that it
    /// addresses.
    pub proof fn lemma_palette_bytes(self, addr: u32, val: u8)
        ensures
            forall|k: int|
                0 <= k < 0x400 && addr != PAL_START + k ==> #[trigger] self.spec_set_byte(
                    addr,
                    val,
                ).pal[k] == self.pal[k],
    {
        reveal(RawMemory::spec_set_byte);
    }

    /// Writing a byte a second time changes nothing.
    pub proof fn lemma_write_again(self, addr: u32, val: u8, between: u32, other: u8)
        ensures
            self.spec_set_byte(addr, val).spec_set_byte(addr, val) == self.spec_set_byte(addr, val),
            between != addr ==> self.spec_set_byte(addr, val).spec_set_byte(
                between,
                other,
            ).spec_set_byte(addr, val) == self.spec_set_byte(addr, val).spec_set_byte(
                between,
                other,
            ),
    {
        reveal(RawMemory::spec_set_byte);
        let once = self.spec_set_byte(addr, val);
        let again = once.spec_set_byte(addr, val);
        assert(again.sysrom =~= once.sysrom);
        assert(again.ewram =~= once.ewram);
        assert(again.iwram =~= once.iwram);
        assert(again.io =~= once.io);
        assert(again.pal =~= once.pal);
        assert(again.vram =~= once.vram);
        assert(again.oam =~= once.oam);
        if between != addr {
            let mid = once.spec_set_byte(between, other);
            let last = mid.spec_set_byte(addr, val);
            assert(last.sysrom =~= mid.sysrom);
            assert(last.ewram =~= mid.ewram);
            assert(last.iwram =~= mid.iwram);
            assert(last.io =~= mid.io);
            assert(last.pal =~= mid.pal);
            assert(last.vram =~= mid.vram);
            assert(last.oam =~= mid.oam);
        }
    }
}

impl Memory {
    /// What a halfword write to palette memory does: the two raw bytes are
    /// written, and each entry that holds one of them is refreshed from the
    /// raw memory. Nothing else changes.
    pub proof fn lemma_palette_halfword_write(self, addr: u32, val: u32)
        requires
            PAL_START <= spec_canonicalize_addr(addr) <= PAL_END,
        ensures
            ({
                let canon = spec_canonicalize_addr(addr);
                let after = self.spec_set_halfword(addr, val);
                let first = self.palette.spec_refresh(&after.raw, canon);
                &&& after.raw == self.raw.spec_set_halfword(canon, val)
                &&& after.palette == (if canon < PAL_END {
                    first.spec_refresh(&after.raw, (canon + 1) as u32)
                } else {
                    first
                })
            }),
    {
        let canon = spec_canonicalize_addr(addr);
        let next = canon.wrapping_add(1);
        let lo = (val % 0x100) as u8;
        let hi = (val / 0x100 % 0x100) as u8;
        let r1 = self.raw.spec_set_byte(canon, lo);
        let r2 = r1.spec_set_byte(next, hi);
        self.raw.lemma_bus_write_plain(canon, lo);
        r1.lemma_bus_write_plain(next, hi);
        let m1 = self.spec_store_at(canon, lo);
        self.lemma_store_at_raw(canon, lo);
        m1.lemma_store_at_raw(next, hi);
        self.lemma_store_at_palette(canon, lo);
        m1.lemma_store_at_palette(next, hi);
        r1.lemma_palette_bytes(next, hi);
        if canon < PAL_END {
            self.palette.lemma_refresh_early(&r1, &r2, canon);
        } else {
            assert(self.palette.spec_refresh(&r1, canon).bg =~= self.palette.spec_refresh(
                &r2,
                canon,
            ).bg);
            assert(self.palette.spec_refresh(&r1, canon).sprite =~= self.palette.spec_refresh(
                &r2,
                canon,
            ).sprite);
        }
    }

    /// What a byte store does to the palette: the entry of a byte in
    /// palette memory is refreshed from the raw memory after the store,
    /// and no other store touches the palette.
    pub proof fn lemma_store_at_palette(self, addr: u32, val: u8)
        ensures
            self.spec_store_at(addr, val).palette == (if PAL_START <= addr <= PAL_END {
                self.palette.spec_refresh(&self.spec_store_at(addr, val).raw, addr)
            } else {
                self.palette
            }),
    {
        reveal(Memory::spec_update_view);
    }

    /// Writing the same halfword to palette memory a second time changes
    /// neither the raw bytes nor the expanded colours.
    pub proof fn law_palette_write_is_idempotent(self, addr: u32, val: u32)
        requires
            PAL_START <= spec_canonicalize_addr(addr) <= PAL_END,
        ensures
            self.spec_set_halfword(addr, val).spec_set_halfword(addr, val).palette
                == self.spec_set_halfword(addr, val).palette,
            self.spec_set_halfword(addr, val).spec_set_halfword(addr, val).raw
                == self.spec_set_halfword(addr, val).raw,
    {
        let canon = spec_canonicalize_addr(addr);
        let next = canon.wrapping_add(1);
        let lo = (val % 0x100) as u8;
        let hi = (val / 0x100 % 0x100) as u8;
        let once = self.spec_set_halfword(addr, val);
        self.lemma_palette_halfword_write(addr, val);
        once.lemma_palette_halfword_write(addr, val);
        // the raw bytes are written with what they hold already
        self.raw.spec_set_byte(canon, lo).lemma_write_again(next, hi, canon, lo);
        self.raw.lemma_write_again(canon, lo, next, hi);
        assert(once.raw.spec_set_halfword(canon, val) == once.raw);
        // and the entries are refreshed from the same raw bytes
        self.palette.lemma_refresh_again(&once.raw, canon, if canon < PAL_END {
            next
        } else {
            canon
        });
    }
}

} // verus!
