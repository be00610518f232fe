//! The memory bus: raw byte segments, address decoding and mirror folding,
//! and the parsed register views that are refreshed on every write.

pub mod addrs;
pub mod coherence;
pub mod framebuffer;
pub mod io;
pub mod oam;
pub mod palette;

use vstd::prelude::*;
use vstd::array::spec_array_update;
use crate::mem::addrs::{
    EWRAM_END, EWRAM_START, IO_END, IO_START, IWRAM_END, IWRAM_START, OAM_END, OAM_START,
    PAL_END, PAL_START, ROM_END, ROM_MIRROR1_END, ROM_MIRROR1_START, ROM_MIRROR2_END,
    ROM_MIRROR2_START, ROM_START, SRAM_END, SRAM_START, SYSROM_END, VRAM_END, VRAM_START,
};
use crate::mem::framebuffer::FrameBuffer;
use crate::mem::io::addrs::{
    DISPCNT_LO, DISPSTAT_LO, DMA_END, DMA_START, GRAPHICS_END, GRAPHICS_START, IF_HI, IF_LO,
    INT_END, INT_START, VCOUNT_HI, VCOUNT_LO,
};
use crate::mem::io::dma::{DMAChannel, TimingMode, DMA};
use crate::mem::io::graphics::LCD;
use crate::mem::io::interrupt::Interrupt;
use crate::mem::oam::{Sprite, Sprites};
use crate::mem::palette::Palette;

verus! {

/// The backing stores that an address can decode to.
#[derive(Clone, Copy, Debug, PartialEq, Eq, Structural)]
pub enum Segment {
    SysRom,
    Ewram,
    Iwram,
    Io,
    Palette,
    Vram,
    Oam,
    /// The cartridge, seen through any of its three windows. Read only.
    Rom,
    /// The save memory of the cartridge. The core decodes its addresses
    /// and holds no bytes for it: the save backend does.
    SaveRam,
}

/// The segment that owns a canonical address, and the offset into it.
/// Addresses that belong to no segment decode to `None`.
pub open spec fn spec_locate(addr: u32) -> Option<(Segment, usize)> {
    if addr <= SYSROM_END {
        Some((Segment::SysRom, addr as usize))
    } else if EWRAM_START <= addr <= EWRAM_END {
        Some((Segment::Ewram, (addr - EWRAM_START) as usize))
    } else if IWRAM_START <= addr <= IWRAM_END {
        Some((Segment::Iwram, (addr - IWRAM_START) as usize))
    } else if IO_START <= addr <= IO_END {
        Some((Segment::Io, (addr - IO_START) as usize))
    } else if PAL_START <= addr <= PAL_END {
        Some((Segment::Palette, (addr - PAL_START) as usize))
    } else if VRAM_START <= addr <= VRAM_END {
        Some((Segment::Vram, (addr - VRAM_START) as usize))
    } else if OAM_START <= addr <= OAM_END {
        Some((Segment::Oam, (addr - OAM_START) as usize))
    } else if ROM_START <= addr <= ROM_END {
        Some((Segment::Rom, (addr - ROM_START) as usize))
    } else if ROM_MIRROR1_START <= addr <= ROM_MIRROR1_END {
        Some((Segment::Rom, (addr - ROM_MIRROR1_START) as usize))
    } else if ROM_MIRROR2_START <= addr <= ROM_MIRROR2_END {
        Some((Segment::Rom, (addr - ROM_MIRROR2_START) as usize))
    } else if SRAM_START <= addr <= SRAM_END {
        Some((Segment::SaveRam, (addr - SRAM_START) as usize))
    } else {
        None
    }
}

/// Decode a canonical address into its segment and the offset into it.
#[verifier::when_used_as_spec(spec_locate)]
pub fn locate(addr: u32) -> (r: Option<(Segment, usize)>)
    ensures
        r == spec_locate(addr),
{
    if addr <= SYSROM_END {
        Some((Segment::SysRom, addr as usize))
    } else if EWRAM_START <= addr && addr <= EWRAM_END {
        Some((Segment::Ewram, (addr - EWRAM_START) as usize))
    } else if IWRAM_START <= addr && addr <= IWRAM_END {
        Some((Segment::Iwram, (addr - IWRAM_START) as usize))
    } else if IO_START <= addr && addr <= IO_END {
        Some((Segment::Io, (addr - IO_START) as usize))
    } else if PAL_START <= addr && addr <= PAL_END {
        Some((Segment::Palette, (addr - PAL_START) as usize))
    } else if VRAM_START <= addr && addr <= VRAM_END {
        Some((Segment::Vram, (addr - VRAM_START) as usize))
    } else if OAM_START <= addr && addr <= OAM_END {
        Some((Segment::Oam, (addr - OAM_START) as usize))
    } else if ROM_START <= addr && addr <= ROM_END {
        Some((Segment::Rom, (addr - ROM_START) as usize))
    } else if ROM_MIRROR1_START <= addr && addr <= ROM_MIRROR1_END {
        Some((Segment::Rom, (addr - ROM_MIRROR1_START) as usize))
    } else if ROM_MIRROR2_START <= addr && addr <= ROM_MIRROR2_END {
        Some((Segment::Rom, (addr - ROM_MIRROR2_START) as usize))
    } else if SRAM_START <= addr && addr <= SRAM_END {
        Some((Segment::SaveRam, (addr - SRAM_START) as usize))
    } else {
        None
    }
}

/// The canonical address that `addr` is a mirror of.
pub open spec fn spec_canonicalize_addr(addr: u32) -> u32 {
    let region = addr / 0x100_0000;
    if region == 2 {
        // work RAM repeats every 256 KiB
        (EWRAM_START + addr % 0x4_0000) as u32
    } else if region == 3 {
        // internal RAM repeats every 32 KiB
        (IWRAM_START + addr % 0x8000) as u32
    } else if region == 4 {
        // past the registers, each 64 KiB page shows the word at 0x4000800
        if addr >= 0x400_0400 && addr % 0x1_0000 < 4 {
            (0x400_0800 + addr % 0x1_0000) as u32
        } else {
            addr
        }
    } else if region == 5 {
        (PAL_START + addr % 0x400) as u32
    } else if region == 6 {
        // video RAM repeats every 128 KiB, and within that block the last
        // 32 KiB show the 32 KiB before them
        let offset = addr % 0x2_0000;
        if offset >= 0x1_8000 {
            (VRAM_START + offset - 0x8000) as u32
        } else {
            (VRAM_START + offset) as u32
        }
    } else if region == 7 {
        (OAM_START + addr % 0x400) as u32
    } else {
        addr
    }
}

/// Map any address of a mirrored segment of memory to the segment itself.
#[verifier::when_used_as_spec(spec_canonicalize_addr)]
pub fn canonicalize_addr(addr: u32) -> (r: u32)
    ensures
        r == spec_canonicalize_addr(addr),
{
    if 0x200_0000 <= addr && addr <= 0x2FF_FFFF {
        EWRAM_START + (addr % 0x4_0000)
    } else if 0x300_0000 <= addr && addr <= 0x3FF_FFFF {
        IWRAM_START + (addr % 0x8000)
    } else if 0x400_0400 <= addr && addr <= 0x4FF_FFFF {
        let offset: u32 = addr % 0x1_0000;
        if offset < 4 {
            0x400_0800 + offset
        } else {
            addr
        }
    } else if 0x500_0000 <= addr && addr <= 0x5FF_FFFF {
        PAL_START + (addr % 0x400)
    } else if 0x600_0000 <= addr && addr <= 0x6FF_FFFF {
        let offset: u32 = addr % 0x2_0000;
        if offset >= 0x1_8000 {
            VRAM_START + offset - 0x8000
        } else {
            VRAM_START + offset
        }
    } else if 0x700_0000 <= addr && addr <= 0x7FF_FFFF {
        OAM_START + (addr % 0x400)
    } else {
        addr
    }
}

/// Folding an address twice is the same as folding it once.
pub proof fn lemma_canonicalize_idempotent(addr: u32)
    ensures
        spec_canonicalize_addr(spec_canonicalize_addr(addr)) == spec_canonicalize_addr(addr),
{
    let region = addr / 0x100_0000;
    let canon = spec_canonicalize_addr(addr);
    if region == 2 {
        let offset = addr % 0x4_0000;
        assert(canon == 0x200_0000 + offset);
        assert(canon / 0x100_0000 == 2 && canon % 0x4_0000 == offset);
    } else if region == 3 {
        let offset = addr % 0x8000;
        assert(canon == 0x300_0000 + offset);
        assert(canon / 0x100_0000 == 3 && canon % 0x8000 == offset);
    } else if region == 4 {
        if addr >= 0x400_0400 && addr % 0x1_0000 < 4 {
            let offset = addr % 0x1_0000;
            assert(canon == 0x400_0800 + offset);
            assert(canon / 0x100_0000 == 4 && canon % 0x1_0000 == 0x800 + offset);
        }
    } else if region == 5 {
        let offset = addr % 0x400;
        assert(canon == 0x500_0000 + offset);
        assert(canon / 0x100_0000 == 5 && canon % 0x400 == offset);
    } else if region == 6 {
        let offset = addr % 0x2_0000;
        if offset >= 0x1_8000 {
            assert(canon == 0x600_0000 + offset - 0x8000);
            assert(canon / 0x100_0000 == 6 && canon % 0x2_0000 == offset - 0x8000);
        } else {
            assert(canon == 0x600_0000 + offset);
            assert(canon / 0x100_0000 == 6 && canon % 0x2_0000 == offset);
        }
    } else if region == 7 {
        let offset = addr % 0x400;
        assert(canon == 0x700_0000 + offset);
        assert(canon / 0x100_0000 == 7 && canon % 0x400 == offset);
    }
}

/// The byte that the register at canonical address `addr` holds after the
/// bus wrote `val` over `old`. The latch IF loses the flags that are written
/// as 1 and gains none; the low byte of DISPSTAT keeps its three status
/// bits; the line counter VCOUNT keeps what the display wrote; the low byte
/// of DISPCNT keeps its video mode where the mode that is written does not
/// exist (6 or 7); every other byte takes what is written.
pub open spec fn spec_kept_byte(old: u8, addr: u32, val: u8) -> u8 {
    if addr == IF_LO || addr == IF_HI {
        old & !val
    } else if addr == DISPSTAT_LO {
        (old & 7) | (val & !7u8)
    } else if addr == VCOUNT_LO || addr == VCOUNT_HI {
        old
    } else if addr == DISPCNT_LO && (val & 7) > 5 {
        (old & 7) | (val & !7u8)
    } else {
        val
    }
}

#[verifier::when_used_as_spec(spec_kept_byte)]
pub fn kept_byte(old: u8, addr: u32, val: u8) -> (r: u8)
    ensures
        r == spec_kept_byte(old, addr, val),
{
    if addr == IF_LO || addr == IF_HI {
        old & !val
    } else if addr == DISPSTAT_LO {
        (old & 7) | (val & !7u8)
    } else if addr == VCOUNT_LO || addr == VCOUNT_HI {
        old
    } else if addr == DISPCNT_LO && (val & 7) > 5 {
        (old & 7) | (val & !7u8)
    } else {
        val
    }
}

/// The raw bytes of every segment of the address space.
pub struct RawMemory {
    /// contains the BIOS
    pub sysrom: Box<[u8; 0x4000]>,
    /// space for game data/code; largest area of RAM but memory transfers are
    /// 16 bit wide which makes it slower than iwram
    pub ewram: Box<[u8; 0x40000]>,
    /// fastest RAM segment which is internally embedded in the CPU chip package
    /// with a 32 bit bus
    pub iwram: Box<[u8; 0x8000]>,
    /// a mirror of the memory mapped ASIC registers on the GBA used to control
    /// graphics, sound, DMA, timers, etc.
    pub io: Box<[u8; 0x400]>,
    /// specifies 16 bit color values for the paletted modes. There are two
    /// palettes of 256 colors - one for backgrounds and one for sprites.
    pub pal: Box<[u8; 0x400]>,
    /// stores the frame buffer in bitmapped modes or the tile data/tile maps
    /// in text, rotate/scale modes
    pub vram: Box<[u8; 0x18000]>,
    /// stores 128 entries of 8 bytes, containing information for each sprite
    pub oam: Box<[u8; 0x400]>,
    /// the cartridge image; empty until one is loaded
    pub rom: Vec<u8>,
}

impl RawMemory {
    /// The bytes of one segment.
    pub open spec fn segment(&self, seg: Segment) -> Seq<u8> {
        match seg {
            Segment::SysRom => self.sysrom@,
            Segment::Ewram => self.ewram@,
            Segment::Iwram => self.iwram@,
            Segment::Io => self.io@,
            Segment::Palette => self.pal@,
            Segment::Vram => self.vram@,
            Segment::Oam => self.oam@,
            Segment::Rom => self.rom@,
            Segment::SaveRam => Seq::empty(),
        }
    }

    /// This memory with one byte of a segment replaced. The BIOS and the
    /// cartridge are read only and stay as they are, and the save memory of
    /// the cartridge is not held here.
    pub open spec fn with_byte(self, seg: Segment, idx: int, val: u8) -> RawMemory {
        match seg {
            Segment::SysRom => self,
            Segment::Ewram => RawMemory {
                ewram: Box::new(vstd::array::spec_array_update(*self.ewram, idx, val)),
                ..self
            },
            Segment::Iwram => RawMemory {
                iwram: Box::new(vstd::array::spec_array_update(*self.iwram, idx, val)),
                ..self
            },
            Segment::Io => RawMemory {
                io: Box::new(vstd::array::spec_array_update(*self.io, idx, val)),
                ..self
            },
            Segment::Palette => RawMemory {
                pal: Box::new(vstd::array::spec_array_update(*self.pal, idx, val)),
                ..self
            },
            Segment::Vram => RawMemory {
                vram: Box::new(vstd::array::spec_array_update(*self.vram, idx, val)),
                ..self
            },
            Segment::Oam => RawMemory {
                oam: Box::new(vstd::array::spec_array_update(*self.oam, idx, val)),
                ..self
            },
            Segment::Rom => self,
            Segment::SaveRam => self,
        }
    }

    /// The byte that a read of canonical address `addr` returns: the byte of
    /// the owning segment, or 0 where nothing backs the address.
    #[verifier::opaque]
    pub open spec fn spec_get_byte(&self, addr: u32) -> u8 {
        match spec_locate(addr) {
            Some((seg, idx)) => if idx < self.segment(seg).len() {
                self.segment(seg)[idx as int]
            } else {
                0
            },
            None => 0,
        }
    }

    /// The little-endian halfword at canonical address `addr`.
    pub open spec fn spec_get_halfword(&self, addr: u32) -> u16 {
        (self.spec_get_byte(addr) as int + 0x100 * (self.spec_get_byte(
            addr.wrapping_add(1),
        ) as int)) as u16
    }

    /// The little-endian word at canonical address `addr`.
    pub open spec fn spec_get_word(&self, addr: u32) -> u32 {
        (self.spec_get_byte(addr) as int + 0x100 * (self.spec_get_byte(addr.wrapping_add(1)) as int)
            + 0x1_0000 * (self.spec_get_byte(addr.wrapping_add(2)) as int) + 0x100_0000 * (
        self.spec_get_byte(addr.wrapping_add(3)) as int)) as u32
    }

    /// This memory after a byte write to canonical address `addr`. Writes to
    /// the BIOS, to the cartridge, to its save memory and to addresses that
    /// nothing backs are dropped.
    #[verifier::opaque]
    pub open spec fn spec_set_byte(self, addr: u32, val: u8) -> RawMemory {
        match spec_locate(addr) {
            Some((seg, idx)) => if idx < self.segment(seg).len() {
                self.with_byte(seg, idx as int, val)
            } else {
                self
            },
            None => self,
        }
    }

    /// This memory after the low 16 bits of `val` are written, low byte first.
    pub open spec fn spec_set_halfword(self, addr: u32, val: u32) -> RawMemory {
        self.spec_set_byte(addr, (val % 0x100) as u8).spec_set_byte(
            addr.wrapping_add(1),
            (val / 0x100 % 0x100) as u8,
        )
    }

    /// This memory after `val` is written, low byte first.
    pub open spec fn spec_set_word(self, addr: u32, val: u32) -> RawMemory {
        self.spec_set_byte(addr, (val % 0x100) as u8).spec_set_byte(
            addr.wrapping_add(1),
            (val / 0x100 % 0x100) as u8,
        ).spec_set_byte(addr.wrapping_add(2), (val / 0x1_0000 % 0x100) as u8).spec_set_byte(
            addr.wrapping_add(3),
            (val / 0x100_0000) as u8,
        )
    }

    /// This memory after the bus wrote a byte to canonical address `addr`:
    /// the byte that the register there keeps of it is stored.
    #[verifier::opaque]
    pub open spec fn spec_bus_write(self, addr: u32, val: u8) -> RawMemory {
        self.spec_set_byte(addr, spec_kept_byte(self.spec_get_byte(addr), addr, val))
    }

    /// This memory after the bus wrote `val`, low byte first.
    pub open spec fn spec_bus_write_word(self, addr: u32, val: u32) -> RawMemory {
        self.spec_bus_write(addr, (val % 0x100) as u8).spec_bus_write(
            addr.wrapping_add(1),
            (val / 0x100 % 0x100) as u8,
        ).spec_bus_write(addr.wrapping_add(2), (val / 0x1_0000 % 0x100) as u8).spec_bus_write(
            addr.wrapping_add(3),
            (val / 0x100_0000) as u8,
        )
    }

    /// Every RAM byte is zero and no cartridge is present.
    pub open spec fn is_blank(&self) -> bool {
        &&& forall|i: int| 0 <= i < 0x4000 ==> self.sysrom[i] == 0
        &&& forall|i: int| 0 <= i < 0x40000 ==> self.ewram[i] == 0
        &&& forall|i: int| 0 <= i < 0x8000 ==> self.iwram[i] == 0
        &&& forall|i: int| 0 <= i < 0x400 ==> self.io[i] == 0
        &&& forall|i: int| 0 <= i < 0x400 ==> self.pal[i] == 0
        &&& forall|i: int| 0 <= i < 0x18000 ==> self.vram[i] == 0
        &&& forall|i: int| 0 <= i < 0x400 ==> self.oam[i] == 0
        &&& self.rom@.len() == 0
    }

    pub fn new() -> (r: RawMemory)
        ensures
            r.is_blank(),
    {
        RawMemory {
            sysrom: Box::new([0u8; 0x4000]),
            ewram: Box::new([0u8; 0x40000]),
            iwram: Box::new([0u8; 0x8000]),
            io: Box::new([0u8; 0x400]),
            pal: Box::new([0u8; 0x400]),
            vram: Box::new([0u8; 0x18000]),
            oam: Box::new([0u8; 0x400]),
            rom: Vec::new(),
        }
    }

    /// given an absolute address into memory, convert it to a reference to
    /// one of the memory segments and an index into that segment
    pub fn get_loc(&self, addr: u32) -> (r: Option<(&[u8], usize)>)
        ensures
            match (r, spec_locate(addr)) {
                (Some((bytes, idx)), Some((seg, offset))) => bytes@ == self.segment(seg) && idx
                    == offset,
                (None, None) => true,
                _ => false,
            },
    {
        match locate(addr) {
            Some((seg, idx)) => {
                let bytes: &[u8] = match seg {
                    Segment::SysRom => self.sysrom.as_slice(),
                    Segment::Ewram => self.ewram.as_slice(),
                    Segment::Iwram => self.iwram.as_slice(),
                    Segment::Io => self.io.as_slice(),
                    Segment::Palette => self.pal.as_slice(),
                    Segment::Vram => self.vram.as_slice(),
                    Segment::Oam => self.oam.as_slice(),
                    Segment::Rom => self.rom.as_slice(),
                    Segment::SaveRam => vstd::slice::slice_subrange(self.rom.as_slice(), 0, 0),
                };
                Some((bytes, idx))
            },
            None => None,
        }
    }

    pub fn get_byte(&self, addr: u32) -> (r: u8)
        ensures
            r == self.spec_get_byte(addr),
    {
        reveal(RawMemory::spec_get_byte);
        match self.get_loc(addr) {
            Some((bytes, idx)) => if idx < bytes.len() {
                bytes[idx]
            } else {
                0
            },
            None => 0,
        }
    }

    pub fn get_halfword(&self, addr: u32) -> (r: u16)
        ensures
            r == self.spec_get_halfword(addr),
    {
        self.get_byte(addr) as u16 + 0x100 * (self.get_byte(addr.wrapping_add(1)) as u16)
    }

    pub fn get_word(&self, addr: u32) -> (r: u32)
        ensures
            r == self.spec_get_word(addr),
    {
        self.get_byte(addr) as u32 + 0x100 * (self.get_byte(addr.wrapping_add(1)) as u32)
            + 0x1_0000 * (self.get_byte(addr.wrapping_add(2)) as u32) + 0x100_0000 * (
        self.get_byte(addr.wrapping_add(3)) as u32)
    }

    pub fn set_byte(&mut self, addr: u32, val: u8)
        ensures
            *final(self) == old(self).spec_set_byte(addr, val),
            RawMemory::spec_is_writable(addr) ==> final(self).spec_get_byte(addr) == val,
    {
        reveal(RawMemory::spec_set_byte);
        reveal(RawMemory::spec_get_byte);
        match locate(addr) {
            Some((seg, idx)) => {
                match seg {
                    Segment::SysRom => {},
                    Segment::Ewram => {
                        self.ewram[idx] = val;
                    },
                    Segment::Iwram => {
                        self.iwram[idx] = val;
                    },
                    Segment::Io => {
                        self.io[idx] = val;
                    },
                    Segment::Palette => {
                        self.pal[idx] = val;
                    },
                    Segment::Vram => {
                        self.vram[idx] = val;
                    },
                    Segment::Oam => {
                        self.oam[idx] = val;
                    },
                    Segment::Rom => {},
                    Segment::SaveRam => {},
                }
            },
            None => {},
        }
    }

    /// Store a byte that the bus writes: a register with bits that the bus
    /// cannot set keeps those bits.
    pub fn bus_write(&mut self, addr: u32, val: u8)
        ensures
            *final(self) == old(self).spec_bus_write(addr, val),
    {
        reveal(RawMemory::spec_bus_write);
        let kept = kept_byte(self.get_byte(addr), addr, val);
        self.set_byte(addr, kept);
    }

    pub fn set_halfword(&mut self, addr: u32, val: u32)
        ensures
            *final(self) == old(self).spec_set_halfword(addr, val),
    {
        self.set_byte(addr, (val % 0x100) as u8);
        self.set_byte(addr.wrapping_add(1), (val / 0x100 % 0x100) as u8);
    }

    pub fn set_word(&mut self, addr: u32, val: u32)
        ensures
            *final(self) == old(self).spec_set_word(addr, val),
    {
        self.set_byte(addr, (val % 0x100) as u8);
        self.set_byte(addr.wrapping_add(1), (val / 0x100 % 0x100) as u8);
        self.set_byte(addr.wrapping_add(2), (val / 0x1_0000 % 0x100) as u8);
        self.set_byte(addr.wrapping_add(3), (val / 0x100_0000) as u8);
    }
}

/// Raw memory together with the parsed views of its register windows.
pub struct Memory {
    pub raw: RawMemory,
    // these are parsed versions of raw data stored in memory that must be updated
    // on write so that the values are in sync with the actual raw data
    pub graphics: LCD,
    pub dma: DMA,
    pub int: Interrupt,
    pub sprites: Sprites,
    pub palette: Palette,
    // waitstates for reading from ROM, can be configured by writing to REG_WSCNT
    /// waitstates for a non sequential read from ROM
    pub rom_n_cycle: u8,
    /// if true, sequential reads from ROM are fast and otherwise they are slow.
    /// fast will always be 1 cycle but the number of cycles for a slow sequential
    /// read depends on which mirror data is being read from
    pub rom_s_cycle_fast: bool,
    pub framebuffer: FrameBuffer,
}

/// 1 KiB of zero bytes: what the register bytes of a machine hold at reset.
pub open spec fn spec_zero_bytes() -> [u8; 0x400] {
    vstd::array::spec_array_fill_for_copy_type(0u8)
}

impl RawMemory {
    /// This memory with byte `idx` of the register bytes replaced.
    pub open spec fn with_io(self, idx: int, val: u8) -> RawMemory {
        RawMemory { io: Box::new(spec_array_update(*self.io, idx, val)), ..self }
    }
}

impl Memory {
    /// The memory of a machine that was just switched on: every raw byte is
    /// zero, no cartridge is present, the parsed views are what the zero
    /// bytes hold, and the frame buffer is black.
    pub open spec fn is_reset(&self) -> bool {
        &&& self.raw.is_blank()
        &&& self.registers_agree()
        &&& self.graphics.is_reset()
        &&& self.rom_n_cycle == 4
        &&& !self.rom_s_cycle_fast
        &&& !self.int.master_enabled
        &&& forall|k: int|
            0 <= k < 14 ==> !self.int.enabled.flags()[k] && !self.int.triggered.flags()[k]
        &&& forall|i: int| 0 <= i < 4 ==> self.dma.channels[i] == DMAChannel::spec_new()
        &&& forall|i: int| 0 <= i < 128 ==> self.sprites.sprites[i] == Sprite::spec_new()
        &&& forall|i: int| 0 <= i < 240 * 160 ==> self.framebuffer.pixels[i] == 0
    }

    pub fn new() -> (r: Memory)
        ensures
            r.is_reset(),
            r.registers_agree(),
    {
        let raw = RawMemory::new();
        let graphics = LCD::parse(&raw);
        let dma = DMA::parse(&raw);
        let requests = Interrupt::parse(&raw);
        let r = Memory {
            raw,
            graphics,
            dma,
            int: requests,
            sprites: Sprites::new(),
            palette: Palette::new(),
            rom_n_cycle: 4,
            rom_s_cycle_fast: false,
            framebuffer: FrameBuffer::new(),
        };
        proof {
            r.lemma_blank_registers();
        }
        r
    }

    /// This memory with the raw bytes `raw`, and with the display and
    /// interrupt registers that these bytes hold.
    pub open spec fn spec_with_registers(self, raw: RawMemory) -> Memory {
        Memory {
            graphics: LCD::spec_decode(*raw.io),
            int: Interrupt::spec_decode(*raw.io),
            raw,
            ..self
        }
    }

    /// Parse the display and interrupt registers from the raw bytes again.
    pub fn parse_registers(&mut self)
        ensures
            *final(self) == old(self).spec_with_registers(old(self).raw),
    {
        self.graphics = LCD::parse(&self.raw);
        self.int = Interrupt::parse(&self.raw);
    }

    /// The byte that a read of `addr` returns, mirrors folded.
    pub open spec fn spec_get_byte(&self, addr: u32) -> u8 {
        self.raw.spec_get_byte(spec_canonicalize_addr(addr))
    }

    pub open spec fn spec_get_halfword(&self, addr: u32) -> u16 {
        self.raw.spec_get_halfword(spec_canonicalize_addr(addr))
    }

    pub open spec fn spec_get_word(&self, addr: u32) -> u32 {
        self.raw.spec_get_word(spec_canonicalize_addr(addr))
    }

    pub fn get_byte(&self, addr: u32) -> (r: u8)
        ensures
            r == self.spec_get_byte(addr),
    {
        let addr = canonicalize_addr(addr);
        self.raw.get_byte(addr)
    }

    pub fn get_halfword(&self, addr: u32) -> (r: u16)
        ensures
            r == self.spec_get_halfword(addr),
    {
        let addr = canonicalize_addr(addr);
        self.raw.get_halfword(addr)
    }

    pub fn get_word(&self, addr: u32) -> (r: u32)
        ensures
            r == self.spec_get_word(addr),
    {
        let addr = canonicalize_addr(addr);
        self.raw.get_word(addr)
    }

    /// The memory after the parsed view that owns canonical address `addr`
    /// was parsed again from the raw bytes, a byte having been written
    /// there: the registers of the window for the LCD, DMA and interrupt
    /// windows, the entry of the byte for the palette and the sprite table.
    /// Addresses outside every window change nothing.
    #[verifier::opaque]
    pub open spec fn spec_update_view(self, addr: u32, val: u8) -> Memory {
        if GRAPHICS_START <= addr <= GRAPHICS_END {
            self.spec_update_graphics_byte(addr, val)
        } else if DMA_START <= addr <= DMA_END {
            self.spec_update_dma_byte(addr)
        } else if INT_START <= addr <= INT_END {
            self.spec_update_int_byte(addr, val)
        } else if OAM_START <= addr <= OAM_END {
            self.spec_update_oam_byte(addr, val)
        } else if PAL_START <= addr <= PAL_END {
            self.spec_update_pal_byte(addr)
        } else {
            self
        }
    }

    /// Let the parsed view that owns `addr`, if any, take note of a byte
    /// that was written there.
    pub fn update_view(&mut self, addr: u32, val: u8)
        ensures
            *final(self) == old(self).spec_update_view(addr, val),
    {
        reveal(Memory::spec_update_view);
        if GRAPHICS_START <= addr && addr <= GRAPHICS_END {
            self.update_graphics_byte(addr, val);
        } else if DMA_START <= addr && addr <= DMA_END {
            self.update_dma_byte(addr, val);
        } else if INT_START <= addr && addr <= INT_END {
            self.update_int_byte(addr, val);
        } else if OAM_START <= addr && addr <= OAM_END {
            self.update_oam_byte(addr, val);
        } else if PAL_START <= addr && addr <= PAL_END {
            self.update_pal_byte(addr, val);
        }
    }

    /// The memory after the bus stored one byte at canonical address
    /// `addr`: the raw byte takes what its register keeps of the write,
    /// then the parsed view that the address belongs to is parsed again.
    pub open spec fn spec_store_at(self, addr: u32, val: u8) -> Memory {
        (Memory { raw: self.raw.spec_bus_write(addr, val), ..self }).spec_update_view(addr, val)
    }

    /// Store one byte at a canonical address.
    pub fn store_at(&mut self, addr: u32, val: u8)
        ensures
            *final(self) == old(self).spec_store_at(addr, val),
            old(self).registers_agree() ==> final(self).registers_agree(),
    {
        proof {
            if self.registers_agree() {
                self.law_store_keeps_registers_agreeing(addr, val);
            }
        }
        self.raw.bus_write(addr, val);
        self.update_view(addr, val);
    }

    /// The memory after a byte write: the byte is stored at the canonical
    /// address.
    pub open spec fn spec_set_byte(self, addr: u32, val: u8) -> Memory {
        self.spec_store_at(spec_canonicalize_addr(addr), val)
    }

    /// The memory after a halfword write: its two bytes are stored, low
    /// byte first, from the canonical address on.
    pub open spec fn spec_set_halfword(self, addr: u32, val: u32) -> Memory {
        let addr = spec_canonicalize_addr(addr);
        self.spec_store_at(addr, (val % 0x100) as u8).spec_store_at(
            addr.wrapping_add(1),
            (val / 0x100 % 0x100) as u8,
        )
    }

    /// The memory after a word write: its four bytes are stored, low byte
    /// first, from the canonical address on.
    pub open spec fn spec_set_word(self, addr: u32, val: u32) -> Memory {
        let addr = spec_canonicalize_addr(addr);
        self.spec_store_at(addr, (val % 0x100) as u8).spec_store_at(
            addr.wrapping_add(1),
            (val / 0x100 % 0x100) as u8,
        ).spec_store_at(addr.wrapping_add(2), (val / 0x1_0000 % 0x100) as u8).spec_store_at(
            addr.wrapping_add(3),
            (val / 0x100_0000) as u8,
        )
    }

    pub fn set_byte(&mut self, addr: u32, val: u8)
        ensures
            *final(self) == old(self).spec_set_byte(addr, val),
            spec_is_ram(spec_canonicalize_addr(addr)) ==> final(self).spec_get_byte(addr) == val,
            old(self).registers_agree() ==> final(self).registers_agree(),
    {
        proof {
            if spec_is_ram(spec_canonicalize_addr(addr)) {
                self.law_byte_is_read_back_through_mirrors(addr, val, addr);
            }
        }
        let addr = canonicalize_addr(addr);
        self.store_at(addr, val);
    }

    pub fn set_halfword(&mut self, addr: u32, val: u32)
        ensures
            *final(self) == old(self).spec_set_halfword(addr, val),
            spec_is_ram(spec_canonicalize_addr(addr)) && spec_is_ram(
                spec_canonicalize_addr(addr).wrapping_add(1),
            ) ==> final(self).spec_get_halfword(addr) == val % 0x1_0000,
            old(self).registers_agree() ==> final(self).registers_agree(),
    {
        proof {
            if spec_is_ram(spec_canonicalize_addr(addr)) && spec_is_ram(
                spec_canonicalize_addr(addr).wrapping_add(1),
            ) {
                self.law_halfword_is_read_back_through_mirrors(addr, val, addr);
            }
        }
        let addr = canonicalize_addr(addr);
        self.store_at(addr, (val % 0x100) as u8);
        self.store_at(addr.wrapping_add(1), (val / 0x100 % 0x100) as u8);
    }

    pub fn set_word(&mut self, addr: u32, val: u32)
        ensures
            *final(self) == old(self).spec_set_word(addr, val),
            spec_is_ram(spec_canonicalize_addr(addr)) && spec_is_ram(
                spec_canonicalize_addr(addr).wrapping_add(3),
            ) ==> final(self).spec_get_word(addr) == val,
            old(self).registers_agree() ==> final(self).registers_agree(),
    {
        proof {
            if spec_is_ram(spec_canonicalize_addr(addr)) && spec_is_ram(
                spec_canonicalize_addr(addr).wrapping_add(3),
            ) {
                self.law_word_is_read_back_through_mirrors(addr, val, addr);
            }
        }
        let addr = canonicalize_addr(addr);
        self.store_at(addr, (val % 0x100) as u8);
        self.store_at(addr.wrapping_add(1), (val / 0x100 % 0x100) as u8);
        self.store_at(addr.wrapping_add(2), (val / 0x1_0000 % 0x100) as u8);
        self.store_at(addr.wrapping_add(3), (val / 0x100_0000) as u8);
    }

    /// The memory after the start of a visible scanline: the VBlank status
    /// bit is cleared in both views.
    pub open spec fn spec_on_vdraw_hook(self) -> Memory {
        self.spec_with_registers(self.raw.with_io(4, self.raw.io[4] & !1u8))
    }

    pub fn on_vdraw_hook(&mut self)
        ensures
            *final(self) == old(self).spec_on_vdraw_hook(),
            old(self).registers_agree() ==> final(self).registers_agree(),
    {
        proof {
            if self.registers_agree() {
                self.law_display_hooks_keep_registers_agreeing(0);
            }
        }
        self.raw.io[(DISPSTAT_LO - IO_START) as usize] &= !1u8;
        self.parse_registers();
    }

    /// The memory after the start of VBlank: the status bits say VBlank and
    /// not HBlank, the VBlank interrupt is latched if DISPSTAT enables it,
    /// and the DMA channels that wait for VBlank have run.
    pub open spec fn spec_on_vblank_hook(self) -> Memory {
        self.spec_vblank_latched().spec_check_dma(TimingMode::VBlank)
    }

    /// The memory as VBlank starts, before any transfer runs: the raw
    /// status bits say VBlank and not HBlank, bit 0 of the raw IF is set if
    /// DISPSTAT enables the VBlank interrupt, and the parsed registers are
    /// what the raw bytes then hold.
    pub open spec fn spec_vblank_latched(self) -> Memory {
        let raw = self.raw.with_io(4, (self.raw.io[4] & !3u8) | 1u8);
        let raw = if self.graphics.disp_stat.vblank_irq_enabled {
            raw.with_io(0x202, raw.io[0x202] | 1u8)
        } else {
            raw
        };
        self.spec_with_registers(raw)
    }

    pub fn on_vblank_hook(&mut self)
        ensures
            *final(self) == old(self).spec_on_vblank_hook(),
            old(self).registers_agree() ==> final(self).registers_agree(),
    {
        proof {
            if self.registers_agree() {
                self.law_blank_hooks_keep_registers_agreeing();
            }
        }
        let stat: u8 = self.raw.io[(DISPSTAT_LO - IO_START) as usize];
        self.raw.io[(DISPSTAT_LO - IO_START) as usize] = (stat & !3u8) | 1u8;
        if self.graphics.disp_stat.vblank_irq_enabled {
            self.raw.io[(IF_LO - IO_START) as usize] |= 1u8;
        }
        self.parse_registers();
        self.check_dma(TimingMode::VBlank);
    }

    /// The memory after the start of the drawn part of a line: the HBlank
    /// status bit is cleared in both views.
    pub open spec fn spec_on_hdraw_hook(self) -> Memory {
        self.spec_with_registers(self.raw.with_io(4, self.raw.io[4] & !2u8))
    }

    pub fn on_hdraw_hook(&mut self)
        ensures
            *final(self) == old(self).spec_on_hdraw_hook(),
            old(self).registers_agree() ==> final(self).registers_agree(),
    {
        proof {
            if self.registers_agree() {
                self.law_display_hooks_keep_registers_agreeing(0);
            }
        }
        self.raw.io[(DISPSTAT_LO - IO_START) as usize] &= !2u8;
        self.parse_registers();
    }

    /// The memory after the start of HBlank: the status bit is set, the
    /// HBlank interrupt is latched if DISPSTAT enables it, and the DMA
    /// channels that wait for HBlank have run.
    pub open spec fn spec_on_hblank_hook(self) -> Memory {
        self.spec_hblank_latched().spec_check_dma(TimingMode::HBlank)
    }

    /// The memory as HBlank starts, before any transfer runs: the raw
    /// status bit is set, bit 1 of the raw IF is set if DISPSTAT enables
    /// the HBlank interrupt, and the parsed registers are what the raw
    /// bytes then hold.
    pub open spec fn spec_hblank_latched(self) -> Memory {
        let raw = self.raw.with_io(4, self.raw.io[4] | 2u8);
        let raw = if self.graphics.disp_stat.hblank_irq_enabled {
            raw.with_io(0x202, raw.io[0x202] | 2u8)
        } else {
            raw
        };
        self.spec_with_registers(raw)
    }

    pub fn on_hblank_hook(&mut self)
        ensures
            *final(self) == old(self).spec_on_hblank_hook(),
            old(self).registers_agree() ==> final(self).registers_agree(),
    {
        proof {
            if self.registers_agree() {
                self.law_blank_hooks_keep_registers_agreeing();
            }
        }
        self.raw.io[(DISPSTAT_LO - IO_START) as usize] |= 2u8;
        if self.graphics.disp_stat.hblank_irq_enabled {
            self.raw.io[(IF_LO - IO_START) as usize] |= 2u8;
        }
        self.parse_registers();
        self.check_dma(TimingMode::HBlank);
    }

    /// The memory after the line counter moved to `vcount`: the raw VCOUNT
    /// holds it, raw DISPSTAT bit 2 says whether it equals the trigger
    /// line, on a match bit 2 of the raw IF is set if DISPSTAT enables the
    /// interrupt, and the parsed registers are what the raw bytes then
    /// hold.
    pub open spec fn spec_on_vcount_hook(self, vcount: u8) -> Memory {
        let matched = vcount == self.graphics.disp_stat.vcount_line_trigger;
        let status = if matched {
            self.raw.io[4] | 4u8
        } else {
            self.raw.io[4] & !4u8
        };
        let raw = self.raw.with_io(6, vcount).with_io(4, status);
        let raw = if matched && self.graphics.disp_stat.vcount_irq_enabled {
            raw.with_io(0x202, raw.io[0x202] | 4u8)
        } else {
            raw
        };
        self.spec_with_registers(raw)
    }

    pub fn on_vcount_hook(&mut self, vcount: u8)
        ensures
            *final(self) == old(self).spec_on_vcount_hook(vcount),
            old(self).registers_agree() ==> final(self).registers_agree(),
    {
        proof {
            if self.registers_agree() {
                self.law_display_hooks_keep_registers_agreeing(vcount);
            }
        }
        let matched = vcount == self.graphics.disp_stat.vcount_line_trigger;
        self.raw.io[(VCOUNT_LO - IO_START) as usize] = vcount;
        let status = self.raw.io[(DISPSTAT_LO - IO_START) as usize];
        self.raw.io[(DISPSTAT_LO - IO_START) as usize] = if matched {
            status | 4u8
        } else {
            status & !4u8
        };
        if matched && self.graphics.disp_stat.vcount_irq_enabled {
            self.raw.io[(IF_LO - IO_START) as usize] |= 4u8;
        }
        self.parse_registers();
    }

    /// The memory after a transfer of channel `channel` has finished: the
    /// request of the channel is latched in the raw IF and in the parsed
    /// registers if the channel asks for an interrupt at the end.
    pub open spec fn spec_on_dma_finish_hook(self, channel: usize) -> Memory {
        if self.dma.channels[channel as int].irq {
            self.spec_with_registers(
                self.raw.with_io(0x203, self.raw.io[0x203] | (1u8 << channel)),
            )
        } else {
            self
        }
    }

    pub fn on_dma_finish_hook(&mut self, channel: usize)
        requires
            channel < 4,
        ensures
            *final(self) == old(self).spec_on_dma_finish_hook(channel),
            old(self).registers_agree() ==> final(self).registers_agree(),
    {
        proof {
            if self.registers_agree() {
                self.law_finish_hook_keeps_registers_agreeing(channel);
            }
        }
        if self.dma.channels[channel].irq {
            self.raw.io[(IF_HI - IO_START) as usize] |= 1u8 << channel;
            self.parse_registers();
        }
    }

    /// The cycles that an access to `addr` takes: one, plus the waitstates
    /// of the segment. Work RAM has two; video RAM and OAM one while the
    /// display is drawing; the cartridge windows what WSCNT selects for a
    /// first access, and 1, or 2, 4, 8 by window, for one that follows.
    pub open spec fn spec_access_time(&self, addr: u32, first_access: bool) -> u32 {
        let slow: u32 = if ROM_START <= addr <= ROM_END {
            2
        } else if ROM_MIRROR1_START <= addr <= ROM_MIRROR1_END {
            4
        } else {
            8
        };
        let waitstates: u32 = if EWRAM_START <= addr <= EWRAM_END {
            2
        } else if VRAM_START <= addr <= VRAM_END || OAM_START <= addr <= OAM_END {
            if !self.graphics.disp_stat.is_hblank && !self.graphics.disp_stat.is_vblank {
                1
            } else {
                0
            }
        } else if ROM_START <= addr <= ROM_MIRROR2_END {
            if first_access {
                self.rom_n_cycle as u32
            } else if self.rom_s_cycle_fast {
                1
            } else {
                slow
            }
        } else {
            0
        };
        (1 + waitstates) as u32
    }

    /// Return the number of cycles required to perform a memory access to given
    /// addr. If first access is true, assumes a non sequential access (N cycle),
    /// otherwise assumes a sequential access (S cycle).
    #[verifier::when_used_as_spec(spec_access_time)]
    pub fn access_time(&self, addr: u32, first_access: bool) -> (r: u32)
        ensures
            r == self.spec_access_time(addr, first_access),
            1 <= r <= 256,
    {
        let waitstates: u32 = if EWRAM_START <= addr && addr <= EWRAM_END {
            2
        } else if (VRAM_START <= addr && addr <= VRAM_END) || (OAM_START <= addr && addr
            <= OAM_END) {
            let drawing = !self.graphics.disp_stat.is_hblank
                && !self.graphics.disp_stat.is_vblank;
            if drawing {
                1
            } else {
                0
            }
        } else if ROM_START <= addr && addr <= ROM_MIRROR2_END {
            if first_access {
                self.rom_n_cycle as u32
            } else if self.rom_s_cycle_fast {
                1
            } else if addr <= ROM_END {
                2
            } else if addr <= ROM_MIRROR1_END {
                4
            } else {
                8
            }
        } else {
            0
        };
        1 + waitstates
    }

    /// Copy the first 16 KiB of `data` into the BIOS segment.
    pub fn load_bios(&mut self, data: &[u8])
        requires
            data@.len() >= 0x4000,
        ensures
            old(self).registers_agree() ==> final(self).registers_agree(),
            final(self).raw.sysrom@ == data@.subrange(0, 0x4000),
            *final(self) == (Memory {
                raw: RawMemory { sysrom: final(self).raw.sysrom, ..old(self).raw },
                ..*old(self)
            }),
    {
        reveal(Memory::registers_agree);
        let mut bios = [0u8;0x4000];
        let mut i: usize = 0;
        while i < 0x4000
            invariant
                i <= 0x4000,
                data@.len() >= 0x4000,
                forall|k: int| 0 <= k < i ==> bios[k] == data@[k],
            decreases 0x4000 - i,
        {
            bios[i] = data[i];
            i += 1;
        }
        assert(bios@ =~= data@.subrange(0, 0x4000));
        self.raw.sysrom = Box::new(bios);
    }

    /// Make `data` the cartridge that the three cartridge windows show.
    pub fn load_rom(&mut self, data: &[u8])
        ensures
            old(self).registers_agree() ==> final(self).registers_agree(),
            final(self).raw.rom@ == data@,
            *final(self) == (Memory {
                raw: RawMemory { rom: final(self).raw.rom, ..old(self).raw },
                ..*old(self)
            }),
    {
        reveal(Memory::registers_agree);
        let mut rom: Vec<u8> = Vec::new();
        let mut i: usize = 0;
        while i < data.len()
            invariant
                i <= data.len(),
                rom@ == data@.subrange(0, i as int),
            decreases data.len() - i,
        {
            rom.push(data[i]);
            i += 1;
        }
        assert(rom@ =~= data@);
        self.raw.rom = rom;
    }
}

/// Whether a canonical address lies in one of the RAM segments: work RAM,
/// internal RAM, palette, video RAM or OAM.
pub open spec fn spec_is_ram(addr: u32) -> bool {
    match spec_locate(addr) {
        Some((seg, idx)) => seg == Segment::Ewram || seg == Segment::Iwram || seg
            == Segment::Palette || seg == Segment::Vram || seg == Segment::Oam,
        None => false,
    }
}

impl RawMemory {
    /// Whether a write to a canonical address is kept: the address decodes
    /// to a segment other than the BIOS, the cartridge and its save memory.
    pub open spec fn spec_is_writable(addr: u32) -> bool {
        match spec_locate(addr) {
            Some((seg, idx)) => seg != Segment::SysRom && seg != Segment::Rom && seg
                != Segment::SaveRam,
            None => false,
        }
    }

    /// Raw memory is a map from addresses to bytes: a byte write changes
    /// what is read at the written address, if writes to it are kept, and
    /// nowhere else.
    pub proof fn lemma_read_after_write(self, addr: u32, val: u8, other: u32)
        ensures
            self.spec_set_byte(addr, val).spec_get_byte(other) == (if other == addr
                && RawMemory::spec_is_writable(addr) {
                val
            } else {
                self.spec_get_byte(other)
            }),
    {
        reveal(RawMemory::spec_set_byte);
        reveal(RawMemory::spec_get_byte);
    }
}

impl RawMemory {
    /// Outside the latch IF, the low byte of DISPSTAT and the line counter
    /// the bus stores what it writes.
    pub proof fn lemma_bus_write_plain(self, addr: u32, val: u8)
        requires
            addr != IF_LO,
            addr != IF_HI,
            addr != DISPSTAT_LO,
            addr != VCOUNT_LO,
            addr != VCOUNT_HI,
            addr != DISPCNT_LO,
        ensures
            self.spec_bus_write(addr, val) == self.spec_set_byte(addr, val),
    {
        reveal(RawMemory::spec_bus_write);
    }

    /// A write of the bus changes what is read at no other address.
    pub proof fn lemma_bus_write_elsewhere(self, addr: u32, val: u8, other: u32)
        requires
            other != addr,
        ensures
            self.spec_bus_write(addr, val).spec_get_byte(other) == self.spec_get_byte(other),
    {
        reveal(RawMemory::spec_bus_write);
        self.lemma_read_after_write(
            addr,
            spec_kept_byte(self.spec_get_byte(addr), addr, val),
            other,
        );
    }
}

impl Memory {
    /// Refreshing a parsed view leaves the raw bytes alone.
    pub proof fn lemma_view_update_keeps_raw(self, addr: u32, val: u8)
        ensures
            self.spec_update_view(addr, val).raw == self.raw,
    {
        reveal(Memory::spec_update_view);
    }

    /// In a blank memory whose views were parsed from it, the views agree
    /// with the raw bytes and hold the values of a machine at reset.
    pub proof fn lemma_blank_registers(self)
        requires
            self.raw.is_blank(),
            self.graphics == LCD::spec_decode(*self.raw.io),
            self.dma == DMA::spec_decode(*self.raw.io),
            self.int == Interrupt::spec_decode(*self.raw.io),
            self.rom_n_cycle == 4,
            !self.rom_s_cycle_fast,
            forall|i: int| 0 <= i < 128 ==> self.sprites.sprites[i] == Sprite::spec_new(),
            forall|i: int|
                0 <= i < 32 ==> self.sprites.affine_params[i]
                    == crate::mem::oam::SpriteAffineParams::spec_of_parts(0, 0, 0, 0),
            forall|i: int|
                0 <= i < 256 ==> self.palette.bg[i] == crate::mem::palette::spec_high_to_true(0)
                    && self.palette.sprite[i] == crate::mem::palette::spec_high_to_true(0),
            forall|i: int| 0 <= i < 240 * 160 ==> self.framebuffer.pixels[i] == 0,
        ensures
            self.is_reset(),
    {
        reveal(Memory::registers_agree);
        reveal(LCD::spec_decode);
        reveal(DMA::spec_decode);
        reveal(Interrupt::spec_decode);
        crate::mem::io::interrupt::lemma_no_bits();
        assert((0u8 >> 2) & 0b11 == 0 && (0u8 >> 4) & 1 == 0) by (bit_vector);
        assert(crate::util::spec_halfword_of(0, 0) == 0);
        assert(crate::util::spec_word_of(0, 0, 0, 0) == 0);
        let zero = spec_zero_bytes();
        assert(self.graphics == LCD::spec_decode(zero));
        assert(0u32 & 0x7FF_FFFFu32 == 0 && 0u32 & 0xFFF_FFFFu32 == 0) by (bit_vector);
        assert forall|i: int| 0 <= i < 4 implies self.dma.channels[i] == DMAChannel::spec_new() by {}
        assert forall|e: int| 0 <= e < 128 implies #[trigger] self.sprites.sprites[e]
            == Sprite::spec_decode(*self.raw.oam, e) by {}
        assert forall|g: int| 0 <= g < 32 implies #[trigger] self.sprites.affine_params[g]
            == crate::mem::oam::SpriteAffineParams::spec_decode(*self.raw.oam, g) by {}
    }

    /// At a canonical address where nothing is kept, the bus stores
    /// nothing and no parsed view takes note.
    pub proof fn lemma_nothing_kept(self, addr: u32, val: u8)
        requires
            !RawMemory::spec_is_writable(addr),
        ensures
            self.raw.spec_bus_write(addr, val) == self.raw,
            self.spec_update_view(addr, val) == self,
    {
        reveal(RawMemory::spec_bus_write);
        reveal(RawMemory::spec_set_byte);
        reveal(Memory::spec_update_view);
    }

    /// A store to an address where nothing is kept (the BIOS, the
    /// cartridge, its save memory and the addresses that nothing backs)
    /// changes nothing, in the raw bytes or in any parsed view.
    pub proof fn law_store_to_read_only_is_dropped(self, addr: u32, val: u8)
        requires
            !RawMemory::spec_is_writable(spec_canonicalize_addr(addr)),
        ensures
            self.spec_set_byte(addr, val) == self,
    {
        self.lemma_nothing_kept(spec_canonicalize_addr(addr), val);
    }

    /// A halfword stored where nothing is kept changes nothing.
    pub proof fn law_halfword_store_to_read_only_is_dropped(self, addr: u32, val: u32)
        requires
            !RawMemory::spec_is_writable(spec_canonicalize_addr(addr)),
            !RawMemory::spec_is_writable(spec_canonicalize_addr(addr).wrapping_add(1)),
        ensures
            self.spec_set_halfword(addr, val) == self,
    {
        let a0 = spec_canonicalize_addr(addr);
        self.lemma_nothing_kept(a0, (val % 0x100) as u8);
        self.lemma_nothing_kept(a0.wrapping_add(1), (val / 0x100 % 0x100) as u8);
    }

    /// A word stored where nothing is kept changes nothing.
    pub proof fn law_word_store_to_read_only_is_dropped(self, addr: u32, val: u32)
        requires
            !RawMemory::spec_is_writable(spec_canonicalize_addr(addr)),
            !RawMemory::spec_is_writable(spec_canonicalize_addr(addr).wrapping_add(1)),
            !RawMemory::spec_is_writable(spec_canonicalize_addr(addr).wrapping_add(2)),
            !RawMemory::spec_is_writable(spec_canonicalize_addr(addr).wrapping_add(3)),
        ensures
            self.spec_set_word(addr, val) == self,
    {
        let a0 = spec_canonicalize_addr(addr);
        self.lemma_nothing_kept(a0, (val % 0x100) as u8);
        self.lemma_nothing_kept(a0.wrapping_add(1), (val / 0x100 % 0x100) as u8);
        self.lemma_nothing_kept(a0.wrapping_add(2), (val / 0x1_0000 % 0x100) as u8);
        self.lemma_nothing_kept(a0.wrapping_add(3), (val / 0x100_0000) as u8);
    }

    /// A byte written to RAM is read back at the canonical address and
    /// through every mirror of it.
    pub proof fn law_byte_is_read_back_through_mirrors(self, addr: u32, val: u8, mirror: u32)
        requires
            spec_is_ram(spec_canonicalize_addr(addr)),
            spec_canonicalize_addr(mirror) == spec_canonicalize_addr(addr),
        ensures
            self.spec_set_byte(addr, val).spec_get_byte(spec_canonicalize_addr(addr)) == val,
            self.spec_set_byte(addr, val).spec_get_byte(mirror) == val,
    {
        let canon = spec_canonicalize_addr(addr);
        lemma_canonicalize_idempotent(addr);
        self.raw.lemma_bus_write_plain(canon, val);
        (Memory { raw: self.raw.spec_set_byte(canon, val), ..self }).lemma_view_update_keeps_raw(
            canon,
            val,
        );
        self.raw.lemma_read_after_write(canon, val, canon);
    }

    /// A byte write changes what is read at no address that folds to
    /// another canonical address.
    pub proof fn law_byte_write_is_local(self, addr: u32, val: u8, other: u32)
        requires
            spec_canonicalize_addr(other) != spec_canonicalize_addr(addr),
        ensures
            self.spec_set_byte(addr, val).spec_get_byte(other) == self.spec_get_byte(other),
    {
        let canon = spec_canonicalize_addr(addr);
        (Memory { raw: self.raw.spec_bus_write(canon, val), ..self }).lemma_view_update_keeps_raw(
            canon,
            val,
        );
        self.raw.lemma_bus_write_elsewhere(canon, val, spec_canonicalize_addr(other));
    }

    /// A halfword written to RAM is read back at the canonical address and
    /// through every mirror of it, where its second byte still lies in RAM.
    pub proof fn law_halfword_is_read_back_through_mirrors(self, addr: u32, val: u32, mirror: u32)
        requires
            spec_is_ram(spec_canonicalize_addr(addr)),
            spec_is_ram(spec_canonicalize_addr(addr).wrapping_add(1)),
            spec_canonicalize_addr(mirror) == spec_canonicalize_addr(addr),
        ensures
            self.spec_set_halfword(addr, val).spec_get_halfword(spec_canonicalize_addr(addr))
                == val % 0x1_0000,
            self.spec_set_halfword(addr, val).spec_get_halfword(mirror) == val % 0x1_0000,
    {
        let canon = spec_canonicalize_addr(addr);
        let next = canon.wrapping_add(1);
        lemma_canonicalize_idempotent(addr);
        let lo = (val % 0x100) as u8;
        let hi = (val / 0x100 % 0x100) as u8;
        let first = self.raw.spec_set_byte(canon, lo);
        self.raw.lemma_bus_write_plain(canon, lo);
        first.lemma_bus_write_plain(next, hi);
        self.lemma_store_at_raw(canon, lo);
        self.spec_store_at(canon, lo).lemma_store_at_raw(next, hi);
        self.raw.lemma_read_after_write(canon, lo, canon);
        first.lemma_read_after_write(next, hi, canon);
        first.lemma_read_after_write(next, hi, next);
    }

    /// The raw bytes after a byte was stored are those that the bus wrote:
    /// the refresh of the parsed views leaves them alone.
    pub proof fn lemma_store_at_raw(self, addr: u32, val: u8)
        ensures
            self.spec_store_at(addr, val).raw == self.raw.spec_bus_write(addr, val),
    {
        (Memory { raw: self.raw.spec_bus_write(addr, val), ..self }).lemma_view_update_keeps_raw(
            addr,
            val,
        );
    }

    /// The raw bytes after a word store are those that the bus wrote: the
    /// refresh of the parsed views leaves them alone.
    pub proof fn lemma_word_store_raw(self, addr: u32, val: u32)
        ensures
            self.spec_set_word(addr, val).raw == self.raw.spec_bus_write_word(
                spec_canonicalize_addr(addr),
                val,
            ),
    {
        let a0 = spec_canonicalize_addr(addr);
        let m1 = self.spec_store_at(a0, (val % 0x100) as u8);
        let m2 = m1.spec_store_at(a0.wrapping_add(1), (val / 0x100 % 0x100) as u8);
        let m3 = m2.spec_store_at(a0.wrapping_add(2), (val / 0x1_0000 % 0x100) as u8);
        self.lemma_store_at_raw(a0, (val % 0x100) as u8);
        m1.lemma_store_at_raw(a0.wrapping_add(1), (val / 0x100 % 0x100) as u8);
        m2.lemma_store_at_raw(a0.wrapping_add(2), (val / 0x1_0000 % 0x100) as u8);
        m3.lemma_store_at_raw(a0.wrapping_add(3), (val / 0x100_0000) as u8);
    }

    /// A word written to RAM is read back at the canonical address and
    /// through every mirror of it, where its last byte still lies in RAM.
    pub proof fn law_word_is_read_back_through_mirrors(self, addr: u32, val: u32, mirror: u32)
        requires
            spec_is_ram(spec_canonicalize_addr(addr)),
            spec_is_ram(spec_canonicalize_addr(addr).wrapping_add(3)),
            spec_canonicalize_addr(mirror) == spec_canonicalize_addr(addr),
        ensures
            self.spec_set_word(addr, val).spec_get_word(spec_canonicalize_addr(addr)) == val,
            self.spec_set_word(addr, val).spec_get_word(mirror) == val,
    {
        let a0 = spec_canonicalize_addr(addr);
        lemma_canonicalize_idempotent(addr);
        lemma_ram_word(a0);
        self.lemma_word_store_raw(addr, val);
        self.raw.lemma_bus_word_plain(a0, val);
        self.raw.lemma_word_read_back(a0, val);
    }
}

/// A word whose first and last byte lie in RAM lies in RAM as a whole, in
/// bytes that keep what is stored and that belong to no register.
pub proof fn lemma_ram_word(addr: u32)
    requires
        spec_is_ram(addr),
        spec_is_ram(addr.wrapping_add(3)),
    ensures
        addr + 3 <= u32::MAX,
        forall|k: u32|
            0 <= k < 4 ==> RawMemory::spec_is_writable(#[trigger] addr.wrapping_add(k)),
        forall|k: u32|
            0 <= k < 4 ==> (0x0500_0000 <= #[trigger] addr.wrapping_add(k) || addr.wrapping_add(k)
                < 0x0400_0000),
{
}

impl RawMemory {
    /// Where no byte of a word belongs to IF, DISPSTAT or VCOUNT, the bus
    /// stores the word as it is.
    pub proof fn lemma_bus_word_plain(self, addr: u32, val: u32)
        requires
            forall|k: u32|
                0 <= k < 4 ==> (0x0500_0000 <= #[trigger] addr.wrapping_add(k)
                    || addr.wrapping_add(k) < 0x0400_0000),
        ensures
            self.spec_bus_write_word(addr, val) == self.spec_set_word(addr, val),
    {
        let b0 = (val % 0x100) as u8;
        let b1 = (val / 0x100 % 0x100) as u8;
        let b2 = (val / 0x1_0000 % 0x100) as u8;
        let b3 = (val / 0x100_0000) as u8;
        let r1 = self.spec_set_byte(addr, b0);
        let r2 = r1.spec_set_byte(addr.wrapping_add(1), b1);
        let r3 = r2.spec_set_byte(addr.wrapping_add(2), b2);
        assert(addr.wrapping_add(0) == addr);
        self.lemma_bus_write_plain(addr, b0);
        r1.lemma_bus_write_plain(addr.wrapping_add(1), b1);
        r2.lemma_bus_write_plain(addr.wrapping_add(2), b2);
        r3.lemma_bus_write_plain(addr.wrapping_add(3), b3);
    }

    /// A word stored in four bytes that keep what is stored is read back.
    pub proof fn lemma_word_read_back(self, addr: u32, val: u32)
        requires
            addr + 3 <= u32::MAX,
            forall|k: u32| 0 <= k < 4 ==> RawMemory::spec_is_writable(#[trigger] addr.wrapping_add(k)),
        ensures
            self.spec_set_word(addr, val).spec_get_word(addr) == val,
    {
        let a0 = addr;
        let a1 = a0.wrapping_add(1);
        let a2 = a0.wrapping_add(2);
        let a3 = a0.wrapping_add(3);
        let b0 = (val % 0x100) as u8;
        let b1 = (val / 0x100 % 0x100) as u8;
        let b2 = (val / 0x1_0000 % 0x100) as u8;
        let b3 = (val / 0x100_0000) as u8;
        let r1 = self.spec_set_byte(a0, b0);
        let r2 = r1.spec_set_byte(a1, b1);
        let r3 = r2.spec_set_byte(a2, b2);
        assert(a0.wrapping_add(0) == a0);
        assert(a1 == a0 + 1 && a2 == a0 + 2 && a3 == a0 + 3);
        self.lemma_read_after_write(a0, b0, a0);
        r1.lemma_read_after_write(a1, b1, a0);
        r1.lemma_read_after_write(a1, b1, a1);
        r2.lemma_read_after_write(a2, b2, a0);
        r2.lemma_read_after_write(a2, b2, a1);
        r2.lemma_read_after_write(a2, b2, a2);
        r3.lemma_read_after_write(a3, b3, a0);
        r3.lemma_read_after_write(a3, b3, a1);
        r3.lemma_read_after_write(a3, b3, a2);
        r3.lemma_read_after_write(a3, b3, a3);
    }
}

} // verus!
