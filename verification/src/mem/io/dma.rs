//! DMA, which stands for direct memory access, is a feature that the GBA
//! provides to allow for fast data copying. There are 4 DMA channels, with 0
//! having the highest priority:
//!   - 0 is used for time critical operations to internal RAM)
//!   - 1 and 2 are used to transfer sound data
//!   - 3 is for general purpose copies like loading bitmap/tile data
//! DMA is accessed through the IO portion of memory: the user/game writes
//! bits to certain locations which sets the parameters of DMA. When a transfer
//! is requested, the DMA controller takes over the hardware and the CPU is halted
//! until the transfer is complete.

use vstd::prelude::*;
use vstd::arithmetic::div_mod::{
    lemma_add_mod_noop_right, lemma_mod_add_multiples_vanish, lemma_small_mod,
};
use vstd::array::spec_array_update;
use crate::mem::io::addrs::{
    dma_cnt, dma_dad, dma_sad, spec_dma_cnt, spec_dma_dad, spec_dma_sad, DMA_END, DMA_START,
};
use crate::mem::addrs::{ROM_START, SRAM_START};
use crate::mem::io::interrupt::Interrupt;
use crate::mem::{Memory, RawMemory};
use crate::util::{
    get_bit_hw, halfword_of, spec_get_bit_hw, spec_halfword_of, spec_word_of, word_of,
};

verus! {

/// Specifies how to modify the src/dest of the channel
#[derive(Clone, Copy, Debug, PartialEq, Eq, Structural)]
pub enum IncrType {
    /// increment after each transfer
    Inc,
    /// decrement after each transfer
    Dec,
    /// address is fixed
    Fixed,
    /// increment during the transfer but then reset so that repeat DMA will
    /// always start at the same address. this is only valid for the dest addr
    Reload,
}

impl IncrType {
    pub open spec fn spec_from_u16(n: u16) -> Option<IncrType> {
        if n == 0 {
            Some(IncrType::Inc)
        } else if n == 1 {
            Some(IncrType::Dec)
        } else if n == 2 {
            Some(IncrType::Fixed)
        } else if n == 3 {
            Some(IncrType::Reload)
        } else {
            None
        }
    }

    /// The increment type that a two bit register field encodes.
    #[verifier::when_used_as_spec(spec_from_u16)]
    pub fn from_u16(n: u16) -> (r: Option<IncrType>)
        ensures
            r == IncrType::spec_from_u16(n),
    {
        if n == 0 {
            Some(IncrType::Inc)
        } else if n == 1 {
            Some(IncrType::Dec)
        } else if n == 2 {
            Some(IncrType::Fixed)
        } else if n == 3 {
            Some(IncrType::Reload)
        } else {
            None
        }
    }

    /// The increment type of a two bit field; what is above 3 counts as 3.
    pub open spec fn spec_of_field(n: u16) -> IncrType {
        match IncrType::spec_from_u16(n) {
            Some(t) => t,
            None => IncrType::Reload,
        }
    }

    #[verifier::when_used_as_spec(spec_of_field)]
    pub fn of_field(n: u16) -> (r: IncrType)
        ensures
            r == IncrType::spec_of_field(n),
    {
        match IncrType::from_u16(n) {
            Some(t) => t,
            None => IncrType::Reload,
        }
    }

    /// The address that follows `addr` after a transfer of `step` bytes.
    pub open spec fn spec_step(&self, addr: u32, step: u32) -> u32 {
        match *self {
            IncrType::Inc | IncrType::Reload => addr.wrapping_add(step),
            IncrType::Dec => addr.wrapping_sub(step),
            IncrType::Fixed => addr,
        }
    }

    #[verifier::when_used_as_spec(spec_step)]
    pub fn step(&self, addr: u32, step: u32) -> (r: u32)
        ensures
            r == self.spec_step(addr, step),
    {
        match *self {
            IncrType::Inc | IncrType::Reload => addr.wrapping_add(step),
            IncrType::Dec => addr.wrapping_sub(step),
            IncrType::Fixed => addr,
        }
    }

    /// The address after `count` transfers of `step` bytes each.
    pub open spec fn spec_step_n(&self, addr: u32, step: u32, count: nat) -> u32
        decreases count,
    {
        if count == 0 {
            addr
        } else {
            self.spec_step_n(self.spec_step(addr, step), step, (count - 1) as nat)
        }
    }

    /// The address that follows `addr` after one byte was transferred.
    pub fn update_addr(&self, addr: u32) -> (r: u32)
        ensures
            r == self.spec_step(addr, 1),
    {
        self.step(addr, 1)
    }

    /// The address after `count` transfers, in closed form: an address
    /// that increments has moved up by `step * count` bytes, one that
    /// decrements has moved down by as much, both within 32 bits, and a
    /// fixed address has not moved.
    pub proof fn law_step_n_closed_form(&self, addr: u32, step: u32, count: nat)
        ensures
            self.spec_step_n(addr, step, count) as int == (match *self {
                IncrType::Inc | IncrType::Reload => (addr as int + (step as int) * (count as int))
                    % 0x1_0000_0000,
                IncrType::Dec => (addr as int - (step as int) * (count as int)) % 0x1_0000_0000,
                IncrType::Fixed => addr as int,
            }),
        decreases count,
    {
        let m: int = 0x1_0000_0000;
        if count == 0 {
            assert((step as int) * (count as int) == 0);
            lemma_small_mod(addr as nat, m as nat);
        } else {
            let next = self.spec_step(addr, step);
            self.law_step_n_closed_form(next, step, (count - 1) as nat);
            let rest: int = (step as int) * ((count - 1) as int);
            assert((step as int) * (count as int) == rest + step) by (nonlinear_arith)
                requires
                    rest == (step as int) * ((count - 1) as int),
            ;
            match *self {
                IncrType::Inc | IncrType::Reload => {
                    let sum: int = addr + step;
                    if sum < m {
                        lemma_small_mod(sum as nat, m as nat);
                    } else {
                        lemma_small_mod((sum - m) as nat, m as nat);
                        lemma_mod_add_multiples_vanish(sum - m, m);
                    }
                    assert(next as int == sum % m);
                    lemma_add_mod_noop_right(rest, sum, m);
                    assert(next as int + rest == rest + sum % m);
                    assert(rest + sum == addr as int + (step as int) * (count as int));
                },
                IncrType::Dec => {
                    let diff: int = addr - step;
                    if diff >= 0 {
                        lemma_small_mod(diff as nat, m as nat);
                    } else {
                        lemma_small_mod((diff + m) as nat, m as nat);
                        lemma_mod_add_multiples_vanish(diff, m);
                    }
                    assert(next as int == diff % m);
                    lemma_add_mod_noop_right(-rest, diff, m);
                    assert(next as int - rest == -rest + diff % m);
                    assert(-rest + diff == addr as int - (step as int) * (count as int));
                },
                IncrType::Fixed => {},
            }
        }
    }

    /// Stepping by a multiple of the alignment keeps an aligned address aligned.
    pub proof fn lemma_step_n_aligned(&self, addr: u32, step: u32, count: nat)
        requires
            step == 2 || step == 4,
            addr % step == 0,
        ensures
            self.spec_step_n(addr, step, count) % step == 0,
        decreases count,
    {
        if count > 0 {
            self.lemma_step_n_aligned(self.spec_step(addr, step), step, (count - 1) as nat);
        }
    }
}

/// Enum specifying when the DMA transfer should start
#[derive(Clone, Copy, Debug, PartialEq, Eq, Structural)]
pub enum TimingMode {
    /// start immediately
    Now,
    /// start at the next VBlank
    VBlank,
    /// start at the next HBlank
    HBlank,
    /// depends on the channel; never triggered by the core
    Refresh,
}

impl TimingMode {
    pub open spec fn spec_from_u16(n: u16) -> Option<TimingMode> {
        if n == 0 {
            Some(TimingMode::Now)
        } else if n == 1 {
            Some(TimingMode::VBlank)
        } else if n == 2 {
            Some(TimingMode::HBlank)
        } else if n == 3 {
            Some(TimingMode::Refresh)
        } else {
            None
        }
    }

    /// The timing mode that a two bit register field encodes.
    #[verifier::when_used_as_spec(spec_from_u16)]
    pub fn from_u16(n: u16) -> (r: Option<TimingMode>)
        ensures
            r == TimingMode::spec_from_u16(n),
    {
        if n == 0 {
            Some(TimingMode::Now)
        } else if n == 1 {
            Some(TimingMode::VBlank)
        } else if n == 2 {
            Some(TimingMode::HBlank)
        } else if n == 3 {
            Some(TimingMode::Refresh)
        } else {
            None
        }
    }
}

impl TimingMode {
    /// The timing mode of a two bit field; what is above 3 counts as 3.
    pub open spec fn spec_of_field(n: u16) -> TimingMode {
        match TimingMode::spec_from_u16(n) {
            Some(t) => t,
            None => TimingMode::Refresh,
        }
    }

    #[verifier::when_used_as_spec(spec_of_field)]
    pub fn of_field(n: u16) -> (r: TimingMode)
        ensures
            r == TimingMode::spec_of_field(n),
    {
        match TimingMode::from_u16(n) {
            Some(t) => t,
            None => TimingMode::Refresh,
        }
    }
}

#[derive(Clone, Copy, Debug, PartialEq, Eq, Structural)]
pub struct DMAChannel {
    /// 27 bit for channel 0, 28 bit for 1 - 3
    pub src: u32,
    /// 27 bit for channels 0 - 2, 28 bit for 3
    pub dest: u32,
    /// 14 bits, number of words/halfwords to copy; 0x4000 stands for a
    /// programmed count of 0
    pub count: u16,
    pub src_incr: IncrType,
    pub dest_incr: IncrType,
    /// if timing is VBlank or HBlank, repeat the copy each time
    pub repeat: bool,
    /// if true copy words, otherwise copy halfwords
    pub word: bool,
    pub timing: TimingMode,
    /// if true, raise an interrupt when finished
    pub irq: bool,
    pub enabled: bool,
}

impl DMAChannel {
    /// The channel while every byte of its registers is zero.
    pub fn new() -> (r: DMAChannel)
        ensures
            r == DMAChannel::spec_new(),
    {
        DMAChannel::of_parts(0, 0, 0, 0, 0)
    }

    /// The channel while every byte of its registers is zero.
    pub open spec fn spec_new() -> DMAChannel {
        DMAChannel::spec_of_parts(0, 0, 0, 0, 0)
    }

    /// Channel `channel` as its four raw registers hold it: the source and
    /// destination words, the count halfword and the control halfword.
    /// Source and destination have 27 or 28 bits, the count has 14, and a
    /// count of 0 stands for 0x4000 chunks.
    ///
    /// Control register layout:
    /// F E D C  B A 9 8  7 6 5 4  3 2 1 0
    /// N I M M  X S R A  A B B X  X X X X
    /// 5-6 (B) = dest incr type, 7-8 (A) = src incr type, 9 (R) = repeat,
    /// A (S) = size (word if 1), C-D (M) = timing mode, E (I) = irq,
    /// F (N) = enabled
    pub open spec fn spec_of_parts(channel: usize, sad: u32, dad: u32, count: u16, cnt: u16) -> DMAChannel {
        DMAChannel {
            src: sad & (if channel == 0 {
                0x7FF_FFFFu32
            } else {
                0xFFF_FFFFu32
            }),
            dest: dad & (if channel == 3 {
                0xFFF_FFFFu32
            } else {
                0x7FF_FFFFu32
            }),
            count: if count & 0x3FFF == 0 {
                0x4000
            } else {
                count & 0x3FFF
            },
            dest_incr: IncrType::spec_of_field((cnt >> 5) & 0b11),
            src_incr: IncrType::spec_of_field((cnt >> 7) & 0b11),
            repeat: spec_get_bit_hw(cnt, 9),
            word: spec_get_bit_hw(cnt, 10),
            timing: TimingMode::spec_of_field((cnt >> 12) & 0b11),
            irq: spec_get_bit_hw(cnt, 14),
            enabled: spec_get_bit_hw(cnt, 15),
        }
    }

    /// Decode the registers of one channel.
    #[verifier::when_used_as_spec(spec_of_parts)]
    pub fn of_parts(channel: usize, sad: u32, dad: u32, count: u16, cnt: u16) -> (r: DMAChannel)
        ensures
            r == DMAChannel::spec_of_parts(channel, sad, dad, count, cnt),
    {
        DMAChannel {
            src: sad & (if channel == 0 {
                0x7FF_FFFFu32
            } else {
                0xFFF_FFFFu32
            }),
            dest: dad & (if channel == 3 {
                0xFFF_FFFFu32
            } else {
                0x7FF_FFFFu32
            }),
            count: if count & 0x3FFF == 0 {
                0x4000
            } else {
                count & 0x3FFF
            },
            dest_incr: IncrType::of_field((cnt >> 5) & 0b11),
            src_incr: IncrType::of_field((cnt >> 7) & 0b11),
            repeat: get_bit_hw(cnt, 9),
            word: get_bit_hw(cnt, 10),
            timing: TimingMode::of_field((cnt >> 12) & 0b11),
            irq: get_bit_hw(cnt, 14),
            enabled: get_bit_hw(cnt, 15),
        }
    }

    /// The channel whose registers start at byte `base` of the register
    /// bytes `io`.
    pub open spec fn spec_decode(io: [u8; 0x400], channel: usize, base: int) -> DMAChannel {
        DMAChannel::spec_of_parts(
            channel,
            spec_word_of(io[base], io[base + 1], io[base + 2], io[base + 3]),
            spec_word_of(io[base + 4], io[base + 5], io[base + 6], io[base + 7]),
            spec_halfword_of(io[base + 8], io[base + 9]),
            spec_halfword_of(io[base + 10], io[base + 11]),
        )
    }

    /// Decode one channel from the raw register bytes.
    pub fn parse(raw: &RawMemory, channel: usize, base: usize) -> (r: DMAChannel)
        requires
            base + 11 < 0x400,
        ensures
            r == DMAChannel::spec_decode(*raw.io, channel, base as int),
    {
        DMAChannel::of_parts(
            channel,
            word_of(raw.io[base], raw.io[base + 1], raw.io[base + 2], raw.io[base + 3]),
            word_of(raw.io[base + 4], raw.io[base + 5], raw.io[base + 6], raw.io[base + 7]),
            halfword_of(raw.io[base + 8], raw.io[base + 9]),
            halfword_of(raw.io[base + 10], raw.io[base + 11]),
        )
    }

    /// The number of bytes that one transfer moves.
    pub open spec fn chunk_size(&self) -> u32 {
        if self.word {
            4
        } else {
            2
        }
    }
}

/// The four DMA channels.
#[derive(Clone, Copy, Debug, PartialEq, Eq)]
pub struct DMA {
    pub channels: [DMAChannel; 4],
}

impl DMA {
    /// The four channels that the raw register bytes `io` hold.
    #[verifier::opaque]
    pub open spec fn spec_decode(io: [u8; 0x400]) -> DMA {
        DMA {
            channels: [
                DMAChannel::spec_decode(io, 0, 0xB0),
                DMAChannel::spec_decode(io, 1, 0xBC),
                DMAChannel::spec_decode(io, 2, 0xC8),
                DMAChannel::spec_decode(io, 3, 0xD4),
            ],
        }
    }

    /// The decode of a channel reads the twelve bytes of its registers and
    /// no others.
    pub proof fn lemma_decode_reads(a: [u8; 0x400], b: [u8; 0x400], channel: int)
        requires
            0 <= channel < 4,
            forall|k: int| 0xB0 + 12 * channel <= k < 0xB0 + 12 * channel + 12 ==> a[k] == b[k],
        ensures
            DMA::spec_decode(a).channels[channel] == DMA::spec_decode(b).channels[channel],
    {
        reveal(DMA::spec_decode);
    }

    /// Decode the four channels from the raw register bytes.
    pub fn parse(raw: &RawMemory) -> (r: DMA)
        ensures
            r == DMA::spec_decode(*raw.io),
    {
        reveal(DMA::spec_decode);
        DMA {
            channels: [
                DMAChannel::parse(raw, 0, 0xB0),
                DMAChannel::parse(raw, 1, 0xBC),
                DMAChannel::parse(raw, 2, 0xC8),
                DMAChannel::parse(raw, 3, 0xD4),
            ],
        }
    }

    /// The channels of a machine that was just switched on.
    pub fn new() -> (r: DMA)
        ensures
            r == DMA::spec_decode(crate::mem::spec_zero_bytes()),
    {
        proof {
            reveal(DMA::spec_decode);
        }
        DMA::parse(&RawMemory::new())
    }
}

/// Whether every chunk of a transfer of `count` chunks, the first at the
/// aligned address `dest`, lies in the windows of the cartridge.
pub open spec fn spec_stays_in_cartridge(dest: u32, incr: IncrType, word: bool, count: nat) -> bool {
    let chunk: int = if word {
        4
    } else {
        2
    };
    let total: int = if word {
        4 * (count as int)
    } else {
        2 * (count as int)
    };
    match incr {
        IncrType::Inc | IncrType::Reload => ROM_START <= dest && dest + total <= SRAM_START,
        IncrType::Dec => ROM_START + total <= dest + chunk && dest + chunk <= SRAM_START,
        IncrType::Fixed => ROM_START <= dest && dest + chunk <= SRAM_START,
    }
}

impl RawMemory {
    /// Whether this memory and `other` differ in register bytes at most.
    pub open spec fn spec_only_io_differs(self, other: RawMemory) -> bool {
        &&& self.sysrom == other.sysrom
        &&& self.ewram == other.ewram
        &&& self.iwram == other.iwram
        &&& self.pal == other.pal
        &&& self.vram == other.vram
        &&& self.oam == other.oam
        &&& self.rom == other.rom
    }

    /// A raw byte stored in the registers of the DMA channels changes
    /// register bytes only.
    pub proof fn lemma_register_byte(self, addr: u32, val: u8)
        requires
            DMA_START <= addr <= DMA_END + 4,
        ensures
            self.spec_set_byte(addr, val).spec_only_io_differs(self),
    {
        reveal(RawMemory::spec_set_byte);
    }

    /// A raw word or halfword stored in the registers of a DMA channel
    /// changes register bytes only.
    pub proof fn lemma_register_word(self, addr: u32, val: u32)
        requires
            DMA_START <= addr <= DMA_END,
        ensures
            self.spec_set_word(addr, val).spec_only_io_differs(self),
            self.spec_set_halfword(addr, val).spec_only_io_differs(self),
    {
        let b0 = (val % 0x100) as u8;
        let b1 = (val / 0x100 % 0x100) as u8;
        let b2 = (val / 0x1_0000 % 0x100) as u8;
        let b3 = (val / 0x100_0000) as u8;
        let r1 = self.spec_set_byte(addr, b0);
        let r2 = r1.spec_set_byte(addr.wrapping_add(1), b1);
        let r3 = r2.spec_set_byte(addr.wrapping_add(2), b2);
        self.lemma_register_byte(addr, b0);
        r1.lemma_register_byte(addr.wrapping_add(1), b1);
        r2.lemma_register_byte(addr.wrapping_add(2), b2);
        r3.lemma_register_byte(addr.wrapping_add(3), b3);
    }
}

/// A halfword without its top bit has no top bit.
pub proof fn lemma_below_top_bit(x: u16)
    by (bit_vector)
    ensures
        (x & 0x7FFF) & 0x8000 == 0,
        x & 0x7FFF <= 0x7FFF,
{
}

/// `addr` rounded down to a multiple of the chunk size.
pub open spec fn spec_chunk_align(addr: u32, word: bool) -> u32 {
    if word {
        (addr - addr % 4) as u32
    } else {
        (addr - addr % 2) as u32
    }
}

impl Memory {
    /// The memory after a byte was written to a DMA register: the parsed
    /// channels are what the raw register bytes now hold.
    pub open spec fn spec_update_dma_byte(self, addr: u32) -> Memory {
        Memory { dma: DMA::spec_decode(*self.raw.io), ..self }
    }

    /// Refresh the parsed channels after a byte was written to a DMA register.
    pub fn update_dma_byte(&mut self, addr: u32, _val: u8)
        ensures
            *final(self) == old(self).spec_update_dma_byte(addr),
    {
        self.dma = DMA::parse(&self.raw);
    }

    pub fn update_dma_hw(&mut self, addr: u32, val: u32)
        ensures
            *final(self) == old(self).spec_update_dma_byte(addr),
    {
        self.update_dma_byte(addr, (val % 0x100) as u8);
        self.update_dma_byte(addr.wrapping_add(1), (val / 0x100 % 0x100) as u8);
    }

    pub fn update_dma_word(&mut self, addr: u32, val: u32)
        ensures
            *final(self) == old(self).spec_update_dma_byte(addr),
    {
        self.update_dma_hw(addr, val);
        self.update_dma_hw(addr.wrapping_add(2), val / 0x1_0000);
    }

    /// The memory after `count` chunks were copied from `src` to `dest`,
    /// both addresses moving on by their increment rule after each chunk.
    #[verifier::opaque]
    pub open spec fn spec_dma_copy(
        self,
        src: u32,
        dest: u32,
        src_incr: IncrType,
        dest_incr: IncrType,
        word: bool,
        count: nat,
    ) -> Memory
        decreases count,
    {
        if count == 0 {
            self
        } else {
            let step = if word {
                4u32
            } else {
                2u32
            };
            let written = if word {
                self.spec_set_word(dest, self.spec_get_word(src))
            } else {
                self.spec_set_halfword(dest, self.spec_get_halfword(src) as u32)
            };
            written.spec_dma_copy(
                src_incr.spec_step(src, step),
                dest_incr.spec_step(dest, step),
                src_incr,
                dest_incr,
                word,
                (count - 1) as nat,
            )
        }
    }

    /// The memory after a finished transfer of channel `channel` was noted
    /// in its registers. `ch` holds the parameters the transfer ran with,
    /// `end_src` and `end_dest` the addresses it ended on. The raw source
    /// and destination registers take these addresses (a reloading
    /// destination keeps its own), a channel that does not repeat loses bit
    /// 15 of its raw control register, and the parsed channels are what the
    /// raw registers then hold.
    #[verifier::opaque]
    pub open spec fn spec_dma_settle(
        self,
        channel: usize,
        ch: DMAChannel,
        end_src: u32,
        end_dest: u32,
    ) -> Memory {
        let raw = self.raw.spec_set_word(spec_dma_sad(channel), end_src);
        let raw = if ch.dest_incr == IncrType::Reload {
            raw
        } else {
            raw.spec_set_word(spec_dma_dad(channel), end_dest)
        };
        let raw = if ch.repeat {
            raw
        } else {
            raw.spec_set_halfword(
                spec_dma_cnt(channel),
                (raw.spec_get_halfword(spec_dma_cnt(channel)) & 0x7FFF) as u32,
            )
        };
        Memory { raw, dma: DMA::spec_decode(*raw.io), ..self }
    }

    /// The memory after channel `channel` ran to completion: its data were
    /// copied chunk by chunk from the aligned source to the aligned
    /// destination, its registers took note of the end of the transfer,
    /// and the finish hook has run.
    #[verifier::opaque]
    pub open spec fn spec_run_dma(self, channel: usize) -> Memory {
        let ch = self.dma.channels[channel as int];
        let src = spec_chunk_align(ch.src, ch.word);
        let dest = spec_chunk_align(ch.dest, ch.word);
        self.spec_dma_copy(
            src,
            dest,
            ch.src_incr,
            ch.dest_incr,
            ch.word,
            ch.count as nat,
        ).spec_dma_settle(
            channel,
            ch,
            ch.src_incr.spec_step_n(src, ch.chunk_size(), ch.count as nat),
            ch.dest_incr.spec_step_n(dest, ch.chunk_size(), ch.count as nat),
        ).spec_on_dma_finish_hook(channel)
    }

    /// Copy `count` chunks from `src` to `dest` and return the addresses
    /// that the transfer ended on.
    pub fn dma_copy(
        &mut self,
        src: u32,
        dest: u32,
        src_incr: IncrType,
        dest_incr: IncrType,
        word: bool,
        count: u16,
    ) -> (end: (u32, u32))
        ensures
            *final(self) == old(self).spec_dma_copy(
                src,
                dest,
                src_incr,
                dest_incr,
                word,
                count as nat,
            ),
            end.0 == src_incr.spec_step_n(src, if word { 4u32 } else { 2u32 }, count as nat),
            end.1 == dest_incr.spec_step_n(dest, if word { 4u32 } else { 2u32 }, count as nat),
    {
        let step: u32 = if word {
            4
        } else {
            2
        };
        let mut cur_src: u32 = src;
        let mut cur_dest: u32 = dest;
        let mut left: u16 = count;
        while left > 0
            invariant
                step == (if word { 4u32 } else { 2u32 }),
                self.spec_dma_copy(cur_src, cur_dest, src_incr, dest_incr, word, left as nat)
                    == old(self).spec_dma_copy(src, dest, src_incr, dest_incr, word, count as nat),
                src_incr.spec_step_n(cur_src, step, left as nat) == src_incr.spec_step_n(
                    src,
                    step,
                    count as nat,
                ),
                dest_incr.spec_step_n(cur_dest, step, left as nat) == dest_incr.spec_step_n(
                    dest,
                    step,
                    count as nat,
                ),
            decreases left,
        {
            proof {
                reveal(Memory::spec_dma_copy);
            }
            if word {
                let val = self.get_word(cur_src);
                self.set_word(cur_dest, val);
            } else {
                let val = self.get_halfword(cur_src);
                self.set_halfword(cur_dest, val as u32);
            }
            cur_src = src_incr.step(cur_src, step);
            cur_dest = dest_incr.step(cur_dest, step);
            left -= 1;
        }
        proof {
            reveal(Memory::spec_dma_copy);
        }
        (cur_src, cur_dest)
    }

    /// Note the end of a transfer in the registers of its channel.
    pub fn dma_settle(&mut self, channel: usize, ch: DMAChannel, end_src: u32, end_dest: u32)
        requires
            channel < 4,
        ensures
            *final(self) == old(self).spec_dma_settle(channel, ch, end_src, end_dest),
    {
        reveal(Memory::spec_dma_settle);
        // update raw addrs
        self.raw.set_word(dma_sad(channel), end_src);
        match ch.dest_incr {
            IncrType::Reload => {},
            _ => {
                self.raw.set_word(dma_dad(channel), end_dest);
            },
        }
        // update raw cnt register
        if !ch.repeat {
            let old_reg = self.raw.get_halfword(dma_cnt(channel));
            self.raw.set_halfword(dma_cnt(channel), (old_reg & 0x7FFF) as u32);
        }
        self.dma = DMA::parse(&self.raw);
    }

    /// Run the transfer of one channel.
    pub fn run_dma(&mut self, channel: usize)
        requires
            channel < 4,
        ensures
            *final(self) == old(self).spec_run_dma(channel),
            old(self).registers_agree() ==> final(self).registers_agree(),
    {
        proof {
            if self.registers_agree() {
                self.law_transfer_keeps_registers_agreeing(channel);
            }
        }
        reveal(Memory::spec_run_dma);
        let ch = self.dma.channels[channel];
        // word or halfword align the src/dest addrs depending on chunk size
        let step: u32 = if ch.word {
            4
        } else {
            2
        };
        let src: u32 = ch.src - ch.src % step;
        let dest: u32 = ch.dest - ch.dest % step;
        let (end_src, end_dest) = self.dma_copy(
            src,
            dest,
            ch.src_incr,
            ch.dest_incr,
            ch.word,
            ch.count,
        );
        self.dma_settle(channel, ch, end_src, end_dest);
        self.on_dma_finish_hook(channel);
    }

    /// The memory after the channels from `from` on were checked against a
    /// trigger, lowest channel first: every channel that is enabled and
    /// waits for this trigger when its turn comes runs to completion.
    #[verifier::opaque]
    pub open spec fn spec_check_dma_from(self, timing: TimingMode, from: nat) -> Memory
        decreases 4 - from,
    {
        if from >= 4 {
            self
        } else {
            let ch = self.dma.channels[from as int];
            let ran = if ch.enabled && ch.timing == timing {
                self.spec_run_dma(from as usize)
            } else {
                self
            };
            ran.spec_check_dma_from(timing, from + 1)
        }
    }

    pub open spec fn spec_check_dma(self, timing: TimingMode) -> Memory {
        self.spec_check_dma_from(timing, 0)
    }

    /// Run every channel that is enabled and waits for `timing`.
    pub fn check_dma(&mut self, timing: TimingMode)
        ensures
            *final(self) == old(self).spec_check_dma(timing),
            old(self).registers_agree() ==> final(self).registers_agree(),
    {
        proof {
            if self.registers_agree() {
                self.lemma_check_keeps_registers_agreeing(timing, 0);
            }
        }
        let mut i: usize = 0;
        while i < 4
            invariant
                i <= 4,
                self.spec_check_dma_from(timing, i as nat) == old(self).spec_check_dma(timing),
            decreases 4 - i,
        {
            proof {
                reveal(Memory::spec_check_dma_from);
            }
            if self.dma.channels[i].enabled && self.dma.channels[i].timing == timing {
                self.run_dma(i);
            }
            i += 1;
        }
        proof {
            reveal(Memory::spec_check_dma_from);
        }
    }
}

/// Masking an address to its 27 or 28 bits keeps it a multiple of the chunk
/// size.
pub proof fn lemma_mask_keeps_alignment(x: u32)
    by (bit_vector)
    ensures
        x % 4 == 0 ==> (x & 0x7FF_FFFFu32) % 4 == 0 && (x & 0xFFF_FFFFu32) % 4 == 0,
        x % 2 == 0 ==> (x & 0x7FF_FFFFu32) % 2 == 0 && (x & 0xFFF_FFFFu32) % 2 == 0,
{
}

/// A control halfword without bit 15 says that its channel is off.
pub proof fn lemma_switched_off(x: u16)
    by (bit_vector)
    ensures
        ((x & 0x7FFF) >> 15u8) & 1 == 0,
{
}

/// The request bit of a channel is set once it was set.
pub proof fn lemma_request_bit(x: u8)
    by (bit_vector)
    ensures
        ((x | 1u8) >> 0u8) & 1 == 1,
        ((x | 2u8) >> 1u8) & 1 == 1,
        ((x | 4u8) >> 2u8) & 1 == 1,
        ((x | 8u8) >> 3u8) & 1 == 1,
        1u8 << 0usize == 1u8,
        1u8 << 1usize == 2u8,
        1u8 << 2usize == 4u8,
        1u8 << 3usize == 8u8,
{
}

impl RawMemory {
    /// A raw word stored in the register bytes is held there byte by byte,
    /// and no other register byte changes.
    pub proof fn lemma_io_word(self, addr: u32, val: u32)
        requires
            DMA_START <= addr < DMA_END,
        ensures
            ({
                let r = self.spec_set_word(addr, val);
                let k = addr - 0x0400_0000;
                &&& spec_word_of(r.io[k], r.io[k + 1], r.io[k + 2], r.io[k + 3]) == val
                &&& forall|j: int|
                    0 <= j < 0x400 && !(k <= j < k + 4) ==> #[trigger] r.io[j] == self.io[j]
            }),
            ({
                let r = self.spec_set_halfword(addr, val);
                let k = addr - 0x0400_0000;
                &&& spec_halfword_of(r.io[k], r.io[k + 1]) == val % 0x1_0000
                &&& forall|j: int|
                    0 <= j < 0x400 && !(k <= j < k + 2) ==> #[trigger] r.io[j] == self.io[j]
            }),
    {
        let b0 = (val % 0x100) as u8;
        let b1 = (val / 0x100 % 0x100) as u8;
        let b2 = (val / 0x1_0000 % 0x100) as u8;
        let b3 = (val / 0x100_0000) as u8;
        let r1 = self.spec_set_byte(addr, b0);
        let r2 = r1.spec_set_byte(addr.wrapping_add(1), b1);
        let r3 = r2.spec_set_byte(addr.wrapping_add(2), b2);
        self.lemma_store_bytes(addr, b0);
        r1.lemma_store_bytes(addr.wrapping_add(1), b1);
        r2.lemma_store_bytes(addr.wrapping_add(2), b2);
        r3.lemma_store_bytes(addr.wrapping_add(3), b3);
    }
}

impl Memory {
    /// What noting the end of a transfer leaves in the channel: the source
    /// is the end address within the bits of the register, and so is the
    /// destination unless it reloads, and a channel that does not repeat is
    /// off, in the parsed channel and in bit 15 of the raw control
    /// register.
    pub proof fn lemma_settle_effect(
        self,
        channel: usize,
        ch: DMAChannel,
        end_src: u32,
        end_dest: u32,
    )
        requires
            channel < 4,
        ensures
            ({
                let after = self.spec_dma_settle(channel, ch, end_src, end_dest);
                let done = after.dma.channels[channel as int];
                &&& after.dma == DMA::spec_decode(*after.raw.io)
                &&& done.src == end_src & (if channel == 0 {
                    0x7FF_FFFFu32
                } else {
                    0xFFF_FFFFu32
                })
                &&& ch.dest_incr != IncrType::Reload ==> done.dest == end_dest & (if channel == 3 {
                    0xFFF_FFFFu32
                } else {
                    0x7FF_FFFFu32
                })
                &&& !ch.repeat ==> !done.enabled
                &&& !ch.repeat ==> after.raw.spec_get_halfword(spec_dma_cnt(channel)) & 0x8000 == 0
                &&& after.graphics == self.graphics
                &&& after.int == self.int
                &&& after.sprites == self.sprites
                &&& after.palette == self.palette
                &&& after.raw.spec_only_io_differs(self.raw)
                &&& forall|j: int|
                    0 <= j < 0x400 && !(0xB0 + 12 * channel <= j < 0xB0 + 12 * channel + 12)
                        ==> #[trigger] after.raw.io[j] == self.raw.io[j]
            }),
    {
        reveal(Memory::spec_dma_settle);
        reveal(DMA::spec_decode);
        let sad = spec_dma_sad(channel);
        let dad = spec_dma_dad(channel);
        let cnt = spec_dma_cnt(channel);
        let r1 = self.raw.spec_set_word(sad, end_src);
        let r2 = if ch.dest_incr == IncrType::Reload {
            r1
        } else {
            r1.spec_set_word(dad, end_dest)
        };
        let kept = (r2.spec_get_halfword(cnt) & 0x7FFF) as u32;
        let r3 = if ch.repeat {
            r2
        } else {
            r2.spec_set_halfword(cnt, kept)
        };
        self.raw.lemma_io_word(sad, end_src);
        r1.lemma_io_word(dad, end_dest);
        r2.lemma_io_word(cnt, kept);
        self.raw.lemma_register_word(sad, end_src);
        r1.lemma_register_word(dad, end_dest);
        r2.lemma_register_word(cnt, kept);
        lemma_switched_off(r2.spec_get_halfword(cnt));
        lemma_below_top_bit(r2.spec_get_halfword(cnt));
        assert(r3.spec_get_halfword(cnt) == spec_halfword_of(
            r3.io[cnt - 0x0400_0000],
            r3.io[cnt - 0x0400_0000 + 1],
        )) by {
            reveal(RawMemory::spec_get_byte);
        }
    }

    /// After a transfer the source address of the channel is a multiple of
    /// the chunk size that the transfer ran with (4 for words, 2 for
    /// halfwords), and so is the destination address unless the
    /// destination reloads.
    pub proof fn law_dma_leaves_aligned_addresses(self, channel: usize)
        requires
            channel < 4,
        ensures
            self.spec_run_dma(channel).dma.channels[channel as int].src
                % self.dma.channels[channel as int].chunk_size() == 0,
            self.dma.channels[channel as int].dest_incr != IncrType::Reload
                ==> self.spec_run_dma(channel).dma.channels[channel as int].dest
                % self.dma.channels[channel as int].chunk_size() == 0,
    {
        reveal(Memory::spec_run_dma);
        let ch = self.dma.channels[channel as int];
        let src = spec_chunk_align(ch.src, ch.word);
        let dest = spec_chunk_align(ch.dest, ch.word);
        let end_src = ch.src_incr.spec_step_n(src, ch.chunk_size(), ch.count as nat);
        let end_dest = ch.dest_incr.spec_step_n(dest, ch.chunk_size(), ch.count as nat);
        ch.src_incr.lemma_step_n_aligned(src, ch.chunk_size(), ch.count as nat);
        ch.dest_incr.lemma_step_n_aligned(dest, ch.chunk_size(), ch.count as nat);
        lemma_mask_keeps_alignment(end_src);
        lemma_mask_keeps_alignment(end_dest);
        let copied = self.spec_dma_copy(src, dest, ch.src_incr, ch.dest_incr, ch.word, ch.count as nat);
        copied.lemma_settle_effect(channel, ch, end_src, end_dest);
    }

    /// What a finished transfer leaves in the registers of its channel,
    /// whatever it copied: the source address is the aligned start moved on
    /// once for each chunk (for a source that increments: by the chunk size
    /// times the count), within the bits of the register, and so is the
    /// destination address unless it reloads; a channel that does not
    /// repeat is switched off, in the parsed channel and in bit 15 of its
    /// raw control register; and where the channel asks for an interrupt at
    /// the end, its request is latched.
    pub proof fn law_dma_run_is_noted(self, channel: usize)
        requires
            channel < 4,
        ensures
            ({
                let ch = self.dma.channels[channel as int];
                let after = self.spec_run_dma(channel);
                let done = after.dma.channels[channel as int];
                let src_mask = if channel == 0 {
                    0x7FF_FFFFu32
                } else {
                    0xFFF_FFFFu32
                };
                let dest_mask = if channel == 3 {
                    0xFFF_FFFFu32
                } else {
                    0x7FF_FFFFu32
                };
                &&& done.src == ch.src_incr.spec_step_n(
                    spec_chunk_align(ch.src, ch.word),
                    ch.chunk_size(),
                    ch.count as nat,
                ) & src_mask
                &&& ch.dest_incr != IncrType::Reload ==> done.dest == ch.dest_incr.spec_step_n(
                    spec_chunk_align(ch.dest, ch.word),
                    ch.chunk_size(),
                    ch.count as nat,
                ) & dest_mask
                &&& ch.src_incr == IncrType::Inc ==> done.src == (((spec_chunk_align(
                    ch.src,
                    ch.word,
                ) as int + (ch.chunk_size() as int) * (ch.count as int)) % 0x1_0000_0000) as u32)
                    & src_mask
                &&& !ch.repeat ==> !done.enabled
                &&& !ch.repeat ==> after.raw.spec_get_halfword(spec_dma_cnt(channel)) & 0x8000 == 0
                &&& done.irq ==> after.int.triggered.dma[channel as int]
            }),
    {
        reveal(Memory::spec_run_dma);
        let ch = self.dma.channels[channel as int];
        let src = spec_chunk_align(ch.src, ch.word);
        let dest = spec_chunk_align(ch.dest, ch.word);
        ch.src_incr.law_step_n_closed_form(src, ch.chunk_size(), ch.count as nat);
        let copied = self.spec_dma_copy(
            src,
            dest,
            ch.src_incr,
            ch.dest_incr,
            ch.word,
            ch.count as nat,
        );
        let end_src = ch.src_incr.spec_step_n(src, ch.chunk_size(), ch.count as nat);
        let end_dest = ch.dest_incr.spec_step_n(dest, ch.chunk_size(), ch.count as nat);
        copied.lemma_settle_effect(channel, ch, end_src, end_dest);
        let settled = copied.spec_dma_settle(channel, ch, end_src, end_dest);
        reveal(Interrupt::spec_decode);
        lemma_request_bit(settled.raw.io[0x203]);
        let after = settled.spec_on_dma_finish_hook(channel);
        assert(after.raw.spec_get_halfword(spec_dma_cnt(channel))
            == settled.raw.spec_get_halfword(spec_dma_cnt(channel))) by {
            reveal(RawMemory::spec_get_byte);
        }
    }

    /// Chunks that are copied into the cartridge are dropped one by one:
    /// such a copy leaves the memory as it was.
    pub proof fn lemma_copy_into_cartridge(
        self,
        src: u32,
        dest: u32,
        src_incr: IncrType,
        dest_incr: IncrType,
        word: bool,
        count: nat,
    )
        requires
            spec_stays_in_cartridge(dest, dest_incr, word, count),
        ensures
            self.spec_dma_copy(src, dest, src_incr, dest_incr, word, count) == self,
        decreases count,
    {
        reveal(Memory::spec_dma_copy);
        if count > 0 {
            let step = if word {
                4u32
            } else {
                2u32
            };
            if word {
                self.law_word_store_to_read_only_is_dropped(dest, self.spec_get_word(src));
            } else {
                self.law_halfword_store_to_read_only_is_dropped(
                    dest,
                    self.spec_get_halfword(src) as u32,
                );
            }
            self.lemma_copy_into_cartridge(
                src_incr.spec_step(src, step),
                dest_incr.spec_step(dest, step),
                src_incr,
                dest_incr,
                word,
                (count - 1) as nat,
            );
        }
    }

    /// A transfer into the cartridge, in a memory whose views agree with
    /// its raw bytes, changes nothing but the registers of its own channel
    /// and the interrupt request that it latches: the other channels, the
    /// display registers, the sprites, the palette, the interrupt switches
    /// and every byte outside the registers are as they were.
    pub proof fn law_dma_into_cartridge_is_local(self, channel: usize)
        requires
            channel < 4,
            self.registers_agree(),
            spec_stays_in_cartridge(
                spec_chunk_align(
                    self.dma.channels[channel as int].dest,
                    self.dma.channels[channel as int].word,
                ),
                self.dma.channels[channel as int].dest_incr,
                self.dma.channels[channel as int].word,
                self.dma.channels[channel as int].count as nat,
            ),
        ensures
            ({
                let after = self.spec_run_dma(channel);
                &&& forall|other: int|
                    0 <= other < 4 && other != channel ==> after.dma.channels[other]
                        == self.dma.channels[other]
                &&& after.graphics == self.graphics
                &&& after.sprites == self.sprites
                &&& after.palette == self.palette
                &&& after.int.enabled == self.int.enabled
                &&& after.int.master_enabled == self.int.master_enabled
                &&& after.raw.spec_only_io_differs(self.raw)
            }),
    {
        reveal(Memory::spec_run_dma);
        let ch = self.dma.channels[channel as int];
        let src = spec_chunk_align(ch.src, ch.word);
        let dest = spec_chunk_align(ch.dest, ch.word);
        self.lemma_copy_into_cartridge(
            src,
            dest,
            ch.src_incr,
            ch.dest_incr,
            ch.word,
            ch.count as nat,
        );
        let end_src = ch.src_incr.spec_step_n(src, ch.chunk_size(), ch.count as nat);
        let end_dest = ch.dest_incr.spec_step_n(dest, ch.chunk_size(), ch.count as nat);
        self.lemma_settle_effect(channel, ch, end_src, end_dest);
        let settled = self.spec_dma_settle(channel, ch, end_src, end_dest);
        let after = settled.spec_on_dma_finish_hook(channel);
        assert(self.graphics == crate::mem::io::graphics::LCD::spec_decode(*self.raw.io)
            && self.dma == DMA::spec_decode(*self.raw.io) && self.int == Interrupt::spec_decode(
            *self.raw.io,
        )) by {
            reveal(Memory::registers_agree);
        }
        crate::mem::io::graphics::LCD::lemma_decode_reads(*after.raw.io, *self.raw.io);
        Interrupt::lemma_decode_reads(*after.raw.io, *self.raw.io);
        assert forall|other: int| 0 <= other < 4 && other != channel implies after.dma.channels[other]
            == self.dma.channels[other] by {
            DMA::lemma_decode_reads(*settled.raw.io, *self.raw.io, other);
        }
    }
}


} // verus!
