//! Interrupts are handled in 3 registers: IME, IE, and IF. Only the 0th bit
//! of IME is used, and is set to enable interrupts. IE and IF both have a bit
//! for each interrupt: if it's set in IE then that interrupt is enabled, and
//! if it's set in IF then that interrupt has been triggered and is waiting to
//! be handled. To acknowledge an interrupt, the game writes the bit back to IF.
//! IF and IE have the following format:
//! F E D C  B A 9 8  7 6 5 4  3 2 1 0
//! X X T Y  G F E D  S L K J  I C H V
//! 0 (V) = VBlank Interrupt
//! 1 (H) = HBlank Interrupt
//! 2 (C) = VCount Interrupt
//! 3 (I) = Timer 0 Interrupt
//! 4 (J) = Timer 1 Interrupt
//! 5 (K) = Timer 2 Interrupt
//! 6 (L) = Timer 3 Interrupt
//! 7 (S) = Serial Communication Interrupt
//! 8 (D) = DMA0 Interrupt
//! 9 (E) = DMA1 Interrupt
//! A (F) = DMA2 Interrupt
//! B (G) = DMA3 Interrupt
//! C (Y) = Key Interrupt
//! D (T) = Cassette Interrupt

use vstd::prelude::*;
use crate::mem::{Memory, RawMemory};

verus! {

pub open spec fn spec_get_bit(val: u8, i: u8) -> bool {
    ((val >> i) & 1) == 1
}

/// Bit `i` of a byte.
#[verifier::when_used_as_spec(spec_get_bit)]
pub fn get_bit(val: u8, i: u8) -> (r: bool)
    requires
        i < 8,
    ensures
        r == spec_get_bit(val, i),
{
    ((val >> i) & 1) == 1
}

/// One flag per interrupt source, in the bit order of IE and IF.
#[derive(Clone, Copy, Debug, PartialEq, Eq)]
pub struct InterruptBitmap {
    pub vblank: bool,
    pub hblank: bool,
    pub vcount: bool,
    pub timer: [bool; 4],
    pub serial: bool,
    pub dma: [bool; 4],
    pub keypad: bool,
    pub gamepak: bool,
}

impl InterruptBitmap {
    /// The fourteen flags, flag `k` being bit `k` of the register.
    pub open spec fn flags(&self) -> Seq<bool> {
        seq![
            self.vblank,
            self.hblank,
            self.vcount,
            self.timer[0],
            self.timer[1],
            self.timer[2],
            self.timer[3],
            self.serial,
            self.dma[0],
            self.dma[1],
            self.dma[2],
            self.dma[3],
            self.keypad,
            self.gamepak,
        ]
    }

    /// The flags that the two raw bytes of IE or IF hold: flag `k` is bit
    /// `k` of the register.
    pub open spec fn spec_of_bytes(lo: u8, hi: u8) -> InterruptBitmap {
        InterruptBitmap {
            vblank: spec_get_bit(lo, 0),
            hblank: spec_get_bit(lo, 1),
            vcount: spec_get_bit(lo, 2),
            timer: [
                spec_get_bit(lo, 3),
                spec_get_bit(lo, 4),
                spec_get_bit(lo, 5),
                spec_get_bit(lo, 6),
            ],
            serial: spec_get_bit(lo, 7),
            dma: [
                spec_get_bit(hi, 0),
                spec_get_bit(hi, 1),
                spec_get_bit(hi, 2),
                spec_get_bit(hi, 3),
            ],
            keypad: spec_get_bit(hi, 4),
            gamepak: spec_get_bit(hi, 5),
        }
    }

    /// Decode the two bytes of IE or IF.
    #[verifier::when_used_as_spec(spec_of_bytes)]
    pub fn of_bytes(lo: u8, hi: u8) -> (r: InterruptBitmap)
        ensures
            r == InterruptBitmap::spec_of_bytes(lo, hi),
    {
        InterruptBitmap {
            vblank: get_bit(lo, 0),
            hblank: get_bit(lo, 1),
            vcount: get_bit(lo, 2),
            timer: [get_bit(lo, 3), get_bit(lo, 4), get_bit(lo, 5), get_bit(lo, 6)],
            serial: get_bit(lo, 7),
            dma: [get_bit(hi, 0), get_bit(hi, 1), get_bit(hi, 2), get_bit(hi, 3)],
            keypad: get_bit(hi, 4),
            gamepak: get_bit(hi, 5),
        }
    }

    /// The flags while both bytes of the register are zero: none is set.
    pub fn new() -> (r: InterruptBitmap)
        ensures
            r == InterruptBitmap::spec_of_bytes(0, 0),
            forall|k: int| 0 <= k < 14 ==> !r.flags()[k],
    {
        proof {
            lemma_no_bits();
        }
        InterruptBitmap::of_bytes(0, 0)
    }

    pub fn as_array(&self) -> (r: [bool; 14])
        ensures
            r@ == self.flags(),
    {
        let r = [
            self.vblank,
            self.hblank,
            self.vcount,
            self.timer[0],
            self.timer[1],
            self.timer[2],
            self.timer[3],
            self.serial,
            self.dma[0],
            self.dma[1],
            self.dma[2],
            self.dma[3],
            self.keypad,
            self.gamepak,
        ];
        assert(r@ =~= self.flags());
        r
    }
}

/// A zero byte has no bit set.
pub proof fn lemma_no_bits()
    ensures
        forall|i: u8| 0 <= i < 8 ==> !(#[trigger] spec_get_bit(0, i)),
{
    assert(((0u8 >> 0u8) & 1) == 0 && ((0u8 >> 1u8) & 1) == 0 && ((0u8 >> 2u8) & 1) == 0 && ((0u8
        >> 3u8) & 1) == 0 && ((0u8 >> 4u8) & 1) == 0 && ((0u8 >> 5u8) & 1) == 0 && ((0u8 >> 6u8)
        & 1) == 0 && ((0u8 >> 7u8) & 1) == 0) by (bit_vector);
}

/// The interrupt controller registers: the master switch IME, the enable
/// mask IE and the latch IF.
#[derive(Clone, Copy, Debug, PartialEq, Eq)]
pub struct Interrupt {
    pub master_enabled: bool,
    pub enabled: InterruptBitmap,
    pub triggered: InterruptBitmap,
}

impl Interrupt {
    /// The registers that the raw register bytes `io` hold.
    #[verifier::opaque]
    pub open spec fn spec_decode(io: [u8; 0x400]) -> Interrupt {
        Interrupt {
            master_enabled: spec_get_bit(io[0x208], 0),
            enabled: InterruptBitmap::spec_of_bytes(io[0x200], io[0x201]),
            triggered: InterruptBitmap::spec_of_bytes(io[0x202], io[0x203]),
        }
    }

    /// The decode of IE and IME reads their bytes and no others.
    pub proof fn lemma_decode_reads(a: [u8; 0x400], b: [u8; 0x400])
        requires
            a[0x200] == b[0x200],
            a[0x201] == b[0x201],
            a[0x208] == b[0x208],
        ensures
            Interrupt::spec_decode(a).enabled == Interrupt::spec_decode(b).enabled,
            Interrupt::spec_decode(a).master_enabled == Interrupt::spec_decode(b).master_enabled,
    {
        reveal(Interrupt::spec_decode);
    }

    /// Decode IME, IE and IF from the raw register bytes.
    pub fn parse(raw: &RawMemory) -> (r: Interrupt)
        ensures
            r == Interrupt::spec_decode(*raw.io),
    {
        reveal(Interrupt::spec_decode);
        Interrupt {
            master_enabled: get_bit(raw.io[0x208], 0),
            enabled: InterruptBitmap::of_bytes(raw.io[0x200], raw.io[0x201]),
            triggered: InterruptBitmap::of_bytes(raw.io[0x202], raw.io[0x203]),
        }
    }

    /// The registers while their bytes are zero: the master switch is off,
    /// nothing is enabled and nothing is latched.
    pub fn new() -> (r: Interrupt)
        ensures
            r == Interrupt::spec_decode(crate::mem::spec_zero_bytes()),
            !r.master_enabled,
            forall|k: int| 0 <= k < 14 ==> !r.enabled.flags()[k] && !r.triggered.flags()[k],
    {
        proof {
            reveal(Interrupt::spec_decode);
            lemma_no_bits();
        }
        Interrupt::parse(&RawMemory::new())
    }

    /// An interrupt is pending when the master switch is on and some source
    /// is both enabled and latched.
    pub open spec fn spec_pending_interrupts(&self) -> bool {
        self.master_enabled && exists|k: int|
            0 <= k < 14 && #[trigger] self.enabled.flags()[k] && self.triggered.flags()[k]
    }

    /// Return true if there is any pending interrupt
    #[verifier::when_used_as_spec(spec_pending_interrupts)]
    pub fn pending_interrupts(&self) -> (r: bool)
        ensures
            r == self.spec_pending_interrupts(),
    {
        if !self.master_enabled {
            return false;
        }
        let enabled = self.enabled.as_array();
        let triggered = self.triggered.as_array();
        let mut found = false;
        let mut i: usize = 0;
        while i < 14
            invariant
                i <= 14,
                enabled@ == self.enabled.flags(),
                triggered@ == self.triggered.flags(),
                found == exists|k: int|
                    0 <= k < i && #[trigger] self.enabled.flags()[k] && self.triggered.flags()[k],
            decreases 14 - i,
        {
            if enabled[i] && triggered[i] {
                found = true;
            }
            i += 1;
        }
        found
    }
}

/// The number of cycles of a non sequential cartridge read that a waitstate
/// field selects.
pub open spec fn spec_rom_n_cycle(field: u8) -> u8 {
    if field == 0 {
        4
    } else if field == 1 {
        3
    } else if field == 2 {
        2
    } else {
        8
    }
}

#[verifier::when_used_as_spec(spec_rom_n_cycle)]
pub fn rom_n_cycle(field: u8) -> (r: u8)
    ensures
        r == spec_rom_n_cycle(field),
{
    if field == 0 {
        4
    } else if field == 1 {
        3
    } else if field == 2 {
        2
    } else {
        8
    }
}

impl Memory {
    /// The memory after a byte was written to an interrupt or waitstate
    /// register: the parsed registers and the cartridge timings are what
    /// the raw register bytes now hold.
    pub open spec fn spec_update_int_byte(self, addr: u32, val: u8) -> Memory {
        Memory {
            int: Interrupt::spec_decode(*self.raw.io),
            rom_n_cycle: spec_rom_n_cycle((self.raw.io[0x204] >> 2) & 0b11),
            rom_s_cycle_fast: (self.raw.io[0x204] >> 4) & 1 == 1,
            ..self
        }
    }

    pub fn update_int_byte(&mut self, addr: u32, val: u8)
        ensures
            *final(self) == old(self).spec_update_int_byte(addr, val),
    {
        self.int = Interrupt::parse(&self.raw);
        let wait: u8 = self.raw.io[0x204];
        self.rom_n_cycle = rom_n_cycle((wait >> 2) & 0b11);
        self.rom_s_cycle_fast = (wait >> 4) & 1 == 1;
    }

    pub fn update_int_hw(&mut self, addr: u32, val: u32)
        ensures
            *final(self) == old(self).spec_update_int_byte(addr, (val % 0x100) as u8),
    {
        self.update_int_byte(addr, (val % 0x100) as u8);
        self.update_int_byte(addr.wrapping_add(1), (val / 0x100 % 0x100) as u8);
    }

    pub fn update_int_word(&mut self, addr: u32, val: u32)
        ensures
            *final(self) == old(self).spec_update_int_byte(addr, (val % 0x100) as u8),
    {
        self.update_int_hw(addr, val);
        self.update_int_hw(addr.wrapping_add(2), val / 0x1_0000);
    }
}

} // verus!
