//! The program status register and the processor modes.

use vstd::prelude::*;
use crate::util::{get_bit, spec_get_bit};

verus! {

/// The 7 modes of operation of the ARM7TDMI processor, and a marker for a
/// mode field that holds none of them.
#[derive(Copy, Clone, Debug, PartialEq, Eq, Structural)]
pub enum CPUMode {
    USR,
    /// fast interrupt mode supports a data transfer or channel process
    FIQ,
    /// interrupt mode is used for general purpose interrupt handling
    IRQ,
    /// supervisor mode is a protected mode for the OS
    SVC,
    /// abort mode is entered after a data or instruction prefetch abort
    ABT,
    /// undefined mode is entered when an undefined instruction is executed
    UND,
    /// system mode is a privileged user mode for the OS
    SYS,
    /// the mode field was written with a bit pattern that names no mode
    INVALID,
}

impl CPUMode {
    /// The mode that a five bit pattern names, if any.
    pub open spec fn spec_from_u32(n: u32) -> Option<CPUMode> {
        if n == 0b10000 {
            Some(CPUMode::USR)
        } else if n == 0b10001 {
            Some(CPUMode::FIQ)
        } else if n == 0b10010 {
            Some(CPUMode::IRQ)
        } else if n == 0b10011 {
            Some(CPUMode::SVC)
        } else if n == 0b10111 {
            Some(CPUMode::ABT)
        } else if n == 0b11011 {
            Some(CPUMode::UND)
        } else if n == 0b11111 {
            Some(CPUMode::SYS)
        } else {
            None
        }
    }

    #[verifier::when_used_as_spec(spec_from_u32)]
    pub fn from_u32(n: u32) -> (r: Option<CPUMode>)
        ensures
            r == CPUMode::spec_from_u32(n),
    {
        if n == 0b10000 {
            Some(CPUMode::USR)
        } else if n == 0b10001 {
            Some(CPUMode::FIQ)
        } else if n == 0b10010 {
            Some(CPUMode::IRQ)
        } else if n == 0b10011 {
            Some(CPUMode::SVC)
        } else if n == 0b10111 {
            Some(CPUMode::ABT)
        } else if n == 0b11011 {
            Some(CPUMode::UND)
        } else if n == 0b11111 {
            Some(CPUMode::SYS)
        } else {
            None
        }
    }

    /// The five bit pattern of a mode; 0 for the invalid marker.
    pub open spec fn spec_bits(self) -> u32 {
        match self {
            CPUMode::USR => 0b10000,
            CPUMode::FIQ => 0b10001,
            CPUMode::IRQ => 0b10010,
            CPUMode::SVC => 0b10011,
            CPUMode::ABT => 0b10111,
            CPUMode::UND => 0b11011,
            CPUMode::SYS => 0b11111,
            CPUMode::INVALID => 0,
        }
    }

    #[verifier::when_used_as_spec(spec_bits)]
    pub fn bits(self) -> (r: u32)
        ensures
            r == self.spec_bits(),
            r <= 0x1F,
    {
        match self {
            CPUMode::USR => 0b10000,
            CPUMode::FIQ => 0b10001,
            CPUMode::IRQ => 0b10010,
            CPUMode::SVC => 0b10011,
            CPUMode::ABT => 0b10111,
            CPUMode::UND => 0b11011,
            CPUMode::SYS => 0b11111,
            CPUMode::INVALID => 0,
        }
    }

    /// Whether the mode has a saved status register of its own.
    pub open spec fn has_spsr(self) -> bool {
        self == CPUMode::FIQ || self == CPUMode::IRQ || self == CPUMode::SVC || self
            == CPUMode::ABT || self == CPUMode::UND
    }
}

#[derive(Copy, Clone, Debug, PartialEq, Eq, Structural)]
pub enum InstructionSet {
    ARM,
    THUMB,
}

/// A program status register. On real hardware, this is a 32 bit register with
/// 16 defined bits and 16 reserved bits.
///
///  | 31 | 30 | 29 | 28 | ... | 7 | 6 | 5 | 4 ... 0
///  | N  | Z  | C  | V  | ... | I | F | T | processsor mode
///
/// where N, Z, C, V are condition flags:
/// flag | logical instruction     | arithmetic instruction
/// ------------------------------------------------------------------
///  N   | none                    | bit 31 of the result has been set
///  Z   | result is 0             | result is 0
///  C   | carry flag after shift  | result was > than 32 bits
///  V   | none                    | result was > 31 bits
///
/// I and F are the interrupt mask bits, T = 0 means the processor is in ARM
/// state, and in THUMB state otherwise. M[4..0] is the processor mode.
///
/// The defined bits are kept unpacked to avoid bit manipulation each time a
/// specific flag is wanted; the bits that have no field of their own are
/// kept as they were written, so that no bit of a status word is lost.
#[derive(Copy, Clone, Debug, PartialEq, Eq, Structural)]
pub struct PSR {
    pub neg: bool,
    pub zero: bool,
    pub carry: bool,
    pub overflow: bool,
    pub irq: bool,
    pub fiq: bool,
    pub isa: InstructionSet,
    pub mode: CPUMode,
    /// bits 27..8 as they were written, and in bits 4..0 the mode field
    /// where it names no mode
    pub reserved: u32,
}

/// The bits of a status word that no field of the unpacked register holds.
pub const PSR_RESERVED_BITS: u32 = 0x0FFF_FF00;

/// Packing the fields into a word and taking them out of the word again
/// gives the fields back.
pub proof fn lemma_pack_unpack(
    n: bool,
    z: bool,
    c: bool,
    v: bool,
    i: bool,
    f: bool,
    t: bool,
    m: u32,
    r: u32,
)
    by (bit_vector)
    requires
        m <= 0x1F,
        r & !0x0FFF_FF1Fu32 == 0,
        m == 0 || r & 0x1F == 0,
    ensures
        ({
            let w = (if n { 0x8000_0000u32 } else { 0 }) | (if z { 0x4000_0000u32 } else { 0 }) | (
            if c { 0x2000_0000u32 } else { 0 }) | (if v { 0x1000_0000u32 } else { 0 }) | (if i {
                0x80u32
            } else {
                0
            }) | (if f { 0x40u32 } else { 0 }) | (if t { 0x20u32 } else { 0 }) | m | r;
            &&& (((w >> 31u8) & 1) == 1) == n
            &&& (((w >> 30u8) & 1) == 1) == z
            &&& (((w >> 29u8) & 1) == 1) == c
            &&& (((w >> 28u8) & 1) == 1) == v
            &&& (((w >> 7u8) & 1) == 1) == i
            &&& (((w >> 6u8) & 1) == 1) == f
            &&& (((w >> 5u8) & 1) == 1) == t
            &&& (r & 0x1F == 0 ==> (w & 0b11111) == m)
            &&& (m == 0 ==> (w & 0b11111) == r & 0x1F)
            &&& (m == 0 ==> (w & 0x0FFF_FF1F) == r)
            &&& (r & 0x1F == 0 ==> (w & 0x0FFF_FF00) == r)
        }),
{
}

/// Taking the fields out of a word and packing them again gives the word back.
pub proof fn lemma_unpack_pack(w: u32)
    by (bit_vector)
    ensures
        (if ((w >> 31u8) & 1) == 1 { 0x8000_0000u32 } else { 0 }) | (if ((w >> 30u8) & 1) == 1 {
            0x4000_0000u32
        } else {
            0
        }) | (if ((w >> 29u8) & 1) == 1 { 0x2000_0000u32 } else { 0 }) | (if ((w >> 28u8) & 1)
            == 1 { 0x1000_0000u32 } else { 0 }) | (if ((w >> 7u8) & 1) == 1 {
            0x80u32
        } else {
            0
        }) | (if ((w >> 6u8) & 1) == 1 { 0x40u32 } else { 0 }) | (if ((w >> 5u8) & 1) == 1 {
            0x20u32
        } else {
            0
        }) | (w & 0b11111) | (w & 0x0FFF_FF00) == w,
        (if ((w >> 31u8) & 1) == 1 { 0x8000_0000u32 } else { 0 }) | (if ((w >> 30u8) & 1) == 1 {
            0x4000_0000u32
        } else {
            0
        }) | (if ((w >> 29u8) & 1) == 1 { 0x2000_0000u32 } else { 0 }) | (if ((w >> 28u8) & 1)
            == 1 { 0x1000_0000u32 } else { 0 }) | (if ((w >> 7u8) & 1) == 1 {
            0x80u32
        } else {
            0
        }) | (if ((w >> 6u8) & 1) == 1 { 0x40u32 } else { 0 }) | (if ((w >> 5u8) & 1) == 1 {
            0x20u32
        } else {
            0
        }) | 0u32 | (w & 0x0FFF_FF1F) == w,
        (w & 0x0FFF_FF00) & !0x0FFF_FF1Fu32 == 0,
        (w & 0x0FFF_FF1F) & !0x0FFF_FF1Fu32 == 0,
        (w & 0x0FFF_FF00) & 0x1F == 0,
        (w & 0x0FFF_FF1F) & 0x1F == w & 0x1F,
{
}

/// Bits that lie in the kept range above the mode field survive the mask
/// that drops the mode field.
pub proof fn lemma_kept_bits(w: u32)
    by (bit_vector)
    ensures
        w & !0x0FFF_FF1Fu32 == 0 && w & 0x1F == 0 ==> w & 0x0FFF_FF00 == w,
{
}

/// A write of the flag byte leaves the kept bits outside it as they were.
pub proof fn lemma_flag_byte_kept(r: u32, v: u32)
    by (bit_vector)
    ensures
        ((r & !0x0F00_0000u32) | (v & 0x0F00_0000)) & !0x0FFF_FF1Fu32 == r & !0x0FFF_FF1Fu32,
        ((r & !0x0F00_0000u32) | (v & 0x0F00_0000)) & 0x1F == r & 0x1F,
{
}

impl PSR {
    /// The bits that are kept without a field hold nothing outside bits
    /// 27..8 and 4..0, and bits 4..0 hold something only where the mode
    /// field names no mode, and then a pattern that names none.
    pub open spec fn wf(&self) -> bool {
        &&& self.reserved & !0x0FFF_FF1Fu32 == 0
        &&& self.mode != CPUMode::INVALID ==> self.reserved & 0x1F == 0
        &&& self.mode == CPUMode::INVALID ==> CPUMode::spec_from_u32(self.reserved & 0x1F) is None
    }

    /// The status register of a processor that was just reset: supervisor
    /// mode, ARM state, both interrupt mask bits set, flags clear.
    pub open spec fn spec_new() -> PSR {
        PSR {
            neg: false,
            zero: false,
            carry: false,
            overflow: false,
            irq: true,
            fiq: true,
            isa: InstructionSet::ARM,
            mode: CPUMode::SVC,
            reserved: 0,
        }
    }

    pub fn new() -> (r: PSR)
        ensures
            r == PSR::spec_new(),
            r.wf(),
    {
        assert(0u32 & !0x0FFF_FF1Fu32 == 0 && 0u32 & 0x1F == 0) by (bit_vector);
        PSR {
            neg: false,
            zero: false,
            carry: false,
            overflow: false,
            irq: true,
            fiq: true,
            isa: InstructionSet::ARM,
            mode: CPUMode::SVC,
            reserved: 0,
        }
    }

    /// This register with the mode field naming `mode`. Bits 4..0 of what
    /// is kept without a field are dropped with the old mode, so that the
    /// packed word holds the pattern of `mode` there and nothing else.
    pub open spec fn spec_with_mode(self, mode: CPUMode) -> PSR {
        PSR { mode, reserved: self.reserved & 0x0FFF_FF00, ..self }
    }

    #[verifier::when_used_as_spec(spec_with_mode)]
    pub fn with_mode(self, mode: CPUMode) -> (r: PSR)
        ensures
            r == self.spec_with_mode(mode),
            r.wf(),
    {
        proof {
            lemma_unpack_pack(self.reserved);
        }
        PSR {
            neg: self.neg,
            zero: self.zero,
            carry: self.carry,
            overflow: self.overflow,
            irq: self.irq,
            fiq: self.fiq,
            isa: self.isa,
            mode,
            reserved: self.reserved & 0x0FFF_FF00,
        }
    }

    /// Whatever a register held, once its mode is set it is well formed,
    /// and its packed word unpacks to it again, so the word names the mode
    /// that was set. A well formed register with a mode loses nothing by it.
    pub proof fn law_mode_write_is_clean(self, mode: CPUMode)
        ensures
            self.spec_with_mode(mode).wf(),
            PSR::spec_of_u32(self.spec_with_mode(mode).spec_to_u32()) == self.spec_with_mode(
                mode,
            ),
            self.wf() && self.mode != CPUMode::INVALID ==> self.spec_with_mode(mode).reserved
                == self.reserved,
    {
        lemma_unpack_pack(self.reserved);
        lemma_kept_bits(self.reserved);
        self.spec_with_mode(mode).law_round_trip();
    }

    /// The register packed into a word: flags in bits 31..28, I, F and T in
    /// bits 7..5, the mode in bits 4..0, and the bits without a field as
    /// they were written.
    pub open spec fn spec_to_u32(&self) -> u32 {
        (if self.neg { 0x8000_0000u32 } else { 0 }) | (if self.zero { 0x4000_0000u32 } else { 0 })
            | (if self.carry { 0x2000_0000u32 } else { 0 }) | (if self.overflow {
            0x1000_0000u32
        } else {
            0
        }) | (if self.irq { 0x80u32 } else { 0 }) | (if self.fiq { 0x40u32 } else { 0 }) | (
        if self.isa == InstructionSet::THUMB { 0x20u32 } else { 0 }) | self.mode.spec_bits()
            | self.reserved
    }

    #[verifier::when_used_as_spec(spec_to_u32)]
    pub fn to_u32(&self) -> (r: u32)
        ensures
            r == self.spec_to_u32(),
    {
        (if self.neg { 0x8000_0000u32 } else { 0 }) | (if self.zero { 0x4000_0000u32 } else { 0 })
            | (if self.carry { 0x2000_0000u32 } else { 0 }) | (if self.overflow {
            0x1000_0000u32
        } else {
            0
        }) | (if self.irq { 0x80u32 } else { 0 }) | (if self.fiq { 0x40u32 } else { 0 }) | (
        match self.isa {
            InstructionSet::THUMB => 0x20u32,
            InstructionSet::ARM => 0,
        }) | self.mode.bits() | self.reserved
    }

    /// The register that a status word unpacks to. A mode field that names
    /// no mode unpacks to the invalid marker, and is kept with the bits
    /// that have no field.
    pub open spec fn spec_of_u32(val: u32) -> PSR {
        PSR {
            neg: spec_get_bit(val, 31),
            zero: spec_get_bit(val, 30),
            carry: spec_get_bit(val, 29),
            overflow: spec_get_bit(val, 28),
            irq: spec_get_bit(val, 7),
            fiq: spec_get_bit(val, 6),
            isa: if spec_get_bit(val, 5) {
                InstructionSet::THUMB
            } else {
                InstructionSet::ARM
            },
            mode: match CPUMode::spec_from_u32(val & 0b11111) {
                Some(mode) => mode,
                None => CPUMode::INVALID,
            },
            reserved: if CPUMode::spec_from_u32(val & 0b11111) is Some {
                val & 0x0FFF_FF00
            } else {
                val & 0x0FFF_FF1F
            },
        }
    }

    /// This register after `val` is written to it. A write of the flags
    /// only takes bits 31..24 of `val`: the four condition flags and the
    /// four bits below them; a full write replaces everything.
    pub open spec fn spec_from_u32(self, val: u32, flags_only: bool) -> PSR {
        if flags_only {
            PSR {
                neg: spec_get_bit(val, 31),
                zero: spec_get_bit(val, 30),
                carry: spec_get_bit(val, 29),
                overflow: spec_get_bit(val, 28),
                reserved: (self.reserved & !0x0F00_0000u32) | (val & 0x0F00_0000),
                ..self
            }
        } else {
            PSR::spec_of_u32(val)
        }
    }

    pub fn from_u32(&mut self, val: u32, flags_only: bool)
        ensures
            *final(self) == old(self).spec_from_u32(val, flags_only),
            !flags_only || old(self).wf() ==> final(self).wf(),
    {
        proof {
            lemma_unpack_pack(val);
            lemma_flag_byte_kept(self.reserved, val);
        }
        self.neg = get_bit(val, 31);
        self.zero = get_bit(val, 30);
        self.carry = get_bit(val, 29);
        self.overflow = get_bit(val, 28);
        if flags_only {
            self.reserved = (self.reserved & !0x0F00_0000u32) | (val & 0x0F00_0000);
        } else {
            self.irq = get_bit(val, 7);
            self.fiq = get_bit(val, 6);
            self.isa = if get_bit(val, 5) {
                InstructionSet::THUMB
            } else {
                InstructionSet::ARM
            };
            match CPUMode::from_u32(val & 0b11111) {
                Some(mode) => {
                    self.mode = mode;
                    self.reserved = val & 0x0FFF_FF00;
                },
                None => {
                    self.mode = CPUMode::INVALID;
                    self.reserved = val & 0x0FFF_FF1F;
                },
            }
        }
    }

    /// Every status register survives being packed into a word and
    /// unpacked again.
    pub proof fn law_round_trip(self)
        requires
            self.wf(),
        ensures
            PSR::spec_of_u32(self.spec_to_u32()) == self,
            self.spec_from_u32(self.spec_to_u32(), false) == self,
    {
        lemma_pack_unpack(
            self.neg,
            self.zero,
            self.carry,
            self.overflow,
            self.irq,
            self.fiq,
            self.isa == InstructionSet::THUMB,
            self.mode.spec_bits(),
            self.reserved,
        );
    }

    /// Every status word survives, bit for bit, being unpacked and packed
    /// again, and what it unpacks to is well formed.
    pub proof fn law_word_round_trip(val: u32)
        ensures
            PSR::spec_of_u32(val).spec_to_u32() == val,
            PSR::spec_of_u32(val).wf(),
    {
        lemma_unpack_pack(val);
    }
}

} // verus!
