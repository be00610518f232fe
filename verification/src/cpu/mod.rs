//! The processor: the banked register file, the status registers, mode
//! changes and exception entry.

pub mod arm;
pub mod clock;
pub mod pipeline;
pub mod status_reg;
pub mod thumb;
pub mod transfer;
pub mod wrapper;

pub use crate::cpu::transfer::{TransferParams, TransferSize};
pub use crate::cpu::wrapper::CPUWrapper;

use vstd::prelude::*;
use vstd::array::spec_array_update;
use crate::cpu::status_reg::{CPUMode, InstructionSet, PSR};
use crate::mem::Memory;

verus! {

/// The conditions under which the processor gives up.
#[derive(Copy, Clone, Debug, PartialEq, Eq, Structural)]
pub enum CpuError {
    /// the opcode falls outside the decode table, or combines fields in a
    /// way that names no instruction
    InvalidInstruction,
    /// the processor is in a mode that cannot do what the instruction asks:
    /// the mode field names no mode, or the mode lacks a saved status register
    InvalidMode,
    /// a register is used where the instruction does not allow it
    IllegalRegisterUse,
}

pub struct CPU {
    /// r0-r12 are general purpose registers,
    /// r13 is usually the stack pointer (to the top element of the stack, not
    /// the top element + 1), r14 is usually the link register,
    /// and r15 is the PC pointing to address + 8 of the current instruction
    pub r: [u32; 16],
    /// R8-R14 are banked in FIQ mode
    pub r_fiq: [u32; 7],
    /// R13-R14 are banked in IRQ mode
    pub r_irq: [u32; 2],
    /// R13-R14 are banked in UND mode
    pub r_und: [u32; 2],
    /// R13-R14 are banked in ABT mode
    pub r_abt: [u32; 2],
    /// R13-R14 are banked in SVC mode
    pub r_svc: [u32; 2],
    /// program state registers
    pub cpsr: PSR,
    /// banked SPSR registers
    pub spsr_svc: PSR,
    pub spsr_abt: PSR,
    pub spsr_und: PSR,
    pub spsr_irq: PSR,
    pub spsr_fiq: PSR,
    /// flush the pipeline before the start of the next cycle
    pub should_flush: bool,
    pub mem: Memory,
}

/// Where a register lives in a given mode.
#[derive(Copy, Clone, Debug, PartialEq, Eq, Structural)]
pub enum Bank {
    /// the cell shared by all modes that do not bank the register
    Common,
    Fiq,
    Irq,
    Und,
    Abt,
    Svc,
}

/// The bank that holds register `reg` in `mode`: R0-R7 and R15 are never
/// banked, R8-R12 only in FIQ mode, R13 and R14 in every mode but USR and
/// SYS, which share the common cells.
pub open spec fn spec_bank_of(mode: CPUMode, reg: usize) -> Bank {
    if reg <= 7 || reg == 15 {
        Bank::Common
    } else if mode == CPUMode::FIQ {
        Bank::Fiq
    } else if reg <= 12 {
        Bank::Common
    } else {
        match mode {
            CPUMode::IRQ => Bank::Irq,
            CPUMode::UND => Bank::Und,
            CPUMode::ABT => Bank::Abt,
            CPUMode::SVC => Bank::Svc,
            _ => Bank::Common,
        }
    }
}

#[verifier::when_used_as_spec(spec_bank_of)]
pub fn bank_of(mode: CPUMode, reg: usize) -> (r: Bank)
    ensures
        r == spec_bank_of(mode, reg),
{
    if reg <= 7 || reg == 15 {
        Bank::Common
    } else if mode == CPUMode::FIQ {
        Bank::Fiq
    } else if reg <= 12 {
        Bank::Common
    } else {
        match mode {
            CPUMode::IRQ => Bank::Irq,
            CPUMode::UND => Bank::Und,
            CPUMode::ABT => Bank::Abt,
            CPUMode::SVC => Bank::Svc,
            _ => Bank::Common,
        }
    }
}

pub enum InterruptType {
    Reset,
    Undefined,
    SWI,
    PrefetchAbort,
    DataAbort,
    IRQ,
    FIQ,
}

impl InterruptType {
    pub open spec fn spec_get_handler_addr(&self) -> u32 {
        match *self {
            InterruptType::Reset => 0x00,
            InterruptType::Undefined => 0x04,
            InterruptType::SWI => 0x08,
            InterruptType::PrefetchAbort => 0x0C,
            InterruptType::DataAbort => 0x10,
            InterruptType::IRQ => 0x18,
            InterruptType::FIQ => 0x1C,
        }
    }

    /// The address that the CPU jumps to for this specific interrupt type
    #[verifier::when_used_as_spec(spec_get_handler_addr)]
    pub fn get_handler_addr(&self) -> (r: u32)
        ensures
            r == self.spec_get_handler_addr(),
    {
        match *self {
            InterruptType::Reset => 0x00,
            InterruptType::Undefined => 0x04,
            InterruptType::SWI => 0x08,
            InterruptType::PrefetchAbort => 0x0C,
            InterruptType::DataAbort => 0x10,
            InterruptType::IRQ => 0x18,
            InterruptType::FIQ => 0x1C,
        }
    }

    pub open spec fn spec_get_cpu_mode(&self) -> CPUMode {
        match *self {
            InterruptType::Reset => CPUMode::SVC,
            InterruptType::Undefined => CPUMode::UND,
            InterruptType::SWI => CPUMode::SVC,
            InterruptType::PrefetchAbort => CPUMode::ABT,
            InterruptType::DataAbort => CPUMode::ABT,
            InterruptType::IRQ => CPUMode::IRQ,
            InterruptType::FIQ => CPUMode::FIQ,
        }
    }

    /// The mode that the CPU enters for this specific interrupt type
    #[verifier::when_used_as_spec(spec_get_cpu_mode)]
    pub fn get_cpu_mode(&self) -> (r: CPUMode)
        ensures
            r == self.spec_get_cpu_mode(),
            r != CPUMode::INVALID,
    {
        match *self {
            InterruptType::Reset => CPUMode::SVC,
            InterruptType::Undefined => CPUMode::UND,
            InterruptType::SWI => CPUMode::SVC,
            InterruptType::PrefetchAbort => CPUMode::ABT,
            InterruptType::DataAbort => CPUMode::ABT,
            InterruptType::IRQ => CPUMode::IRQ,
            InterruptType::FIQ => CPUMode::FIQ,
        }
    }
}

impl CPU {
    /// A processor that was just reset: registers zero, every status
    /// register in its reset state, memory blank.
    pub open spec fn is_reset(&self) -> bool {
        &&& forall|i: int| 0 <= i < 16 ==> self.r[i] == 0
        &&& forall|i: int| 0 <= i < 7 ==> self.r_fiq[i] == 0
        &&& forall|i: int|
            0 <= i < 2 ==> self.r_irq[i] == 0 && self.r_und[i] == 0 && self.r_abt[i] == 0
                && self.r_svc[i] == 0
        &&& self.cpsr == PSR::spec_new()
        &&& self.spsr_svc == PSR::spec_new()
        &&& self.spsr_abt == PSR::spec_new()
        &&& self.spsr_und == PSR::spec_new()
        &&& self.spsr_irq == PSR::spec_new()
        &&& self.spsr_fiq == PSR::spec_new()
        &&& !self.should_flush
        &&& self.mem.is_reset()
    }

    pub fn new() -> (r: CPU)
        ensures
            r.is_reset(),
            r.status_wf(),
            r.mem.registers_agree(),
    {
        CPU {
            r: [0;16],
            r_fiq: [0;7],
            r_irq: [0;2],
            r_und: [0;2],
            r_abt: [0;2],
            r_svc: [0;2],
            cpsr: PSR::new(),
            spsr_svc: PSR::new(),
            spsr_abt: PSR::new(),
            spsr_und: PSR::new(),
            spsr_irq: PSR::new(),
            spsr_fiq: PSR::new(),
            should_flush: false,
            mem: Memory::new(),
        }
    }

    /// The value of register `reg` as the current mode sees it.
    #[verifier::opaque]
    pub open spec fn spec_get_reg(&self, reg: usize) -> u32 {
        match spec_bank_of(self.cpsr.mode, reg) {
            Bank::Common => self.r[reg as int],
            Bank::Fiq => self.r_fiq[reg - 8],
            Bank::Irq => self.r_irq[reg - 13],
            Bank::Und => self.r_und[reg - 13],
            Bank::Abt => self.r_abt[reg - 13],
            Bank::Svc => self.r_svc[reg - 13],
        }
    }

    #[verifier::when_used_as_spec(spec_get_reg)]
    pub fn get_reg(&self, reg: usize) -> (r: u32)
        requires
            reg < 16,
            self.cpsr.mode != CPUMode::INVALID,
        ensures
            r == self.spec_get_reg(reg),
    {
        reveal(CPU::spec_get_reg);
        match bank_of(self.cpsr.mode, reg) {
            Bank::Common => self.r[reg],
            Bank::Fiq => self.r_fiq[reg - 8],
            Bank::Irq => self.r_irq[reg - 13],
            Bank::Und => self.r_und[reg - 13],
            Bank::Abt => self.r_abt[reg - 13],
            Bank::Svc => self.r_svc[reg - 13],
        }
    }

    /// The processor after `val` is written to register `reg` as the current
    /// mode sees it. Nothing is masked or aligned, for R15 neither.
    #[verifier::opaque]
    pub open spec fn spec_set_reg(self, reg: usize, val: u32) -> CPU {
        match spec_bank_of(self.cpsr.mode, reg) {
            Bank::Common => CPU { r: spec_array_update(self.r, reg as int, val), ..self },
            Bank::Fiq => CPU { r_fiq: spec_array_update(self.r_fiq, reg - 8, val), ..self },
            Bank::Irq => CPU { r_irq: spec_array_update(self.r_irq, reg - 13, val), ..self },
            Bank::Und => CPU { r_und: spec_array_update(self.r_und, reg - 13, val), ..self },
            Bank::Abt => CPU { r_abt: spec_array_update(self.r_abt, reg - 13, val), ..self },
            Bank::Svc => CPU { r_svc: spec_array_update(self.r_svc, reg - 13, val), ..self },
        }
    }

    pub fn set_reg(&mut self, reg: usize, val: u32)
        requires
            reg < 16,
            old(self).cpsr.mode != CPUMode::INVALID,
        ensures
            *final(self) == old(self).spec_set_reg(reg, val),
            final(self).spec_get_reg(reg) == val,
            forall|other: usize|
                other < 16 && other != reg ==> #[trigger] final(self).spec_get_reg(other) == old(
                    self,
                ).spec_get_reg(other),
            final(self).cpsr == old(self).cpsr,
            final(self).mem == old(self).mem,
            final(self).should_flush == old(self).should_flush,
            old(self).mem.registers_agree() ==> final(self).mem.registers_agree(),
            old(self).status_wf() ==> final(self).status_wf(),
    {
        reveal(CPU::spec_set_reg);
        reveal(CPU::spec_get_reg);
        match bank_of(self.cpsr.mode, reg) {
            Bank::Common => {
                self.r[reg] = val;
            },
            Bank::Fiq => {
                self.r_fiq[reg - 8] = val;
            },
            Bank::Irq => {
                self.r_irq[reg - 13] = val;
            },
            Bank::Und => {
                self.r_und[reg - 13] = val;
            },
            Bank::Abt => {
                self.r_abt[reg - 13] = val;
            },
            Bank::Svc => {
                self.r_svc[reg - 13] = val;
            },
        }
    }

    /// A register reads back what was last written to it in the same mode,
    /// and a write to one register is seen in no other register, in the
    /// status registers or in memory.
    pub proof fn law_register_reads_back(self, reg: usize, val: u32, other: usize)
        requires
            reg < 16,
            other < 16,
        ensures
            self.spec_set_reg(reg, val).spec_get_reg(reg) == val,
            other != reg ==> self.spec_set_reg(reg, val).spec_get_reg(other) == self.spec_get_reg(
                other,
            ),
            self.spec_set_reg(reg, val).cpsr == self.cpsr,
            self.spec_set_reg(reg, val).mem == self.mem,
            self.spec_set_reg(reg, val).should_flush == self.should_flush,
    {
        reveal(CPU::spec_get_reg);
        reveal(CPU::spec_set_reg);
    }

    /// Every status register of the processor is well formed: none holds,
    /// beside a mode, bits of a pattern that names no mode.
    pub open spec fn status_wf(self) -> bool {
        &&& self.cpsr.wf()
        &&& self.spsr_fiq.wf()
        &&& self.spsr_irq.wf()
        &&& self.spsr_svc.wf()
        &&& self.spsr_abt.wf()
        &&& self.spsr_und.wf()
    }

    /// The processor with the mode field of CPSR replaced.
    pub open spec fn with_mode(self, mode: CPUMode) -> CPU {
        CPU { cpsr: self.cpsr.spec_with_mode(mode), ..self }
    }

    /// What R13 and R14 hold in one mode is neither seen nor touched from
    /// another: a value written to a banked register in `home` mode is not
    /// what a different `away` mode with its own bank reads there, survives
    /// whatever `away` writes to its register of that number, and is read
    /// again on return to `home`.
    pub proof fn law_banked_registers_are_isolated(
        self,
        home: CPUMode,
        away: CPUMode,
        reg: usize,
        val: u32,
        other: u32,
    )
        requires
            reg == 13 || reg == 14,
            spec_bank_of(home, reg) != spec_bank_of(away, reg),
        ensures
            ({
                let written = self.with_mode(home).spec_set_reg(reg, val);
                let visited = written.with_mode(away);
                let returned = visited.spec_set_reg(reg, other).with_mode(home);
                &&& visited.spec_get_reg(reg) == self.with_mode(away).spec_get_reg(reg)
                &&& returned.spec_get_reg(reg) == val
            }),
    {
        reveal(CPU::spec_get_reg);
        reveal(CPU::spec_set_reg);
    }

    pub open spec fn spec_instruction_size(&self) -> u32 {
        if self.cpsr.isa == InstructionSet::THUMB {
            2
        } else {
            4
        }
    }

    /// Return size of the current instruction set in bytes
    #[verifier::when_used_as_spec(spec_instruction_size)]
    pub fn instruction_size(&self) -> (r: u32)
        ensures
            r == self.spec_instruction_size(),
    {
        match self.cpsr.isa {
            InstructionSet::THUMB => 2,
            InstructionSet::ARM => 4,
        }
    }

    /// The processor with the program counter moved on by one instruction.
    #[verifier::opaque]
    pub open spec fn spec_incr_pc(self) -> CPU {
        CPU {
            r: spec_array_update(
                self.r,
                15,
                self.r[15].wrapping_add(self.spec_instruction_size()),
            ),
            ..self
        }
    }

    pub fn incr_pc(&mut self)
        ensures
            *final(self) == old(self).spec_incr_pc(),
            old(self).mem.registers_agree() ==> final(self).mem.registers_agree(),
            old(self).status_wf() ==> final(self).status_wf(),
    {
        reveal(CPU::spec_incr_pc);
        self.r[15] = self.r[15].wrapping_add(self.instruction_size());
    }

    /// The processor after a jump relative to the program counter: the
    /// counter moves by `offset` modulo 2^32 and the pipeline is to be flushed.
    #[verifier::opaque]
    pub open spec fn spec_modify_pc(self, offset: i64) -> CPU {
        CPU {
            r: spec_array_update(
                self.r,
                15,
                crate::util::spec_offset_addr(self.r[15], offset as int),
            ),
            should_flush: true,
            ..self
        }
    }

    /// Add a signed offset to the PC
    pub fn modify_pc(&mut self, offset: i64)
        ensures
            *final(self) == old(self).spec_modify_pc(offset),
            final(self).cpsr == old(self).cpsr,
            final(self).mem == old(self).mem,
            final(self).r[15] == crate::util::spec_offset_addr(old(self).r[15], offset as int),
            old(self).mem.registers_agree() ==> final(self).mem.registers_agree(),
            old(self).status_wf() ==> final(self).status_wf(),
    {
        reveal(CPU::spec_modify_pc);
        self.r[15] = crate::util::offset_addr(self.r[15], offset);
        self.should_flush = true;
    }

    /// The saved status register of the current mode. System mode has none
    /// and sees the current status register in its place.
    pub open spec fn spec_get_spsr(&self) -> PSR {
        match self.cpsr.mode {
            CPUMode::FIQ => self.spsr_fiq,
            CPUMode::IRQ => self.spsr_irq,
            CPUMode::SVC => self.spsr_svc,
            CPUMode::ABT => self.spsr_abt,
            CPUMode::UND => self.spsr_und,
            _ => self.cpsr,
        }
    }

    /// Return the SPSR for the current mode
    #[verifier::when_used_as_spec(spec_get_spsr)]
    pub fn get_spsr(&self) -> (r: PSR)
        requires
            self.cpsr.mode != CPUMode::USR,
            self.cpsr.mode != CPUMode::INVALID,
        ensures
            r == self.spec_get_spsr(),
    {
        match self.cpsr.mode {
            CPUMode::FIQ => self.spsr_fiq,
            CPUMode::IRQ => self.spsr_irq,
            CPUMode::SVC => self.spsr_svc,
            CPUMode::ABT => self.spsr_abt,
            CPUMode::UND => self.spsr_und,
            _ => self.cpsr,
        }
    }

    /// The processor after `val` is written to the saved status register of
    /// the current mode. In system mode nothing changes.
    #[verifier::opaque]
    pub open spec fn spec_set_spsr(self, val: u32, flags_only: bool) -> CPU {
        match self.cpsr.mode {
            CPUMode::FIQ => CPU { spsr_fiq: self.spsr_fiq.spec_from_u32(val, flags_only), ..self },
            CPUMode::IRQ => CPU { spsr_irq: self.spsr_irq.spec_from_u32(val, flags_only), ..self },
            CPUMode::SVC => CPU { spsr_svc: self.spsr_svc.spec_from_u32(val, flags_only), ..self },
            CPUMode::ABT => CPU { spsr_abt: self.spsr_abt.spec_from_u32(val, flags_only), ..self },
            CPUMode::UND => CPU { spsr_und: self.spsr_und.spec_from_u32(val, flags_only), ..self },
            _ => self,
        }
    }

    /// Set the SPSR for the current mode
    pub fn set_spsr(&mut self, val: u32, flags_only: bool)
        requires
            old(self).cpsr.mode != CPUMode::USR,
            old(self).cpsr.mode != CPUMode::INVALID,
        ensures
            *final(self) == old(self).spec_set_spsr(val, flags_only),
            old(self).mem.registers_agree() ==> final(self).mem.registers_agree(),
            old(self).status_wf() ==> final(self).status_wf(),
    {
        reveal(CPU::spec_set_spsr);
        match self.cpsr.mode {
            CPUMode::FIQ => self.spsr_fiq.from_u32(val, flags_only),
            CPUMode::IRQ => self.spsr_irq.from_u32(val, flags_only),
            CPUMode::SVC => self.spsr_svc.from_u32(val, flags_only),
            CPUMode::ABT => self.spsr_abt.from_u32(val, flags_only),
            CPUMode::UND => self.spsr_und.from_u32(val, flags_only),
            _ => {},
        }
    }

    /// The processor after `val` is written to the current status register.
    #[verifier::opaque]
    pub open spec fn spec_set_cpsr(self, val: u32, flags_only: bool) -> CPU {
        CPU { cpsr: self.cpsr.spec_from_u32(val, flags_only), ..self }
    }

    /// Set the CPSR
    pub fn set_cpsr(&mut self, val: u32, flags_only: bool)
        ensures
            *final(self) == old(self).spec_set_cpsr(val, flags_only),
            old(self).mem.registers_agree() ==> final(self).mem.registers_agree(),
            old(self).status_wf() ==> final(self).status_wf(),
    {
        reveal(CPU::spec_set_cpsr);
        self.cpsr.from_u32(val, flags_only);
    }

    /// The processor after the saved status register of the current mode is
    /// copied over the current one.
    #[verifier::opaque]
    pub open spec fn spec_restore_cpsr(self) -> CPU {
        CPU { cpsr: self.spec_get_spsr(), ..self }
    }

    /// restore CPSR to the SPSR for the current mode
    pub fn restore_cpsr(&mut self)
        requires
            old(self).cpsr.mode != CPUMode::USR,
            old(self).cpsr.mode != CPUMode::INVALID,
        ensures
            *final(self) == old(self).spec_restore_cpsr(),
            final(self).r == old(self).r,
            final(self).mem == old(self).mem,
            final(self).should_flush == old(self).should_flush,
            old(self).mem.registers_agree() ==> final(self).mem.registers_agree(),
            old(self).status_wf() ==> final(self).status_wf(),
    {
        reveal(CPU::spec_restore_cpsr);
        self.cpsr = self.get_spsr();
    }

    /// The processor after a change of mode: the current status register is
    /// saved in the saved status register of the new mode, where it has
    /// one, and the mode field names the new mode, with nothing left in
    /// CPSR of a bit pattern that was written there before.
    #[verifier::opaque]
    pub open spec fn spec_change_mode(self, new_mode: CPUMode) -> CPU {
        CPU {
            spsr_fiq: if new_mode == CPUMode::FIQ {
                self.cpsr
            } else {
                self.spsr_fiq
            },
            spsr_irq: if new_mode == CPUMode::IRQ {
                self.cpsr
            } else {
                self.spsr_irq
            },
            spsr_svc: if new_mode == CPUMode::SVC {
                self.cpsr
            } else {
                self.spsr_svc
            },
            spsr_abt: if new_mode == CPUMode::ABT {
                self.cpsr
            } else {
                self.spsr_abt
            },
            spsr_und: if new_mode == CPUMode::UND {
                self.cpsr
            } else {
                self.spsr_und
            },
            cpsr: self.cpsr.spec_with_mode(new_mode),
            ..self
        }
    }

    /// Change CPU modes, saving the CPSR in the process
    pub fn change_mode(&mut self, new_mode: CPUMode)
        requires
            new_mode != CPUMode::INVALID,
        ensures
            *final(self) == old(self).spec_change_mode(new_mode),
            final(self).cpsr.mode == new_mode,
            final(self).cpsr.wf(),
            old(self).mem.registers_agree() ==> final(self).mem.registers_agree(),
            old(self).status_wf() ==> final(self).status_wf(),
    {
        reveal(CPU::spec_change_mode);
        let saved = self.cpsr;
        self.spsr_fiq = if new_mode == CPUMode::FIQ {
            saved
        } else {
            self.spsr_fiq
        };
        self.spsr_irq = if new_mode == CPUMode::IRQ {
            saved
        } else {
            self.spsr_irq
        };
        self.spsr_svc = if new_mode == CPUMode::SVC {
            saved
        } else {
            self.spsr_svc
        };
        self.spsr_abt = if new_mode == CPUMode::ABT {
            saved
        } else {
            self.spsr_abt
        };
        self.spsr_und = if new_mode == CPUMode::UND {
            saved
        } else {
            self.spsr_und
        };
        self.cpsr = saved.with_mode(new_mode);
    }

    /// The processor with the instruction set bit of CPSR replaced.
    #[verifier::opaque]
    pub open spec fn spec_set_isa(self, thumb: bool) -> CPU {
        CPU {
            cpsr: PSR {
                isa: if thumb {
                    InstructionSet::THUMB
                } else {
                    InstructionSet::ARM
                },
                ..self.cpsr
            },
            ..self
        }
    }

    pub fn set_isa(&mut self, thumb: bool)
        ensures
            *final(self) == old(self).spec_set_isa(thumb),
            final(self).cpsr.mode == old(self).cpsr.mode,
            final(self).mem == old(self).mem,
            final(self).r == old(self).r,
            old(self).mem.registers_agree() ==> final(self).mem.registers_agree(),
            old(self).status_wf() ==> final(self).status_wf(),
    {
        reveal(CPU::spec_set_isa);
        self.cpsr.isa = if thumb {
            InstructionSet::THUMB
        } else {
            InstructionSet::ARM
        };
    }

    /// The processor with the interrupt mask bit of CPSR replaced.
    #[verifier::opaque]
    pub open spec fn spec_set_irq_mask(self, irq: bool) -> CPU {
        CPU { cpsr: PSR { irq, ..self.cpsr }, ..self }
    }

    pub fn set_irq_mask(&mut self, irq: bool)
        ensures
            *final(self) == old(self).spec_set_irq_mask(irq),
            final(self).cpsr.mode == old(self).cpsr.mode,
            final(self).mem == old(self).mem,
            final(self).r == old(self).r,
            old(self).mem.registers_agree() ==> final(self).mem.registers_agree(),
            old(self).status_wf() ==> final(self).status_wf(),
    {
        reveal(CPU::spec_set_irq_mask);
        self.cpsr.irq = irq;
    }

    /// The processor with a pipeline flush asked for.
    #[verifier::opaque]
    pub open spec fn spec_request_flush(self) -> CPU {
        CPU { should_flush: true, ..self }
    }

    pub fn request_flush(&mut self)
        ensures
            *final(self) == old(self).spec_request_flush(),
            final(self).cpsr == old(self).cpsr,
            final(self).mem == old(self).mem,
            final(self).r == old(self).r,
            final(self).should_flush,
            old(self).mem.registers_agree() ==> final(self).mem.registers_agree(),
            old(self).status_wf() ==> final(self).status_wf(),
    {
        reveal(CPU::spec_request_flush);
        self.should_flush = true;
    }

    /// The processor with the mode field of CPSR replaced and nothing
    /// saved. Nothing is left in CPSR of a bit pattern that was written to
    /// the mode field before.
    #[verifier::opaque]
    pub open spec fn spec_set_mode(self, mode: CPUMode) -> CPU {
        CPU { cpsr: self.cpsr.spec_with_mode(mode), ..self }
    }

    pub fn set_mode(&mut self, mode: CPUMode)
        ensures
            *final(self) == old(self).spec_set_mode(mode),
            final(self).cpsr.mode == mode,
            final(self).cpsr.isa == old(self).cpsr.isa,
            final(self).cpsr.wf(),
            final(self).mem == old(self).mem,
            old(self).mem.registers_agree() ==> final(self).mem.registers_agree(),
            old(self).status_wf() ==> final(self).status_wf(),
    {
        reveal(CPU::spec_set_mode);
        self.cpsr = self.cpsr.with_mode(mode);
    }

    /// The processor with the condition flags replaced: Z, N and C always,
    /// V only where a value is given for it.
    #[verifier::opaque]
    pub open spec fn spec_set_flags(
        self,
        zero: bool,
        neg: bool,
        carry: bool,
        overflow: Option<bool>,
    ) -> CPU {
        CPU {
            cpsr: PSR {
                zero,
                neg,
                carry,
                overflow: match overflow {
                    Some(v) => v,
                    None => self.cpsr.overflow,
                },
                ..self.cpsr
            },
            ..self
        }
    }

    pub fn set_flags(&mut self, zero: bool, neg: bool, carry: bool, overflow: Option<bool>)
        ensures
            *final(self) == old(self).spec_set_flags(zero, neg, carry, overflow),
            final(self).cpsr.mode == old(self).cpsr.mode,
            final(self).cpsr.isa == old(self).cpsr.isa,
            final(self).r == old(self).r,
            final(self).mem == old(self).mem,
            old(self).mem.registers_agree() ==> final(self).mem.registers_agree(),
            old(self).status_wf() ==> final(self).status_wf(),
    {
        reveal(CPU::spec_set_flags);
        self.cpsr.zero = zero;
        self.cpsr.neg = neg;
        self.cpsr.carry = carry;
        match overflow {
            Some(v) => {
                self.cpsr.overflow = v;
            },
            None => {},
        }
    }

    /// The processor with the N and Z flags replaced.
    #[verifier::opaque]
    pub open spec fn spec_set_nz(self, neg: bool, zero: bool) -> CPU {
        CPU { cpsr: PSR { zero, neg, ..self.cpsr }, ..self }
    }

    pub fn set_nz(&mut self, neg: bool, zero: bool)
        ensures
            *final(self) == old(self).spec_set_nz(neg, zero),
            final(self).cpsr.mode == old(self).cpsr.mode,
            final(self).r == old(self).r,
            final(self).mem == old(self).mem,
            old(self).mem.registers_agree() ==> final(self).mem.registers_agree(),
            old(self).status_wf() ==> final(self).status_wf(),
    {
        reveal(CPU::spec_set_nz);
        self.cpsr.zero = zero;
        self.cpsr.neg = neg;
    }

    /// The processor after a byte store to memory.
    #[verifier::opaque]
    pub open spec fn spec_store_byte(self, addr: u32, val: u8) -> CPU {
        CPU { mem: self.mem.spec_set_byte(addr, val), ..self }
    }

    pub fn store_byte(&mut self, addr: u32, val: u8)
        ensures
            *final(self) == old(self).spec_store_byte(addr, val),
            final(self).cpsr == old(self).cpsr,
            old(self).mem.registers_agree() ==> final(self).mem.registers_agree(),
            old(self).status_wf() ==> final(self).status_wf(),
    {
        reveal(CPU::spec_store_byte);
        self.mem.set_byte(addr, val);
    }

    /// The processor after a store of the low halfword of `val` to memory.
    #[verifier::opaque]
    pub open spec fn spec_store_halfword(self, addr: u32, val: u32) -> CPU {
        CPU { mem: self.mem.spec_set_halfword(addr, val), ..self }
    }

    pub fn store_halfword(&mut self, addr: u32, val: u32)
        ensures
            *final(self) == old(self).spec_store_halfword(addr, val),
            final(self).cpsr == old(self).cpsr,
            old(self).mem.registers_agree() ==> final(self).mem.registers_agree(),
            old(self).status_wf() ==> final(self).status_wf(),
    {
        reveal(CPU::spec_store_halfword);
        self.mem.set_halfword(addr, val);
    }

    /// The processor after a word store to memory.
    #[verifier::opaque]
    pub open spec fn spec_store_word(self, addr: u32, val: u32) -> CPU {
        CPU { mem: self.mem.spec_set_word(addr, val), ..self }
    }

    pub fn store_word(&mut self, addr: u32, val: u32)
        ensures
            *final(self) == old(self).spec_store_word(addr, val),
            final(self).cpsr == old(self).cpsr,
            old(self).mem.registers_agree() ==> final(self).mem.registers_agree(),
            old(self).status_wf() ==> final(self).status_wf(),
    {
        reveal(CPU::spec_store_word);
        self.mem.set_word(addr, val);
    }

    /// The processor after it took an interrupt or a software interrupt:
    /// it is in the mode of the exception with the old status register
    /// saved, bit 7 of CPSR (I, interrupts disabled) is cleared for an
    /// interrupt and set for a software interrupt, the link register of the
    /// new mode holds
    /// the program counter less one instruction, and execution continues
    /// in ARM state at the vector, with the pipeline to be flushed.
    #[verifier::opaque]
    pub open spec fn spec_handle_interrupt(self, type_: InterruptType) -> CPU {
        let entered = self.spec_change_mode(type_.spec_get_cpu_mode()).spec_set_irq_mask(
            type_ is SWI,
        );
        entered.spec_set_reg(
            14,
            entered.spec_get_reg(15).wrapping_sub(entered.spec_instruction_size()),
        ).spec_set_isa(false).spec_set_reg(15, type_.spec_get_handler_addr()).spec_request_flush()
    }

    /// Enter the handler of an interrupt or of a software interrupt.
    pub fn handle_interrupt(&mut self, type_: InterruptType)
        requires
            type_ is IRQ || type_ is SWI,
        ensures
            *final(self) == old(self).spec_handle_interrupt(type_),
            final(self).cpsr.mode != CPUMode::INVALID,
            final(self).should_flush,
            old(self).mem.registers_agree() ==> final(self).mem.registers_agree(),
            old(self).status_wf() ==> final(self).status_wf(),
    {
        reveal(CPU::spec_handle_interrupt);
        self.change_mode(type_.get_cpu_mode());
        self.set_irq_mask(
            match type_ {
                InterruptType::SWI => true,
                _ => false,
            },
        );
        let next_ins_addr = self.get_reg(15).wrapping_sub(self.instruction_size());
        self.set_reg(14, next_ins_addr);
        self.set_isa(false);
        self.set_reg(15, type_.get_handler_addr());
        self.request_flush();
    }

    /// The processor after the interrupt check that ends every step: an
    /// interrupt is taken when one is pending and the status register lets
    /// interrupts through, that is, when bit 7 of CPSR (I, interrupts
    /// disabled) is clear.
    pub open spec fn spec_check_interrupts(self) -> CPU {
        if !self.cpsr.irq && self.mem.int.spec_pending_interrupts() {
            self.spec_handle_interrupt(InterruptType::IRQ)
        } else {
            self
        }
    }

    pub fn check_interrupts(&mut self)
        ensures
            *final(self) == old(self).spec_check_interrupts(),
            old(self).mem.registers_agree() ==> final(self).mem.registers_agree(),
            old(self).status_wf() ==> final(self).status_wf(),
    {
        if !self.cpsr.irq && self.mem.int.pending_interrupts() {
            self.handle_interrupt(InterruptType::IRQ);
        }
    }
}

impl CPU {
    /// What the small steps of the processor do to the flush request: only
    /// the request itself and a jump set it, nothing takes it back.
    pub proof fn lemma_flush_request(self)
        ensures
            self.spec_request_flush().should_flush,
            forall|offset: i64| (#[trigger] self.spec_modify_pc(offset)).should_flush,
            forall|reg: usize, val: u32|
                (#[trigger] self.spec_set_reg(reg, val)).should_flush == self.should_flush,
            forall|thumb: bool| (#[trigger] self.spec_set_isa(thumb)).should_flush == self.should_flush,
            forall|mode: CPUMode|
                (#[trigger] self.spec_set_mode(mode)).should_flush == self.should_flush,
            forall|addr: u32, val: u32|
                (#[trigger] self.spec_store_word(addr, val)).should_flush == self.should_flush,
            self.spec_restore_cpsr().should_flush == self.should_flush,
    {
        reveal(CPU::spec_request_flush);
        reveal(CPU::spec_modify_pc);
        reveal(CPU::spec_set_reg);
        reveal(CPU::spec_set_isa);
        reveal(CPU::spec_set_mode);
        reveal(CPU::spec_store_word);
        reveal(CPU::spec_restore_cpsr);
    }

    /// Bit 7 of CPSR (I) holds interrupts back: while it is set, the check
    /// at the end of a step takes no interrupt, whatever is pending; while
    /// it is clear, a pending interrupt is taken. The bit is set in a
    /// processor that was just reset and on entry of a software interrupt,
    /// and entry of an interrupt clears it, so that further interrupts stay
    /// possible.
    pub proof fn law_mask_holds_interrupts_back(self)
        ensures
            self.cpsr.irq ==> self.spec_check_interrupts() == self,
            !self.cpsr.irq && self.mem.int.spec_pending_interrupts()
                ==> self.spec_check_interrupts() == self.spec_handle_interrupt(InterruptType::IRQ),
            self.spec_handle_interrupt(InterruptType::SWI).cpsr.irq,
            !self.spec_handle_interrupt(InterruptType::IRQ).cpsr.irq,
            self.is_reset() ==> self.cpsr.irq && self.spec_check_interrupts() == self,
    {
        reveal(CPU::spec_handle_interrupt);
        reveal(CPU::spec_request_flush);
        reveal(CPU::spec_set_isa);
        reveal(CPU::spec_set_irq_mask);
        reveal(CPU::spec_change_mode);
        let irq = self.spec_change_mode(InterruptType::IRQ.spec_get_cpu_mode()).spec_set_irq_mask(
            false,
        );
        let swi = self.spec_change_mode(InterruptType::SWI.spec_get_cpu_mode()).spec_set_irq_mask(
            true,
        );
        irq.lemma_register_write_keeps_status(
            14,
            irq.spec_get_reg(15).wrapping_sub(irq.spec_instruction_size()),
        );
        swi.lemma_register_write_keeps_status(
            14,
            swi.spec_get_reg(15).wrapping_sub(swi.spec_instruction_size()),
        );
        irq.spec_set_reg(
            14,
            irq.spec_get_reg(15).wrapping_sub(irq.spec_instruction_size()),
        ).spec_set_isa(false).lemma_register_write_keeps_status(
            15,
            InterruptType::IRQ.spec_get_handler_addr(),
        );
        swi.spec_set_reg(
            14,
            swi.spec_get_reg(15).wrapping_sub(swi.spec_instruction_size()),
        ).spec_set_isa(false).lemma_register_write_keeps_status(
            15,
            InterruptType::SWI.spec_get_handler_addr(),
        );
    }

    /// A register write leaves the status register alone.
    pub proof fn lemma_register_write_keeps_status(self, reg: usize, val: u32)
        ensures
            self.spec_set_reg(reg, val).cpsr == self.cpsr,
    {
        reveal(CPU::spec_set_reg);
    }

    /// Taking an interrupt or a software interrupt asks for a pipeline flush.
    pub proof fn lemma_interrupt_flushes(self, type_: InterruptType)
        ensures
            self.spec_handle_interrupt(type_).should_flush,
    {
        reveal(CPU::spec_handle_interrupt);
        reveal(CPU::spec_request_flush);
    }
}

} // verus!
