//! Single register loads and stores: address computation, the transfer
//! itself and the write back of the base register.

use vstd::prelude::*;
use crate::cpu::arm::data::{apply_shift, shift_error, spec_apply_shift, spec_shift_error};
use crate::cpu::arm::RegOrImm;
use crate::cpu::status_reg::{CPUMode, InstructionSet};
use crate::cpu::{CpuError, CPU};

verus! {

#[derive(Clone, Copy, Debug, PartialEq, Eq, Structural)]
pub enum TransferSize {
    Byte,
    Halfword,
    Word,
}

pub struct TransferParams<'a> {
    pub pre_index: bool,
    pub offset_up: bool,
    pub size: TransferSize,
    pub write_back: bool,
    pub load: bool,
    pub base_reg: usize,
    pub data_reg: usize,
    pub signed: bool,
    pub offset: &'a RegOrImm,
}

/// A byte read as a two's complement number and widened to a word.
pub open spec fn spec_sign_extend_byte(b: u8) -> u32 {
    if b >= 0x80 {
        (0xFFFF_FF00 + b) as u32
    } else {
        b as u32
    }
}

#[verifier::when_used_as_spec(spec_sign_extend_byte)]
pub fn sign_extend_byte(b: u8) -> (r: u32)
    ensures
        r == spec_sign_extend_byte(b),
{
    if b >= 0x80 {
        0xFFFF_FF00 + b as u32
    } else {
        b as u32
    }
}

/// A halfword read as a two's complement number and widened to a word.
pub open spec fn spec_sign_extend_halfword(h: u16) -> u32 {
    if h >= 0x8000 {
        (0xFFFF_0000 + h) as u32
    } else {
        h as u32
    }
}

#[verifier::when_used_as_spec(spec_sign_extend_halfword)]
pub fn sign_extend_halfword(h: u16) -> (r: u32)
    ensures
        r == spec_sign_extend_halfword(h),
{
    if h >= 0x8000 {
        0xFFFF_0000 + h as u32
    } else {
        h as u32
    }
}

impl CPU {
    /// What is wrong with an offset, if anything: an offset register must
    /// exist and its shift must be one the shifter knows.
    pub open spec fn spec_offset_error(offset: &RegOrImm) -> Option<CpuError> {
        match *offset {
            RegOrImm::Imm { rotate, value } => None,
            RegOrImm::Reg { shift, reg } => if reg >= 16 {
                Some(CpuError::IllegalRegisterUse)
            } else {
                spec_shift_error(shift)
            },
        }
    }

    #[verifier::when_used_as_spec(spec_offset_error)]
    pub fn offset_error(offset: &RegOrImm) -> (r: Option<CpuError>)
        ensures
            r == CPU::spec_offset_error(offset),
    {
        match *offset {
            RegOrImm::Imm { rotate, value } => None,
            RegOrImm::Reg { shift, reg } => if reg >= 16 {
                Some(CpuError::IllegalRegisterUse)
            } else {
                shift_error(shift)
            },
        }
    }

    /// The offset of a transfer: the immediate, or the value of the offset
    /// register after its shift.
    #[verifier::opaque]
    pub open spec fn spec_get_offset(&self, offset: &RegOrImm) -> u32 {
        match *offset {
            RegOrImm::Imm { rotate, value } => value,
            RegOrImm::Reg { shift, reg } => spec_apply_shift(
                self,
                shift,
                self.spec_get_reg(reg as usize),
            ).0,
        }
    }

    #[verifier::when_used_as_spec(spec_get_offset)]
    pub fn get_offset(&self, offset: &RegOrImm) -> (r: u32)
        requires
            self.cpsr.mode != CPUMode::INVALID,
            CPU::spec_offset_error(offset) is None,
        ensures
            r == self.spec_get_offset(offset),
    {
        reveal(CPU::spec_get_offset);
        match *offset {
            RegOrImm::Imm { rotate, value } => value,
            RegOrImm::Reg { shift, reg } => {
                let val = self.get_reg(reg as usize);
                apply_shift(self, shift, val).0
            },
        }
    }

    /// Why the transfer cannot run, if it cannot.
    pub open spec fn spec_transfer_check(&self, params: &TransferParams) -> Option<CpuError> {
        if self.cpsr.mode == CPUMode::INVALID {
            Some(CpuError::InvalidMode)
        } else if params.base_reg >= 16 || params.data_reg >= 16 {
            Some(CpuError::IllegalRegisterUse)
        } else {
            CPU::spec_offset_error(params.offset)
        }
    }

    /// The base address of the transfer: the base register, word aligned
    /// where it is the program counter in THUMB state.
    #[verifier::opaque]
    pub open spec fn spec_transfer_base(&self, params: &TransferParams) -> u32 {
        let base = self.spec_get_reg(params.base_reg);
        if self.cpsr.isa == InstructionSet::THUMB && params.base_reg == 15 {
            base & !3u32
        } else {
            base
        }
    }

    /// The base address moved up or down by the offset, wrapping around.
    #[verifier::opaque]
    pub open spec fn spec_transfer_target(&self, params: &TransferParams) -> u32 {
        if params.offset_up {
            self.spec_transfer_base(params).wrapping_add(self.spec_get_offset(params.offset))
        } else {
            self.spec_transfer_base(params).wrapping_sub(self.spec_get_offset(params.offset))
        }
    }

    /// The address that is read or written: the moved address when
    /// indexing comes first, the base address when it comes after.
    pub open spec fn spec_transfer_addr(&self, params: &TransferParams) -> u32 {
        if params.pre_index {
            self.spec_transfer_target(params)
        } else {
            self.spec_transfer_base(params)
        }
    }

    /// The value that a load of `size` from `addr` puts in a register:
    /// bytes and halfwords are widened with zeros, or with their sign when
    /// the load is signed.
    #[verifier::opaque]
    pub open spec fn spec_loaded_value(&self, size: TransferSize, signed: bool, addr: u32) -> u32 {
        match size {
            TransferSize::Byte => if signed {
                spec_sign_extend_byte(self.mem.spec_get_byte(addr))
            } else {
                self.mem.spec_get_byte(addr) as u32
            },
            TransferSize::Halfword => if signed {
                spec_sign_extend_halfword(self.mem.spec_get_halfword(addr))
            } else {
                self.mem.spec_get_halfword(addr) as u32
            },
            TransferSize::Word => self.mem.spec_get_word(addr),
        }
    }

    #[verifier::when_used_as_spec(spec_loaded_value)]
    pub fn loaded_value(&self, size: TransferSize, signed: bool, addr: u32) -> (r: u32)
        ensures
            r == self.spec_loaded_value(size, signed, addr),
    {
        reveal(CPU::spec_loaded_value);
        match size {
            TransferSize::Byte => if signed {
                sign_extend_byte(self.mem.get_byte(addr))
            } else {
                self.mem.get_byte(addr) as u32
            },
            TransferSize::Halfword => if signed {
                sign_extend_halfword(self.mem.get_halfword(addr))
            } else {
                self.mem.get_halfword(addr) as u32
            },
            TransferSize::Word => self.mem.get_word(addr),
        }
    }

    /// The processor after a load into `reg`; a load into R15 asks for a
    /// pipeline flush.
    #[verifier::opaque]
    pub open spec fn spec_load_reg(self, reg: usize, val: u32) -> CPU {
        if reg == 15 {
            self.spec_set_reg(reg, val).spec_request_flush()
        } else {
            self.spec_set_reg(reg, val)
        }
    }

    pub fn load_reg(&mut self, reg: usize, val: u32)
        requires
            reg < 16,
            old(self).cpsr.mode != CPUMode::INVALID,
        ensures
            *final(self) == old(self).spec_load_reg(reg, val),
            final(self).cpsr == old(self).cpsr,
            final(self).mem == old(self).mem,
            old(self).mem.registers_agree() ==> final(self).mem.registers_agree(),
            old(self).status_wf() ==> final(self).status_wf(),
    {
        reveal(CPU::spec_load_reg);
        self.set_reg(reg, val);
        if reg == 15 {
            self.request_flush();
        }
    }

    /// The processor after register `reg` is stored at `addr`. R15 is
    /// stored 4 higher than it reads, by the prefetch convention.
    #[verifier::opaque]
    pub open spec fn spec_store_reg(self, size: TransferSize, reg: usize, addr: u32) -> CPU {
        let val = if reg == 15 {
            self.spec_get_reg(reg).wrapping_add(4)
        } else {
            self.spec_get_reg(reg)
        };
        match size {
            TransferSize::Byte => self.spec_store_byte(addr, val as u8),
            TransferSize::Halfword => self.spec_store_halfword(addr, val),
            TransferSize::Word => self.spec_store_word(addr, val),
        }
    }

    pub fn store_reg(&mut self, size: TransferSize, reg: usize, addr: u32)
        requires
            reg < 16,
            old(self).cpsr.mode != CPUMode::INVALID,
        ensures
            *final(self) == old(self).spec_store_reg(size, reg, addr),
            final(self).cpsr == old(self).cpsr,
            old(self).mem.registers_agree() ==> final(self).mem.registers_agree(),
            old(self).status_wf() ==> final(self).status_wf(),
    {
        reveal(CPU::spec_store_reg);
        let mut val = self.get_reg(reg);
        if reg == 15 {
            // when R15 is the source of a STR, the stored value will be the
            // addr of the current instruction + 12
            val = val.wrapping_add(4);
        }
        match size {
            TransferSize::Byte => self.store_byte(addr, val as u8),
            TransferSize::Halfword => self.store_halfword(addr, val),
            TransferSize::Word => self.store_word(addr, val),
        }
    }

    /// The processor after a single data transfer: the data register is
    /// loaded from or stored to the transfer address, then the base
    /// register takes the moved address if write back is asked for or the
    /// indexing comes after the transfer.
    #[verifier::opaque]
    pub open spec fn spec_transfer_reg(self, params: &TransferParams) -> CPU {
        let addr = self.spec_transfer_addr(params);
        let moved = if params.load {
            self.spec_load_reg(
                params.data_reg,
                self.spec_loaded_value(params.size, params.signed, addr),
            )
        } else {
            self.spec_store_reg(params.size, params.data_reg, addr)
        };
        if !params.pre_index || params.write_back {
            moved.spec_set_reg(params.base_reg, self.spec_transfer_target(params))
        } else {
            moved
        }
    }

    /// Load or store one register as `params` says.
    pub fn transfer_reg(&mut self, params: TransferParams) -> (r: Result<(), CpuError>)
        ensures
            match r {
                Ok(_) => old(self).spec_transfer_check(&params) is None && *final(self) == old(
                    self,
                ).spec_transfer_reg(&params),
                Err(e) => old(self).spec_transfer_check(&params) == Some(e) && *final(self)
                    == *old(self),
            },
            old(self).mem.registers_agree() ==> final(self).mem.registers_agree(),
            old(self).status_wf() ==> final(self).status_wf(),
    {
        if self.cpsr.mode == CPUMode::INVALID {
            return Err(CpuError::InvalidMode);
        }
        if params.base_reg >= 16 || params.data_reg >= 16 {
            return Err(CpuError::IllegalRegisterUse);
        }
        match CPU::offset_error(params.offset) {
            Some(e) => {
                return Err(e);
            },
            None => {},
        }
        proof {
            reveal(CPU::spec_transfer_reg);
            reveal(CPU::spec_transfer_base);
            reveal(CPU::spec_transfer_target);
        }
        // pre transfer
        let mut base = self.get_reg(params.base_reg);
        let offset = self.get_offset(params.offset);
        // word align the PC in THUMB mode if using as offset
        if self.cpsr.isa == InstructionSet::THUMB && params.base_reg == 15 {
            base = base & !3u32;
        }
        // addition on the CPU wraps around
        let target = if params.offset_up {
            base.wrapping_add(offset)
        } else {
            base.wrapping_sub(offset)
        };
        let addr = if params.pre_index {
            target
        } else {
            base
        };
        // transfer
        if params.load {
            let val = self.loaded_value(params.size, params.signed, addr);
            self.load_reg(params.data_reg, val);
        } else {
            self.store_reg(params.size, params.data_reg, addr);
        }
        // write back is assumed if post indexing
        if !params.pre_index || params.write_back {
            self.set_reg(params.base_reg, target);
        }
        Ok(())
    }
}

impl CPU {
    /// A load into R15 asks for a pipeline flush.
    pub proof fn lemma_load_of_pc_flushes(self, params: &TransferParams)
        requires
            params.load,
            params.data_reg == 15,
        ensures
            self.spec_transfer_reg(params).should_flush,
    {
        reveal(CPU::spec_transfer_reg);
        reveal(CPU::spec_load_reg);
        let addr = self.spec_transfer_addr(params);
        let val = self.spec_loaded_value(params.size, params.signed, addr);
        self.spec_set_reg(15, val).lemma_flush_request();
        self.spec_load_reg(15, val).lemma_flush_request();
    }
}

} // verus!
