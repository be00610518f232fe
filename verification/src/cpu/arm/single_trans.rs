//! Single data transfer: loads and stores of words and bytes.

use vstd::prelude::*;
use crate::cpu::arm::RegOrImm;
use crate::cpu::transfer::{TransferParams, TransferSize};
use crate::cpu::{CpuError, CPU};
use crate::util::{get_bit, get_byte, get_nibble, spec_get_bit, spec_get_byte, spec_get_nibble};

verus! {

/// Load or store a single byte/word to/from memory. The memory address is
/// calculated by adding/subtracting an offset from a base register, which can
/// be written back into the base register if auto-indexing is required
#[derive(Clone, Copy, Debug, PartialEq, Eq, Structural)]
pub struct SingleDataTransfer {
    /// if true, add offset before transfer else add after
    pub pre_index: bool,
    /// if true, add the offset to base, else subtract it
    pub offset_up: bool,
    /// if true, transfer byte, else transfer word
    pub byte: bool,
    /// if true, write address back to base reg, else do nothing
    pub write_back: bool,
    /// if true, load from memory, else write to memory
    pub load: bool,
    /// base register
    pub rn: usize,
    /// source/destination register
    pub rd: usize,
    /// offset which is either a 12 bit immediate value, or a shifted register
    pub offset: RegOrImm,
}

/// What is wrong with the offset register of a transfer, if anything: it
/// may be neither R15 nor the base register.
pub open spec fn spec_offset_reg_error(offset: RegOrImm, rn: usize) -> Option<CpuError> {
    match offset {
        RegOrImm::Reg { shift, reg } => if reg == 15 || reg as usize == rn {
            Some(CpuError::IllegalRegisterUse)
        } else {
            None
        },
        RegOrImm::Imm { rotate, value } => None,
    }
}

#[verifier::when_used_as_spec(spec_offset_reg_error)]
pub fn offset_reg_error(offset: RegOrImm, rn: usize) -> (r: Option<CpuError>)
    ensures
        r == spec_offset_reg_error(offset, rn),
{
    match offset {
        RegOrImm::Reg { shift, reg } => if reg == 15 || reg as usize == rn {
            Some(CpuError::IllegalRegisterUse)
        } else {
            None
        },
        RegOrImm::Imm { rotate, value } => None,
    }
}

impl SingleDataTransfer {
    /// 25 | 24 | 23 | 22 | 21 | 20 | 19 .. 16 | 15 .. 12 | 11 .. 0
    /// I  | P  | U  | B  | W  | L  |    Rn    |    Rd    |  offset
    pub open spec fn spec_parse_instruction(ins: u32) -> SingleDataTransfer {
        SingleDataTransfer {
            pre_index: spec_get_bit(ins, 24),
            offset_up: spec_get_bit(ins, 23),
            byte: spec_get_bit(ins, 22),
            write_back: spec_get_bit(ins, 21),
            load: spec_get_bit(ins, 20),
            rn: spec_get_nibble(ins, 16) as usize,
            rd: spec_get_nibble(ins, 12) as usize,
            offset: if !spec_get_bit(ins, 25) {
                RegOrImm::Imm { rotate: 0, value: ins & 0xFFF }
            } else {
                RegOrImm::Reg { shift: spec_get_byte(ins, 4), reg: spec_get_nibble(ins, 0) }
            },
        }
    }

    #[verifier::when_used_as_spec(spec_parse_instruction)]
    pub fn parse_instruction(ins: u32) -> (r: SingleDataTransfer)
        ensures
            r == SingleDataTransfer::spec_parse_instruction(ins),
    {
        let is_imm = !get_bit(ins, 25);
        SingleDataTransfer {
            pre_index: get_bit(ins, 24),
            offset_up: get_bit(ins, 23),
            byte: get_bit(ins, 22),
            write_back: get_bit(ins, 21),
            load: get_bit(ins, 20),
            rn: get_nibble(ins, 16) as usize,
            rd: get_nibble(ins, 12) as usize,
            offset: if is_imm {
                RegOrImm::Imm { rotate: 0, value: ins & 0xFFF }
            } else {
                RegOrImm::Reg { shift: get_byte(ins, 4), reg: get_nibble(ins, 0) }
            },
        }
    }

    /// The transfer that the instruction asks for.
    pub open spec fn params(&self) -> TransferParams {
        TransferParams {
            pre_index: self.pre_index,
            offset_up: self.offset_up,
            size: if self.byte {
                TransferSize::Byte
            } else {
                TransferSize::Word
            },
            write_back: self.write_back,
            load: self.load,
            base_reg: self.rn,
            data_reg: self.rd,
            signed: false,
            offset: &self.offset,
        }
    }

    /// Why the instruction cannot run, if it cannot: R15 as base cannot be
    /// written back, the offset register may be neither R15 nor the base,
    /// and the transfer itself must be possible.
    pub open spec fn spec_check(&self, cpu: &CPU) -> Option<CpuError> {
        if self.rn == 15 && self.write_back {
            Some(CpuError::IllegalRegisterUse)
        } else if spec_offset_reg_error(self.offset, self.rn) is Some {
            spec_offset_reg_error(self.offset, self.rn)
        } else {
            cpu.spec_transfer_check(&self.params())
        }
    }

    pub open spec fn spec_run(&self, cpu: CPU) -> CPU {
        cpu.spec_transfer_reg(&self.params())
    }

    /// The fetch of the instruction.
    pub open spec fn spec_cycles(&self, cpu: CPU) -> u32 {
        cpu.mem.spec_access_time(cpu.r[15], false)
    }

    pub fn run(&self, cpu: &mut CPU) -> (r: Result<u32, CpuError>)
        ensures
            match r {
                Ok(cycles) => self.spec_check(old(cpu)) is None && *final(cpu) == self.spec_run(
                    *old(cpu),
                ) && cycles == self.spec_cycles(*old(cpu)),
                Err(e) => self.spec_check(old(cpu)) == Some(e) && *final(cpu) == *old(cpu),
            },
            old(cpu).mem.registers_agree() ==> final(cpu).mem.registers_agree(),
            old(cpu).status_wf() ==> final(cpu).status_wf(),
    {
        if self.rn == 15 && self.write_back {
            return Err(CpuError::IllegalRegisterUse);
        }
        match offset_reg_error(self.offset, self.rn) {
            Some(e) => {
                return Err(e);
            },
            None => {},
        }
        let cycles = cpu.mem.access_time(cpu.r[15], false);
        let done = cpu.transfer_reg(
            TransferParams {
                pre_index: self.pre_index,
                offset_up: self.offset_up,
                size: if self.byte {
                    TransferSize::Byte
                } else {
                    TransferSize::Word
                },
                write_back: self.write_back,
                load: self.load,
                base_reg: self.rn,
                data_reg: self.rd,
                signed: false,
                offset: &self.offset,
            },
        );
        match done {
            Ok(_) => Ok(cycles),
            Err(e) => Err(e),
        }
    }
}

} // verus!
