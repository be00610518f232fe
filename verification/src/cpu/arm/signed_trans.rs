//! Halfword and signed data transfer.

use vstd::prelude::*;
use crate::cpu::arm::single_trans::{offset_reg_error, spec_offset_reg_error};
use crate::cpu::arm::RegOrImm;
use crate::cpu::transfer::{TransferParams, TransferSize};
use crate::cpu::{CpuError, CPU};
use crate::util::{get_bit, get_nibble, spec_get_bit, spec_get_nibble};

verus! {

/// Load or store a half words of data from memory and also load sign-extended
/// bytes/halfwords. The memory address is calculated by adding/subtracting an
/// offset from a base register, which can be written back into the base register
/// if auto-indexing is required
#[derive(Clone, Copy, Debug, PartialEq, Eq, Structural)]
pub struct SignedDataTransfer {
    /// if true, add offset before transfer else add after
    pub pre_index: bool,
    /// if true, add the offset to base, else subtract it
    pub offset_up: bool,
    /// if true, transfer halfword, else byte
    pub halfword: bool,
    /// if true, write address back to base reg, else do nothing
    pub write_back: bool,
    /// if true, load from memory, else write to memory
    pub load: bool,
    /// base register
    pub rn: usize,
    /// source/destination register
    pub rd: usize,
    /// if true, treat as signed, otherwise as unsigned
    pub signed: bool,
    /// offset register
    pub offset: RegOrImm,
}

impl SignedDataTransfer {
    /// for register offset, then immediate offset:
    /// 27 .. 25 | 24 | 23 | 22 | 21 | 20 | 19 .. 16 | 15 .. 12 | 11 .. 8 | 7 | 6 | 5 | 4 | 3 .. 0
    ///   000    | P  | U  | 0  | W  | L  |    Rn    |    Rd    |  0000   | 1 | S | H | 1 |   Rm
    ///   000    | P  | U  | 1  | W  | L  |    Rn    |    Rd    |  hi     | 1 | S | H | 1 |   lo
    pub open spec fn spec_parse_instruction(ins: u32) -> SignedDataTransfer {
        SignedDataTransfer {
            pre_index: spec_get_bit(ins, 24),
            offset_up: spec_get_bit(ins, 23),
            write_back: spec_get_bit(ins, 21),
            load: spec_get_bit(ins, 20),
            rn: spec_get_nibble(ins, 16) as usize,
            rd: spec_get_nibble(ins, 12) as usize,
            signed: spec_get_bit(ins, 6),
            halfword: spec_get_bit(ins, 5),
            offset: if spec_get_bit(ins, 22) {
                RegOrImm::Imm {
                    rotate: 0,
                    value: (spec_get_nibble(ins, 8) << 4) | spec_get_nibble(ins, 0),
                }
            } else {
                RegOrImm::Reg { shift: 0, reg: spec_get_nibble(ins, 0) }
            },
        }
    }

    #[verifier::when_used_as_spec(spec_parse_instruction)]
    pub fn parse_instruction(ins: u32) -> (r: SignedDataTransfer)
        ensures
            r == SignedDataTransfer::spec_parse_instruction(ins),
    {
        let is_imm = get_bit(ins, 22);
        SignedDataTransfer {
            pre_index: get_bit(ins, 24),
            offset_up: get_bit(ins, 23),
            write_back: get_bit(ins, 21),
            load: get_bit(ins, 20),
            rn: get_nibble(ins, 16) as usize,
            rd: get_nibble(ins, 12) as usize,
            signed: get_bit(ins, 6),
            halfword: get_bit(ins, 5),
            offset: if is_imm {
                RegOrImm::Imm { rotate: 0, value: (get_nibble(ins, 8) << 4) | get_nibble(ins, 0) }
            } else {
                RegOrImm::Reg { shift: 0, reg: get_nibble(ins, 0) }
            },
        }
    }

    /// The transfer that the instruction asks for.
    pub open spec fn params(&self) -> TransferParams {
        TransferParams {
            pre_index: self.pre_index,
            offset_up: self.offset_up,
            size: if self.halfword {
                TransferSize::Halfword
            } else {
                TransferSize::Byte
            },
            write_back: self.write_back,
            load: self.load,
            base_reg: self.rn,
            data_reg: self.rd,
            signed: self.signed,
            offset: &self.offset,
        }
    }

    /// Why the instruction cannot run, if it cannot: nothing is stored
    /// signed, the offset register may be neither R15 nor the base, and the
    /// transfer itself must be possible.
    pub open spec fn spec_check(&self, cpu: &CPU) -> Option<CpuError> {
        if !self.load && self.signed {
            Some(CpuError::InvalidInstruction)
        } else if spec_offset_reg_error(self.offset, self.rn) is Some {
            spec_offset_reg_error(self.offset, self.rn)
        } else {
            cpu.spec_transfer_check(&self.params())
        }
    }

    pub open spec fn spec_run(&self, cpu: CPU) -> CPU {
        cpu.spec_transfer_reg(&self.params())
    }

    /// The fetch of the instruction.
    pub open spec fn spec_cycles(&self, cpu: CPU) -> u32 {
        cpu.mem.spec_access_time(cpu.r[15], false)
    }

    pub fn run(&self, cpu: &mut CPU) -> (r: Result<u32, CpuError>)
        ensures
            match r {
                Ok(cycles) => self.spec_check(old(cpu)) is None && *final(cpu) == self.spec_run(
                    *old(cpu),
                ) && cycles == self.spec_cycles(*old(cpu)),
                Err(e) => self.spec_check(old(cpu)) == Some(e) && *final(cpu) == *old(cpu),
            },
            old(cpu).mem.registers_agree() ==> final(cpu).mem.registers_agree(),
            old(cpu).status_wf() ==> final(cpu).status_wf(),
    {
        if !self.load && self.signed {
            return Err(CpuError::InvalidInstruction);
        }
        match offset_reg_error(self.offset, self.rn) {
            Some(e) => {
                return Err(e);
            },
            None => {},
        }
        let cycles = cpu.mem.access_time(cpu.r[15], false);
        // all the same as a single transfer, except that the value can be
        // sign extended before it is stored in the register, and the
        // quantities differ
        let done = cpu.transfer_reg(
            TransferParams {
                pre_index: self.pre_index,
                offset_up: self.offset_up,
                size: if self.halfword {
                    TransferSize::Halfword
                } else {
                    TransferSize::Byte
                },
                write_back: self.write_back,
                load: self.load,
                base_reg: self.rn,
                data_reg: self.rd,
                signed: self.signed,
                offset: &self.offset,
            },
        );
        match done {
            Ok(_) => Ok(cycles),
            Err(e) => Err(e),
        }
    }
}

} // verus!
