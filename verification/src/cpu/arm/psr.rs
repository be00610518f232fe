//! Transfers between the status registers and the general registers.

use vstd::prelude::*;
use crate::cpu::arm::RegOrImm;
use crate::cpu::status_reg::CPUMode;
use crate::cpu::{CpuError, CPU};
use crate::util::{
    get_bit, get_byte, get_nibble, rotate_right, spec_get_bit, spec_get_byte, spec_get_nibble,
    spec_rotate_right,
};

verus! {

#[derive(Clone, Copy, Debug, PartialEq, Eq, Structural)]
pub enum StateRegType {
    /// CPSR
    Current,
    /// SPSR of the current mode
    Saved,
}

#[derive(Clone, Copy, Debug, PartialEq, Eq, Structural)]
pub enum TransferType {
    Read { stype: StateRegType, dest: usize },
    Write { stype: StateRegType, source: RegOrImm, flag_only: bool },
}

/// These instructions are TEQ/TST/CMN/CMP Data Processing operations but
/// without the S flag set. They allow access to the CPSR/SPSR registers, i.e.
/// reading CPSR/SPSR of the current mode to a register, or writing a reg/immediate
/// value to the CPSR/SPSR of the current mode.
#[derive(Clone, Copy, Debug, PartialEq, Eq, Structural)]
pub struct PSRTransfer {
    pub trans: TransferType,
}

impl PSRTransfer {
    /// transfer PSR contents to register
    /// 31 .. 28 | 27 .. 23 | 22 | 21 .. 16 | 15 .. 12 | 11 .. 0 |
    ///   cond   |   00010  | Ps |  001111  |    Rd    | 00....0 |
    ///
    /// transfer Rm contents to PSR
    /// 31 .. 28 | 27 .. 23 | 22 | 21  ..  12 | 11 .. 4 | 3 .. 0 |
    ///   cond   |   00010  | Pd | 1010011111 | 00....0 | Rm     |
    ///
    /// transfer reg or immediate contents to PSR flag bits only
    /// 31 .. 28 | 27 | 26 | 25 | 24 | 23 | 22 | 21  ..  12 | 11  .. 0 |
    ///    cond  | 0  | 0  | I  | 1  | 0  | Pd | 1010001111 | operand
    pub open spec fn spec_parse_instruction(ins: u32) -> PSRTransfer {
        let stype = if spec_get_bit(ins, 22) {
            StateRegType::Saved
        } else {
            StateRegType::Current
        };
        PSRTransfer {
            trans: if spec_get_bit(ins, 21) {
                TransferType::Write {
                    stype,
                    source: if spec_get_bit(ins, 25) {
                        RegOrImm::Imm {
                            rotate: spec_get_nibble(ins, 8),
                            value: spec_get_byte(ins, 0),
                        }
                    } else {
                        RegOrImm::Reg { reg: spec_get_byte(ins, 0), shift: 0 }
                    },
                    flag_only: !spec_get_bit(ins, 16),
                }
            } else {
                TransferType::Read { stype, dest: spec_get_nibble(ins, 12) as usize }
            },
        }
    }

    #[verifier::when_used_as_spec(spec_parse_instruction)]
    pub fn parse_instruction(ins: u32) -> (r: PSRTransfer)
        ensures
            r == PSRTransfer::spec_parse_instruction(ins),
    {
        let is_write = get_bit(ins, 21);
        let stype = if get_bit(ins, 22) {
            StateRegType::Saved
        } else {
            StateRegType::Current
        };
        PSRTransfer {
            trans: if is_write {
                let is_imm = get_bit(ins, 25);
                TransferType::Write {
                    stype,
                    source: if is_imm {
                        RegOrImm::Imm { rotate: get_nibble(ins, 8), value: get_byte(ins, 0) }
                    } else {
                        RegOrImm::Reg { reg: get_byte(ins, 0), shift: 0 }
                    },
                    flag_only: !get_bit(ins, 16),
                }
            } else {
                TransferType::Read { stype, dest: get_nibble(ins, 12) as usize }
            },
        }
    }

    /// The word that a write transfers: the immediate rotated right by
    /// twice its rotate field, or the value of the source register.
    pub open spec fn spec_source_value(cpu: &CPU, source: RegOrImm) -> u32 {
        match source {
            RegOrImm::Imm { rotate, value } => spec_rotate_right(value, rotate.wrapping_mul(2)),
            RegOrImm::Reg { shift, reg } => cpu.spec_get_reg(reg as usize),
        }
    }

    /// Why the instruction cannot run, if it cannot: R15 can take no part
    /// in the transfer, and user mode has no saved status register. (A
    /// write may leave the mode field of either status register without a
    /// mode; that shows when the processor next runs an instruction.)
    pub open spec fn spec_check(&self, cpu: &CPU) -> Option<CpuError> {
        if cpu.cpsr.mode == CPUMode::INVALID {
            Some(CpuError::InvalidMode)
        } else {
            match self.trans {
                TransferType::Read { stype, dest } => if dest >= 15 {
                    Some(CpuError::IllegalRegisterUse)
                } else if stype == StateRegType::Saved && cpu.cpsr.mode == CPUMode::USR {
                    Some(CpuError::InvalidMode)
                } else {
                    None
                },
                TransferType::Write { stype, source, flag_only } => if (match source {
                    RegOrImm::Reg { shift, reg } => reg >= 15,
                    RegOrImm::Imm { rotate, value } => false,
                }) {
                    Some(CpuError::IllegalRegisterUse)
                } else if stype == StateRegType::Saved && cpu.cpsr.mode == CPUMode::USR {
                    Some(CpuError::InvalidMode)
                } else {
                    None
                },
            }
        }
    }

    /// The processor after the transfer: a read puts the packed status
    /// register in the destination register; a write unpacks the source
    /// word into the status register, all of it or the flags only.
    #[verifier::opaque]
    pub open spec fn spec_run(&self, cpu: CPU) -> CPU {
        match self.trans {
            TransferType::Read { stype, dest } => cpu.spec_set_reg(
                dest,
                match stype {
                    StateRegType::Current => cpu.cpsr.spec_to_u32(),
                    StateRegType::Saved => cpu.spec_get_spsr().spec_to_u32(),
                },
            ),
            TransferType::Write { stype, source, flag_only } => match stype {
                StateRegType::Current => cpu.spec_set_cpsr(
                    PSRTransfer::spec_source_value(&cpu, source),
                    flag_only,
                ),
                StateRegType::Saved => cpu.spec_set_spsr(
                    PSRTransfer::spec_source_value(&cpu, source),
                    flag_only,
                ),
            },
        }
    }

    /// The fetch of the instruction.
    pub open spec fn spec_cycles(&self, cpu: CPU) -> u32 {
        cpu.mem.spec_access_time(cpu.r[15], false)
    }

    pub fn run(&self, cpu: &mut CPU) -> (r: Result<u32, CpuError>)
        ensures
            match r {
                Ok(cycles) => self.spec_check(old(cpu)) is None && *final(cpu) == self.spec_run(
                    *old(cpu),
                ) && cycles == self.spec_cycles(*old(cpu)),
                Err(e) => self.spec_check(old(cpu)) == Some(e) && *final(cpu) == *old(cpu),
            },
            old(cpu).mem.registers_agree() ==> final(cpu).mem.registers_agree(),
            old(cpu).status_wf() ==> final(cpu).status_wf(),
    {
        if cpu.cpsr.mode == CPUMode::INVALID {
            return Err(CpuError::InvalidMode);
        }
        proof {
            reveal(PSRTransfer::spec_run);
        }
        let cycles = cpu.mem.access_time(cpu.r[15], false);
        match self.trans {
            TransferType::Read { stype, dest } => {
                if dest >= 15 {
                    return Err(CpuError::IllegalRegisterUse);
                }
                let val = match stype {
                    StateRegType::Current => cpu.cpsr.to_u32(),
                    StateRegType::Saved => {
                        if cpu.cpsr.mode == CPUMode::USR {
                            return Err(CpuError::InvalidMode);
                        }
                        cpu.get_spsr().to_u32()
                    },
                };
                cpu.set_reg(dest, val);
            },
            TransferType::Write { stype, source, flag_only } => {
                let val = match source {
                    RegOrImm::Imm { rotate, value } => rotate_right(value, rotate.wrapping_mul(2)),
                    RegOrImm::Reg { shift, reg } => {
                        if reg >= 15 {
                            return Err(CpuError::IllegalRegisterUse);
                        }
                        cpu.get_reg(reg as usize)
                    },
                };
                match stype {
                    StateRegType::Current => {
                        cpu.set_cpsr(val, flag_only);
                    },
                    StateRegType::Saved => {
                        if cpu.cpsr.mode == CPUMode::USR {
                            return Err(CpuError::InvalidMode);
                        }
                        cpu.set_spsr(val, flag_only);
                    },
                }
            },
        }
        Ok(cycles)
    }
}

} // verus!
