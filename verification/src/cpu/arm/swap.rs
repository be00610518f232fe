//! Single data swap.

use vstd::prelude::*;
use crate::cpu::status_reg::CPUMode;
use crate::cpu::{CpuError, CPU};
use crate::util::{get_bit, get_nibble, spec_get_bit, spec_get_nibble};

verus! {

/// Swap a byte or word between a register and external memory "atomically"
#[derive(Clone, Copy, Debug, PartialEq, Eq, Structural)]
pub struct SingleDataSwap {
    /// if true, swap byte else swap word
    pub byte: bool,
    /// base register
    pub rn: usize,
    /// destination register
    pub rd: usize,
    /// source register
    pub rm: usize,
}

impl SingleDataSwap {
    /// 27 .. 23 | 22 | 21 | 20 | 19 .. 16 | 15 .. 12 | 11 .. 4  | 3 .. 0
    ///  00010   | B  | 0  | 0  |    Rn    |    Rd    | 00001001 |   Rm
    pub open spec fn spec_parse_instruction(ins: u32) -> SingleDataSwap {
        SingleDataSwap {
            byte: spec_get_bit(ins, 22),
            rn: spec_get_nibble(ins, 16) as usize,
            rd: spec_get_nibble(ins, 12) as usize,
            rm: spec_get_nibble(ins, 0) as usize,
        }
    }

    #[verifier::when_used_as_spec(spec_parse_instruction)]
    pub fn parse_instruction(ins: u32) -> (r: SingleDataSwap)
        ensures
            r == SingleDataSwap::spec_parse_instruction(ins),
    {
        SingleDataSwap {
            byte: get_bit(ins, 22),
            rn: get_nibble(ins, 16) as usize,
            rd: get_nibble(ins, 12) as usize,
            rm: get_nibble(ins, 0) as usize,
        }
    }

    /// R15 may be none of the three registers.
    pub open spec fn spec_check(&self, cpu: &CPU) -> Option<CpuError> {
        if cpu.cpsr.mode == CPUMode::INVALID {
            Some(CpuError::InvalidMode)
        } else if self.rn >= 15 || self.rd >= 15 || self.rm >= 15 {
            Some(CpuError::IllegalRegisterUse)
        } else {
            None
        }
    }

    /// The processor after the swap: the byte or word at the address in Rn
    /// is replaced by the value of Rm, and Rd holds what was there before.
    #[verifier::opaque]
    pub open spec fn spec_run(&self, cpu: CPU) -> CPU {
        let addr = cpu.spec_get_reg(self.rn);
        if self.byte {
            cpu.spec_store_byte(addr, cpu.spec_get_reg(self.rm) as u8).spec_set_reg(
                self.rd,
                cpu.mem.spec_get_byte(addr) as u32,
            )
        } else {
            cpu.spec_store_word(addr, cpu.spec_get_reg(self.rm)).spec_set_reg(
                self.rd,
                cpu.mem.spec_get_word(addr),
            )
        }
    }

    /// The fetch of the instruction.
    pub open spec fn spec_cycles(&self, cpu: CPU) -> u32 {
        cpu.mem.spec_access_time(cpu.r[15], false)
    }

    pub fn run(&self, cpu: &mut CPU) -> (r: Result<u32, CpuError>)
        ensures
            match r {
                Ok(cycles) => self.spec_check(old(cpu)) is None && *final(cpu) == self.spec_run(
                    *old(cpu),
                ) && cycles == self.spec_cycles(*old(cpu)),
                Err(e) => self.spec_check(old(cpu)) == Some(e) && *final(cpu) == *old(cpu),
            },
            old(cpu).mem.registers_agree() ==> final(cpu).mem.registers_agree(),
            old(cpu).status_wf() ==> final(cpu).status_wf(),
    {
        if cpu.cpsr.mode == CPUMode::INVALID {
            return Err(CpuError::InvalidMode);
        }
        if self.rn >= 15 || self.rd >= 15 || self.rm >= 15 {
            return Err(CpuError::IllegalRegisterUse);
        }
        proof {
            reveal(SingleDataSwap::spec_run);
        }
        let cycles = cpu.mem.access_time(cpu.r[15], false);
        let addr = cpu.get_reg(self.rn);
        let regval = cpu.get_reg(self.rm);
        if self.byte {
            let memval = cpu.mem.get_byte(addr) as u32;
            cpu.store_byte(addr, regval as u8);
            cpu.set_reg(self.rd, memval);
        } else {
            let memval = cpu.mem.get_word(addr);
            cpu.store_word(addr, regval);
            cpu.set_reg(self.rd, memval);
        }
        Ok(cycles)
    }
}

} // verus!
