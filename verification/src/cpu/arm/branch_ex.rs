//! Branch and exchange.

use vstd::prelude::*;
use crate::cpu::status_reg::CPUMode;
use crate::cpu::{CpuError, CPU};
use crate::util::{get_bit, get_nibble, spec_get_bit, spec_get_nibble};

verus! {

/// This instruction performs a branch by copying the contents of a single register
/// into the program counter, and causes a pipeline flush and refill.
#[derive(Clone, Copy, Debug, PartialEq, Eq, Structural)]
pub struct BranchAndExchange {
    /// contents of this register are written to the PC
    pub reg: usize,
}

impl BranchAndExchange {
    /// parses the following format:
    /// cond_0001_0010_1111_1111_1111_0001_Rn
    pub open spec fn spec_parse_instruction(ins: u32) -> BranchAndExchange {
        BranchAndExchange { reg: spec_get_nibble(ins, 0) as usize }
    }

    #[verifier::when_used_as_spec(spec_parse_instruction)]
    pub fn parse_instruction(ins: u32) -> (r: BranchAndExchange)
        ensures
            r == BranchAndExchange::spec_parse_instruction(ins),
            r.reg < 16,
    {
        BranchAndExchange { reg: get_nibble(ins, 0) as usize }
    }

    pub open spec fn spec_check(&self, cpu: &CPU) -> Option<CpuError> {
        if cpu.cpsr.mode == CPUMode::INVALID {
            Some(CpuError::InvalidMode)
        } else if self.reg >= 16 {
            Some(CpuError::IllegalRegisterUse)
        } else {
            None
        }
    }

    /// The processor after the branch: bit 0 of the register selects the
    /// instruction set (1 for THUMB), the program counter holds the
    /// register with bit 0 cleared, and the pipeline is to be flushed.
    #[verifier::opaque]
    pub open spec fn spec_run(&self, cpu: CPU) -> CPU {
        let val = cpu.spec_get_reg(self.reg);
        cpu.spec_set_isa(spec_get_bit(val, 0)).spec_set_reg(
            15,
            if spec_get_bit(val, 0) {
                val & !1u32
            } else {
                val
            },
        ).spec_request_flush()
    }

    /// One non sequential and two sequential fetches, as for a branch.
    pub open spec fn spec_cycles(&self, cpu: CPU) -> u32 {
        let target = self.spec_run(cpu).r[15];
        (cpu.mem.spec_access_time(cpu.r[15], false) + cpu.mem.spec_access_time(target, true)
            + cpu.mem.spec_access_time(target.wrapping_add(4), false)) as u32
    }

    pub fn run(&self, cpu: &mut CPU) -> (r: Result<u32, CpuError>)
        ensures
            match r {
                Ok(cycles) => self.spec_check(old(cpu)) is None && *final(cpu) == self.spec_run(
                    *old(cpu),
                ) && cycles == self.spec_cycles(*old(cpu)),
                Err(e) => self.spec_check(old(cpu)) == Some(e) && *final(cpu) == *old(cpu),
            },
            old(cpu).mem.registers_agree() ==> final(cpu).mem.registers_agree(),
            old(cpu).status_wf() ==> final(cpu).status_wf(),
    {
        if cpu.cpsr.mode == CPUMode::INVALID {
            return Err(CpuError::InvalidMode);
        }
        if self.reg >= 16 {
            return Err(CpuError::IllegalRegisterUse);
        }
        proof {
            reveal(BranchAndExchange::spec_run);
        }
        let old_pc = cpu.r[15];
        let mut val = cpu.get_reg(self.reg);
        let switch_to_thumb = get_bit(val, 0);
        cpu.set_isa(switch_to_thumb);
        if switch_to_thumb {
            // halfword align the next addr
            val = val & !1u32;
        }
        cpu.set_reg(15, val);
        cpu.request_flush();
        Ok(
            cpu.mem.access_time(old_pc, false) + cpu.mem.access_time(cpu.r[15], true)
                + cpu.mem.access_time(cpu.r[15].wrapping_add(4), false),
        )
    }
}

impl BranchAndExchange {
    /// Every branch and exchange asks for a pipeline flush.
    pub proof fn lemma_branch_flushes(&self, cpu: CPU)
        ensures
            self.spec_run(cpu).should_flush,
    {
        reveal(BranchAndExchange::spec_run);
        reveal(CPU::spec_request_flush);
    }
}

} // verus!
