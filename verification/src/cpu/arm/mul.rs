//! Multiply and multiply-accumulate.

use vstd::prelude::*;
use crate::cpu::status_reg::CPUMode;
use crate::cpu::{CpuError, CPU};
use crate::util::{get_bit, get_nibble, spec_get_bit, spec_get_nibble};

verus! {

/// The multiply and multiply-accumulate instructions perform integer multiplication
/// on the contents of two registers Rm and Rs and stores the lower 32 bits of the
/// result in Rd
#[derive(Clone, Copy, Debug, PartialEq, Eq, Structural)]
pub struct Multiply {
    /// if true, add contents of Rn to the product before storing in Rd
    pub accumulate: bool,
    pub set_flags: bool,
    pub rd: usize,
    pub rn: usize,
    pub rs: usize,
    pub rm: usize,
}

/// The cycles of the multiplier array: one, and one more for each of the
/// three upper bytes of the multiplier that is neither 0x00 nor 0xFF.
pub open spec fn spec_mul_cycle_time(multiplier: u32) -> u32 {
    let second = multiplier / 0x100 % 0x100;
    let third = multiplier / 0x1_0000 % 0x100;
    let fourth = multiplier / 0x100_0000;
    (1 + (if second == 0 || second == 0xFF {
        0int
    } else {
        1
    }) + (if third == 0 || third == 0xFF {
        0int
    } else {
        1
    }) + (if fourth == 0 || fourth == 0xFF {
        0int
    } else {
        1
    })) as u32
}

#[verifier::when_used_as_spec(spec_mul_cycle_time)]
pub fn mul_cycle_time(multiplier: u32) -> (r: u32)
    ensures
        r == spec_mul_cycle_time(multiplier),
        1 <= r <= 4,
{
    let second: u32 = multiplier / 0x100 % 0x100;
    let third: u32 = multiplier / 0x1_0000 % 0x100;
    let fourth: u32 = multiplier / 0x100_0000;
    let a: u32 = if second == 0 || second == 0xFF {
        0
    } else {
        1
    };
    let b: u32 = if third == 0 || third == 0xFF {
        0
    } else {
        1
    };
    let c: u32 = if fourth == 0 || fourth == 0xFF {
        0
    } else {
        1
    };
    1 + a + b + c
}

impl Multiply {
    /// parses from the following format:
    /// 27 .. 22 | 21 | 20 | 19 .. 16 | 15 .. 12 | 11 .. 8 | 7 .. 4 | 3 .. 0
    ///   000000 | A  | S  |    Rd    |    Rn    |    Rs   |  1001  |  Rm
    pub open spec fn spec_parse_instruction(ins: u32) -> Multiply {
        Multiply {
            accumulate: spec_get_bit(ins, 21),
            set_flags: spec_get_bit(ins, 20),
            rd: spec_get_nibble(ins, 16) as usize,
            rn: spec_get_nibble(ins, 12) as usize,
            rs: spec_get_nibble(ins, 8) as usize,
            rm: spec_get_nibble(ins, 0) as usize,
        }
    }

    #[verifier::when_used_as_spec(spec_parse_instruction)]
    pub fn parse_instruction(ins: u32) -> (r: Multiply)
        ensures
            r == Multiply::spec_parse_instruction(ins),
    {
        Multiply {
            accumulate: get_bit(ins, 21),
            set_flags: get_bit(ins, 20),
            rd: get_nibble(ins, 16) as usize,
            rn: get_nibble(ins, 12) as usize,
            rs: get_nibble(ins, 8) as usize,
            rm: get_nibble(ins, 0) as usize,
        }
    }

    /// R15 may be no operand and no destination, and Rd must differ from Rm.
    pub open spec fn spec_check(&self, cpu: &CPU) -> Option<CpuError> {
        if cpu.cpsr.mode == CPUMode::INVALID {
            Some(CpuError::InvalidMode)
        } else if self.rd >= 15 || self.rm >= 15 || self.rn >= 15 || self.rs >= 15 {
            Some(CpuError::IllegalRegisterUse)
        } else if self.rd == self.rm {
            Some(CpuError::IllegalRegisterUse)
        } else {
            None
        }
    }

    /// The product of Rm and Rs, plus Rn where the instruction
    /// accumulates, modulo 2^32.
    pub open spec fn spec_result(&self, cpu: &CPU) -> u32 {
        let product = cpu.spec_get_reg(self.rm).wrapping_mul(cpu.spec_get_reg(self.rs));
        if self.accumulate {
            product.wrapping_add(cpu.spec_get_reg(self.rn))
        } else {
            product
        }
    }

    /// The processor after the multiplication: Rd holds the result, and
    /// with S set N and Z follow the result; C and V stay.
    #[verifier::opaque]
    pub open spec fn spec_run(&self, cpu: CPU) -> CPU {
        let result = self.spec_result(&cpu);
        let written = cpu.spec_set_reg(self.rd, result);
        if self.set_flags {
            written.spec_set_nz(spec_get_bit(result, 31), result == 0)
        } else {
            written
        }
    }

    /// The fetch, the cycles of the multiplier array for the value of Rs,
    /// and one more to accumulate.
    pub open spec fn spec_cycles(&self, cpu: CPU) -> u32 {
        (cpu.mem.spec_access_time(cpu.r[15], false) + spec_mul_cycle_time(
            cpu.spec_get_reg(self.rs),
        ) + (if self.accumulate {
            1int
        } else {
            0
        })) as u32
    }

    pub fn run(&self, cpu: &mut CPU) -> (r: Result<u32, CpuError>)
        ensures
            match r {
                Ok(cycles) => self.spec_check(old(cpu)) is None && *final(cpu) == self.spec_run(
                    *old(cpu),
                ) && cycles == self.spec_cycles(*old(cpu)),
                Err(e) => self.spec_check(old(cpu)) == Some(e) && *final(cpu) == *old(cpu),
            },
            old(cpu).mem.registers_agree() ==> final(cpu).mem.registers_agree(),
            old(cpu).status_wf() ==> final(cpu).status_wf(),
    {
        if cpu.cpsr.mode == CPUMode::INVALID {
            return Err(CpuError::InvalidMode);
        }
        if self.rd >= 15 || self.rm >= 15 || self.rn >= 15 || self.rs >= 15 {
            return Err(CpuError::IllegalRegisterUse);
        }
        if self.rd == self.rm {
            return Err(CpuError::IllegalRegisterUse);
        }
        proof {
            reveal(Multiply::spec_run);
        }
        // since we only care about the bottom 32 bits, this will be the same
        // for both signed and unsigned integers
        let multiplier = cpu.get_reg(self.rs);
        let mut result: u32 = cpu.get_reg(self.rm).wrapping_mul(multiplier);
        if self.accumulate {
            result = result.wrapping_add(cpu.get_reg(self.rn));
        }
        let cycles = cpu.mem.access_time(cpu.r[15], false) + mul_cycle_time(multiplier) + if self.accumulate {
            1
        } else {
            0
        };
        cpu.set_reg(self.rd, result);
        if self.set_flags {
            cpu.set_nz(get_bit(result, 31), result == 0);
        }
        Ok(cycles)
    }
}

} // verus!
