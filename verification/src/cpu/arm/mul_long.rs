//! Multiply long and multiply-accumulate long.

use vstd::prelude::*;
use crate::cpu::arm::data::signed;
use crate::cpu::arm::mul::{mul_cycle_time, spec_mul_cycle_time};
use crate::cpu::status_reg::CPUMode;
use crate::cpu::{CpuError, CPU};
use crate::util::{get_bit, get_nibble, spec_get_bit, spec_get_nibble};

verus! {

/// The multiply and multiply-accumulate instructions perform integer multiplication
/// on the contents of two registers Rm and Rs and stores the lower 32 bits of the
/// result in RdLo and the high 32 bits in RdHi
#[derive(Clone, Copy, Debug, PartialEq, Eq, Structural)]
pub struct MultiplyLong {
    /// if true, add contents of RdHi,RdLo (as a 64 bit integer) to the product
    /// before storing it
    pub accumulate: bool,
    /// if true, treat operands as two's complement signed numbers and write a
    /// two's complement signed 64 bit result
    pub is_signed: bool,
    pub set_flags: bool,
    pub rdhi: usize,
    pub rdlo: usize,
    pub rs: usize,
    pub rm: usize,
}

/// The 64 bit result of a long multiplication: the product of the two
/// operands, read as signed or as unsigned numbers, plus the accumulator,
/// modulo 2^64.
pub open spec fn spec_long_product(is_signed: bool, rm: u32, rs: u32, summand: u64) -> u64 {
    let product: int = if is_signed {
        signed(rm) * signed(rs)
    } else {
        rm * rs
    };
    ((product + summand) % 0x1_0000_0000_0000_0000) as u64
}

#[verifier::when_used_as_spec(spec_long_product)]
pub fn long_product(is_signed: bool, rm: u32, rs: u32, summand: u64) -> (r: u64)
    ensures
        r == spec_long_product(is_signed, rm, rs, summand),
{
    let a: i128 = if is_signed && rm >= 0x8000_0000 {
        rm as i128 - 0x1_0000_0000
    } else {
        rm as i128
    };
    let b: i128 = if is_signed && rs >= 0x8000_0000 {
        rs as i128 - 0x1_0000_0000
    } else {
        rs as i128
    };
    assert(-0x1_0000_0000_0000_0000 <= a * b <= 0x1_0000_0000_0000_0000) by (nonlinear_arith)
        requires
            -0x1_0000_0000 <= a <= 0x1_0000_0000,
            -0x1_0000_0000 <= b <= 0x1_0000_0000,
    ;
    let total: i128 = a * b + summand as i128;
    ((total + 0x1_0000_0000_0000_0000) % 0x1_0000_0000_0000_0000) as u64
}

impl MultiplyLong {
    /// parses from the following format:
    /// 27 .. 23 | 22 | 21 | 20 | 19 .. 16 | 15 .. 12 | 11 .. 8 | 7 .. 4 | 3 .. 0
    ///   00001  | U  | A  | S  |   Rd hi  |   Rd lo  |   Rs    |  1001  |  Rm
    pub open spec fn spec_parse_instruction(ins: u32) -> MultiplyLong {
        MultiplyLong {
            is_signed: spec_get_bit(ins, 22),
            accumulate: spec_get_bit(ins, 21),
            set_flags: spec_get_bit(ins, 20),
            rdhi: spec_get_nibble(ins, 16) as usize,
            rdlo: spec_get_nibble(ins, 12) as usize,
            rs: spec_get_nibble(ins, 8) as usize,
            rm: spec_get_nibble(ins, 0) as usize,
        }
    }

    #[verifier::when_used_as_spec(spec_parse_instruction)]
    pub fn parse_instruction(ins: u32) -> (r: MultiplyLong)
        ensures
            r == MultiplyLong::spec_parse_instruction(ins),
    {
        MultiplyLong {
            is_signed: get_bit(ins, 22),
            accumulate: get_bit(ins, 21),
            set_flags: get_bit(ins, 20),
            rdhi: get_nibble(ins, 16) as usize,
            rdlo: get_nibble(ins, 12) as usize,
            rs: get_nibble(ins, 8) as usize,
            rm: get_nibble(ins, 0) as usize,
        }
    }

    /// None of the four registers may be R15, and all four must differ.
    pub open spec fn spec_check(&self, cpu: &CPU) -> Option<CpuError> {
        if cpu.cpsr.mode == CPUMode::INVALID {
            Some(CpuError::InvalidMode)
        } else if self.rm >= 15 || self.rs >= 15 || self.rdhi >= 15 || self.rdlo >= 15 {
            Some(CpuError::IllegalRegisterUse)
        } else if self.rdhi == self.rdlo || self.rdhi == self.rm || self.rdlo == self.rm
            || self.rdhi == self.rs || self.rdlo == self.rs || self.rm == self.rs {
            Some(CpuError::IllegalRegisterUse)
        } else {
            None
        }
    }

    /// The 64 bit result for the registers of `cpu`; the accumulator is
    /// RdHi:RdLo where the instruction accumulates, else 0.
    pub open spec fn spec_result(&self, cpu: &CPU) -> u64 {
        spec_long_product(
            self.is_signed,
            cpu.spec_get_reg(self.rm),
            cpu.spec_get_reg(self.rs),
            if self.accumulate {
                (cpu.spec_get_reg(self.rdhi) * 0x1_0000_0000 + cpu.spec_get_reg(self.rdlo)) as u64
            } else {
                0
            },
        )
    }

    /// The processor after the multiplication: RdHi and RdLo hold the upper
    /// and lower half of the result, and with S set N is bit 63 of the
    /// result and Z says whether all 64 bits are 0.
    #[verifier::opaque]
    pub open spec fn spec_run(&self, cpu: CPU) -> CPU {
        let result = self.spec_result(&cpu);
        let written = cpu.spec_set_reg(self.rdhi, (result / 0x1_0000_0000) as u32).spec_set_reg(
            self.rdlo,
            (result % 0x1_0000_0000) as u32,
        );
        if self.set_flags {
            written.spec_set_nz(result >= 0x8000_0000_0000_0000, result == 0)
        } else {
            written
        }
    }

    /// The fetch, the cycles of the multiplier array for the value of Rs,
    /// and one more to accumulate.
    pub open spec fn spec_cycles(&self, cpu: CPU) -> u32 {
        (cpu.mem.spec_access_time(cpu.r[15], false) + spec_mul_cycle_time(
            cpu.spec_get_reg(self.rs),
        ) + (if self.accumulate {
            1int
        } else {
            0
        })) as u32
    }

    pub fn run(&self, cpu: &mut CPU) -> (r: Result<u32, CpuError>)
        ensures
            match r {
                Ok(cycles) => self.spec_check(old(cpu)) is None && *final(cpu) == self.spec_run(
                    *old(cpu),
                ) && cycles == self.spec_cycles(*old(cpu)),
                Err(e) => self.spec_check(old(cpu)) == Some(e) && *final(cpu) == *old(cpu),
            },
            old(cpu).mem.registers_agree() ==> final(cpu).mem.registers_agree(),
            old(cpu).status_wf() ==> final(cpu).status_wf(),
    {
        if cpu.cpsr.mode == CPUMode::INVALID {
            return Err(CpuError::InvalidMode);
        }
        if self.rm >= 15 || self.rs >= 15 || self.rdhi >= 15 || self.rdlo >= 15 {
            return Err(CpuError::IllegalRegisterUse);
        }
        if self.rdhi == self.rdlo || self.rdhi == self.rm || self.rdlo == self.rm || self.rdhi
            == self.rs || self.rdlo == self.rs || self.rm == self.rs {
            return Err(CpuError::IllegalRegisterUse);
        }
        proof {
            reveal(MultiplyLong::spec_run);
        }
        let summand: u64 = if self.accumulate {
            (cpu.get_reg(self.rdhi) as u64) * 0x1_0000_0000 + (cpu.get_reg(self.rdlo) as u64)
        } else {
            0
        };
        let multiplier = cpu.get_reg(self.rs);
        let result = long_product(self.is_signed, cpu.get_reg(self.rm), multiplier, summand);
        let cycles = cpu.mem.access_time(cpu.r[15], false) + mul_cycle_time(multiplier) + if self.accumulate {
            1
        } else {
            0
        };
        cpu.set_reg(self.rdhi, (result / 0x1_0000_0000) as u32);
        cpu.set_reg(self.rdlo, (result % 0x1_0000_0000) as u32);
        if self.set_flags {
            cpu.set_nz(result >= 0x8000_0000_0000_0000, result == 0);
        }
        Ok(cycles)
    }
}

} // verus!
