//! Branch and branch with link.

use vstd::prelude::*;
use crate::cpu::status_reg::CPUMode;
use crate::cpu::{CpuError, CPU};
use crate::util::{get_bit, lemma_mask_u32, spec_get_bit};

verus! {

/// This instruction specifies a jump of +/- 32Mbytes. The branch offset must take
/// account of the prefetch operation, which causes the PC to be 1/2 words ahead of
/// the current instruction (for THUMB/ARM)
#[derive(Clone, Copy, Debug, PartialEq, Eq, Structural)]
pub struct Branch {
    /// signed offset from the PC
    pub offset: i32,
    /// branch with link writes the old PC (adjusted for prefetch) into the link
    /// register and contains the address of the instruction following this
    /// instruction
    pub link: bool,
}

/// The offset in bytes that a 24 bit offset field stands for: the field is
/// a two's complement number of words.
pub open spec fn spec_branch_offset(field: u32) -> int {
    (if field >= 0x80_0000 {
        field - 0x100_0000
    } else {
        field as int
    }) * 4
}

/// The instruction word of a branch: the condition in bits 31..28, the
/// format 101 in bits 27..25, the link bit, and the offset in words as a 24
/// bit two's complement number.
pub open spec fn spec_encode_branch(cond: u32, offset: int, link: bool) -> u32 {
    let field: u32 = (if offset < 0 {
        offset / 4 + 0x100_0000
    } else {
        offset / 4
    }) as u32;
    (cond << 28) | 0x0A00_0000u32 | (if link {
        0x0100_0000u32
    } else {
        0
    }) | field
}

/// How the fields of a branch lie in its instruction word.
pub proof fn lemma_branch_fields(cond: u32, link: bool, field: u32)
    by (bit_vector)
    requires
        field <= 0xFF_FFFF,
    ensures
        ((cond << 28) | 0x0A00_0000u32 | (if link {
            0x0100_0000u32
        } else {
            0
        }) | field) & 0xFF_FFFF == field,
        (((((cond << 28) | 0x0A00_0000u32 | (if link {
            0x0100_0000u32
        } else {
            0
        }) | field) >> 24u8) & 1) == 1) == link,
{
}

impl Branch {
    /// parses the following format:
    /// 27 .. 25 | 24 | 23 .. 0
    ///    101   | L  | offset
    pub open spec fn spec_parse_instruction(ins: u32) -> Branch {
        Branch { offset: spec_branch_offset(ins & 0xFF_FFFF) as i32, link: spec_get_bit(ins, 24) }
    }

    #[verifier::when_used_as_spec(spec_parse_instruction)]
    pub fn parse_instruction(ins: u32) -> (r: Branch)
        ensures
            r == Branch::spec_parse_instruction(ins),
    {
        // the offset is interpreted as a signed 2's complement 24 bit offset
        // which is shifted left two bits and then sign extended to 32 bits
        proof {
            lemma_mask_u32(ins, 0xFF_FFFF);
        }
        let field: i32 = (ins & 0xFF_FFFF) as i32;
        Branch {
            offset: (if field >= 0x80_0000 {
                field - 0x100_0000
            } else {
                field
            }) * 4,
            link: get_bit(ins, 24),
        }
    }

    /// Parsing undoes encoding: a branch whose offset is a multiple of 4
    /// within reach is what its instruction word parses to, under any
    /// condition.
    pub proof fn law_parse_inverts_encode(self, cond: u32)
        requires
            -0x200_0000 <= self.offset < 0x200_0000,
            self.offset % 4 == 0,
        ensures
            Branch::spec_parse_instruction(spec_encode_branch(cond, self.offset as int, self.link))
                == self,
    {
        let field: u32 = (if self.offset < 0 {
            self.offset / 4 + 0x100_0000
        } else {
            self.offset / 4
        }) as u32;
        lemma_branch_fields(cond, self.link, field);
    }

    pub open spec fn spec_check(&self, cpu: &CPU) -> Option<CpuError> {
        if cpu.cpsr.mode == CPUMode::INVALID {
            Some(CpuError::InvalidMode)
        } else {
            None
        }
    }

    /// The processor after the branch: with link, R14 holds the program
    /// counter less one instruction; the program counter has moved by the
    /// offset and the pipeline is to be flushed.
    #[verifier::opaque]
    pub open spec fn spec_run(&self, cpu: CPU) -> CPU {
        (if self.link {
            cpu.spec_set_reg(14, cpu.r[15].wrapping_sub(cpu.spec_instruction_size()))
        } else {
            cpu
        }).spec_modify_pc(self.offset as i64)
    }

    /// One non sequential and two sequential fetches: the branch itself and
    /// the refill of the pipeline at the target.
    pub open spec fn spec_cycles(&self, cpu: CPU) -> u32 {
        let target = self.spec_run(cpu).r[15];
        (cpu.mem.spec_access_time(cpu.r[15], false) + cpu.mem.spec_access_time(target, true)
            + cpu.mem.spec_access_time(target.wrapping_add(4), false)) as u32
    }

    pub fn run(&self, cpu: &mut CPU) -> (r: Result<u32, CpuError>)
        ensures
            match r {
                Ok(cycles) => self.spec_check(old(cpu)) is None && *final(cpu) == self.spec_run(
                    *old(cpu),
                ) && cycles == self.spec_cycles(*old(cpu)),
                Err(e) => self.spec_check(old(cpu)) == Some(e) && *final(cpu) == *old(cpu),
            },
            old(cpu).mem.registers_agree() ==> final(cpu).mem.registers_agree(),
            old(cpu).status_wf() ==> final(cpu).status_wf(),
    {
        if cpu.cpsr.mode == CPUMode::INVALID {
            return Err(CpuError::InvalidMode);
        }
        proof {
            reveal(Branch::spec_run);
        }
        let old_pc = cpu.r[15];
        if self.link {
            let ret = old_pc.wrapping_sub(cpu.instruction_size());
            cpu.set_reg(14, ret);
        }
        cpu.modify_pc(self.offset as i64);
        // 1N + 2S
        Ok(
            cpu.mem.access_time(old_pc, false) + cpu.mem.access_time(cpu.r[15], true)
                + cpu.mem.access_time(cpu.r[15].wrapping_add(4), false),
        )
    }
}

impl Branch {
    /// Every branch asks for a pipeline flush.
    pub proof fn lemma_branch_flushes(&self, cpu: CPU)
        ensures
            self.spec_run(cpu).should_flush,
    {
        reveal(Branch::spec_run);
        reveal(CPU::spec_modify_pc);
    }
}

} // verus!
