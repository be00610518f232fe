//! Software interrupt.

use vstd::prelude::*;
use crate::cpu::{CpuError, InterruptType, CPU};

verus! {

/// Cause a software interrupt trap to be taken, which switches to Supervisor mode,
/// changes the PC to a fixed value (0x08), and saves the CPSR
#[derive(Clone, Copy, Debug, PartialEq, Eq, Structural)]
pub struct SWInterrupt {
    pub comment: u32,
}

impl SWInterrupt {
    pub open spec fn spec_parse_instruction(ins: u32) -> SWInterrupt {
        SWInterrupt { comment: ins & 0xFF_FFFF }
    }

    #[verifier::when_used_as_spec(spec_parse_instruction)]
    pub fn parse_instruction(ins: u32) -> (r: SWInterrupt)
        ensures
            r == SWInterrupt::spec_parse_instruction(ins),
    {
        SWInterrupt { comment: ins & 0xFF_FFFF }
    }

    /// The processor after the trap was taken; the comment field plays no part.
    pub open spec fn spec_run(&self, cpu: CPU) -> CPU {
        cpu.spec_handle_interrupt(InterruptType::SWI)
    }

    /// The refill of the pipeline at the vector.
    pub open spec fn spec_cycles(&self, cpu: CPU) -> u32 {
        let after = self.spec_run(cpu);
        (after.mem.spec_access_time(after.r[15], true) + after.mem.spec_access_time(
            after.r[15].wrapping_add(4),
            false,
        )) as u32
    }

    /// Take the trap. This never fails.
    pub fn run(&self, cpu: &mut CPU) -> (r: Result<u32, CpuError>)
        ensures
            r == Ok::<u32, CpuError>(self.spec_cycles(*old(cpu))),
            *final(cpu) == self.spec_run(*old(cpu)),
            old(cpu).mem.registers_agree() ==> final(cpu).mem.registers_agree(),
            old(cpu).status_wf() ==> final(cpu).status_wf(),
    {
        cpu.handle_interrupt(InterruptType::SWI);
        Ok(
            cpu.mem.access_time(cpu.r[15], true) + cpu.mem.access_time(
                cpu.r[15].wrapping_add(4),
                false,
            ),
        )
    }
}

} // verus!
