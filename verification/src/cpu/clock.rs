//! The wall clock: steps are run until the cycles of a phase of the display
//! have passed, and the display hooks are called at the scanline boundaries.
//! The lengths of the phases are the display's to say.

use vstd::prelude::*;
use crate::cpu::wrapper::CPUWrapper;
use crate::cpu::{CpuError, CPU};
use crate::mem::Memory;

verus! {

/// the scanlines that are drawn
pub const VISIBLE_LINES: u8 = 160;

/// the scanlines of a frame, drawn and blank
pub const TOTAL_LINES: u8 = 228;

impl CPUWrapper {
    /// The wrapper with its memory replaced.
    #[verifier::opaque]
    pub open spec fn spec_with_mem(self, mem: Memory) -> CPUWrapper {
        CPUWrapper { cpu: CPU { mem, ..self.cpu }, ..self }
    }

    /// What the next step counts against a budget of cycles: the cycles of
    /// its execute stage, and 1 where that stage costs nothing.
    pub open spec fn spec_step_cost(self) -> nat {
        if self.spec_step_cycles() == 0 {
            1
        } else {
            self.spec_step_cycles() as nat
        }
    }

    /// The wrapper after steps were run until `budget` cycles were used up,
    /// or, where a step fails, the wrapper before that step and the error.
    #[verifier::opaque]
    pub open spec fn spec_run_for(self, budget: nat) -> (CPUWrapper, Option<CpuError>)
        decreases budget,
    {
        if budget == 0 {
            (self, None)
        } else if self.spec_step_error() is Some {
            (self, self.spec_step_error())
        } else if budget > self.spec_step_cost() {
            self.spec_step().spec_run_for((budget - self.spec_step_cost()) as nat)
        } else {
            self.spec_step().spec_run_for(0)
        }
    }

    /// Run steps until at least `cycles` cycles have passed. A step that
    /// fails ends the run with its error and leaves the processor as it
    /// was before that step.
    pub fn run_for(&mut self, cycles: u32) -> (r: Result<(), CpuError>)
        ensures
            match r {
                Ok(_) => old(self).spec_run_for(cycles as nat).1 is None && *final(self) == old(self).spec_run_for(cycles as nat).0,
                Err(e) => old(self).spec_run_for(cycles as nat).1 == Some(e) && final(self).cpu
                    == old(self).spec_run_for(cycles as nat).0.cpu,
            },
            old(self).cpu.mem.registers_agree() ==> final(self).cpu.mem.registers_agree(),
            old(self).cpu.status_wf() ==> final(self).cpu.status_wf(),
    {
        let mut left: u32 = cycles;
        while left > 0
            invariant
                old(self).cpu.mem.registers_agree() ==> self.cpu.mem.registers_agree(),
                old(self).cpu.status_wf() ==> self.cpu.status_wf(),
                self.spec_run_for(left as nat) == old(self).spec_run_for(cycles as nat),
            decreases left,
        {
            proof {
                reveal(CPUWrapper::spec_run_for);
            }
            match self.step_counted() {
                Err(e) => {
                    return Err(e);
                },
                Ok((flushed, spent)) => {
                    let cost: u32 = if spent == 0 {
                        1
                    } else {
                        spent
                    };
                    left = if left > cost {
                        left - cost
                    } else {
                        0
                    };
                },
            }
        }
        proof {
            reveal(CPUWrapper::spec_run_for);
        }
        Ok(())
    }

    /// The wrapper as a scanline starts: the line counter has moved on, the
    /// first drawn line and every drawn line after it leave the vertical
    /// blank, the line after the last drawn one enters it, and the drawn
    /// part of the line begins.
    #[verifier::opaque]
    pub open spec fn spec_start_line(self, line: u8) -> CPUWrapper {
        let counted = self.cpu.mem.spec_on_vcount_hook(line);
        self.spec_with_mem(
            (if line < VISIBLE_LINES {
                counted.spec_on_vdraw_hook()
            } else if line == VISIBLE_LINES {
                counted.spec_on_vblank_hook()
            } else {
                counted
            }).spec_on_hdraw_hook(),
        )
    }

    pub fn start_line(&mut self, line: u8)
        ensures
            *final(self) == old(self).spec_start_line(line),
            old(self).cpu.mem.registers_agree() ==> final(self).cpu.mem.registers_agree(),
            old(self).cpu.status_wf() ==> final(self).cpu.status_wf(),
    {
        reveal(CPUWrapper::spec_start_line);
        reveal(CPUWrapper::spec_with_mem);
        self.cpu.mem.on_vcount_hook(line);
        if line < VISIBLE_LINES {
            self.cpu.mem.on_vdraw_hook();
        } else if line == VISIBLE_LINES {
            self.cpu.mem.on_vblank_hook();
        }
        self.cpu.mem.on_hdraw_hook();
    }

    /// The wrapper as the horizontal blank of a scanline starts: the blank
    /// begins, and the pixels of a drawn line are put in the frame buffer.
    #[verifier::opaque]
    pub open spec fn spec_start_hblank(self, line: u8) -> CPUWrapper {
        let blank = self.cpu.mem.spec_on_hblank_hook();
        self.spec_with_mem(
            if line < VISIBLE_LINES {
                blank.spec_update_row_from(line as u32, 0)
            } else {
                blank
            },
        )
    }

    pub fn start_hblank(&mut self, line: u8)
        ensures
            *final(self) == old(self).spec_start_hblank(line),
            old(self).cpu.mem.registers_agree() ==> final(self).cpu.mem.registers_agree(),
            old(self).cpu.status_wf() ==> final(self).cpu.status_wf(),
    {
        reveal(CPUWrapper::spec_start_hblank);
        reveal(CPUWrapper::spec_with_mem);
        self.cpu.mem.on_hblank_hook();
        if line < VISIBLE_LINES {
            self.cpu.mem.update_row(line as u32);
        }
    }

    /// The wrapper after one scanline: the line starts, steps run for the
    /// cycles of its drawn part, the horizontal blank starts, and steps run
    /// for the cycles of the blank. Where a step fails, the wrapper before
    /// that step and the error.
    #[verifier::opaque]
    pub open spec fn spec_scanline(self, line: u8, hdraw: u32, hblank: u32) -> (
        CPUWrapper,
        Option<CpuError>,
    ) {
        let drawn = self.spec_start_line(line).spec_run_for(hdraw as nat);
        if drawn.1 is Some {
            drawn
        } else {
            drawn.0.spec_start_hblank(line).spec_run_for(hblank as nat)
        }
    }

    pub fn scanline(&mut self, line: u8, hdraw: u32, hblank: u32) -> (r: Result<(), CpuError>)
        ensures
            match r {
                Ok(_) => old(self).spec_scanline(line, hdraw, hblank).1 is None && *final(self)
                    == old(self).spec_scanline(line, hdraw, hblank).0,
                Err(e) => old(self).spec_scanline(line, hdraw, hblank).1 == Some(e) && final(self).cpu == old(self).spec_scanline(line, hdraw, hblank).0.cpu,
            },
            old(self).cpu.mem.registers_agree() ==> final(self).cpu.mem.registers_agree(),
            old(self).cpu.status_wf() ==> final(self).cpu.status_wf(),
    {
        reveal(CPUWrapper::spec_scanline);
        self.start_line(line);
        match self.run_for(hdraw) {
            Err(e) => {
                return Err(e);
            },
            Ok(_) => {},
        }
        self.start_hblank(line);
        self.run_for(hblank)
    }

    /// The wrapper after the scanlines from `line` on were run, or, where
    /// a step fails, the wrapper before that step and the error.
    #[verifier::opaque]
    pub open spec fn spec_frame_from(self, line: nat, hdraw: u32, hblank: u32) -> (
        CPUWrapper,
        Option<CpuError>,
    )
        decreases TOTAL_LINES - line,
    {
        if line >= TOTAL_LINES {
            (self, None)
        } else if self.spec_scanline(line as u8, hdraw, hblank).1 is Some {
            self.spec_scanline(line as u8, hdraw, hblank)
        } else {
            self.spec_scanline(line as u8, hdraw, hblank).0.spec_frame_from(
                line + 1,
                hdraw,
                hblank,
            )
        }
    }

    /// Run one video frame: 160 drawn scanlines and 68 blank ones, each
    /// with a drawn part of `hdraw` cycles and a horizontal blank of
    /// `hblank` cycles. A step that fails ends the frame with its error
    /// and leaves the processor as it was before that step.
    pub fn frame(&mut self, hdraw: u32, hblank: u32) -> (r: Result<(), CpuError>)
        ensures
            match r {
                Ok(_) => old(self).spec_frame_from(0, hdraw, hblank).1 is None && *final(self)
                    == old(self).spec_frame_from(0, hdraw, hblank).0,
                Err(e) => old(self).spec_frame_from(0, hdraw, hblank).1 == Some(e) && final(self).cpu == old(self).spec_frame_from(0, hdraw, hblank).0.cpu,
            },
            old(self).cpu.mem.registers_agree() ==> final(self).cpu.mem.registers_agree(),
            old(self).cpu.status_wf() ==> final(self).cpu.status_wf(),
    {
        let mut line: u8 = 0;
        while line < TOTAL_LINES
            invariant
                line <= TOTAL_LINES,
                old(self).cpu.mem.registers_agree() ==> self.cpu.mem.registers_agree(),
                old(self).cpu.status_wf() ==> self.cpu.status_wf(),
                self.spec_frame_from(line as nat, hdraw, hblank) == old(self).spec_frame_from(
                    0,
                    hdraw,
                    hblank,
                ),
            decreases TOTAL_LINES - line,
        {
            proof {
                reveal(CPUWrapper::spec_frame_from);
            }
            match self.scanline(line, hdraw, hblank) {
                Err(e) => {
                    return Err(e);
                },
                Ok(_) => {},
            }
            line += 1;
        }
        proof {
            reveal(CPUWrapper::spec_frame_from);
        }
        Ok(())
    }
}

} // verus!
