//! The pipeline driver: fetch, decode and execute rotate through three
//! slots, and every step ends with the DMA and the interrupt check.

use vstd::prelude::*;
use vstd::array::spec_array_update;
use crate::cpu::pipeline::{
    decode_arm, decode_thumb, satisfies_cond, spec_decode_arm, spec_decode_thumb,
    spec_satisfies_cond, Instruction, PipelineInstruction,
};
use crate::cpu::status_reg::InstructionSet;
use crate::cpu::{CpuError, CPU};
use crate::mem::io::dma::TimingMode;
use crate::util::{get_nibble, spec_get_nibble};

verus! {

impl Instruction {
    /// Why the instruction cannot run on `cpu`, if it cannot.
    pub open spec fn spec_check(&self, cpu: &CPU) -> Option<CpuError> {
        match *self {
            Instruction::DataProc(ins) => ins.spec_check(cpu),
            Instruction::PSRTransfer(ins) => ins.spec_check(cpu),
            Instruction::Multiply(ins) => ins.spec_check(cpu),
            Instruction::MultiplyLong(ins) => ins.spec_check(cpu),
            Instruction::SwapTransfer(ins) => ins.spec_check(cpu),
            Instruction::SingleTransfer(ins) => ins.spec_check(cpu),
            Instruction::SignedTransfer(ins) => ins.spec_check(cpu),
            Instruction::BlockTransfer(ins) => ins.spec_check(cpu),
            Instruction::Branch(ins) => ins.spec_check(cpu),
            Instruction::BranchEx(ins) => ins.spec_check(cpu),
            Instruction::SWInterrupt(ins) => None,
            Instruction::CondBranch(ins) => ins.spec_check(cpu),
            Instruction::LongBranch(ins) => ins.spec_check(cpu),
        }
    }

    /// The processor after the instruction ran.
    #[verifier::opaque]
    pub open spec fn spec_run(&self, cpu: CPU) -> CPU {
        match *self {
            Instruction::DataProc(ins) => ins.spec_run(cpu),
            Instruction::PSRTransfer(ins) => ins.spec_run(cpu),
            Instruction::Multiply(ins) => ins.spec_run(cpu),
            Instruction::MultiplyLong(ins) => ins.spec_run(cpu),
            Instruction::SwapTransfer(ins) => ins.spec_run(cpu),
            Instruction::SingleTransfer(ins) => ins.spec_run(cpu),
            Instruction::SignedTransfer(ins) => ins.spec_run(cpu),
            Instruction::BlockTransfer(ins) => ins.spec_run(cpu),
            Instruction::Branch(ins) => ins.spec_run(cpu),
            Instruction::BranchEx(ins) => ins.spec_run(cpu),
            Instruction::SWInterrupt(ins) => ins.spec_run(cpu),
            Instruction::CondBranch(ins) => ins.spec_run(cpu),
            Instruction::LongBranch(ins) => ins.spec_run(cpu),
        }
    }

    /// The cycles that the instruction takes.
    #[verifier::opaque]
    pub open spec fn spec_cycles(&self, cpu: CPU) -> u32 {
        match *self {
            Instruction::DataProc(ins) => ins.spec_cycles(cpu),
            Instruction::PSRTransfer(ins) => ins.spec_cycles(cpu),
            Instruction::Multiply(ins) => ins.spec_cycles(cpu),
            Instruction::MultiplyLong(ins) => ins.spec_cycles(cpu),
            Instruction::SwapTransfer(ins) => ins.spec_cycles(cpu),
            Instruction::SingleTransfer(ins) => ins.spec_cycles(cpu),
            Instruction::SignedTransfer(ins) => ins.spec_cycles(cpu),
            Instruction::BlockTransfer(ins) => ins.spec_cycles(cpu),
            Instruction::Branch(ins) => ins.spec_cycles(cpu),
            Instruction::BranchEx(ins) => ins.spec_cycles(cpu),
            Instruction::SWInterrupt(ins) => ins.spec_cycles(cpu),
            Instruction::CondBranch(ins) => ins.spec_cycles(cpu),
            Instruction::LongBranch(ins) => ins.spec_cycles(cpu),
        }
    }

    /// Run the instruction, whatever its kind.
    pub fn run(&self, cpu: &mut CPU) -> (r: Result<u32, CpuError>)
        ensures
            match r {
                Ok(cycles) => self.spec_check(old(cpu)) is None && *final(cpu) == self.spec_run(
                    *old(cpu),
                ) && cycles == self.spec_cycles(*old(cpu)),
                Err(e) => self.spec_check(old(cpu)) == Some(e) && *final(cpu) == *old(cpu),
            },
            old(cpu).mem.registers_agree() ==> final(cpu).mem.registers_agree(),
            old(cpu).status_wf() ==> final(cpu).status_wf(),
    {
        reveal(Instruction::spec_run);
        reveal(Instruction::spec_cycles);
        match self {
            Instruction::DataProc(ins) => ins.run(cpu),
            Instruction::PSRTransfer(ins) => ins.run(cpu),
            Instruction::Multiply(ins) => ins.run(cpu),
            Instruction::MultiplyLong(ins) => ins.run(cpu),
            Instruction::SwapTransfer(ins) => ins.run(cpu),
            Instruction::SingleTransfer(ins) => ins.run(cpu),
            Instruction::SignedTransfer(ins) => ins.run(cpu),
            Instruction::BlockTransfer(ins) => ins.run(cpu),
            Instruction::Branch(ins) => ins.run(cpu),
            Instruction::BranchEx(ins) => ins.run(cpu),
            Instruction::SWInterrupt(ins) => ins.run(cpu),
            Instruction::CondBranch(ins) => ins.run(cpu),
            Instruction::LongBranch(ins) => ins.run(cpu),
        }
    }
}

/// A wrapper struct that keeps the inner CPU and pipeline in separate fields
/// to allow for splitting the borrow when executing an instruction
pub struct CPUWrapper {
    pub cpu: CPU,
    /// since we only need to keep track of the last 3 elements
    /// of the pipeline at a time (the latest fetched instruction, the latest
    /// decoded instruction, and the next decoded instruction to execute), we
    /// use a circular buffer of size 3
    pub pipeline: [PipelineInstruction; 3],
    /// index into the circular buffer; only its remainder by 3 counts
    pub idx: usize,
    /// the cycles that the execute stage has taken so far, modulo 2^64
    pub cycles: u64,
}

impl CPUWrapper {
    /// The slot that the next fetch fills.
    pub open spec fn fetch_slot(&self) -> int {
        (self.idx % 3) as int
    }

    /// The slot that the next decode works on: the one fetched a step before.
    pub open spec fn decode_slot(&self) -> int {
        ((self.idx % 3 + 2) % 3) as int
    }

    /// The slot that the next execute runs: the one fetched two steps before.
    pub open spec fn execute_slot(&self) -> int {
        ((self.idx % 3 + 1) % 3) as int
    }

    /// All three slots are empty and the cursor stands at the first.
    pub open spec fn is_flushed(&self) -> bool {
        &&& self.idx == 0
        &&& forall|i: int| 0 <= i < 3 ==> self.pipeline[i] == PipelineInstruction::Empty
    }

    /// Initialize CPU values assuming boot from GBA BIOS. In particular, with
    /// all regs zeroed out, and with CPSR in ARM and SVC modes with IRQ/FIQ bits
    /// set.
    pub fn new() -> (r: CPUWrapper)
        ensures
            r.cpu.is_reset(),
            r.cpu.status_wf(),
            r.cpu.mem.registers_agree(),
            r.is_flushed(),
            r.cycles == 0,
    {
        CPUWrapper {
            cpu: CPU::new(),
            pipeline: [
                PipelineInstruction::Empty,
                PipelineInstruction::Empty,
                PipelineInstruction::Empty,
            ],
            idx: 0,
            cycles: 0,
        }
    }

    /// The wrapper after a fetch: the fetch slot holds the halfword (in
    /// THUMB state) or the word (in ARM state) at the program counter.
    #[verifier::opaque]
    pub open spec fn spec_fetch(self) -> CPUWrapper {
        CPUWrapper {
            pipeline: spec_array_update(
                self.pipeline,
                self.fetch_slot(),
                if self.cpu.cpsr.isa == InstructionSet::THUMB {
                    PipelineInstruction::RawTHUMB(self.cpu.mem.spec_get_halfword(self.cpu.r[15]))
                } else {
                    PipelineInstruction::RawARM(self.cpu.mem.spec_get_word(self.cpu.r[15]))
                },
            ),
            ..self
        }
    }

    pub fn fetch(&mut self)
        ensures
            *final(self) == old(self).spec_fetch(),
            final(self).cpu == old(self).cpu,
            old(self).cpu.mem.registers_agree() ==> final(self).cpu.mem.registers_agree(),
            old(self).cpu.status_wf() ==> final(self).cpu.status_wf(),
    {
        reveal(CPUWrapper::spec_fetch);
        let pc = self.cpu.r[15];
        self.pipeline[self.idx % 3] = match self.cpu.cpsr.isa {
            InstructionSet::THUMB => PipelineInstruction::RawTHUMB(self.cpu.mem.get_halfword(pc)),
            InstructionSet::ARM => PipelineInstruction::RawARM(self.cpu.mem.get_word(pc)),
        };
    }

    /// Why the decode slot cannot be decoded, if it cannot: it holds an ARM
    /// word that stands for no instruction.
    pub open spec fn spec_decode_error(&self) -> Option<CpuError> {
        match self.pipeline[self.decode_slot()] {
            PipelineInstruction::RawARM(n) => if spec_decode_arm(n) is None {
                Some(CpuError::InvalidInstruction)
            } else {
                None
            },
            _ => None,
        }
    }

    /// What decoding makes of a slot: an ARM word becomes its instruction
    /// under the condition in its top nibble, a THUMB halfword its
    /// instruction under no condition; every other slot stays as it is.
    pub open spec fn spec_decoded(slot: PipelineInstruction) -> PipelineInstruction {
        match slot {
            PipelineInstruction::RawARM(n) => match spec_decode_arm(n) {
                Some(ins) => PipelineInstruction::Decoded(Some(spec_get_nibble(n, 28)), ins),
                None => slot,
            },
            PipelineInstruction::RawTHUMB(n) => PipelineInstruction::Decoded(
                None,
                spec_decode_thumb(n),
            ),
            _ => slot,
        }
    }

    /// The wrapper after the decode slot was decoded.
    #[verifier::opaque]
    pub open spec fn spec_decode(self) -> CPUWrapper {
        CPUWrapper {
            pipeline: spec_array_update(
                self.pipeline,
                self.decode_slot(),
                CPUWrapper::spec_decoded(self.pipeline[self.decode_slot()]),
            ),
            ..self
        }
    }

    /// decode the next instruction and save the condition (if any) in the Decoded
    /// enum so that execute() can check if it is satisfied later
    pub fn decode(&mut self) -> (r: Result<(), CpuError>)
        ensures
            match r {
                Ok(_) => old(self).spec_decode_error() is None && *final(self) == old(
                    self,
                ).spec_decode(),
                Err(e) => old(self).spec_decode_error() == Some(e) && *final(self) == *old(self),
            },
            final(self).cpu == old(self).cpu,
            old(self).cpu.mem.registers_agree() ==> final(self).cpu.mem.registers_agree(),
            old(self).cpu.status_wf() ==> final(self).cpu.status_wf(),
    {
        reveal(CPUWrapper::spec_decode);
        // index of the second element from the end
        let idx: usize = (self.idx % 3 + 2) % 3;
        match self.pipeline[idx] {
            PipelineInstruction::RawARM(n) => {
                let cond = get_nibble(n, 28);
                match decode_arm(n) {
                    Some(ins) => {
                        self.pipeline[idx] = PipelineInstruction::Decoded(Some(cond), ins);
                    },
                    None => {
                        return Err(CpuError::InvalidInstruction);
                    },
                }
            },
            PipelineInstruction::RawTHUMB(n) => {
                self.pipeline[idx] = PipelineInstruction::Decoded(None, decode_thumb(n));
            },
            _ => {
                assert(spec_array_update(self.pipeline, idx as int, self.pipeline[idx as int])
                    =~= self.pipeline);
            },
        }
        Ok(())
    }

    /// Whether the execute slot holds an instruction that will run: it is
    /// decoded, and its condition, if it has one, holds.
    pub open spec fn will_execute(&self) -> bool {
        match self.pipeline[self.execute_slot()] {
            PipelineInstruction::Decoded(cond, ins) => match cond {
                Some(c) => spec_satisfies_cond(&self.cpu.cpsr, c),
                None => true,
            },
            _ => false,
        }
    }

    /// Why the execute slot cannot be executed, if it cannot: its condition
    /// names no condition, or its instruction cannot run.
    pub open spec fn spec_execute_error(&self) -> Option<CpuError> {
        match self.pipeline[self.execute_slot()] {
            PipelineInstruction::Decoded(cond, ins) => if cond is Some && cond->0 > 14 {
                Some(CpuError::InvalidInstruction)
            } else if self.will_execute() {
                ins.spec_check(&self.cpu)
            } else {
                None
            },
            _ => None,
        }
    }

    /// The wrapper after the execute slot was executed: its instruction
    /// has run if it will execute, else nothing has changed.
    #[verifier::opaque]
    pub open spec fn spec_execute(self) -> CPUWrapper {
        match self.pipeline[self.execute_slot()] {
            PipelineInstruction::Decoded(cond, ins) => if self.will_execute() {
                CPUWrapper { cpu: ins.spec_run(self.cpu), ..self }
            } else {
                self
            },
            _ => self,
        }
    }

    /// The cycles of the execute stage: those of the instruction if it
    /// runs, and one for a skipped instruction or an empty slot.
    pub open spec fn spec_execute_cycles(&self) -> u32 {
        match self.pipeline[self.execute_slot()] {
            PipelineInstruction::Decoded(cond, ins) => if self.will_execute() {
                ins.spec_cycles(self.cpu)
            } else {
                1
            },
            _ => 1,
        }
    }

    pub fn execute(&mut self) -> (r: Result<u32, CpuError>)
        ensures
            match r {
                Ok(cycles) => old(self).spec_execute_error() is None && *final(self) == old(
                    self,
                ).spec_execute() && cycles == old(self).spec_execute_cycles(),
                Err(e) => old(self).spec_execute_error() == Some(e) && *final(self) == *old(self),
            },
            !old(self).will_execute() ==> final(self).cpu == old(self).cpu,
            final(self).pipeline == old(self).pipeline,
            final(self).idx == old(self).idx,
            final(self).cycles == old(self).cycles,
            old(self).cpu.mem.registers_agree() ==> final(self).cpu.mem.registers_agree(),
            old(self).cpu.status_wf() ==> final(self).cpu.status_wf(),
    {
        reveal(CPUWrapper::spec_execute);
        // index of the third element from the end
        let idx: usize = (self.idx % 3 + 1) % 3;
        match self.pipeline[idx] {
            PipelineInstruction::Decoded(cond, ins) => {
                match cond {
                    Some(c) => {
                        if c > 14 {
                            return Err(CpuError::InvalidInstruction);
                        }
                        if !satisfies_cond(&self.cpu.cpsr, c) {
                            return Ok(1);
                        }
                    },
                    None => {},
                }
                ins.run(&mut self.cpu)
            },
            _ => Ok(1),
        }
    }

    /// The wrapper with the cycle count moved on.
    #[verifier::opaque]
    pub open spec fn spec_count_cycles(self, cycles: u32) -> CPUWrapper {
        CPUWrapper { cycles: self.cycles.wrapping_add(cycles as u64), ..self }
    }

    pub fn count_cycles(&mut self, cycles: u32)
        ensures
            *final(self) == old(self).spec_count_cycles(cycles),
            final(self).cpu == old(self).cpu,
            final(self).pipeline == old(self).pipeline,
            final(self).idx == old(self).idx,
            old(self).cpu.mem.registers_agree() ==> final(self).cpu.mem.registers_agree(),
            old(self).cpu.status_wf() ==> final(self).cpu.status_wf(),
    {
        reveal(CPUWrapper::spec_count_cycles);
        self.cycles = self.cycles.wrapping_add(cycles as u64);
    }

    /// The wrapper with all three slots emptied and the cursor at the first.
    #[verifier::opaque]
    pub open spec fn spec_flush_pipeline(self) -> CPUWrapper {
        CPUWrapper {
            pipeline: [
                PipelineInstruction::Empty,
                PipelineInstruction::Empty,
                PipelineInstruction::Empty,
            ],
            idx: 0,
            ..self
        }
    }

    pub fn flush_pipeline(&mut self)
        ensures
            *final(self) == old(self).spec_flush_pipeline(),
            final(self).is_flushed(),
            final(self).cpu == old(self).cpu,
            old(self).cpu.mem.registers_agree() ==> final(self).cpu.mem.registers_agree(),
            old(self).cpu.status_wf() ==> final(self).cpu.status_wf(),
    {
        reveal(CPUWrapper::spec_flush_pipeline);
        self.pipeline = [
            PipelineInstruction::Empty,
            PipelineInstruction::Empty,
            PipelineInstruction::Empty,
        ];
        self.idx = 0;
    }

    /// The wrapper after a flush that was asked for is carried out: the
    /// pipeline is flushed and the request is taken back. Where none was
    /// asked for, nothing changes.
    #[verifier::opaque]
    pub open spec fn spec_settle_flush(self) -> CPUWrapper {
        if self.cpu.should_flush {
            let flushed = self.spec_flush_pipeline();
            CPUWrapper { cpu: CPU { should_flush: false, ..flushed.cpu }, ..flushed }
        } else {
            self
        }
    }

    /// Carry out a pipeline flush if one was asked for, and say whether one was.
    pub fn settle_flush(&mut self) -> (flushed: bool)
        ensures
            *final(self) == old(self).spec_settle_flush(),
            flushed == old(self).cpu.should_flush,
            flushed ==> final(self).is_flushed(),
            !flushed ==> *final(self) == *old(self),
            !final(self).cpu.should_flush,
            old(self).cpu.mem.registers_agree() ==> final(self).cpu.mem.registers_agree(),
            old(self).cpu.status_wf() ==> final(self).cpu.status_wf(),
    {
        reveal(CPUWrapper::spec_settle_flush);
        if self.cpu.should_flush {
            self.flush_pipeline();
            self.cpu.should_flush = false;
            true
        } else {
            false
        }
    }

    /// The wrapper with the cursor and the program counter moved on by one
    /// instruction.
    #[verifier::opaque]
    pub open spec fn spec_advance(self) -> CPUWrapper {
        CPUWrapper { idx: ((self.idx % 3 + 1) % 3) as usize, cpu: self.cpu.spec_incr_pc(), ..self }
    }

    pub fn advance(&mut self)
        ensures
            *final(self) == old(self).spec_advance(),
            final(self).pipeline == old(self).pipeline,
            final(self).idx == (old(self).idx % 3 + 1) % 3,
            old(self).cpu.mem.registers_agree() ==> final(self).cpu.mem.registers_agree(),
            old(self).cpu.status_wf() ==> final(self).cpu.status_wf(),
    {
        reveal(CPUWrapper::spec_advance);
        self.idx = (self.idx % 3 + 1) % 3;
        self.cpu.incr_pc();
    }

    /// The wrapper after the DMA check and the interrupt check that end a step.
    #[verifier::opaque]
    pub open spec fn spec_service(self) -> CPUWrapper {
        CPUWrapper {
            cpu: (CPU {
                mem: self.cpu.mem.spec_check_dma(TimingMode::Now),
                ..self.cpu
            }).spec_check_interrupts(),
            ..self
        }
    }

    pub fn service(&mut self)
        ensures
            *final(self) == old(self).spec_service(),
            final(self).pipeline == old(self).pipeline,
            final(self).idx == old(self).idx,
            old(self).cpu.mem.registers_agree() ==> final(self).cpu.mem.registers_agree(),
            old(self).cpu.status_wf() ==> final(self).cpu.status_wf(),
    {
        reveal(CPUWrapper::spec_service);
        self.cpu.mem.check_dma(TimingMode::Now);
        self.cpu.check_interrupts();
    }

    /// The wrapper after the part of a step that follows execute: a flush
    /// that the instruction asked for is carried out, or else cursor and
    /// program counter move on; DMA and interrupts are checked; and a flush
    /// that an interrupt asked for is carried out.
    pub open spec fn spec_finish(self) -> CPUWrapper {
        (if self.cpu.should_flush {
            self.spec_settle_flush()
        } else {
            self.spec_advance()
        }).spec_service().spec_settle_flush()
    }

    /// Why a step fails, if it does.
    pub open spec fn spec_step_error(self) -> Option<CpuError> {
        if self.spec_fetch().spec_decode_error() is Some {
            self.spec_fetch().spec_decode_error()
        } else {
            self.spec_fetch().spec_decode().spec_execute_error()
        }
    }

    /// The wrapper after the first three stages of a step: fetch, decode,
    /// and execute with its cycles counted.
    pub open spec fn spec_run_stages(self) -> CPUWrapper {
        self.spec_fetch().spec_decode().spec_execute().spec_count_cycles(
            self.spec_fetch().spec_decode().spec_execute_cycles(),
        )
    }

    /// The wrapper after one step: fetch, decode, execute, and what follows.
    pub open spec fn spec_step(self) -> CPUWrapper {
        self.spec_run_stages().spec_finish()
    }

    /// Whether a step flushes the pipeline: the executed instruction asked
    /// for it, or an interrupt was taken at the end of the step.
    pub open spec fn spec_step_flushes(self) -> bool {
        let executed = self.spec_run_stages();
        executed.cpu.should_flush || executed.spec_advance().spec_service().cpu.should_flush
    }

    /// The cycles that the execute stage of the next step takes.
    pub open spec fn spec_step_cycles(self) -> u32 {
        self.spec_fetch().spec_decode().spec_execute_cycles()
    }

    /// Run a single instruction. Returns whether the pipeline was flushed,
    /// and the cycles that the execute stage took. A step that fails
    /// leaves the processor as it was, with the fetched (and, if decoding
    /// was not what failed, decoded) slot in the pipeline.
    pub fn step_counted(&mut self) -> (r: Result<(bool, u32), CpuError>)
        ensures
            match r {
                Ok((flushed, cycles)) => old(self).spec_step_error() is None && *final(self) == old(
                    self,
                ).spec_step() && flushed == old(self).spec_step_flushes() && (flushed
                    ==> final(self).is_flushed()) && cycles == old(self).spec_step_cycles(),
                Err(e) => old(self).spec_step_error() == Some(e) && final(self).cpu == old(
                    self,
                ).cpu && (*final(self) == old(self).spec_fetch() || *final(self) == old(
                    self,
                ).spec_fetch().spec_decode()),
            },
            old(self).cpu.mem.registers_agree() ==> final(self).cpu.mem.registers_agree(),
            old(self).cpu.status_wf() ==> final(self).cpu.status_wf(),
    {
        self.fetch();
        match self.decode() {
            Err(e) => {
                return Err(e);
            },
            Ok(_) => {},
        }
        let cycles = match self.execute() {
            Err(e) => {
                return Err(e);
            },
            Ok(cycles) => cycles,
        };
        self.count_cycles(cycles);
        let by_instruction = if self.cpu.should_flush {
            self.settle_flush()
        } else {
            self.advance();
            false
        };
        self.service();
        let by_interrupt = self.settle_flush();
        Ok((by_instruction || by_interrupt, cycles))
    }

    /// Run a single instruction. Returns whether the pipeline was flushed.
    /// A step that fails leaves the processor as it was, with the fetched
    /// (and, if decoding was not what failed, decoded) slot in the pipeline.
    pub fn step(&mut self) -> (r: Result<bool, CpuError>)
        ensures
            match r {
                Ok(flushed) => old(self).spec_step_error() is None && *final(self) == old(
                    self,
                ).spec_step() && flushed == old(self).spec_step_flushes() && (flushed
                    ==> final(self).is_flushed()),
                Err(e) => old(self).spec_step_error() == Some(e) && final(self).cpu == old(
                    self,
                ).cpu && (*final(self) == old(self).spec_fetch() || *final(self) == old(
                    self,
                ).spec_fetch().spec_decode()),
            },
            old(self).cpu.mem.registers_agree() ==> final(self).cpu.mem.registers_agree(),
            old(self).cpu.status_wf() ==> final(self).cpu.status_wf(),
    {
        match self.step_counted() {
            Ok((flushed, cycles)) => Ok(flushed),
            Err(e) => Err(e),
        }
    }

    /// A fetch fills the fetch slot with a raw instruction and touches
    /// nothing else.
    pub proof fn lemma_fetch_effect(self)
        ensures
            self.spec_fetch().idx == self.idx,
            self.spec_fetch().cpu == self.cpu,
            self.spec_fetch().pipeline[self.fetch_slot()] is RawARM || self.spec_fetch().pipeline[self.fetch_slot()] is RawTHUMB,
            self.fetch_slot() != 0 ==> self.spec_fetch().pipeline[0] == self.pipeline[0],
            self.fetch_slot() != 1 ==> self.spec_fetch().pipeline[1] == self.pipeline[1],
            self.fetch_slot() != 2 ==> self.spec_fetch().pipeline[2] == self.pipeline[2],
    {
        reveal(CPUWrapper::spec_fetch);
    }

    /// A decode replaces the decode slot by its decoded form and touches
    /// nothing else.
    pub proof fn lemma_decode_effect(self)
        ensures
            self.spec_decode().idx == self.idx,
            self.spec_decode().cpu == self.cpu,
            self.spec_decode().pipeline[self.decode_slot()] == CPUWrapper::spec_decoded(
                self.pipeline[self.decode_slot()],
            ),
            self.decode_slot() != 0 ==> self.spec_decode().pipeline[0] == self.pipeline[0],
            self.decode_slot() != 1 ==> self.spec_decode().pipeline[1] == self.pipeline[1],
            self.decode_slot() != 2 ==> self.spec_decode().pipeline[2] == self.pipeline[2],
    {
        reveal(CPUWrapper::spec_decode);
    }

    /// An execute leaves the pipeline alone, and the processor too where
    /// the execute slot holds nothing that runs.
    pub proof fn lemma_execute_effect(self)
        ensures
            self.spec_execute().idx == self.idx,
            self.spec_execute().pipeline == self.pipeline,
            !self.will_execute() ==> self.spec_execute() == self,
    {
        reveal(CPUWrapper::spec_execute);
    }

    /// Counting cycles touches neither the processor nor the pipeline.
    pub proof fn lemma_count_effect(self, cycles: u32)
        ensures
            self.spec_count_cycles(cycles).idx == self.idx,
            self.spec_count_cycles(cycles).pipeline == self.pipeline,
            self.spec_count_cycles(cycles).cpu == self.cpu,
    {
        reveal(CPUWrapper::spec_count_cycles);
    }

    /// Where neither the instruction nor an interrupt asks for a flush, the
    /// end of a step moves the cursor on and leaves the slots alone.
    pub proof fn lemma_finish_effect(self)
        requires
            !self.cpu.should_flush,
            !self.spec_advance().spec_service().cpu.should_flush,
        ensures
            self.spec_finish().idx == (self.idx % 3 + 1) % 3,
            self.spec_finish().pipeline == self.pipeline,
    {
        reveal(CPUWrapper::spec_advance);
        reveal(CPUWrapper::spec_service);
        reveal(CPUWrapper::spec_settle_flush);
    }

    /// After a flush the first step executes nothing: its execute slot is empty.
    pub proof fn law_flush_stalls_first_step(self)
        requires
            self.is_flushed(),
        ensures
            !self.spec_fetch().spec_decode().will_execute(),
            self.spec_fetch().spec_decode().spec_execute() == self.spec_fetch().spec_decode(),
            self.spec_fetch().spec_decode().idx == 0,
            self.spec_fetch().spec_decode().cpu == self.cpu,
            self.spec_fetch().spec_decode().pipeline[0] == self.spec_fetch().pipeline[0],
            self.spec_fetch().spec_decode().pipeline[1] == PipelineInstruction::Empty,
            self.spec_fetch().spec_decode().pipeline[2] == PipelineInstruction::Empty,
    {
        assert(self.pipeline[0] == PipelineInstruction::Empty);
        assert(self.pipeline[1] == PipelineInstruction::Empty);
        assert(self.pipeline[2] == PipelineInstruction::Empty);
        self.lemma_fetch_effect();
        self.spec_fetch().lemma_decode_effect();
        self.spec_fetch().spec_decode().lemma_execute_effect();
    }

    /// After a flush the second step executes nothing either, unless the
    /// first step ended with a flush of its own (an interrupt was taken).
    pub proof fn law_flush_stalls_second_step(self)
        requires
            self.is_flushed(),
            !self.spec_step_flushes(),
        ensures
            self.spec_step().idx == 1,
            self.spec_step().spec_fetch().spec_decode().idx == 1,
            !self.spec_step().spec_fetch().spec_decode().will_execute(),
            self.spec_step().spec_fetch().spec_decode().pipeline[0] == CPUWrapper::spec_decoded(
                self.spec_fetch().pipeline[0],
            ),
            self.spec_step().spec_fetch().spec_decode().pipeline[2] == PipelineInstruction::Empty,
    {
        self.law_flush_stalls_first_step();
        let first = self.spec_fetch().spec_decode();
        first.lemma_count_effect(first.spec_execute_cycles());
        self.spec_run_stages().lemma_finish_effect();
        let second = self.spec_step();
        second.lemma_fetch_effect();
        second.spec_fetch().lemma_decode_effect();
    }

    /// The third step after a flush executes what the first step fetched,
    /// where neither of the two steps before it flushed again.
    #[verifier::rlimit(20)]
    pub proof fn law_flush_resumes_at_third_step(self)
        requires
            self.is_flushed(),
            !self.spec_step_flushes(),
            !self.spec_step().spec_step_flushes(),
        ensures
            ({
                let third = self.spec_step().spec_step().spec_fetch().spec_decode();
                third.pipeline[third.execute_slot()] == CPUWrapper::spec_decoded(
                    self.spec_fetch().pipeline[0],
                )
            }),
    {
        self.law_flush_stalls_second_step();
        let second = self.spec_step().spec_fetch().spec_decode();
        second.lemma_execute_effect();
        second.spec_execute().lemma_count_effect(second.spec_execute_cycles());
        self.spec_step().spec_run_stages().lemma_finish_effect();
        let third = self.spec_step().spec_step();
        third.lemma_fetch_effect();
        third.spec_fetch().lemma_decode_effect();
    }
}

impl Instruction {
    /// Whether the instruction, run on `cpu`, writes the program counter:
    /// a data operation or a load with R15 as destination, a block load
    /// with R15 in its list, every branch that is taken, and the software
    /// interrupt.
    pub open spec fn targets_pc(&self, cpu: &CPU) -> bool {
        match *self {
            Instruction::DataProc(ins) => ins.rd == 15,
            Instruction::SingleTransfer(ins) => ins.load && ins.rd == 15,
            Instruction::SignedTransfer(ins) => ins.load && ins.rd == 15,
            Instruction::BlockTransfer(ins) => ins.load && ins.pc_in_list(),
            Instruction::Branch(ins) => true,
            Instruction::BranchEx(ins) => true,
            Instruction::SWInterrupt(ins) => true,
            Instruction::CondBranch(ins) => spec_satisfies_cond(&cpu.cpsr, ins.cond as u32),
            Instruction::LongBranch(ins) => !ins.first,
            _ => false,
        }
    }

    /// An instruction that writes the program counter asks for a pipeline
    /// flush.
    pub proof fn law_targeting_pc_asks_for_flush(&self, cpu: CPU)
        requires
            self.targets_pc(&cpu),
        ensures
            self.spec_run(cpu).should_flush,
    {
        reveal(Instruction::spec_run);
        match *self {
            Instruction::DataProc(ins) => ins.lemma_pc_destination_flushes(cpu),
            Instruction::SingleTransfer(ins) => cpu.lemma_load_of_pc_flushes(&ins.params()),
            Instruction::SignedTransfer(ins) => cpu.lemma_load_of_pc_flushes(&ins.params()),
            Instruction::BlockTransfer(ins) => ins.lemma_load_of_pc_flushes(cpu),
            Instruction::Branch(ins) => ins.lemma_branch_flushes(cpu),
            Instruction::BranchEx(ins) => ins.lemma_branch_flushes(cpu),
            Instruction::SWInterrupt(ins) => cpu.lemma_interrupt_flushes(
                crate::cpu::InterruptType::SWI,
            ),
            Instruction::CondBranch(ins) => ins.lemma_taken_branch_flushes(cpu),
            Instruction::LongBranch(ins) => ins.lemma_second_half_flushes(cpu),
            _ => {},
        }
    }
}

impl CPUWrapper {
    /// The instruction that the execute stage of the next step runs, if it
    /// runs one: what the execute slot holds after fetch and decode, if that
    /// is decoded and its condition holds.
    pub open spec fn spec_next_executed(self) -> Option<Instruction> {
        let decoded = self.spec_fetch().spec_decode();
        match decoded.pipeline[decoded.execute_slot()] {
            PipelineInstruction::Decoded(cond, ins) => if decoded.will_execute() {
                Some(ins)
            } else {
                None
            },
            _ => None,
        }
    }

    /// A step that executes an instruction that writes the program counter
    /// flushes the pipeline: it ends with all slots empty and the cursor at
    /// the first.
    pub proof fn law_step_that_targets_pc_flushes(self, ins: Instruction)
        requires
            self.spec_step_error() is None,
            self.spec_next_executed() == Some(ins),
            ins.targets_pc(&self.cpu),
        ensures
            self.spec_step_flushes(),
            self.spec_step().is_flushed(),
    {
        let decoded = self.spec_fetch().spec_decode();
        self.lemma_fetch_effect();
        self.spec_fetch().lemma_decode_effect();
        ins.law_targeting_pc_asks_for_flush(decoded.cpu);
        reveal(CPUWrapper::spec_execute);
        let executed = decoded.spec_execute();
        assert(executed.cpu.should_flush);
        executed.lemma_count_effect(decoded.spec_execute_cycles());
        let staged = self.spec_run_stages();
        assert(staged.cpu.should_flush);
        staged.lemma_flushing_finish();
    }

    /// After an instruction that writes the program counter, the next two
    /// steps execute nothing before execution resumes: the step that runs
    /// the instruction leaves the pipeline flushed; the step after it
    /// executes nothing; and so does the one after that, unless the first
    /// of the two took an interrupt and flushed again.
    pub proof fn law_pc_write_stalls_two_steps(self, ins: Instruction)
        requires
            self.spec_step_error() is None,
            self.spec_next_executed() == Some(ins),
            ins.targets_pc(&self.cpu),
        ensures
            self.spec_step().is_flushed(),
            self.spec_step().spec_next_executed() is None,
            !self.spec_step().spec_step_flushes() ==> self.spec_step().spec_step().spec_next_executed() is None,
    {
        self.law_step_that_targets_pc_flushes(ins);
        let after = self.spec_step();
        after.law_flush_stalls_first_step();
        if !after.spec_step_flushes() {
            after.law_flush_stalls_second_step();
        }
    }

    /// The end of a step that was asked to flush leaves the pipeline flushed.
    pub proof fn lemma_flushing_finish(self)
        requires
            self.cpu.should_flush,
        ensures
            self.spec_finish().is_flushed(),
    {
        reveal(CPUWrapper::spec_service);
        reveal(CPUWrapper::spec_settle_flush);
        reveal(CPUWrapper::spec_flush_pipeline);
        let settled = self.spec_settle_flush();
        assert(settled.is_flushed());
        let serviced = settled.spec_service();
        assert(serviced.pipeline == settled.pipeline && serviced.idx == settled.idx);
        let last = serviced.spec_settle_flush();
        assert(last.is_flushed());
    }
}

} // verus!
