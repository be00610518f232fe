//! Block data transfer: loads and stores of register lists.

use vstd::prelude::*;
use crate::cpu::status_reg::CPUMode;
use crate::cpu::{CpuError, CPU};
use crate::util::{get_bit, get_bit_hw, get_nibble, spec_get_bit, spec_get_bit_hw, spec_get_nibble};

verus! {

/// Load or store any subset of the currently visible registers
#[derive(Clone, Copy, Debug, PartialEq, Eq, Structural)]
pub struct BlockDataTransfer {
    /// if true, add offset before transfer else add after
    pub pre_index: bool,
    /// if true, add the offset to base, else subtract it
    pub offset_up: bool,
    /// if true, CPSR or force user mode (depending on other parameters)
    pub force: bool,
    /// if true, write address back to base reg, else do nothing
    pub write_back: bool,
    /// if true, load from memory, else write to memory
    pub load: bool,
    /// base register
    pub rn: usize,
    /// bit i of the register list being set means that register i should be transferred
    pub register_list: u16,
}

/// How far a block transfer has come: the processor, the address the
/// transfer stands at, whether no register was transferred yet, and whether
/// the base register is still to be written back.
pub struct BlockProgress {
    pub cpu: CPU,
    pub addr: u32,
    pub is_first: bool,
    pub write_back: bool,
}

impl BlockDataTransfer {
    /// 27 .. 25 | 24 | 23 | 22 | 21 | 20 | 19 .. 16 | 15 ...
    ///   100    | P  | U  | S  | W  | L  |    Rn    |  register list
    pub open spec fn spec_parse_instruction(ins: u32) -> BlockDataTransfer {
        BlockDataTransfer {
            pre_index: spec_get_bit(ins, 24),
            offset_up: spec_get_bit(ins, 23),
            force: spec_get_bit(ins, 22),
            write_back: spec_get_bit(ins, 21),
            load: spec_get_bit(ins, 20),
            rn: spec_get_nibble(ins, 16) as usize,
            register_list: ins as u16,
        }
    }

    #[verifier::when_used_as_spec(spec_parse_instruction)]
    pub fn parse_instruction(ins: u32) -> (r: BlockDataTransfer)
        ensures
            r == BlockDataTransfer::spec_parse_instruction(ins),
    {
        BlockDataTransfer {
            pre_index: get_bit(ins, 24),
            offset_up: get_bit(ins, 23),
            force: get_bit(ins, 22),
            write_back: get_bit(ins, 21),
            load: get_bit(ins, 20),
            rn: get_nibble(ins, 16) as usize,
            register_list: ins as u16,
        }
    }

    /// Whether the program counter is in the register list.
    pub open spec fn pc_in_list(&self) -> bool {
        self.register_list >= 0x8000
    }

    /// With the S bit, a load with the program counter in the list returns
    /// from an exception; every other transfer uses the user registers.
    pub open spec fn returns_from_exception(&self) -> bool {
        self.force && self.pc_in_list() && self.load
    }

    pub open spec fn uses_user_bank(&self) -> bool {
        self.force && !(self.pc_in_list() && self.load)
    }

    /// Why the instruction cannot run, if it cannot: R15 cannot be the
    /// base, the S bit needs a privileged mode, a return from an exception
    /// needs a saved status register that names a mode, and a transfer of
    /// the user registers cannot write the base back.
    pub open spec fn spec_check(&self, cpu: &CPU) -> Option<CpuError> {
        if cpu.cpsr.mode == CPUMode::INVALID {
            Some(CpuError::InvalidMode)
        } else if self.rn >= 15 {
            Some(CpuError::IllegalRegisterUse)
        } else if self.force && cpu.cpsr.mode == CPUMode::USR {
            Some(CpuError::InvalidMode)
        } else if self.returns_from_exception() && cpu.spec_get_spsr().mode == CPUMode::INVALID {
            Some(CpuError::InvalidMode)
        } else if self.uses_user_bank() && self.write_back {
            Some(CpuError::InvalidInstruction)
        } else {
            None
        }
    }

    pub fn check(&self, cpu: &CPU) -> (r: Option<CpuError>)
        ensures
            r == self.spec_check(cpu),
    {
        let is_pc_in_list = self.register_list >= 0x8000;
        if cpu.cpsr.mode == CPUMode::INVALID {
            Some(CpuError::InvalidMode)
        } else if self.rn >= 15 {
            Some(CpuError::IllegalRegisterUse)
        } else if self.force && cpu.cpsr.mode == CPUMode::USR {
            Some(CpuError::InvalidMode)
        } else if self.force && is_pc_in_list && self.load && cpu.get_spsr().mode
            == CPUMode::INVALID {
            Some(CpuError::InvalidMode)
        } else if self.force && !(is_pc_in_list && self.load) && self.write_back {
            Some(CpuError::InvalidInstruction)
        } else {
            None
        }
    }

    /// The processor as the transfer starts: the saved status register is
    /// restored for a return from an exception, user mode is entered for a
    /// transfer of the user registers, and a load of the program counter
    /// asks for a pipeline flush.
    #[verifier::opaque]
    pub open spec fn spec_enter(&self, cpu: CPU) -> CPU {
        let banked = if self.returns_from_exception() {
            cpu.spec_restore_cpsr()
        } else if self.uses_user_bank() {
            cpu.spec_set_mode(CPUMode::USR)
        } else {
            cpu
        };
        if self.pc_in_list() && self.load {
            banked.spec_request_flush()
        } else {
            banked
        }
    }

    pub fn enter(&self, cpu: &mut CPU)
        requires
            self.spec_check(old(cpu)) is None,
        ensures
            *final(cpu) == self.spec_enter(*old(cpu)),
            final(cpu).cpsr.mode != CPUMode::INVALID,
            final(cpu).mem == old(cpu).mem,
            old(cpu).mem.registers_agree() ==> final(cpu).mem.registers_agree(),
            old(cpu).status_wf() ==> final(cpu).status_wf(),
    {
        reveal(BlockDataTransfer::spec_enter);
        reveal(CPU::spec_restore_cpsr);
        let is_pc_in_list = self.register_list >= 0x8000;
        if self.force {
            if is_pc_in_list && self.load {
                cpu.restore_cpsr();
            } else {
                // temporarily switch to USR mode so that get/set reg refers
                // to the user bank registers
                cpu.set_mode(CPUMode::USR);
            }
        }
        if is_pc_in_list && self.load {
            cpu.request_flush();
        }
    }

    /// The number of registers in the list from register `from` on.
    pub open spec fn spec_count_from(&self, from: nat) -> nat
        decreases 16 - from,
    {
        if from >= 16 {
            0
        } else {
            (if spec_get_bit_hw(self.register_list, from as u8) {
                1nat
            } else {
                0nat
            }) + self.spec_count_from(from + 1)
        }
    }

    /// The address that a written back base register ends on: 4 bytes up
    /// or down for every register in the list.
    pub open spec fn spec_updated_base(&self, base: u32) -> u32 {
        if self.offset_up {
            base.wrapping_add((4 * self.spec_count_from(0)) as u32)
        } else {
            base.wrapping_sub((4 * self.spec_count_from(0)) as u32)
        }
    }

    pub fn updated_base(&self, base: u32) -> (r: u32)
        ensures
            r == self.spec_updated_base(base),
    {
        let mut count: u32 = 0;
        let mut i: u8 = 16;
        while i > 0
            invariant
                i <= 16,
                count <= 16 - i,
                count == self.spec_count_from(i as nat),
            decreases i,
        {
            i -= 1;
            if get_bit_hw(self.register_list, i) {
                count += 1;
            }
        }
        if self.offset_up {
            base.wrapping_add(4 * count)
        } else {
            base.wrapping_sub(4 * count)
        }
    }

    /// The register that is transferred at step `i`: lower registers first
    /// when going up, higher registers first when going down.
    pub open spec fn spec_reg_at(&self, i: nat) -> usize {
        if self.offset_up {
            i as usize
        } else {
            (15 - i) as usize
        }
    }

    /// The address after one register: 4 bytes up or down.
    pub open spec fn spec_next_addr(&self, addr: u32) -> u32 {
        if self.offset_up {
            addr.wrapping_add(4)
        } else {
            addr.wrapping_sub(4)
        }
    }

    /// The transfer after one register was moved. The register is loaded
    /// from or stored to the address the transfer stands at, or the one
    /// after it when indexing comes first. A load of the base register
    /// cancels the write back. A store of the base register stores its
    /// value if it is the first register stored, and `updated_base`
    /// otherwise.
    #[verifier::opaque]
    pub open spec fn spec_transfer_one(
        &self,
        at: BlockProgress,
        reg: usize,
        updated_base: u32,
    ) -> BlockProgress {
        let addr = if self.pre_index {
            self.spec_next_addr(at.addr)
        } else {
            at.addr
        };
        BlockProgress {
            cpu: if self.load {
                at.cpu.spec_set_reg(reg, at.cpu.mem.spec_get_word(addr))
            } else {
                at.cpu.spec_store_word(
                    addr,
                    if reg == self.rn && !at.is_first {
                        updated_base
                    } else {
                        at.cpu.spec_get_reg(reg)
                    },
                )
            },
            addr: self.spec_next_addr(at.addr),
            is_first: false,
            write_back: at.write_back && !(self.load && reg == self.rn),
        }
    }

    /// The transfer after the registers of steps `i` to 15 were moved.
    #[verifier::opaque]
    pub open spec fn spec_transfer_rest(
        &self,
        at: BlockProgress,
        i: nat,
        updated_base: u32,
    ) -> BlockProgress
        decreases 16 - i,
    {
        if i >= 16 {
            at
        } else if spec_get_bit_hw(self.register_list, self.spec_reg_at(i) as u8) {
            self.spec_transfer_rest(
                self.spec_transfer_one(at, self.spec_reg_at(i), updated_base),
                i + 1,
                updated_base,
            )
        } else {
            self.spec_transfer_rest(at, i + 1, updated_base)
        }
    }

    /// The processor as the transfer ends: the base register is written
    /// back if that is still asked for, the mode that the transfer was
    /// started in is entered again after a transfer of the user registers,
    /// and a program counter that was loaded with bit 0 set switches to
    /// THUMB state and loses that bit.
    #[verifier::opaque]
    pub open spec fn spec_leave(&self, at: BlockProgress, mode: CPUMode) -> CPU {
        let written = if at.write_back {
            at.cpu.spec_set_reg(self.rn, at.addr)
        } else {
            at.cpu
        };
        let banked = if self.uses_user_bank() {
            written.spec_set_mode(mode)
        } else {
            written
        };
        if self.pc_in_list() && self.load && banked.spec_get_reg(15) & 1 == 1 {
            banked.spec_set_isa(true).spec_set_reg(15, banked.spec_get_reg(15) & !1u32)
        } else {
            banked
        }
    }

    pub fn leave(&self, cpu: &mut CPU, addr: u32, is_first: bool, write_back: bool, mode: CPUMode)
        requires
            self.rn < 16,
            old(cpu).cpsr.mode != CPUMode::INVALID,
            mode != CPUMode::INVALID,
        ensures
            *final(cpu) == self.spec_leave(
                BlockProgress { cpu: *old(cpu), addr, is_first, write_back },
                mode,
            ),
            final(cpu).mem == old(cpu).mem,
            old(cpu).mem.registers_agree() ==> final(cpu).mem.registers_agree(),
            old(cpu).status_wf() ==> final(cpu).status_wf(),
    {
        reveal(BlockDataTransfer::spec_leave);
        let is_pc_in_list = self.register_list >= 0x8000;
        if write_back {
            cpu.set_reg(self.rn, addr);
        }
        if self.force && !(is_pc_in_list && self.load) {
            cpu.set_mode(mode);
        }
        if is_pc_in_list && self.load {
            let pc = cpu.get_reg(15);
            if pc & 1 == 1 {
                cpu.set_isa(true);
                cpu.set_reg(15, pc & !1u32);
            }
        }
    }

    /// The processor after the whole instruction ran.
    #[verifier::opaque]
    pub open spec fn spec_run(&self, cpu: CPU) -> CPU {
        let entered = self.spec_enter(cpu);
        let base = entered.spec_get_reg(self.rn);
        self.spec_leave(
            self.spec_transfer_rest(
                BlockProgress {
                    cpu: entered,
                    addr: base,
                    is_first: true,
                    write_back: self.write_back,
                },
                0,
                self.spec_updated_base(base),
            ),
            cpu.cpsr.mode,
        )
    }

    /// The fetch of the instruction.
    pub open spec fn spec_cycles(&self, cpu: CPU) -> u32 {
        cpu.mem.spec_access_time(cpu.r[15], false)
    }

    #[verifier::rlimit(20)]
    pub fn run(&self, cpu: &mut CPU) -> (r: Result<u32, CpuError>)
        ensures
            match r {
                Ok(cycles) => self.spec_check(old(cpu)) is None && *final(cpu) == self.spec_run(
                    *old(cpu),
                ) && cycles == self.spec_cycles(*old(cpu)),
                Err(e) => self.spec_check(old(cpu)) == Some(e) && *final(cpu) == *old(cpu),
            },
            old(cpu).mem.registers_agree() ==> final(cpu).mem.registers_agree(),
            old(cpu).status_wf() ==> final(cpu).status_wf(),
    {
        match self.check(cpu) {
            Some(e) => {
                return Err(e);
            },
            None => {},
        }
        proof {
            reveal(BlockDataTransfer::spec_run);
        }
        let cycles = cpu.mem.access_time(cpu.r[15], false);
        let started_in = cpu.cpsr.mode;
        self.enter(cpu);
        let ghost entered = *cpu;
        let base = cpu.get_reg(self.rn);
        let updated = self.updated_base(base);
        let mut addr = base;
        let mut write_back = self.write_back;
        let mut is_first = true;
        // start from larger regs if we are descending - this doesn't emulate
        // the CPU perfectly as it is always supposed to write lower registers
        // first, but that should only affect the case where we write the base
        // address and we check for that case explicitly
        let mut i: usize = 0;
        while i < 16
            invariant
                i <= 16,
                self.rn < 15,
                cpu.cpsr.mode != CPUMode::INVALID,
                old(cpu).mem.registers_agree() ==> cpu.mem.registers_agree(),
                old(cpu).status_wf() ==> cpu.status_wf(),
                self.spec_transfer_rest(
                    BlockProgress { cpu: *cpu, addr, is_first, write_back },
                    i as nat,
                    updated,
                ) == self.spec_transfer_rest(
                    BlockProgress {
                        cpu: entered,
                        addr: base,
                        is_first: true,
                        write_back: self.write_back,
                    },
                    0,
                    updated,
                ),
            decreases 16 - i,
        {
            proof {
                reveal(BlockDataTransfer::spec_transfer_rest);
                reveal(BlockDataTransfer::spec_transfer_one);
            }
            let reg: usize = if self.offset_up {
                i
            } else {
                15 - i
            };
            if get_bit_hw(self.register_list, reg as u8) {
                let next = if self.offset_up {
                    addr.wrapping_add(4)
                } else {
                    addr.wrapping_sub(4)
                };
                let at = if self.pre_index {
                    next
                } else {
                    addr
                };
                if self.load {
                    if reg == self.rn {
                        // a LDM always overwrites the updated base register
                        write_back = false;
                    }
                    let memval = cpu.mem.get_word(at);
                    cpu.set_reg(reg, memval);
                } else {
                    // if we are storing the base register and this isn't
                    // the first register we are storing, store the updated
                    // value for the base register
                    let regval = if reg == self.rn && !is_first {
                        updated
                    } else {
                        cpu.get_reg(reg)
                    };
                    cpu.store_word(at, regval);
                }
                addr = next;
                is_first = false;
            }
            i += 1;
        }
        proof {
            reveal(BlockDataTransfer::spec_transfer_rest);
        }
        self.leave(cpu, addr, is_first, write_back, started_in);
        Ok(cycles)
    }
}

impl BlockDataTransfer {
    /// Moving registers leaves the flush request as it is.
    pub proof fn lemma_rest_keeps_flush(&self, at: BlockProgress, i: nat, updated_base: u32)
        ensures
            self.spec_transfer_rest(at, i, updated_base).cpu.should_flush == at.cpu.should_flush,
        decreases 16 - i,
    {
        reveal(BlockDataTransfer::spec_transfer_rest);
        if i < 16 {
            if spec_get_bit_hw(self.register_list, self.spec_reg_at(i) as u8) {
                reveal(BlockDataTransfer::spec_transfer_one);
                at.cpu.lemma_flush_request();
                self.lemma_rest_keeps_flush(
                    self.spec_transfer_one(at, self.spec_reg_at(i), updated_base),
                    i + 1,
                    updated_base,
                );
            } else {
                self.lemma_rest_keeps_flush(at, i + 1, updated_base);
            }
        }
    }

    /// A block load with the program counter in its list asks for a
    /// pipeline flush.
    pub proof fn lemma_load_of_pc_flushes(&self, cpu: CPU)
        requires
            self.load,
            self.pc_in_list(),
        ensures
            self.spec_run(cpu).should_flush,
    {
        reveal(BlockDataTransfer::spec_run);
        reveal(BlockDataTransfer::spec_enter);
        reveal(BlockDataTransfer::spec_leave);
        let entered = self.spec_enter(cpu);
        cpu.lemma_flush_request();
        cpu.spec_restore_cpsr().lemma_flush_request();
        cpu.spec_set_mode(CPUMode::USR).lemma_flush_request();
        let base = entered.spec_get_reg(self.rn);
        let start = BlockProgress {
            cpu: entered,
            addr: base,
            is_first: true,
            write_back: self.write_back,
        };
        let updated_base = self.spec_updated_base(base);
        self.lemma_rest_keeps_flush(start, 0, updated_base);
        let end = self.spec_transfer_rest(start, 0, updated_base);
        end.cpu.lemma_flush_request();
        let written = if end.write_back {
            end.cpu.spec_set_reg(self.rn, end.addr)
        } else {
            end.cpu
        };
        written.lemma_flush_request();
        let banked = if self.uses_user_bank() {
            written.spec_set_mode(cpu.cpsr.mode)
        } else {
            written
        };
        banked.lemma_flush_request();
        banked.spec_set_isa(true).lemma_flush_request();
    }
}

} // verus!
