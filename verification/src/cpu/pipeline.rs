//! Utilities for emulating the CPU's instruction pipeline

use vstd::prelude::*;
use crate::cpu::arm::block_trans::BlockDataTransfer;
use crate::cpu::arm::branch::Branch;
use crate::cpu::arm::branch_ex::BranchAndExchange;
use crate::cpu::arm::data::DataProc;
use crate::cpu::arm::mul::Multiply;
use crate::cpu::arm::mul_long::MultiplyLong;
use crate::cpu::arm::psr::PSRTransfer;
use crate::cpu::arm::signed_trans::SignedDataTransfer;
use crate::cpu::arm::single_trans::SingleDataTransfer;
use crate::cpu::arm::swap::SingleDataSwap;
use crate::cpu::arm::swi::SWInterrupt;
use crate::cpu::status_reg::PSR;
use crate::cpu::thumb;
use crate::cpu::thumb::{CondBranch, LongBranch};
use crate::util::{get_bit_hw, get_nibble, spec_get_bit_hw, spec_get_nibble};

verus! {

/// An instruction in a specific stage of the ARM7's three stage pipeline
#[derive(Clone, Copy, Debug, PartialEq, Eq, Structural)]
pub enum PipelineInstruction {
    /// A not yet fetched instruction. This is a placeholder for when the
    /// pipeline has just been flushed and the CPU is stalling waiting for the
    /// next instruction to be fetched
    Empty,
    /// A fetched ARM instruction
    RawARM(u32),
    /// A fetched THUMB instruction
    RawTHUMB(u16),
    /// A decoded instruction, with the condition under which it runs, if
    /// it has one
    Decoded(Option<u32>, Instruction),
}

/// The possible instructions of the ARM instruction set
#[derive(Clone, Copy, Debug, PartialEq, Eq, Structural)]
pub enum Instruction {
    DataProc(DataProc),
    PSRTransfer(PSRTransfer),
    Multiply(Multiply),
    MultiplyLong(MultiplyLong),
    SwapTransfer(SingleDataSwap),
    SingleTransfer(SingleDataTransfer),
    SignedTransfer(SignedDataTransfer),
    BlockTransfer(BlockDataTransfer),
    Branch(Branch),
    BranchEx(BranchAndExchange),
    SWInterrupt(SWInterrupt),
    CondBranch(CondBranch),
    LongBranch(LongBranch),
}

/// The instruction that an ARM instruction word stands for. The nibbles
/// at bits 24, 20 and 4 tell the formats apart; where more than one format
/// fits, the one that comes first here wins. Coprocessor instructions are
/// not decoded.
pub open spec fn spec_decode_arm(ins: u32) -> Option<Instruction> {
    let op0 = spec_get_nibble(ins, 24);
    let op1 = spec_get_nibble(ins, 20);
    let op2 = spec_get_nibble(ins, 4);
    if op0 == 0 && op1 < 4 && op2 == 0b1001 {
        Some(Instruction::Multiply(Multiply::spec_parse_instruction(ins)))
    } else if op0 == 0 && op1 > 7 && op2 == 0b1001 {
        Some(Instruction::MultiplyLong(MultiplyLong::spec_parse_instruction(ins)))
    } else if op0 == 1 && op2 == 9 {
        Some(Instruction::SwapTransfer(SingleDataSwap::spec_parse_instruction(ins)))
    } else if (ins & 0x0FFF_FFF0) == 0x012F_FF10 {
        Some(Instruction::BranchEx(BranchAndExchange::spec_parse_instruction(ins)))
    } else if op0 < 2 && (op2 == 9 || op2 == 11 || op2 == 13 || op2 == 15) {
        // if bits 4 and 7 are 1, this must be a signed/hw transfer
        Some(Instruction::SignedTransfer(SignedDataTransfer::spec_parse_instruction(ins)))
    } else if op0 < 4 {
        let data = DataProc::spec_parse_instruction(ins);
        // PSR instructions are Data Processing operations with TST, TEQ, CMP,
        // or CMN, without the S flag set
        if !data.set_flags && !data.opcode.spec_writes_result() {
            Some(Instruction::PSRTransfer(PSRTransfer::spec_parse_instruction(ins)))
        } else {
            Some(Instruction::DataProc(data))
        }
    } else if op0 < 8 {
        Some(Instruction::SingleTransfer(SingleDataTransfer::spec_parse_instruction(ins)))
    } else if op0 == 8 || op0 == 9 {
        Some(Instruction::BlockTransfer(BlockDataTransfer::spec_parse_instruction(ins)))
    } else if op0 == 10 || op0 == 11 {
        Some(Instruction::Branch(Branch::spec_parse_instruction(ins)))
    } else if op0 == 15 {
        Some(Instruction::SWInterrupt(SWInterrupt::spec_parse_instruction(ins)))
    } else {
        None
    }
}

/// Decode a raw ARM instruction
#[verifier::when_used_as_spec(spec_decode_arm)]
pub fn decode_arm(ins: u32) -> (r: Option<Instruction>)
    ensures
        r == spec_decode_arm(ins),
{
    let op0 = get_nibble(ins, 24);
    let op1 = get_nibble(ins, 20);
    let op2 = get_nibble(ins, 4);
    if op0 == 0 && op1 < 4 && op2 == 0b1001 {
        Some(Instruction::Multiply(Multiply::parse_instruction(ins)))
    } else if op0 == 0 && op1 > 7 && op2 == 0b1001 {
        Some(Instruction::MultiplyLong(MultiplyLong::parse_instruction(ins)))
    } else if op0 == 1 && op2 == 9 {
        Some(Instruction::SwapTransfer(SingleDataSwap::parse_instruction(ins)))
    } else if (ins & 0x0FFF_FFF0) == 0x012F_FF10 {
        Some(Instruction::BranchEx(BranchAndExchange::parse_instruction(ins)))
    } else if op0 < 2 && (op2 == 9 || op2 == 11 || op2 == 13 || op2 == 15) {
        Some(Instruction::SignedTransfer(SignedDataTransfer::parse_instruction(ins)))
    } else if op0 < 4 {
        let data = DataProc::parse_instruction(ins);
        if !data.set_flags && !data.opcode.writes_result() {
            Some(Instruction::PSRTransfer(PSRTransfer::parse_instruction(ins)))
        } else {
            Some(Instruction::DataProc(data))
        }
    } else if op0 < 8 {
        Some(Instruction::SingleTransfer(SingleDataTransfer::parse_instruction(ins)))
    } else if op0 == 8 || op0 == 9 {
        Some(Instruction::BlockTransfer(BlockDataTransfer::parse_instruction(ins)))
    } else if op0 == 10 || op0 == 11 {
        Some(Instruction::Branch(Branch::parse_instruction(ins)))
    } else if op0 == 15 {
        Some(Instruction::SWInterrupt(SWInterrupt::parse_instruction(ins)))
    } else {
        None
    }
}

/// The nineteen formats of THUMB instructions.
#[derive(Clone, Copy, Debug, PartialEq, Eq, Structural)]
pub enum ThumbFormat {
    MoveShifted,
    AddSub,
    DataImm,
    AluOp,
    HiRegBex,
    PcRelLoad,
    RegOffsetTrans,
    SignedTrans,
    ImmOffsetTrans,
    HwTrans,
    SpRelTrans,
    LoadAddr,
    IncrSp,
    PushPop,
    BlockTrans,
    CondBranch,
    Swi,
    Branch,
    LongBranch,
}

/// The format of a THUMB instruction: the top nibble decides, helped by
/// bit 11, bits 11..10, bit 9, bit 10 or bits 11..8 where one top nibble
/// holds several formats.
pub open spec fn spec_thumb_format(ins: u16) -> ThumbFormat {
    let top = (ins >> 12) & 0xF;
    if top == 0b0000 {
        ThumbFormat::MoveShifted
    } else if top == 0b0001 {
        if spec_get_bit_hw(ins, 11) {
            ThumbFormat::AddSub
        } else {
            ThumbFormat::MoveShifted
        }
    } else if top == 0b0010 || top == 0b0011 {
        ThumbFormat::DataImm
    } else if top == 0b0100 {
        if (ins >> 10) & 0b11 == 0 {
            ThumbFormat::AluOp
        } else if (ins >> 10) & 0b11 == 1 {
            ThumbFormat::HiRegBex
        } else {
            ThumbFormat::PcRelLoad
        }
    } else if top == 0b0101 {
        if spec_get_bit_hw(ins, 9) {
            ThumbFormat::SignedTrans
        } else {
            ThumbFormat::RegOffsetTrans
        }
    } else if top == 0b0110 || top == 0b0111 {
        ThumbFormat::ImmOffsetTrans
    } else if top == 0b1000 {
        ThumbFormat::HwTrans
    } else if top == 0b1001 {
        ThumbFormat::SpRelTrans
    } else if top == 0b1010 {
        ThumbFormat::LoadAddr
    } else if top == 0b1011 {
        if spec_get_bit_hw(ins, 10) {
            ThumbFormat::PushPop
        } else {
            ThumbFormat::IncrSp
        }
    } else if top == 0b1100 {
        ThumbFormat::BlockTrans
    } else if top == 0b1101 {
        if (ins >> 8) & 0xF == 0xF {
            ThumbFormat::Swi
        } else {
            ThumbFormat::CondBranch
        }
    } else if top == 0b1110 {
        ThumbFormat::Branch
    } else {
        ThumbFormat::LongBranch
    }
}

/// Tell the format of a THUMB instruction. This doesn't check for invalid
/// instructions - it only looks at the minimum number of bits necessary to
/// decide between valid THUMB formats
#[verifier::when_used_as_spec(spec_thumb_format)]
pub fn _decode_thumb(ins: u16) -> (r: ThumbFormat)
    ensures
        r == spec_thumb_format(ins),
{
    let top: u16 = (ins >> 12) & 0xF;
    if top == 0b0000 {
        ThumbFormat::MoveShifted
    } else if top == 0b0001 {
        if get_bit_hw(ins, 11) {
            ThumbFormat::AddSub
        } else {
            ThumbFormat::MoveShifted
        }
    } else if top == 0b0010 || top == 0b0011 {
        ThumbFormat::DataImm
    } else if top == 0b0100 {
        let comp: u16 = (ins >> 10) & 0b11;
        if comp == 0 {
            ThumbFormat::AluOp
        } else if comp == 1 {
            ThumbFormat::HiRegBex
        } else {
            ThumbFormat::PcRelLoad
        }
    } else if top == 0b0101 {
        if get_bit_hw(ins, 9) {
            ThumbFormat::SignedTrans
        } else {
            ThumbFormat::RegOffsetTrans
        }
    } else if top == 0b0110 || top == 0b0111 {
        ThumbFormat::ImmOffsetTrans
    } else if top == 0b1000 {
        ThumbFormat::HwTrans
    } else if top == 0b1001 {
        ThumbFormat::SpRelTrans
    } else if top == 0b1010 {
        ThumbFormat::LoadAddr
    } else if top == 0b1011 {
        if get_bit_hw(ins, 10) {
            ThumbFormat::PushPop
        } else {
            ThumbFormat::IncrSp
        }
    } else if top == 0b1100 {
        ThumbFormat::BlockTrans
    } else if top == 0b1101 {
        if (ins >> 8) & 0xF == 0xF {
            ThumbFormat::Swi
        } else {
            ThumbFormat::CondBranch
        }
    } else if top == 0b1110 {
        ThumbFormat::Branch
    } else {
        ThumbFormat::LongBranch
    }
}

/// A shifted move is told from an add or subtract by its shift kind: an
/// instruction of the move format never asks for the fourth kind.
pub proof fn lemma_move_format_shift(ins: u16)
    by (bit_vector)
    requires
        (ins >> 12) & 0xF == 0 || ((ins >> 12) & 0xF == 1 && !(((ins >> 11u8) & 1) == 1)),
    ensures
        (ins >> 11) & 0b11 != 0b11,
{
}

/// The instruction that a THUMB instruction word stands for.
pub open spec fn spec_decode_thumb(ins: u16) -> Instruction {
    match spec_thumb_format(ins) {
        ThumbFormat::MoveShifted => thumb::spec_move_(ins),
        ThumbFormat::AddSub => thumb::spec_add_sub(ins),
        ThumbFormat::DataImm => thumb::spec_data_imm(ins),
        ThumbFormat::AluOp => thumb::spec_alu_op(ins),
        ThumbFormat::HiRegBex => thumb::spec_hi_reg_bex(ins),
        ThumbFormat::PcRelLoad => thumb::spec_pc_rel_load(ins),
        ThumbFormat::RegOffsetTrans => thumb::spec_reg_offset_trans(ins),
        ThumbFormat::SignedTrans => thumb::spec_signed_trans(ins),
        ThumbFormat::ImmOffsetTrans => thumb::spec_imm_offset_trans(ins),
        ThumbFormat::HwTrans => thumb::spec_hw_trans(ins),
        ThumbFormat::SpRelTrans => thumb::spec_sp_rel_trans(ins),
        ThumbFormat::LoadAddr => thumb::spec_load_addr(ins),
        ThumbFormat::IncrSp => thumb::spec_incr_sp(ins),
        ThumbFormat::PushPop => thumb::spec_push_pop(ins),
        ThumbFormat::BlockTrans => thumb::spec_block_trans(ins),
        ThumbFormat::CondBranch => thumb::spec_cond_branch(ins),
        ThumbFormat::Swi => thumb::spec_swi(ins),
        ThumbFormat::Branch => thumb::spec_branch(ins),
        ThumbFormat::LongBranch => thumb::spec_long_branch(ins),
    }
}

/// Decode a raw thumb instruction
#[verifier::when_used_as_spec(spec_decode_thumb)]
pub fn decode_thumb(ins: u16) -> (r: Instruction)
    ensures
        r == spec_decode_thumb(ins),
{
    match _decode_thumb(ins) {
        ThumbFormat::MoveShifted => {
            proof {
                lemma_move_format_shift(ins);
            }
            thumb::move_(ins)
        },
        ThumbFormat::AddSub => thumb::add_sub(ins),
        ThumbFormat::DataImm => thumb::data_imm(ins),
        ThumbFormat::AluOp => thumb::alu_op(ins),
        ThumbFormat::HiRegBex => thumb::hi_reg_bex(ins),
        ThumbFormat::PcRelLoad => thumb::pc_rel_load(ins),
        ThumbFormat::RegOffsetTrans => thumb::reg_offset_trans(ins),
        ThumbFormat::SignedTrans => thumb::signed_trans(ins),
        ThumbFormat::ImmOffsetTrans => thumb::imm_offset_trans(ins),
        ThumbFormat::HwTrans => thumb::hw_trans(ins),
        ThumbFormat::SpRelTrans => thumb::sp_rel_trans(ins),
        ThumbFormat::LoadAddr => thumb::load_addr(ins),
        ThumbFormat::IncrSp => thumb::incr_sp(ins),
        ThumbFormat::PushPop => thumb::push_pop(ins),
        ThumbFormat::BlockTrans => thumb::block_trans(ins),
        ThumbFormat::CondBranch => thumb::cond_branch(ins),
        ThumbFormat::Swi => thumb::swi(ins),
        ThumbFormat::Branch => thumb::branch(ins),
        ThumbFormat::LongBranch => thumb::long_branch(ins),
    }
}

/// Each ARM instruction's most significant 4 bits contain a condition field
/// which is compared with the CPU's CPSR register to determine if the instruction
/// should be executed
#[derive(Clone, Copy, Debug, PartialEq, Eq, Structural)]
pub enum CondField {
    EQ,
    NE,
    CS,
    CC,
    MI,
    PL,
    VS,
    VC,
    HI,
    LS,
    GE,
    LT,
    GT,
    LE,
    AL,
}

impl CondField {
    pub open spec fn spec_from_u32(n: u32) -> Option<CondField> {
        if n == 0 {
            Some(CondField::EQ)
        } else if n == 1 {
            Some(CondField::NE)
        } else if n == 2 {
            Some(CondField::CS)
        } else if n == 3 {
            Some(CondField::CC)
        } else if n == 4 {
            Some(CondField::MI)
        } else if n == 5 {
            Some(CondField::PL)
        } else if n == 6 {
            Some(CondField::VS)
        } else if n == 7 {
            Some(CondField::VC)
        } else if n == 8 {
            Some(CondField::HI)
        } else if n == 9 {
            Some(CondField::LS)
        } else if n == 10 {
            Some(CondField::GE)
        } else if n == 11 {
            Some(CondField::LT)
        } else if n == 12 {
            Some(CondField::GT)
        } else if n == 13 {
            Some(CondField::LE)
        } else if n == 14 {
            Some(CondField::AL)
        } else {
            None
        }
    }

    /// The condition that a condition field names. 15 names none.
    #[verifier::when_used_as_spec(spec_from_u32)]
    pub fn from_u32(n: u32) -> (r: Option<CondField>)
        ensures
            r == CondField::spec_from_u32(n),
    {
        if n == 0 {
            Some(CondField::EQ)
        } else if n == 1 {
            Some(CondField::NE)
        } else if n == 2 {
            Some(CondField::CS)
        } else if n == 3 {
            Some(CondField::CC)
        } else if n == 4 {
            Some(CondField::MI)
        } else if n == 5 {
            Some(CondField::PL)
        } else if n == 6 {
            Some(CondField::VS)
        } else if n == 7 {
            Some(CondField::VC)
        } else if n == 8 {
            Some(CondField::HI)
        } else if n == 9 {
            Some(CondField::LS)
        } else if n == 10 {
            Some(CondField::GE)
        } else if n == 11 {
            Some(CondField::LT)
        } else if n == 12 {
            Some(CondField::GT)
        } else if n == 13 {
            Some(CondField::LE)
        } else if n == 14 {
            Some(CondField::AL)
        } else {
            None
        }
    }

    /// Whether the flags of `cpsr` meet the condition: EQ (Z), NE (not Z),
    /// CS (C), CC (not C), MI (N), PL (not N), VS (V), VC (not V),
    /// HI (C and not V), LS (not C or V), GE (N = V), LT (N differs from V),
    /// GT (not Z and N = V), LE (Z or N differs from V), AL (always).
    pub open spec fn spec_holds(self, cpsr: &PSR) -> bool {
        match self {
            CondField::EQ => cpsr.zero,
            CondField::NE => !cpsr.zero,
            CondField::CS => cpsr.carry,
            CondField::CC => !cpsr.carry,
            CondField::MI => cpsr.neg,
            CondField::PL => !cpsr.neg,
            CondField::VS => cpsr.overflow,
            CondField::VC => !cpsr.overflow,
            CondField::HI => cpsr.carry && !cpsr.overflow,
            CondField::LS => !cpsr.carry || cpsr.overflow,
            CondField::GE => cpsr.neg == cpsr.overflow,
            CondField::LT => cpsr.neg != cpsr.overflow,
            CondField::GT => !cpsr.zero && (cpsr.neg == cpsr.overflow),
            CondField::LE => cpsr.zero || (cpsr.neg != cpsr.overflow),
            CondField::AL => true,
        }
    }

    #[verifier::when_used_as_spec(spec_holds)]
    pub fn holds(self, cpsr: &PSR) -> (r: bool)
        ensures
            r == self.spec_holds(cpsr),
    {
        match self {
            CondField::EQ => cpsr.zero,
            CondField::NE => !cpsr.zero,
            CondField::CS => cpsr.carry,
            CondField::CC => !cpsr.carry,
            CondField::MI => cpsr.neg,
            CondField::PL => !cpsr.neg,
            CondField::VS => cpsr.overflow,
            CondField::VC => !cpsr.overflow,
            CondField::HI => cpsr.carry && !cpsr.overflow,
            CondField::LS => !cpsr.carry || cpsr.overflow,
            CondField::GE => cpsr.neg == cpsr.overflow,
            CondField::LT => cpsr.neg != cpsr.overflow,
            CondField::GT => !cpsr.zero && (cpsr.neg == cpsr.overflow),
            CondField::LE => cpsr.zero || (cpsr.neg != cpsr.overflow),
            CondField::AL => true,
        }
    }
}

pub open spec fn spec_satisfies_cond(cpsr: &PSR, cond: u32) -> bool {
    match CondField::spec_from_u32(cond) {
        Some(field) => field.spec_holds(cpsr),
        None => false,
    }
}

/// Return whether the current state of the CPU's flags satisfies the condition
/// field of the given raw instruction
#[verifier::when_used_as_spec(spec_satisfies_cond)]
pub fn satisfies_cond(cpsr: &PSR, cond: u32) -> (r: bool)
    requires
        cond <= 14,
    ensures
        r == spec_satisfies_cond(cpsr, cond),
        CondField::spec_from_u32(cond) is Some,
{
    match CondField::from_u32(cond) {
        Some(field) => field.holds(cpsr),
        None => false,
    }
}

} // verus!
