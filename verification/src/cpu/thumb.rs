//! THUMB instructions
//!
//! Almost all THUMB instructions can be implemented as ARM instructions, so
//! most functions here simply decode a raw instruction into the appropriate
//! ARM instruction. The exceptions are format 16 (conditional branch) and
//! format 19 (long branch), which have their own Instruction enum branches.

use vstd::prelude::*;
use crate::cpu::arm::block_trans::BlockDataTransfer;
use crate::cpu::arm::branch::Branch;
use crate::cpu::arm::branch_ex::BranchAndExchange;
use crate::cpu::arm::data::{DataProc, Op};
use crate::cpu::arm::mul::Multiply;
use crate::cpu::arm::signed_trans::SignedDataTransfer;
use crate::cpu::arm::single_trans::SingleDataTransfer;
use crate::cpu::arm::swi::SWInterrupt;
use crate::cpu::arm::RegOrImm;
use crate::cpu::pipeline::{satisfies_cond, spec_satisfies_cond, Instruction};
use crate::cpu::status_reg::CPUMode;
use crate::cpu::{CpuError, CPU};
use crate::util::{get_bit_hw, lemma_mask_u16, offset_addr, spec_get_bit_hw, spec_offset_addr};

verus! {

/// The three bit register field that starts at bit `at`.
pub open spec fn spec_low_reg(raw: u16, at: u8) -> usize {
    ((raw >> at) & 0b111) as usize
}

#[verifier::when_used_as_spec(spec_low_reg)]
pub fn low_reg(raw: u16, at: u8) -> (r: usize)
    requires
        at < 16,
    ensures
        r == spec_low_reg(raw, at),
        r <= 7,
{
    proof {
        lemma_mask_u16(raw >> at, 0b111);
    }
    ((raw >> at) & 0b111) as usize
}

/// format 1:
/// 14 | 13 | 12  11 | 10 ... 6 | 5 .. 3 | 2 .. 0
/// 0  | 0  |   op   | offset 5 |   Rs   |   Rd
/// A move of Rs, shifted by the offset in the way op names, to Rd.
pub open spec fn spec_move_(raw: u16) -> Instruction {
    // dataproc expects shift of the format: offset 5 | op | 0
    Instruction::DataProc(
        DataProc {
            opcode: Op::MOV,
            set_flags: true,
            rn: 0,
            rd: spec_low_reg(raw, 0),
            op2: RegOrImm::Reg {
                shift: ((raw as u32 >> 3) & 0b11111000) | ((raw as u32 >> 10) & 0b110),
                reg: (raw as u32 >> 3) & 0b111,
            },
        },
    )
}

#[verifier::when_used_as_spec(spec_move_)]
pub fn move_(raw: u16) -> (r: Instruction)
    requires
        (raw >> 11) & 0b11 != 0b11,
    ensures
        r == spec_move_(raw),
{
    let shift_op = (raw as u32 >> 10) & 0b110;
    let imm = (raw as u32 >> 3) & 0b11111000;
    let rs = (raw as u32 >> 3) & 0b111;
    Instruction::DataProc(
        DataProc {
            opcode: Op::MOV,
            set_flags: true,
            rn: 0,  // this is unused for MOV instructions
            rd: low_reg(raw, 0),
            op2: RegOrImm::Reg { shift: imm | shift_op, reg: rs },
        },
    )
}

/// format 2:
/// 15 | 14 | 13 | 12 | 11 | 10 | 9  | 8 .. 6      | 5 .. 3 | 2 .. 0
/// 0  | 0  | 0  | 1  | 1  | I  | op | Rn/offset 3 |   Rs   |   Rd
pub open spec fn spec_add_sub(raw: u16) -> Instruction {
    Instruction::DataProc(
        DataProc {
            opcode: if (raw >> 9) & 1 == 1 {
                Op::SUB
            } else {
                Op::ADD
            },
            set_flags: true,
            rn: spec_low_reg(raw, 3),
            rd: spec_low_reg(raw, 0),
            op2: if (raw >> 10) & 1 == 1 {
                RegOrImm::Imm { rotate: 0, value: (raw as u32 >> 6) & 0b111 }
            } else {
                RegOrImm::Reg { shift: 0, reg: (raw as u32 >> 6) & 0b111 }
            },
        },
    )
}

#[verifier::when_used_as_spec(spec_add_sub)]
pub fn add_sub(raw: u16) -> (r: Instruction)
    ensures
        r == spec_add_sub(raw),
{
    let opcode = if (raw >> 9) & 1 == 1 {
        Op::SUB
    } else {
        Op::ADD
    };
    let val = (raw as u32 >> 6) & 0b111;
    let op2 = if (raw >> 10) & 1 == 1 {
        RegOrImm::Imm { rotate: 0, value: val }
    } else {
        RegOrImm::Reg { shift: 0, reg: val }
    };
    Instruction::DataProc(
        DataProc { opcode, set_flags: true, rn: low_reg(raw, 3), rd: low_reg(raw, 0), op2 },
    )
}

/// format 3:
/// 15 | 14 | 13 | 12 11 | 10 .. 8 | 7 .. 0
/// 0  | 0  | 1  |  op   |    Rd   | offset 8
pub open spec fn spec_data_imm(raw: u16) -> Instruction {
    let op = (raw >> 11) & 0b11;
    Instruction::DataProc(
        DataProc {
            opcode: if op == 0 {
                Op::MOV
            } else if op == 1 {
                Op::CMP
            } else if op == 2 {
                Op::ADD
            } else {
                Op::SUB
            },
            set_flags: true,
            rn: spec_low_reg(raw, 8),
            rd: spec_low_reg(raw, 8),
            op2: RegOrImm::Imm { rotate: 0, value: raw as u32 & 0xFF },
        },
    )
}

#[verifier::when_used_as_spec(spec_data_imm)]
pub fn data_imm(raw: u16) -> (r: Instruction)
    ensures
        r == spec_data_imm(raw),
{
    let op: u16 = (raw >> 11) & 0b11;
    let opcode = if op == 0 {
        Op::MOV
    } else if op == 1 {
        Op::CMP
    } else if op == 2 {
        Op::ADD
    } else {
        Op::SUB
    };
    let rd = low_reg(raw, 8);
    Instruction::DataProc(
        DataProc {
            opcode,
            set_flags: true,
            rn: rd,
            rd,
            op2: RegOrImm::Imm { rotate: 0, value: raw as u32 & 0xFF },
        },
    )
}

/// format 4:
/// 15 | 14 | 13 | 12 | 11 | 10 | 9 .. 6 | 5 .. 3 | 2 .. 0
/// 0  | 0  | 1  |  0 | 0  | 0  |   op   |   Rs   |   Rd
/// The shifts (LSL, LSR, ASR, ROR by Rs) become moves of Rd shifted by a
/// register, NEG becomes a reverse subtract from 0, MUL a multiply; every
/// other operation is the data operation of the same number on Rd and Rs.
pub open spec fn spec_alu_op(raw: u16) -> Instruction {
    let rd = spec_low_reg(raw, 0);
    let rs = (raw >> 3) & 0b111;
    let op = (raw >> 6) & 0xF;
    if op == 0b0010 || op == 0b0011 || op == 0b0100 || op == 0b0111 {
        // Rs4 0 op 1
        Instruction::DataProc(
            DataProc {
                opcode: Op::MOV,
                set_flags: true,
                rn: 0,
                rd,
                op2: RegOrImm::Reg {
                    shift: (((raw << 1) & 0x70) | (if op == 0b0010 {
                        0b0001u16
                    } else if op == 0b0011 {
                        0b0011u16
                    } else if op == 0b0100 {
                        0b0101u16
                    } else {
                        0b0111u16
                    })) as u32,
                    reg: rd as u32,
                },
            },
        )
    } else if op == 0b1001 {
        Instruction::DataProc(
            DataProc {
                opcode: Op::RSB,
                set_flags: true,
                rn: rs as usize,
                rd,
                op2: RegOrImm::Imm { rotate: 0, value: 0 },
            },
        )
    } else if op == 0b1101 {
        Instruction::Multiply(
            Multiply { accumulate: false, set_flags: true, rd, rn: 0, rs: rs as usize, rm: rd },
        )
    } else {
        Instruction::DataProc(
            DataProc {
                opcode: Op::spec_of_field(op as u32),
                set_flags: true,
                rn: rd,
                rd,
                op2: RegOrImm::Reg { shift: 0, reg: rs as u32 },
            },
        )
    }
}

#[verifier::when_used_as_spec(spec_alu_op)]
pub fn alu_op(raw: u16) -> (r: Instruction)
    ensures
        r == spec_alu_op(raw),
{
    let rd = low_reg(raw, 0);
    let rs: u16 = (raw >> 3) & 0b111;
    let op: u16 = (raw >> 6) & 0xF;
    // MOV instruction
    if op == 0b0010 || op == 0b0011 || op == 0b0100 || op == 0b0111 {
        let rs4: u16 = (raw << 1) & 0x70;
        let shift_nibble_lo: u16 = if op == 0b0010 {
            0b0001  // Rd := Rd << Rs
        } else if op == 0b0011 {
            0b0011  // Rd := Rd >> Rs
        } else if op == 0b0100 {
            0b0101  // Rd := Rd ASR Rs
        } else {
            0b0111  // Rd := Rd ROR Rs
        };
        Instruction::DataProc(
            DataProc {
                opcode: Op::MOV,
                set_flags: true,
                rn: 0,  // unused for MOV
                rd,
                op2: RegOrImm::Reg { shift: (rs4 | shift_nibble_lo) as u32, reg: rd as u32 },
            },
        )
    } else if op == 0b1001 {
        // RSBS Rd, Rs, #0 (Rd = -Rs)
        Instruction::DataProc(
            DataProc {
                opcode: Op::RSB,
                set_flags: true,
                rn: rs as usize,
                rd,
                op2: RegOrImm::Imm { rotate: 0, value: 0 },
            },
        )
    } else if op == 0b1101 {
        // MUL instruction
        Instruction::Multiply(
            Multiply {
                accumulate: false,
                set_flags: true,
                rd,
                rn: 0,  // unused when accumulate = false
                rs: rs as usize,
                rm: rd,
            },
        )
    } else {
        // data instruction
        Instruction::DataProc(
            DataProc {
                opcode: Op::of_field(op as u32),
                set_flags: true,
                rn: rd,
                rd,
                op2: RegOrImm::Reg { shift: 0, reg: rs as u32 },
            },
        )
    }
}

/// The four bit register that a three bit field at `at` and a high bit at
/// `high` name together.
pub open spec fn spec_hi_reg(raw: u16, at: u8, high: u8) -> u16 {
    if spec_get_bit_hw(raw, high) {
        (((raw >> at) & 0b111) + 8) as u16
    } else {
        (raw >> at) & 0b111
    }
}

#[verifier::when_used_as_spec(spec_hi_reg)]
pub fn hi_reg(raw: u16, at: u8, high: u8) -> (r: u16)
    requires
        at < 16,
        high < 16,
    ensures
        r == spec_hi_reg(raw, at, high),
        r <= 15,
{
    proof {
        lemma_mask_u16(raw >> at, 0b111);
    }
    if get_bit_hw(raw, high) {
        ((raw >> at) & 0b111) + 8
    } else {
        (raw >> at) & 0b111
    }
}

/// format 5: allows ADD/CMP/MOV/BX on regs 8-15
/// 15 | 14 | 13 | 12 | 11 | 10 | 9 8 | 7 | 6 | 5 .. 3 | 2 .. 0
/// 0  | 1  | 0  | 0  | 0  | 1  | Op  |H1 |H2 | Rs/Hs  |  Rd/Hd
pub open spec fn spec_hi_reg_bex(raw: u16) -> Instruction {
    let rd = spec_hi_reg(raw, 0, 7);
    let rs = spec_hi_reg(raw, 3, 6);
    let op = (raw >> 8) & 0b11;
    if op == 0 {
        Instruction::DataProc(
            DataProc {
                opcode: Op::ADD,
                set_flags: false,
                rn: rd as usize,
                rd: rd as usize,
                op2: RegOrImm::Reg { shift: 0, reg: rs as u32 },
            },
        )
    } else if op == 1 {
        Instruction::DataProc(
            DataProc {
                opcode: Op::CMP,
                set_flags: true,
                rn: rd as usize,
                rd: 0,
                op2: RegOrImm::Reg { shift: 0, reg: rs as u32 },
            },
        )
    } else if op == 2 {
        Instruction::DataProc(
            DataProc {
                opcode: Op::MOV,
                set_flags: false,
                rn: 0,
                rd: rd as usize,
                op2: RegOrImm::Reg { shift: 0, reg: rs as u32 },
            },
        )
    } else {
        Instruction::BranchEx(BranchAndExchange { reg: rs as usize })
    }
}

#[verifier::when_used_as_spec(spec_hi_reg_bex)]
pub fn hi_reg_bex(raw: u16) -> (r: Instruction)
    ensures
        r == spec_hi_reg_bex(raw),
{
    let rd = hi_reg(raw, 0, 7);
    let rs = hi_reg(raw, 3, 6);
    let op: u16 = (raw >> 8) & 0b11;
    if op == 0 {
        Instruction::DataProc(
            DataProc {
                opcode: Op::ADD,
                set_flags: false,
                rn: rd as usize,
                rd: rd as usize,
                op2: RegOrImm::Reg { shift: 0, reg: rs as u32 },
            },
        )
    } else if op == 1 {
        Instruction::DataProc(
            DataProc {
                opcode: Op::CMP,
                set_flags: true,
                rn: rd as usize,
                rd: 0,  // unused for CMP,
                op2: RegOrImm::Reg { shift: 0, reg: rs as u32 },
            },
        )
    } else if op == 2 {
        Instruction::DataProc(
            DataProc {
                opcode: Op::MOV,
                set_flags: false,
                rn: 0,  // unused for MOV
                rd: rd as usize,
                op2: RegOrImm::Reg { shift: 0, reg: rs as u32 },
            },
        )
    } else {
        Instruction::BranchEx(BranchAndExchange { reg: rs as usize })
    }
}

/// format 6: pc relative load (LDR Rd, [R15, #Imm])
/// 15 | 14 | 13 | 12 | 11 | 10 .. 8 | 7 .. 0
/// 0  | 1  | 0  | 0  | 1  |    Rd   | Word8
pub open spec fn spec_pc_rel_load(raw: u16) -> Instruction {
    Instruction::SingleTransfer(
        SingleDataTransfer {
            pre_index: true,
            offset_up: true,
            byte: false,
            write_back: false,
            load: true,
            rn: 15,
            rd: spec_low_reg(raw, 8),
            offset: RegOrImm::Imm { rotate: 0, value: (raw as u32 & 0xFF) << 2 },
        },
    )
}

#[verifier::when_used_as_spec(spec_pc_rel_load)]
pub fn pc_rel_load(raw: u16) -> (r: Instruction)
    ensures
        r == spec_pc_rel_load(raw),
{
    Instruction::SingleTransfer(
        SingleDataTransfer {
            pre_index: true,
            offset_up: true,
            byte: false,
            write_back: false,
            load: true,
            rn: 15,
            rd: low_reg(raw, 8),
            offset: RegOrImm::Imm { rotate: 0, value: (raw as u32 & 0xFF) << 2 },
        },
    )
}

/// format 7: register offset transfer
/// 15 | 14 | 13 | 12 | 11 | 10 | 9 | 8 .. 6 | 5 .. 3 | 2 .. 0
/// 0  | 1  | 0  | 1  | L  | B  | 0 |  Ro    |   Rb   |   Rd
pub open spec fn spec_reg_offset_trans(raw: u16) -> Instruction {
    Instruction::SingleTransfer(
        SingleDataTransfer {
            pre_index: true,
            offset_up: true,
            byte: spec_get_bit_hw(raw, 10),
            write_back: false,
            load: spec_get_bit_hw(raw, 11),
            rn: spec_low_reg(raw, 3),
            rd: spec_low_reg(raw, 0),
            offset: RegOrImm::Reg { shift: 0, reg: (raw as u32 >> 6) & 0b111 },
        },
    )
}

#[verifier::when_used_as_spec(spec_reg_offset_trans)]
pub fn reg_offset_trans(raw: u16) -> (r: Instruction)
    ensures
        r == spec_reg_offset_trans(raw),
{
    Instruction::SingleTransfer(
        SingleDataTransfer {
            pre_index: true,
            offset_up: true,
            byte: get_bit_hw(raw, 10),
            write_back: false,
            load: get_bit_hw(raw, 11),
            rn: low_reg(raw, 3),
            rd: low_reg(raw, 0),
            offset: RegOrImm::Reg { shift: 0, reg: (raw as u32 >> 6) & 0b111 },
        },
    )
}

/// format 8: sign-extended transfer
/// 15 | 14 | 13 | 12 | 11 | 10 | 9 | 8 .. 6 | 5 .. 3 | 2 .. 0
/// 0  | 1  | 0  | 1  | H  | S  | 1 |  Ro    |   Rb   |   Rd
/// S and H clear store a halfword; H alone loads one; S alone loads a
/// sign extended byte; both load a sign extended halfword.
pub open spec fn spec_signed_trans(raw: u16) -> Instruction {
    let hflag = spec_get_bit_hw(raw, 11);
    let signed = spec_get_bit_hw(raw, 10);
    Instruction::SignedTransfer(
        SignedDataTransfer {
            pre_index: true,
            offset_up: true,
            halfword: !signed || hflag,
            write_back: false,
            load: signed || hflag,
            rn: spec_low_reg(raw, 3),
            rd: spec_low_reg(raw, 0),
            signed,
            offset: RegOrImm::Reg { shift: 0, reg: (raw as u32 >> 6) & 0b111 },
        },
    )
}

#[verifier::when_used_as_spec(spec_signed_trans)]
pub fn signed_trans(raw: u16) -> (r: Instruction)
    ensures
        r == spec_signed_trans(raw),
{
    let hflag = get_bit_hw(raw, 11);
    let signed = get_bit_hw(raw, 10);
    let (load, halfword) = match (signed, hflag) {
        (false, false) => (false, true),  // store halfword
        (false, true) => (true, true),  // load halfword
        (true, false) => (true, false),  // load sign extended byte
        (true, true) => (true, true),  // load sign extended halfword
    };
    Instruction::SignedTransfer(
        SignedDataTransfer {
            pre_index: true,
            offset_up: true,
            halfword,
            write_back: false,
            load,
            rn: low_reg(raw, 3),
            rd: low_reg(raw, 0),
            signed,
            offset: RegOrImm::Reg { shift: 0, reg: (raw as u32 >> 6) & 0b111 },
        },
    )
}

/// format 9: immediate offset transfer
/// 15 | 14 | 13 | 12 | 11 | 10 .. 6 | 5 .. 3 | 2 .. 0
/// 0  | 1  | 1  | B  | L  | offset5 |   Rb   |   Rd
/// The offset counts bytes for a byte transfer and words for a word transfer.
pub open spec fn spec_imm_offset_trans(raw: u16) -> Instruction {
    let imm = (raw as u32 >> 6) & 0b11111;
    Instruction::SingleTransfer(
        SingleDataTransfer {
            pre_index: true,
            offset_up: true,
            byte: spec_get_bit_hw(raw, 12),
            write_back: false,
            load: spec_get_bit_hw(raw, 11),
            rn: spec_low_reg(raw, 3),
            rd: spec_low_reg(raw, 0),
            offset: RegOrImm::Imm {
                rotate: 0,
                value: if spec_get_bit_hw(raw, 12) {
                    imm
                } else {
                    imm << 2
                },
            },
        },
    )
}

#[verifier::when_used_as_spec(spec_imm_offset_trans)]
pub fn imm_offset_trans(raw: u16) -> (r: Instruction)
    ensures
        r == spec_imm_offset_trans(raw),
{
    let imm = (raw as u32 >> 6) & 0b11111;
    let byte = get_bit_hw(raw, 12);
    Instruction::SingleTransfer(
        SingleDataTransfer {
            pre_index: true,
            offset_up: true,
            byte,
            write_back: false,
            load: get_bit_hw(raw, 11),
            rn: low_reg(raw, 3),
            rd: low_reg(raw, 0),
            offset: RegOrImm::Imm {
                rotate: 0,
                value: if byte {
                    imm
                } else {
                    imm << 2
                },
            },
        },
    )
}

/// format 10: hw transfer
/// 15 | 14 | 13 | 12 | 11 | 10 .. 6 | 5 .. 3 | 2 .. 0
/// 1  | 0  | 0  | 0  | L  | offset5 |   Rb   |   Rd
pub open spec fn spec_hw_trans(raw: u16) -> Instruction {
    Instruction::SignedTransfer(
        SignedDataTransfer {
            pre_index: true,
            offset_up: true,
            halfword: true,
            write_back: false,
            load: spec_get_bit_hw(raw, 11),
            rn: spec_low_reg(raw, 3),
            rd: spec_low_reg(raw, 0),
            signed: false,
            offset: RegOrImm::Imm { rotate: 0, value: (raw as u32 >> 5) & 0b111110 },
        },
    )
}

#[verifier::when_used_as_spec(spec_hw_trans)]
pub fn hw_trans(raw: u16) -> (r: Instruction)
    ensures
        r == spec_hw_trans(raw),
{
    let imm = (raw as u32 >> 5) & 0b111110;
    Instruction::SignedTransfer(
        SignedDataTransfer {
            pre_index: true,
            offset_up: true,
            halfword: true,
            write_back: false,
            load: get_bit_hw(raw, 11),
            rn: low_reg(raw, 3),
            rd: low_reg(raw, 0),
            signed: false,
            offset: RegOrImm::Imm { rotate: 0, value: imm },
        },
    )
}

/// format 11: sp rel transfer
/// 15 | 14 | 13 | 12 | 11 | 10 .. 8 | 7 .. 0
/// 1  | 0  | 0  | 1  | L  |    Rd   | offset8
pub open spec fn spec_sp_rel_trans(raw: u16) -> Instruction {
    Instruction::SingleTransfer(
        SingleDataTransfer {
            pre_index: true,
            offset_up: true,
            byte: false,
            write_back: false,
            load: spec_get_bit_hw(raw, 11),
            rn: 13,
            rd: spec_low_reg(raw, 8),
            offset: RegOrImm::Imm { rotate: 0, value: raw as u32 & 0xFF },
        },
    )
}

#[verifier::when_used_as_spec(spec_sp_rel_trans)]
pub fn sp_rel_trans(raw: u16) -> (r: Instruction)
    ensures
        r == spec_sp_rel_trans(raw),
{
    Instruction::SingleTransfer(
        SingleDataTransfer {
            pre_index: true,
            offset_up: true,
            byte: false,
            write_back: false,
            load: get_bit_hw(raw, 11),
            rn: 13,
            rd: low_reg(raw, 8),
            offset: RegOrImm::Imm { rotate: 0, value: raw as u32 & 0xFF },
        },
    )
}

/// format 12: load addr: adds a 10 bit constant to either the PC or SP
/// 15 | 14 | 13 | 12 | 11 | 10 .. 8 | 7 .. 0
/// 1  | 0  | 1  | 0  | SP |    Rd   | word8
pub open spec fn spec_load_addr(raw: u16) -> Instruction {
    Instruction::DataProc(
        DataProc {
            opcode: Op::ADD,
            set_flags: false,
            rn: if spec_get_bit_hw(raw, 11) {
                13
            } else {
                15
            },
            rd: spec_low_reg(raw, 8),
            op2: RegOrImm::Imm { rotate: 0, value: (raw as u32 & 0xFF) << 2 },
        },
    )
}

#[verifier::when_used_as_spec(spec_load_addr)]
pub fn load_addr(raw: u16) -> (r: Instruction)
    ensures
        r == spec_load_addr(raw),
{
    let rn: usize = if get_bit_hw(raw, 11) {
        13
    } else {
        15
    };
    Instruction::DataProc(
        DataProc {
            opcode: Op::ADD,
            set_flags: false,
            rn,
            rd: low_reg(raw, 8),
            op2: RegOrImm::Imm { rotate: 0, value: (raw as u32 & 0xFF) << 2 },
        },
    )
}

/// format 13: add 9 bit signed constant to the SP
/// 15 .. 8  | 7 | 6 .. 0
/// 10110000 | S | SWord7
pub open spec fn spec_incr_sp(raw: u16) -> Instruction {
    Instruction::DataProc(
        DataProc {
            opcode: if spec_get_bit_hw(raw, 7) {
                Op::SUB
            } else {
                Op::ADD
            },
            set_flags: false,
            rn: 13,
            rd: 13,
            op2: RegOrImm::Imm { rotate: 0, value: (raw as u32 & 0x7F) << 2 },
        },
    )
}

#[verifier::when_used_as_spec(spec_incr_sp)]
pub fn incr_sp(raw: u16) -> (r: Instruction)
    ensures
        r == spec_incr_sp(raw),
{
    let opcode = if get_bit_hw(raw, 7) {
        Op::SUB
    } else {
        Op::ADD
    };
    Instruction::DataProc(
        DataProc {
            opcode,
            set_flags: false,
            rn: 13,
            rd: 13,
            op2: RegOrImm::Imm { rotate: 0, value: (raw as u32 & 0x7F) << 2 },
        },
    )
}

/// format 14: push R0-7/LR to the stack, or pop R0-7/PC from the stack
/// 15 | 14 | 13 | 12 | 11 | 10 | 9 | 8 | 7 .. 0
/// 1  | 0  | 1  | 1  | L  | 1  | 0 | R |  Rlist
/// A push stores with the address going down before each register; a pop
/// loads with the address going up after each.
pub open spec fn spec_push_pop(raw: u16) -> Instruction {
    let pop = spec_get_bit_hw(raw, 11);
    Instruction::BlockTransfer(
        BlockDataTransfer {
            pre_index: !pop,
            offset_up: pop,
            force: false,
            write_back: true,
            load: pop,
            rn: 13,
            register_list: if spec_get_bit_hw(raw, 8) {
                (raw & 0xFF) | (if pop {
                    0x8000u16
                } else {
                    0x4000u16
                })
            } else {
                raw & 0xFF
            },
        },
    )
}

#[verifier::when_used_as_spec(spec_push_pop)]
pub fn push_pop(raw: u16) -> (r: Instruction)
    ensures
        r == spec_push_pop(raw),
{
    let pop = get_bit_hw(raw, 11);
    let mut register_list: u16 = raw & 0xFF;
    if get_bit_hw(raw, 8) {
        // the extra register is the PC for a pop and the LR for a push
        register_list = register_list | (if pop {
            0x8000
        } else {
            0x4000
        });
    }
    // pre decr store if pushing, post incr load if popping
    Instruction::BlockTransfer(
        BlockDataTransfer {
            pre_index: !pop,
            offset_up: pop,
            force: false,
            write_back: true,
            load: pop,
            rn: 13,
            register_list,
        },
    )
}

/// format 15: postincr store/load - STMIA/LDMIA Rb!,{ RList }
/// 15 | 14 | 13 | 12 | 11 | 10 .. 8 | 7 .. 0
/// 1  | 1  | 0  | 0  | L  |    Rb   | Rlist
pub open spec fn spec_block_trans(raw: u16) -> Instruction {
    Instruction::BlockTransfer(
        BlockDataTransfer {
            pre_index: false,
            offset_up: true,
            force: false,
            write_back: true,
            load: spec_get_bit_hw(raw, 11),
            rn: spec_low_reg(raw, 8),
            register_list: raw & 0xFF,
        },
    )
}

#[verifier::when_used_as_spec(spec_block_trans)]
pub fn block_trans(raw: u16) -> (r: Instruction)
    ensures
        r == spec_block_trans(raw),
{
    Instruction::BlockTransfer(
        BlockDataTransfer {
            pre_index: false,
            offset_up: true,
            force: false,
            write_back: true,
            load: get_bit_hw(raw, 11),
            rn: low_reg(raw, 8),
            register_list: raw & 0xFF,
        },
    )
}

/// The offset in bytes that a two's complement field of `bits` bits,
/// counting halfwords, stands for.
pub open spec fn spec_halfword_offset(field: u16, bits: u16) -> int {
    if bits == 8 {
        (if field >= 0x80 {
            field - 0x100
        } else {
            field as int
        }) * 2
    } else {
        (if field >= 0x400 {
            field - 0x800
        } else {
            field as int
        }) * 2
    }
}

/// format 16:
/// 15 | 14 | 13 | 12 | 11 .. 8 | 7 .. 0
/// 1  | 1  | 0  | 1  |  cond   | soffset8
pub open spec fn spec_cond_branch(raw: u16) -> Instruction {
    Instruction::CondBranch(
        CondBranch { cond: (raw >> 8) & 0xF, offset: spec_halfword_offset(raw & 0xFF, 8) as i16 },
    )
}

#[verifier::when_used_as_spec(spec_cond_branch)]
pub fn cond_branch(raw: u16) -> (r: Instruction)
    ensures
        r == spec_cond_branch(raw),
{
    proof {
        lemma_mask_u16(raw, 0xFF);
    }
    let field: i16 = (raw & 0xFF) as i16;
    Instruction::CondBranch(
        CondBranch {
            cond: (raw >> 8) & 0xF,
            offset: (if field >= 0x80 {
                field - 0x100
            } else {
                field
            }) * 2,
        },
    )
}

/// The one THUMB instruction that carries a condition; it is tested when
/// the instruction runs.
#[derive(Clone, Copy, Debug, PartialEq, Eq, Structural)]
pub struct CondBranch {
    pub cond: u16,
    pub offset: i16,
}

impl CondBranch {
    /// Why the instruction cannot run, if it cannot: the condition field
    /// must name a condition.
    pub open spec fn spec_check(&self, cpu: &CPU) -> Option<CpuError> {
        if cpu.cpsr.mode == CPUMode::INVALID {
            Some(CpuError::InvalidMode)
        } else if self.cond > 14 {
            Some(CpuError::InvalidInstruction)
        } else {
            None
        }
    }

    /// The processor after the instruction: where the condition holds the
    /// program counter has moved by the offset and the pipeline is to be
    /// flushed; where it does not, nothing has changed.
    pub open spec fn spec_run(&self, cpu: CPU) -> CPU {
        if spec_satisfies_cond(&cpu.cpsr, self.cond as u32) {
            cpu.spec_modify_pc(self.offset as i64)
        } else {
            cpu
        }
    }

    /// A branch that is taken costs what a branch costs, one that is not
    /// costs one cycle.
    pub open spec fn spec_cycles(&self, cpu: CPU) -> u32 {
        if spec_satisfies_cond(&cpu.cpsr, self.cond as u32) {
            let target = spec_offset_addr(cpu.r[15], self.offset as int);
            (cpu.mem.spec_access_time(cpu.r[15], false) + cpu.mem.spec_access_time(target, true)
                + cpu.mem.spec_access_time(target.wrapping_add(4), false)) as u32
        } else {
            1
        }
    }

    pub fn run(&self, cpu: &mut CPU) -> (r: Result<u32, CpuError>)
        ensures
            match r {
                Ok(cycles) => self.spec_check(old(cpu)) is None && *final(cpu) == self.spec_run(
                    *old(cpu),
                ) && cycles == self.spec_cycles(*old(cpu)),
                Err(e) => self.spec_check(old(cpu)) == Some(e) && *final(cpu) == *old(cpu),
            },
            old(cpu).mem.registers_agree() ==> final(cpu).mem.registers_agree(),
            old(cpu).status_wf() ==> final(cpu).status_wf(),
    {
        if cpu.cpsr.mode == CPUMode::INVALID {
            return Err(CpuError::InvalidMode);
        }
        if self.cond > 14 {
            return Err(CpuError::InvalidInstruction);
        }
        if satisfies_cond(&cpu.cpsr, self.cond as u32) {
            let old_pc = cpu.r[15];
            cpu.modify_pc(self.offset as i64);
            Ok(
                cpu.mem.access_time(old_pc, false) + cpu.mem.access_time(cpu.r[15], true)
                    + cpu.mem.access_time(cpu.r[15].wrapping_add(4), false),
            )
        } else {
            Ok(1)
        }
    }
}

/// format 17: SWI
/// 15 .. 8  | 7 .. 0
/// 11011111 | value8
pub open spec fn spec_swi(raw: u16) -> Instruction {
    Instruction::SWInterrupt(SWInterrupt { comment: raw as u32 & 0xFF })
}

#[verifier::when_used_as_spec(spec_swi)]
pub fn swi(raw: u16) -> (r: Instruction)
    ensures
        r == spec_swi(raw),
{
    Instruction::SWInterrupt(SWInterrupt { comment: raw as u32 & 0xFF })
}

/// format 18: unconditional branch
/// 15 .. 11 | 10 .. 0
///  11100   | offset11
pub open spec fn spec_branch(raw: u16) -> Instruction {
    Instruction::Branch(
        Branch { offset: spec_halfword_offset(raw & 0x7FF, 11) as i32, link: false },
    )
}

#[verifier::when_used_as_spec(spec_branch)]
pub fn branch(raw: u16) -> (r: Instruction)
    ensures
        r == spec_branch(raw),
{
    proof {
        lemma_mask_u16(raw, 0x7FF);
    }
    let field: i32 = (raw & 0x7FF) as i32;
    Instruction::Branch(
        Branch {
            offset: (if field >= 0x400 {
                field - 0x800
            } else {
                field
            }) * 2,
            link: false,
        },
    )
}

/// format 19: allows for a branch and link with a full 23 bit offset
/// a long branch with H = 0 followed by one with H = 1 is equivalent to one BL
/// 15 .. 12 | 11 | 10 .. 0
///   1111   | H  | offset
pub open spec fn spec_long_branch(raw: u16) -> Instruction {
    Instruction::LongBranch(LongBranch { first: !spec_get_bit_hw(raw, 11), offset: raw & 0x7FF })
}

#[verifier::when_used_as_spec(spec_long_branch)]
pub fn long_branch(raw: u16) -> (r: Instruction)
    ensures
        r == spec_long_branch(raw),
{
    Instruction::LongBranch(LongBranch { first: !get_bit_hw(raw, 11), offset: raw & 0x7FF })
}

/// One half of a branch with link over a long distance.
#[derive(Clone, Copy, Debug, PartialEq, Eq, Structural)]
pub struct LongBranch {
    pub first: bool,
    pub offset: u16,
}

impl LongBranch {
    pub open spec fn spec_check(&self, cpu: &CPU) -> Option<CpuError> {
        if cpu.cpsr.mode == CPUMode::INVALID {
            Some(CpuError::InvalidMode)
        } else {
            None
        }
    }

    /// The upper part of the distance: the low 11 bits of the offset as a
    /// two's complement number, times 4096.
    pub open spec fn spec_upper(&self) -> int {
        (if self.offset % 0x800 >= 0x400 {
            self.offset % 0x800 - 0x800
        } else {
            (self.offset % 0x800) as int
        }) * 0x1000
    }

    /// The processor after one half of the branch. The first half puts the
    /// program counter plus the upper part of the distance in R14. The
    /// second half jumps to R14 plus twice its offset, bit 0 cleared,
    /// leaves the address of the next instruction with bit 0 set in R14,
    /// and asks for a pipeline flush.
    #[verifier::opaque]
    pub open spec fn spec_run(&self, cpu: CPU) -> CPU {
        if self.first {
            cpu.spec_set_reg(14, spec_offset_addr(cpu.spec_get_reg(15), self.spec_upper()))
        } else {
            cpu.spec_set_reg(14, cpu.spec_get_reg(15).wrapping_sub(2) | 1).spec_set_reg(
                15,
                cpu.spec_get_reg(14).wrapping_add((self.offset as u32) << 1) & !1u32,
            ).spec_request_flush()
        }
    }

    /// The first half costs nothing; the second half costs what a branch costs.
    pub open spec fn spec_cycles(&self, cpu: CPU) -> u32 {
        if self.first {
            0
        } else {
            let target = cpu.spec_get_reg(14).wrapping_add((self.offset as u32) << 1);
            (cpu.mem.spec_access_time(cpu.r[15], false) + cpu.mem.spec_access_time(target, true)
                + cpu.mem.spec_access_time(target.wrapping_add(4), false)) as u32
        }
    }

    pub fn run(&self, cpu: &mut CPU) -> (r: Result<u32, CpuError>)
        ensures
            match r {
                Ok(cycles) => self.spec_check(old(cpu)) is None && *final(cpu) == self.spec_run(
                    *old(cpu),
                ) && cycles == self.spec_cycles(*old(cpu)),
                Err(e) => self.spec_check(old(cpu)) == Some(e) && *final(cpu) == *old(cpu),
            },
            old(cpu).mem.registers_agree() ==> final(cpu).mem.registers_agree(),
            old(cpu).status_wf() ==> final(cpu).status_wf(),
    {
        if cpu.cpsr.mode == CPUMode::INVALID {
            return Err(CpuError::InvalidMode);
        }
        proof {
            reveal(LongBranch::spec_run);
        }
        if self.first {
            let field: i64 = (self.offset % 0x800) as i64;
            let upper: i64 = (if field >= 0x400 {
                field - 0x800
            } else {
                field
            }) * 0x1000;
            let lr = offset_addr(cpu.get_reg(15), upper);
            cpu.set_reg(14, lr);
            Ok(0)  // incur the cycle cost when the second half is run
        } else {
            let next_ins = cpu.get_reg(15).wrapping_sub(2) | 1;
            let pc = cpu.get_reg(14).wrapping_add((self.offset as u32) << 1);
            let old_pc = cpu.r[15];
            let cycles = cpu.mem.access_time(old_pc, false) + cpu.mem.access_time(pc, true)
                + cpu.mem.access_time(pc.wrapping_add(4), false);
            cpu.set_reg(14, next_ins);
            cpu.set_reg(15, pc & !1u32);
            cpu.request_flush();
            Ok(cycles)
        }
    }
}

impl CondBranch {
    /// A conditional branch that is taken asks for a pipeline flush.
    pub proof fn lemma_taken_branch_flushes(&self, cpu: CPU)
        requires
            spec_satisfies_cond(&cpu.cpsr, self.cond as u32),
        ensures
            self.spec_run(cpu).should_flush,
    {
        reveal(CPU::spec_modify_pc);
    }
}

impl LongBranch {
    /// The second half of a long branch asks for a pipeline flush.
    pub proof fn lemma_second_half_flushes(&self, cpu: CPU)
        requires
            !self.first,
        ensures
            self.spec_run(cpu).should_flush,
    {
        reveal(LongBranch::spec_run);
        reveal(CPU::spec_request_flush);
    }
}

} // verus!
