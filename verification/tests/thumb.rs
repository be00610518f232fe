use gba_core::cpu::arm::data::Op;
use gba_core::cpu::arm::mul::Multiply;
use gba_core::cpu::arm::RegOrImm;
use gba_core::cpu::pipeline::{decode_thumb, Instruction};
use gba_core::cpu::status_reg::InstructionSet;
use gba_core::cpu::thumb::{
    add_sub, alu_op, block_trans, branch, cond_branch, data_imm, hi_reg_bex, hw_trans,
    imm_offset_trans, incr_sp, load_addr, long_branch, move_, pc_rel_load, push_pop,
    reg_offset_trans, signed_trans, sp_rel_trans, swi, CondBranch,
};
use gba_core::cpu::{CpuError, CPU};

#[test]
fn test_move() {
    match move_(0b000_01_11011_011_110) {
        Instruction::DataProc(ins) => {
            assert_eq!(ins.rd, 0b110);
            assert_eq!(ins.op2, RegOrImm::Reg { shift: 0b11011_01_0, reg: 0b011 });
        }
        _ => panic!(),
    }
}

#[test]
fn test_add_sub() {
    match add_sub(0b00011_1_0_001_110_101) {
        Instruction::DataProc(ins) => {
            assert_eq!(ins.rd, 0b101);
            assert_eq!(ins.rn, 0b110);
            assert_eq!(ins.opcode, Op::ADD);
            assert_eq!(ins.op2, RegOrImm::Imm { rotate: 0, value: 0b001 });
        }
        _ => panic!(),
    }
}

#[test]
fn test_data_imm() {
    match data_imm(0b001_01_110_11110001) {
        Instruction::DataProc(ins) => {
            assert_eq!(ins.opcode, Op::CMP);
            assert_eq!(ins.rd, 0b110);
            assert_eq!(ins.rn, 0b110);
            assert_eq!(ins.op2, RegOrImm::Imm { rotate: 0, value: 0b11110001 });
        }
        _ => panic!(),
    }
}

#[test]
fn test_alu() {
    match alu_op(0b010000_1010_001_010) {
        Instruction::DataProc(ins) => {
            assert_eq!(ins.opcode, Op::CMP);
            assert_eq!(ins.rd, 0b010);
            assert_eq!(ins.rn, 0b010);
            assert_eq!(ins.op2, RegOrImm::Reg { shift: 0, reg: 0b001 });
        }
        _ => panic!(),
    };

    match alu_op(0b010000_0111_001_010) {
        Instruction::DataProc(ins) => {
            assert_eq!(ins.opcode, Op::MOV);
            assert_eq!(ins.rd, 0b010);
            assert_eq!(ins.op2, RegOrImm::Reg { shift: 0b0001_0111, reg: 0b010 });
        }
        _ => panic!(),
    };

    match alu_op(0b010000_1001_001_010) {
        Instruction::DataProc(ins) => {
            assert_eq!(ins.opcode, Op::RSB);
            assert_eq!(ins.rn, 0b001);
            assert_eq!(ins.rd, 0b010);
            assert_eq!(ins.op2, RegOrImm::Imm { rotate: 0, value: 0 });
        }
        _ => panic!(),
    };
}

#[test]
fn alu_multiply_decodes_to_multiply() {
    assert_eq!(
        alu_op(0b010000_1101_001_010),
        Instruction::Multiply(Multiply {
            accumulate: false,
            set_flags: true,
            rd: 2,
            rn: 0,
            rs: 1,
            rm: 2
        })
    );
}

#[test]
fn test_hi_reg_bex() {
    match hi_reg_bex(0b010001_11_00_001_110) {
        Instruction::BranchEx(ins) => {
            assert_eq!(ins.reg, 0b001);
        }
        _ => panic!(),
    }

    match hi_reg_bex(0b010001_00_11_001_110) {
        Instruction::DataProc(ins) => {
            assert_eq!(ins.set_flags, false);
            assert_eq!(ins.opcode, Op::ADD);
            assert_eq!(ins.rn, 0b1110);
            assert_eq!(ins.rd, 0b1110);
            assert_eq!(ins.op2, RegOrImm::Reg { shift: 0, reg: 0b1001 });
        }
        _ => panic!(),
    }
}

#[test]
fn test_pc_rel_load() {
    match pc_rel_load(0b01001_101_10100101) {
        Instruction::SingleTransfer(ins) => {
            assert_eq!(ins.pre_index, true);
            assert_eq!(ins.offset_up, true);
            assert_eq!(ins.byte, false);
            assert_eq!(ins.write_back, false);
            assert_eq!(ins.load, true);
            assert_eq!(ins.rn, 15);
            assert_eq!(ins.rd, 0b101);
            assert_eq!(ins.offset, RegOrImm::Imm { rotate: 0, value: 0b1010010100 });
        }
        _ => panic!(),
    }
}

#[test]
fn test_reg_offset_trans() {
    match reg_offset_trans(0b0101_0_1_0_100_010_001) {
        Instruction::SingleTransfer(ins) => {
            assert_eq!(ins.pre_index, true);
            assert_eq!(ins.offset_up, true);
            assert_eq!(ins.byte, true);
            assert_eq!(ins.write_back, false);
            assert_eq!(ins.load, false);
            assert_eq!(ins.rn, 0b010);
            assert_eq!(ins.rd, 0b001);
            assert_eq!(ins.offset, RegOrImm::Reg { shift: 0, reg: 0b100 });
        }
        _ => panic!(),
    }
}

#[test]
fn test_signed_trans() {
    match signed_trans(0b0101_1_1_1_100_010_001) {
        Instruction::SignedTransfer(ins) => {
            assert_eq!(ins.pre_index, true);
            assert_eq!(ins.offset_up, true);
            assert_eq!(ins.halfword, true);
            assert_eq!(ins.write_back, false);
            assert_eq!(ins.load, true);
            assert_eq!(ins.rn, 0b010);
            assert_eq!(ins.rd, 0b001);
            assert_eq!(ins.signed, true);
            assert_eq!(ins.offset, RegOrImm::Reg { shift: 0, reg: 0b100 });
        }
        _ => panic!(),
    }
}

#[test]
fn test_imm_offset_trans() {
    match imm_offset_trans(0b011_0_0_11011_010_001) {
        Instruction::SingleTransfer(ins) => {
            assert_eq!(ins.pre_index, true);
            assert_eq!(ins.offset_up, true);
            assert_eq!(ins.byte, false);
            assert_eq!(ins.write_back, false);
            assert_eq!(ins.load, false);
            assert_eq!(ins.rn, 0b010);
            assert_eq!(ins.rd, 0b001);
            assert_eq!(ins.offset, RegOrImm::Imm { rotate: 0, value: 0b1101100 });
        }
        _ => panic!(),
    }
}

#[test]
fn test_hw_trans() {
    match hw_trans(0b1000_1_10101_111_000) {
        Instruction::SignedTransfer(ins) => {
            assert_eq!(ins.pre_index, true);
            assert_eq!(ins.offset_up, true);
            assert_eq!(ins.halfword, true);
            assert_eq!(ins.write_back, false);
            assert_eq!(ins.load, true);
            assert_eq!(ins.rn, 0b111);
            assert_eq!(ins.rd, 0b000);
            assert_eq!(ins.signed, false);
            assert_eq!(ins.offset, RegOrImm::Imm { rotate: 0, value: 0b101010 });
        }
        _ => panic!(),
    }
}

#[test]
fn test_sp_rel_trans() {
    match sp_rel_trans(0b1001_0_111_10110001) {
        Instruction::SingleTransfer(ins) => {
            assert_eq!(ins.pre_index, true);
            assert_eq!(ins.offset_up, true);
            assert_eq!(ins.byte, false);
            assert_eq!(ins.write_back, false);
            assert_eq!(ins.load, false);
            assert_eq!(ins.rn, 13);
            assert_eq!(ins.rd, 0b111);
            assert_eq!(ins.offset, RegOrImm::Imm { rotate: 0, value: 0b10110001 });
        }
        _ => panic!(),
    }
}

#[test]
fn test_load_addr() {
    match load_addr(0b1010_0_001_11110001) {
        Instruction::DataProc(ins) => {
            assert_eq!(ins.opcode, Op::ADD);
            assert_eq!(ins.set_flags, false);
            assert_eq!(ins.rn, 15);
            assert_eq!(ins.rd, 0b001);
            assert_eq!(ins.op2, RegOrImm::Imm { rotate: 0, value: 0b1111000100 });
        }
        _ => panic!(),
    }
}

#[test]
fn test_incr_sp() {
    match incr_sp(0b10110000_1_1010011) {
        Instruction::DataProc(ins) => {
            assert_eq!(ins.opcode, Op::SUB);
            assert_eq!(ins.set_flags, false);
            assert_eq!(ins.rn, 13);
            assert_eq!(ins.rd, 13);
            assert_eq!(ins.op2, RegOrImm::Imm { rotate: 0, value: 0b101001100 });
        }
        _ => panic!(),
    }
}

#[test]
fn test_push_pop() {
    match push_pop(0b1011_1_10_0_01011010) {
        Instruction::BlockTransfer(ins) => {
            assert_eq!(ins.pre_index, false);
            assert_eq!(ins.offset_up, true);
            assert_eq!(ins.force, false);
            assert_eq!(ins.write_back, true);
            assert_eq!(ins.rn, 13);
            assert_eq!(ins.register_list, 0b00000000_01011010);
        }
        _ => panic!(),
    }

    match push_pop(0b1011_0_10_1_10110001) {
        Instruction::BlockTransfer(ins) => {
            assert_eq!(ins.pre_index, true);
            assert_eq!(ins.offset_up, false);
            assert_eq!(ins.force, false);
            assert_eq!(ins.write_back, true);
            assert_eq!(ins.rn, 13);
            assert_eq!(ins.register_list, 0b01000000_10110001);
        }
        _ => panic!(),
    }
}

#[test]
fn test_block_trans() {
    match block_trans(0b1100_1_101_11001010) {
        Instruction::BlockTransfer(ins) => {
            assert_eq!(ins.pre_index, false);
            assert_eq!(ins.offset_up, true);
            assert_eq!(ins.force, false);
            assert_eq!(ins.write_back, true);
            assert_eq!(ins.rn, 0b101);
            assert_eq!(ins.register_list, 0b00000000_11001010);
        }
        _ => panic!(),
    }
}

#[test]
fn test_branch() {
    // min possible offset
    match branch(0b11100_10000000000) {
        Instruction::Branch(ins) => {
            assert_eq!(ins.offset, -(1 << 11));
        }
        _ => panic!(),
    }
    // max possible offset
    match branch(0b11100_01111111111) {
        Instruction::Branch(ins) => {
            assert_eq!(ins.offset, (1 << 11) - 2);
        }
        _ => panic!(),
    }
    match branch(0b11100_00000000011) {
        Instruction::Branch(ins) => {
            assert_eq!(ins.offset, 0b110);
        }
        _ => panic!(),
    }
}

#[test]
fn test_cond_branch() {
    match cond_branch(0b1101101111111100) {
        Instruction::CondBranch(ins) => {
            assert_eq!(ins.offset, -8);
        }
        _ => panic!(),
    }
}

#[test]
fn test_long_branch() {
    let mut cpu = CPU::new();
    cpu.set_reg(14, 0x942);
    cpu.set_reg(15, 0x1942);
    cpu.cpsr.isa = InstructionSet::THUMB;
    match long_branch(0xF7FF) {
        Instruction::LongBranch(ins) => {
            assert_eq!(ins.first, true);
            ins.run(&mut cpu).unwrap();
            assert_eq!(cpu.get_reg(14), 0x942);
        }
        _ => panic!(),
    }
    cpu.incr_pc();
    match long_branch(0xF840) {
        Instruction::LongBranch(ins) => {
            assert_eq!(ins.first, false);
            ins.run(&mut cpu).unwrap();
        }
        _ => panic!(),
    }
    assert_eq!(cpu.get_reg(14), 0x1943);
    assert_eq!(cpu.get_reg(15), 0x9C2);
}

#[test]
fn test_swi_keeps_comment() {
    match swi(0xDF42) {
        Instruction::SWInterrupt(ins) => assert_eq!(ins.comment, 0x42),
        _ => panic!(),
    }
}

#[test]
fn conditional_branch_is_gated_when_it_runs() {
    let mut cpu = CPU::new();
    cpu.cpsr.isa = InstructionSet::THUMB;
    cpu.set_reg(15, 0x0300_0100);
    let beq = CondBranch { cond: 0, offset: -8 };
    assert_eq!(beq.run(&mut cpu), Ok(1));
    assert_eq!(cpu.get_reg(15), 0x0300_0100);
    assert!(!cpu.should_flush);

    cpu.cpsr.zero = true;
    assert_eq!(beq.run(&mut cpu), Ok(3));
    assert_eq!(cpu.get_reg(15), 0x0300_00F8);
    assert!(cpu.should_flush);

    let never = CondBranch { cond: 15, offset: 2 };
    assert_eq!(never.run(&mut cpu), Err(CpuError::InvalidInstruction));
}

#[test]
fn thumb_decoding_goes_by_format() {
    assert_eq!(decode_thumb(0x0123), move_(0x0123));
    assert_eq!(decode_thumb(0x1012), move_(0x1012));
    assert_eq!(decode_thumb(0x1F12), add_sub(0x1F12));
    assert_eq!(decode_thumb(0x3FFF), data_imm(0x3FFF));
    assert_eq!(decode_thumb(0x4A00), pc_rel_load(0x4A00));
    assert_eq!(decode_thumb(0x42FA), alu_op(0x42FA));
    assert_eq!(decode_thumb(0x451A), hi_reg_bex(0x451A));
    assert_eq!(decode_thumb(0x51AB), reg_offset_trans(0x51AB));
    assert_eq!(decode_thumb(0x5700), signed_trans(0x5700));
    assert_eq!(decode_thumb(0x700F), imm_offset_trans(0x700F));
    assert_eq!(decode_thumb(0x8FFF), hw_trans(0x8FFF));
    assert_eq!(decode_thumb(0x9001), sp_rel_trans(0x9001));
    assert_eq!(decode_thumb(0xAAAB), load_addr(0xAAAB));
    assert_eq!(decode_thumb(0xB00A), incr_sp(0xB00A));
    assert_eq!(decode_thumb(0xBD00), push_pop(0xBD00));
    assert_eq!(decode_thumb(0xCEEA), block_trans(0xCEEA));
    assert_eq!(decode_thumb(0xDE01), cond_branch(0xDE01));
    assert_eq!(decode_thumb(0xDF01), swi(0xDF01));
    assert_eq!(decode_thumb(0xE590), branch(0xE590));
    assert_eq!(decode_thumb(0xF3C7), long_branch(0xF3C7));
}

