use gba_core::cpu::arm::block_trans::BlockDataTransfer;
use gba_core::cpu::arm::branch::Branch;
use gba_core::cpu::arm::branch_ex::BranchAndExchange;
use gba_core::cpu::arm::data::{DataProc, Op};
use gba_core::cpu::arm::mul::Multiply;
use gba_core::cpu::arm::mul_long::MultiplyLong;
use gba_core::cpu::arm::psr::{PSRTransfer, StateRegType, TransferType};
use gba_core::cpu::arm::signed_trans::SignedDataTransfer;
use gba_core::cpu::arm::single_trans::SingleDataTransfer;
use gba_core::cpu::arm::swap::SingleDataSwap;
use gba_core::cpu::arm::swi::SWInterrupt;
use gba_core::cpu::arm::RegOrImm;

#[test]
fn block_trans_parse() {
    let ins = BlockDataTransfer::parse_instruction(0b1010_100_1_0_1_0_1_0101_1101100101100010);
    assert!(ins.pre_index);
    assert!(!ins.offset_up);
    assert!(ins.force);
    assert!(!ins.write_back);
    assert!(ins.load);
    assert_eq!(ins.rn, 5);
    assert_eq!(ins.register_list, 0b1101100101100010);
}

#[test]
fn branch_parse() {
    let branch = Branch::parse_instruction(0xEA_00_00_18);
    assert_eq!(branch.offset, 0x60);
}

#[test]
fn parse_with_link_signed() {
    let branch = Branch::parse_instruction(0b0000101_1_11001010_00001111_11010001);
    assert!(branch.link);
    assert_eq!(branch.offset, 0b111111_11001010_00001111_11010001_00u32 as i32);
}

#[test]
fn parse_without_link_unsigned() {
    let branch = Branch::parse_instruction(0b0000101_0_01001010_00001111_11010001);
    assert!(!branch.link);
    assert_eq!(branch.offset, 0b000000_01001010_00001111_11010001_00u32 as i32);
}

#[test]
fn parse_min() {
    let branch = Branch::parse_instruction(0x0A_800000);
    assert_eq!(branch.offset, -(1 << 25));
}

#[test]
fn parse_max() {
    let branch = Branch::parse_instruction(0x0A_7FFFFF);
    // 4 because it gets shifted 2 so the rightmost 2 bits are 0
    assert_eq!(branch.offset, (1 << 25) - 4);
}

#[test]
fn branch_ex_parse() {
    let bx = BranchAndExchange::parse_instruction(0b0000_0001_0010_1111_1111_1111_0001_1011);
    assert_eq!(bx.reg, 0b1011);
}

#[test]
fn parse_move() {
    let ins = DataProc::parse_instruction(0b11100001101000000110100100010110);
    assert_eq!(
        ins,
        DataProc {
            opcode: Op::MOV,
            set_flags: false,
            rn: 0,
            rd: 6,
            op2: RegOrImm::Reg { shift: 0b10010001, reg: 6 }
        }
    );
}

#[test]
fn data_parse_reg() {
    let ins = DataProc::parse_instruction(0b0000_00_0_1010_1_0001_0010_10001000_1001);
    assert!(ins.set_flags);
    assert_eq!(ins.opcode as u8, Op::CMP as u8);
    assert_eq!(ins.rn, 1);
    assert_eq!(ins.rd, 2);
    assert!(match ins.op2 {
        RegOrImm::Reg { shift: 0x88, reg: 9 } => true,
        _ => false,
    });
}

#[test]
fn data_parse_imm() {
    let ins = DataProc::parse_instruction(0b0000_00_1_0101_0_1110_0111_0011_00000001);
    assert!(!ins.set_flags);
    assert_eq!(ins.opcode as u8, Op::ADC as u8);
    assert_eq!(ins.rn, 14);
    assert_eq!(ins.rd, 7);
    assert!(match ins.op2 {
        RegOrImm::Imm { rotate: 3, value: 1 } => true,
        _ => false,
    });
}

#[test]
fn mul_parse() {
    let mul = Multiply::parse_instruction(0b0000_00000_1_1_0001_1000_1111_1001_0010);
    assert!(mul.accumulate);
    assert!(mul.set_flags);
    assert_eq!(mul.rd, 1);
    assert_eq!(mul.rn, 8);
    assert_eq!(mul.rs, 15);
    assert_eq!(mul.rm, 2);
}

#[test]
fn mul_long_parse() {
    let mul = MultiplyLong::parse_instruction(0b0000_00001_1_1_1_0001_0010_0011_1001_1000);
    assert!(mul.is_signed);
    assert!(mul.accumulate);
    assert!(mul.set_flags);
    assert_eq!(mul.rdhi, 1);
    assert_eq!(mul.rdlo, 2);
    assert_eq!(mul.rs, 3);
    assert_eq!(mul.rm, 8);
}

#[test]
fn psr_parse_read() {
    let ins = PSRTransfer::parse_instruction(0b0000_00010_0_001111_0001_000000000000);
    assert!(match ins.trans {
        TransferType::Read { stype: StateRegType::Current, dest: 1 } => true,
        _ => false,
    })
}

#[test]
fn psr_parse_write_reg() {
    let ins = PSRTransfer::parse_instruction(0b0000_00010_1_1010001111_00000000_1000);
    assert!(match ins.trans {
        TransferType::Write {
            stype: StateRegType::Saved,
            source: RegOrImm::Reg { shift: 0, reg: 8 },
            flag_only: true,
        } => true,
        _ => false,
    });

    let ins = PSRTransfer::parse_instruction(0b0000_00010_1_1010011111_00000000_1000);
    assert!(match ins.trans {
        TransferType::Write {
            stype: StateRegType::Saved,
            source: RegOrImm::Reg { shift: 0, reg: 8 },
            flag_only: false,
        } => true,
        _ => false,
    });
}

#[test]
fn psr_parse_write_imm() {
    let ins = PSRTransfer::parse_instruction(0b0000_00110_0_1010001111_1010_10000000);
    assert!(match ins.trans {
        TransferType::Write {
            stype: StateRegType::Current,
            source: RegOrImm::Imm { rotate: 10, value: 128 },
            flag_only: true,
        } => true,
        _ => false,
    });
}

#[test]
fn signed_trans_parse_reg() {
    let ins = SignedDataTransfer::parse_instruction(0b1111_000_0_1_0_1_0_0001_0010_00001_1_1_1_0011);
    assert!(!ins.pre_index);
    assert!(ins.offset_up);
    assert!(ins.write_back);
    assert!(!ins.load);
    assert_eq!(ins.rn, 1);
    assert_eq!(ins.rd, 2);
    assert!(ins.signed);
    assert!(ins.halfword);
    assert!(match ins.offset {
        RegOrImm::Reg { shift: 0, reg: 3 } => true,
        _ => false,
    });
}

#[test]
fn signed_trans_parse_imm() {
    let ins = SignedDataTransfer::parse_instruction(0b1111_000_1_0_1_1_0_0001_0010_1100_1_1_0_1_0011);
    assert!(ins.pre_index);
    assert!(!ins.offset_up);
    assert!(ins.write_back);
    assert!(!ins.load);
    assert_eq!(ins.rn, 1);
    assert_eq!(ins.rd, 2);
    assert!(ins.signed);
    assert!(!ins.halfword);
    assert!(match ins.offset {
        RegOrImm::Imm { rotate: 0, value: 0xC3 } => true,
        _ => false,
    });
}

#[test]
fn single_trans_parse_imm() {
    let ins = SingleDataTransfer::parse_instruction(0b1111_01_0_1_0_1_0_1_0001_0010_100010001000);
    assert!(ins.pre_index);
    assert!(!ins.offset_up);
    assert!(ins.byte);
    assert!(!ins.write_back);
    assert!(ins.load);
    assert_eq!(ins.rn, 1);
    assert_eq!(ins.rd, 2);
    assert!(match ins.offset {
        RegOrImm::Imm { rotate: 0, value: 0x888 } => true,
        _ => false,
    });
}

#[test]
fn single_trans_parse_reg() {
    let ins = SingleDataTransfer::parse_instruction(0b1001_01_1_0_1_0_1_0_1110_0001_00111111_1001);
    assert!(!ins.pre_index);
    assert!(ins.offset_up);
    assert!(!ins.byte);
    assert!(ins.write_back);
    assert!(!ins.load);
    assert_eq!(ins.rn, 14);
    assert_eq!(ins.rd, 1);
    assert!(match ins.offset {
        RegOrImm::Reg { shift: 63, reg: 9 } => true,
        _ => false,
    });
}

#[test]
fn swap_parse() {
    let ins = SingleDataSwap::parse_instruction(0b1111_00010_1_00_1000_0001_00001001_1100);
    assert!(ins.byte);
    assert_eq!(ins.rn, 8);
    assert_eq!(ins.rd, 1);
    assert_eq!(ins.rm, 12);
}

#[test]
fn swi_parse_keeps_comment() {
    let ins = SWInterrupt::parse_instruction(0xEF_12_3A_BC);
    assert_eq!(ins.comment, 0x123ABC);
}

#[test]
fn branch_offsets_survive_encoding() {
    // the instruction word of a branch is its format, its link bit and the
    // offset in words as a 24 bit two's complement number
    let offsets: [i32; 7] = [0, 4, -4, 0x60, -100, (1 << 25) - 4, -(1 << 25)];
    for offset in offsets.iter() {
        for link in [false, true].iter() {
            let field = ((*offset >> 2) as u32) & 0xFF_FFFF;
            let word = 0xEA00_0000 | (if *link { 1 << 24 } else { 0 }) | field;
            let branch = Branch::parse_instruction(word);
            assert_eq!(branch.offset, *offset);
            assert_eq!(branch.link, *link);
        }
    }
}
