use gba_core::cpu::arm::block_trans::BlockDataTransfer;
use gba_core::cpu::arm::branch::Branch;
use gba_core::cpu::arm::branch_ex::BranchAndExchange;
use gba_core::cpu::arm::data::{apply_shift, get_shift_amount, shift_error, DataProc, Op};
use gba_core::cpu::arm::mul::{mul_cycle_time, Multiply};
use gba_core::cpu::arm::mul_long::MultiplyLong;
use gba_core::cpu::arm::psr::{PSRTransfer, StateRegType, TransferType};
use gba_core::cpu::arm::signed_trans::SignedDataTransfer;
use gba_core::cpu::arm::single_trans::SingleDataTransfer;
use gba_core::cpu::arm::swap::SingleDataSwap;
use gba_core::cpu::arm::swi::SWInterrupt;
use gba_core::cpu::arm::RegOrImm;
use gba_core::cpu::status_reg::{CPUMode, InstructionSet};
use gba_core::cpu::{CpuError, TransferParams, TransferSize, CPU};

const MAX: u32 = 0xFFFFFFFF;

#[test]
fn post_incr_up_store() {
    let mut cpu = CPU::new();
    cpu.set_reg(0, 0x03000000);
    cpu.set_reg(1, 0x123);
    cpu.set_reg(5, 0x321);
    cpu.set_reg(7, 0xABC);

    let ins = BlockDataTransfer {
        pre_index: false,
        offset_up: true,
        force: false,
        write_back: true,
        load: false,
        rn: 0,
        register_list: (1 << 1 | 1 << 5 | 1 << 7),
    };
    ins.run(&mut cpu).unwrap();

    assert_eq!(cpu.mem.get_word(0x03000000), 0x123);
    assert_eq!(cpu.mem.get_word(0x03000004), 0x321);
    assert_eq!(cpu.mem.get_word(0x03000008), 0xABC);
    assert_eq!(cpu.get_reg(0), 0x0300000C);
}

#[test]
fn pre_incr_up_load() {
    let mut cpu = CPU::new();
    cpu.set_reg(0, 0x03000000);
    cpu.mem.set_word(0x3000004, 0x123);
    cpu.mem.set_word(0x3000008, 0x321);
    cpu.mem.set_word(0x300000C, 0xABC);

    let ins = BlockDataTransfer {
        pre_index: true,
        offset_up: true,
        force: false,
        write_back: true,
        load: true,
        rn: 0,
        register_list: (1 << 1 | 1 << 5 | 1 << 7),
    };
    ins.run(&mut cpu).unwrap();

    assert_eq!(cpu.get_reg(1), 0x123);
    assert_eq!(cpu.get_reg(5), 0x321);
    assert_eq!(cpu.get_reg(7), 0xABC);
    assert_eq!(cpu.get_reg(0), 0x0300000C);

    let mut cpu = CPU::new();
    cpu.set_reg(0, 0x3007EA0);
    cpu.set_reg(1, 0x4000220);
    cpu.set_reg(10, 0x4000220);
    cpu.set_reg(12, 0x3007EC0);
    cpu.set_reg(13, 0x3007E80);
    cpu.set_reg(14, 0xBD4);
    cpu.set_reg(15, 0xC28);

    cpu.mem.set_word(0x3007E80, 0x40_00_00_00);
    cpu.mem.set_word(0x3007E84, 0x85_00_00_00);
    cpu.mem.set_word(0x3007E88, 0x00_00_00_80);
    cpu.mem.set_word(0x3007E8C, 0x00_00_00_FF);
    cpu.mem.set_word(0x3007E90, 0x00_00_00_00);
    cpu.mem.set_word(0x3007E94, 0x00_00_00_00);
    cpu.mem.set_word(0x3007E98, 0x00_00_00_00);
    cpu.mem.set_word(0x3007E9C, 0x00_00_09_E7);

    // ldmia sp!, {r4-r10,lr}
    BlockDataTransfer {
        pre_index: false,
        offset_up: true,
        force: false,
        write_back: true,
        load: true,
        rn: 13,
        register_list: 0x47F0,
    }
    .run(&mut cpu)
    .unwrap();

    assert_eq!(cpu.get_reg(0), 0x3007EA0);
    assert_eq!(cpu.get_reg(1), 0x4000220);
    assert_eq!(cpu.get_reg(4), 0x40_00_00_00);
    assert_eq!(cpu.get_reg(5), 0x85_00_00_00);
    assert_eq!(cpu.get_reg(6), 0x00_00_00_80);
    assert_eq!(cpu.get_reg(7), 0x00_00_00_FF);
    assert_eq!(cpu.get_reg(8), 0x00_00_00_00);
    assert_eq!(cpu.get_reg(9), 0x00_00_00_00);
    assert_eq!(cpu.get_reg(10), 0x00_00_00_00);
    assert_eq!(cpu.get_reg(14), 0x00_00_09_E7);
}

#[test]
fn post_incr_down_load() {
    let mut cpu = CPU::new();
    cpu.set_reg(0, 0x0300000C);
    cpu.mem.set_word(0x300000C, 0x123);
    cpu.mem.set_word(0x3000008, 0x321);
    cpu.mem.set_word(0x3000004, 0xABC);

    let ins = BlockDataTransfer {
        pre_index: false,
        offset_up: false,
        force: false,
        write_back: true,
        load: true,
        rn: 0,
        register_list: (1 << 10 | 1 << 11 | 1 << 12),
    };
    ins.run(&mut cpu).unwrap();

    assert_eq!(cpu.get_reg(12), 0x123);
    assert_eq!(cpu.get_reg(11), 0x321);
    assert_eq!(cpu.get_reg(10), 0xABC);
    assert_eq!(cpu.get_reg(0), 0x03000000);
}

#[test]
fn pre_incr_down_store() {
    let mut cpu = CPU::new();
    cpu.set_reg(0, 0x3007EA0);
    cpu.set_reg(1, 0x4000200);
    cpu.set_reg(2, 0x85000008);
    cpu.set_reg(3, 0xBC4);
    cpu.set_reg(4, 0x4000000);
    cpu.set_reg(5, 0x85000000);
    cpu.set_reg(6, 0x80);
    cpu.set_reg(7, 0xFF);
    cpu.set_reg(13, 0x3007EA0);
    cpu.set_reg(14, 0x9E7);
    cpu.set_reg(15, 0xBD0);

    // stmdb sp!, {r4-r10,lr}
    let ins = BlockDataTransfer {
        pre_index: true,
        offset_up: false,
        force: false,
        write_back: true,
        load: false,
        rn: 13,
        register_list: 0x47F0,
    };
    ins.run(&mut cpu).unwrap();

    assert_eq!(cpu.mem.get_word(0x3007E80), 0x4000000);
    assert_eq!(cpu.mem.get_word(0x3007E84), 0x85000000);
    assert_eq!(cpu.mem.get_word(0x3007E88), 0x80);
    assert_eq!(cpu.mem.get_word(0x3007E8C), 0xFF);
    assert_eq!(cpu.mem.get_word(0x3007E90), 0);
    assert_eq!(cpu.mem.get_word(0x3007E94), 0);
    assert_eq!(cpu.mem.get_word(0x3007E98), 0);
    assert_eq!(cpu.mem.get_word(0x3007E9C), 0x9E7);
}

#[test]
fn load_base_reg() {
    let mut cpu = CPU::new();
    cpu.set_reg(0, 0x03000000);
    cpu.mem.set_word(0x03000000, 0xDEF);
    cpu.mem.set_word(0x03000004, 0xFFF123);

    let ins = BlockDataTransfer {
        pre_index: false,
        offset_up: true,
        force: false,
        write_back: true,
        load: true,
        rn: 0,
        register_list: 0b11,
    };
    ins.run(&mut cpu).unwrap();

    assert_eq!(cpu.get_reg(0), 0xDEF);
    assert_eq!(cpu.get_reg(1), 0xFFF123);
}

#[test]
fn store_base_reg() {
    let mut cpu = CPU::new();
    cpu.set_reg(0, 0x03000000);

    let ins = BlockDataTransfer {
        pre_index: true,
        offset_up: true,
        force: false,
        write_back: true,
        load: false,
        rn: 0,
        register_list: 1,
    };
    ins.run(&mut cpu).unwrap();
    assert_eq!(cpu.mem.get_word(0x03000004), 0x03000000);
}

#[test]
fn store_base_reg_later_stores_updated_base() {
    let mut cpu = CPU::new();
    cpu.set_reg(0, 0x111);
    cpu.set_reg(1, 0x03000000);
    cpu.set_reg(2, 0x222);

    // stmia r1!, {r0-r2}: the base is the second register stored
    BlockDataTransfer {
        pre_index: false,
        offset_up: true,
        force: false,
        write_back: true,
        load: false,
        rn: 1,
        register_list: 0b111,
    }
    .run(&mut cpu)
    .unwrap();
    assert_eq!(cpu.mem.get_word(0x03000000), 0x111);
    assert_eq!(cpu.mem.get_word(0x03000004), 0x0300000C);
    assert_eq!(cpu.mem.get_word(0x03000008), 0x222);
    assert_eq!(cpu.get_reg(1), 0x0300000C);
}

#[test]
fn block_load_of_odd_pc_enters_thumb() {
    let mut cpu = CPU::new();
    cpu.set_reg(13, 0x03000100);
    cpu.mem.set_word(0x03000100, 0x0800_0123);
    // pop {pc}
    BlockDataTransfer {
        pre_index: false,
        offset_up: true,
        force: false,
        write_back: true,
        load: true,
        rn: 13,
        register_list: 0x8000,
    }
    .run(&mut cpu)
    .unwrap();
    assert_eq!(cpu.get_reg(15), 0x0800_0122);
    assert_eq!(cpu.cpsr.isa, InstructionSet::THUMB);
    assert!(cpu.should_flush);
    assert_eq!(cpu.get_reg(13), 0x03000104);
}

#[test]
fn block_transfer_errors() {
    let ins = BlockDataTransfer {
        pre_index: false,
        offset_up: true,
        force: false,
        write_back: true,
        load: true,
        rn: 15,
        register_list: 1,
    };
    assert_eq!(ins.run(&mut CPU::new()), Err(CpuError::IllegalRegisterUse));

    // the S bit in user mode
    let mut cpu = CPU::new();
    cpu.cpsr.mode = CPUMode::USR;
    let ins = BlockDataTransfer { rn: 0, force: true, write_back: false, ..ins };
    assert_eq!(ins.run(&mut cpu), Err(CpuError::InvalidMode));

    // the user bank cannot be written back
    let ins = BlockDataTransfer { load: false, force: true, write_back: true, rn: 0, ..ins };
    assert_eq!(ins.run(&mut CPU::new()), Err(CpuError::InvalidInstruction));
}

#[test]
fn block_store_of_user_bank() {
    let mut cpu = CPU::new();
    cpu.cpsr.mode = CPUMode::USR;
    cpu.set_reg(13, 0xAAAA);
    cpu.cpsr.mode = CPUMode::IRQ;
    cpu.set_reg(13, 0xBBBB);
    cpu.set_reg(0, 0x03000000);
    // stmia r0, {r13}^
    BlockDataTransfer {
        pre_index: false,
        offset_up: true,
        force: true,
        write_back: false,
        load: false,
        rn: 0,
        register_list: 1 << 13,
    }
    .run(&mut cpu)
    .unwrap();
    assert_eq!(cpu.mem.get_word(0x03000000), 0xAAAA);
    assert_eq!(cpu.cpsr.mode, CPUMode::IRQ);
    assert_eq!(cpu.get_reg(13), 0xBBBB);
}

#[test]
fn branch_down() {
    let mut cpu = CPU::new();
    cpu.set_reg(15, 64_000_000);
    let ins = Branch { offset: -100, link: true };
    ins.run(&mut cpu).unwrap();

    assert_eq!(cpu.get_reg(15), 64_000_000 - 100);
    assert_eq!(cpu.get_reg(14), 64_000_000 - 4);
}

#[test]
fn branch_up() {
    let mut cpu = CPU::new();
    cpu.set_reg(15, 64_000_000);
    let ins = Branch { offset: 113, link: false };
    ins.run(&mut cpu).unwrap();

    assert_eq!(cpu.get_reg(15), 64_000_113);
}

#[test]
fn branch_flushes_and_counts_cycles() {
    let mut cpu = CPU::new();
    cpu.set_reg(15, 0x0300_0000);
    // from internal RAM into work RAM: 1 + 3 + 3 cycles
    let cycles = Branch { offset: -0x0100_0000, link: false }.run(&mut cpu).unwrap();
    assert_eq!(cpu.get_reg(15), 0x0200_0000);
    assert!(cpu.should_flush);
    assert_eq!(cycles, 7);
}

#[test]
fn branch_ex_process() {
    let mut cpu = CPU::new();
    cpu.set_reg(3, 0x1123);

    let ins = BranchAndExchange { reg: 3 };
    ins.run(&mut cpu).unwrap();

    assert_eq!(cpu.get_reg(15), 0x1122);
    assert_eq!(cpu.cpsr.isa, InstructionSet::THUMB);
    assert!(cpu.should_flush);
}

#[test]
fn branch_ex_process_noop() {
    let mut cpu = CPU::new();
    cpu.set_reg(15, 5);

    let ins = BranchAndExchange { reg: 2 };
    ins.run(&mut cpu).unwrap();

    assert_eq!(cpu.get_reg(15), 0);
    assert_eq!(cpu.cpsr.isa, InstructionSet::ARM);
    assert!(cpu.should_flush);
}

#[test]
fn shift_amt_imm() {
    let cpu = CPU::new();
    assert_eq!(get_shift_amount(&cpu, 0b11011_000), (true, 0b11011));
    assert_eq!(get_shift_amount(&cpu, 0b00001_010), (true, 0b00001));
    assert_eq!(get_shift_amount(&cpu, 0b10000_100), (true, 0b10000));
    assert_eq!(get_shift_amount(&cpu, 0b11111_110), (true, 0b11111));
    assert_eq!(get_shift_amount(&cpu, 0), (true, 0));
}

#[test]
fn shift_amt_reg() {
    let mut cpu = CPU::new();

    cpu.set_reg(0, 0xFFFFFF_03);
    assert_eq!(get_shift_amount(&cpu, 0b0000_0001), (false, 0x03));

    cpu.set_reg(3, 0x00_FF);
    assert_eq!(get_shift_amount(&cpu, 0b0011_0011), (false, 0xFF));

    cpu.set_reg(4, 0xAB_09);
    assert_eq!(get_shift_amount(&cpu, 0b0100_0101), (false, 0x09));

    cpu.set_reg(14, 0x99_A1);
    assert_eq!(get_shift_amount(&cpu, 0b1110_0111), (false, 0xA1));

    assert_eq!(get_shift_amount(&cpu, 0b0001_0111), (false, 0));
}

#[test]
fn shift_by_r15_or_by_undefined_bits_is_refused() {
    assert_eq!(shift_error(0b1111_0_00_1), Some(CpuError::IllegalRegisterUse));
    assert_eq!(shift_error(0b0001_1_00_1), Some(CpuError::InvalidInstruction));
    assert_eq!(shift_error(0b0001_0_00_1), None);
    assert_eq!(shift_error(0b11111_11_0), None);
}

#[test]
fn shift_lsl() {
    let mut cpu = CPU::new();
    // check least significant discarded bit = 1
    cpu.set_reg(5, 0xFF123456);
    assert_eq!(apply_shift(&cpu, 0b00101_000, cpu.get_reg(5)), (0xFF123456 << 5, true));

    // check least significant discarded bit = 0
    cpu.set_reg(3, 0xF7123455);
    assert_eq!(apply_shift(&cpu, 0b00101_000, cpu.get_reg(3)), (0xF7123455 << 5, false));

    // check that LSL by 0 retains the current carry flag
    cpu.cpsr.carry = true;
    assert_eq!(apply_shift(&cpu, 0, cpu.get_reg(0)), (0, true));

    // lsl 32 with low bit = 0
    cpu.set_reg(10, 32);
    assert_eq!(apply_shift(&cpu, 0b1010_0001, cpu.get_reg(5)), (0, false));
    // lsl 32 with low bit = 1
    assert_eq!(apply_shift(&cpu, 0b1010_0001, cpu.get_reg(3)), (0, true));

    // lsl by more than 32
    cpu.set_reg(11, 33);
    assert_eq!(apply_shift(&cpu, 0b1011_0001, cpu.get_reg(11)), (0, false));
    assert_eq!(apply_shift(&cpu, 0b1011_0001, cpu.get_reg(11)), (0, false));
}

#[test]
fn shift_lsr() {
    let mut cpu = CPU::new();
    // check most significant discarded bit = 1
    cpu.set_reg(15, 0xABCDEF3F);
    assert_eq!(apply_shift(&cpu, 0b00101_010, cpu.get_reg(15)), (0xABCDEF3F >> 5, true));

    // check most significant discarded bit = 0
    cpu.set_reg(10, 0x123456A8);
    assert_eq!(apply_shift(&cpu, 0b00101_010, cpu.get_reg(10)), (0x123456A8 >> 5, false));

    // check lsr 0/32 with high bit = 1
    cpu.set_reg(0, 0xFFFFFFFF);
    cpu.set_reg(8, 32);
    assert_eq!(apply_shift(&cpu, 0b1000_0011, cpu.get_reg(0)), (0, true));
    assert_eq!(apply_shift(&cpu, 0b00000_010, cpu.get_reg(0)), (0, true));

    // check lsr 0/32 with high bit = 0
    cpu.set_reg(1, 0x7FFFFFF);
    assert_eq!(apply_shift(&cpu, 0b1000_0011, cpu.get_reg(1)), (0, false));
    assert_eq!(apply_shift(&cpu, 0b00000_010, cpu.get_reg(1)), (0, false));

    // lsr by more than 32
    cpu.set_reg(9, 33);
    assert_eq!(apply_shift(&cpu, 0b1001_0011, cpu.get_reg(15)), (0, false));
    assert_eq!(apply_shift(&cpu, 0b1001_0011, cpu.get_reg(10)), (0, false));
}

#[test]
fn shift_asr() {
    let mut cpu = CPU::new();

    // check positive, msdb = 1
    cpu.set_reg(0, 0x3123453F);
    assert_eq!(apply_shift(&cpu, 0b00101_100, cpu.get_reg(0)), (0x3123453F >> 5, true));

    // check negative, msdb = 0
    cpu.set_reg(1, 0xF12345A8);
    assert_eq!(
        apply_shift(&cpu, 0b00101_100, cpu.get_reg(1)),
        (((0xF12345A8u32 as i32) >> 5) as u32, false)
    );

    // check ASR 0 (32)
    assert_eq!(apply_shift(&cpu, 0b00000_100, cpu.get_reg(0)), (0, false));
    assert_eq!(apply_shift(&cpu, 0b00000_100, cpu.get_reg(1)), (MAX, true));

    // check ASR > 32
    cpu.set_reg(14, 33);
    assert_eq!(apply_shift(&cpu, 0b1110_0101, cpu.get_reg(0)), (0, false));
    assert_eq!(apply_shift(&cpu, 0b1110_0101, cpu.get_reg(1)), (MAX, true));
}

#[test]
fn shift_ror() {
    let mut cpu = CPU::new();

    // ROR 0/RRX
    cpu.set_reg(0, 0x3123453F);
    assert_eq!(apply_shift(&cpu, 0b00000_110, cpu.get_reg(0)), (0x3123453F >> 1, true));

    cpu.cpsr.carry = true;
    cpu.set_reg(1, 0xFFFFFFFE);
    assert_eq!(apply_shift(&cpu, 0b00000_110, cpu.get_reg(1)), (0xFFFFFFFF, false));

    // ROR 5 with bit 4 = 1
    assert_eq!(
        apply_shift(&cpu, 0b00101_110, cpu.get_reg(0)),
        (0x3123453Fu32.rotate_right(5), true)
    );
    // ROR 5 with bit 4 = 0
    cpu.set_reg(2, 0x12345608);
    assert_eq!(
        apply_shift(&cpu, 0b00101_110, cpu.get_reg(2)),
        (0x12345608u32.rotate_right(5), false)
    );

    // ROR >= 32
    cpu.set_reg(14, 32);
    assert_eq!(apply_shift(&cpu, 0b1110_0111, cpu.get_reg(0)), (0x3123453F, false));
    cpu.set_reg(14, 37);
    assert_eq!(
        apply_shift(&cpu, 0b1110_0111, cpu.get_reg(2)),
        (0x12345608u32.rotate_right(5), false)
    );
}

#[test]
fn add() {
    let mut cpu = CPU::new();
    cpu.set_reg(0, 11);

    let ins = DataProc {
        opcode: Op::ADD,
        set_flags: true,
        rn: 0,
        rd: 3,
        op2: RegOrImm::Imm { rotate: 0, value: 10 },
    };
    ins.run(&mut cpu).unwrap();

    assert_eq!(cpu.get_reg(3), 21);
    assert_eq!(cpu.cpsr.carry, false);
    assert_eq!(cpu.cpsr.zero, false);
    assert_eq!(cpu.cpsr.neg, false);
}

#[test]
fn sbc() {
    // subtract two large numbers and check for overflow
    let mut cpu = CPU::new();
    cpu.cpsr.carry = true;
    cpu.set_reg(2, 0xD1234567);

    let ins = DataProc {
        opcode: Op::SBC,
        set_flags: true,
        rn: 2,
        rd: 3,
        op2: RegOrImm::Imm { rotate: 2, value: 0xEF },
    };
    ins.run(&mut cpu).unwrap();

    assert_eq!(cpu.get_reg(3), 0xE1234559);
    assert_eq!(cpu.cpsr.carry, false);
    assert_eq!(cpu.cpsr.zero, false);
    assert_eq!(cpu.cpsr.neg, true);
    assert_eq!(cpu.cpsr.overflow, false);
}

#[test]
fn add_wrapped() {
    let mut cpu = CPU::new();
    cpu.set_reg(0, MAX);
    cpu.set_reg(1, 5);

    let ins = DataProc {
        opcode: Op::ADD,
        set_flags: true,
        rn: 0,
        rd: 3,
        op2: RegOrImm::Reg { shift: 0, reg: 1 },
    };
    ins.run(&mut cpu).unwrap();

    assert_eq!(cpu.get_reg(3), 4);
    assert_eq!(cpu.cpsr.carry, true);
    assert_eq!(cpu.cpsr.zero, false);
    assert_eq!(cpu.cpsr.neg, false);
    assert_eq!(cpu.cpsr.overflow, false);
}

#[test]
fn add_overflow() {
    let mut cpu = CPU::new();
    cpu.set_reg(0, MAX / 2 - 100);
    cpu.set_reg(1, MAX / 2 - 13135);

    let ins = DataProc {
        opcode: Op::ADD,
        set_flags: true,
        rn: 0,
        rd: 3,
        op2: RegOrImm::Reg { shift: 0, reg: 1 },
    };
    ins.run(&mut cpu).unwrap();

    assert_eq!(cpu.get_reg(3), 0xFFFFCC4B);
    assert_eq!(cpu.cpsr.carry, false);
    assert_eq!(cpu.cpsr.zero, false);
    assert_eq!(cpu.cpsr.neg, true);
    assert_eq!(cpu.cpsr.overflow, true);
}

#[test]
fn mov() {
    let mut cpu = CPU::new();
    DataProc {
        opcode: Op::MOV,
        set_flags: false,
        rn: 0,
        rd: 12,
        op2: RegOrImm::Imm { rotate: 3, value: 1 },
    }
    .run(&mut cpu)
    .unwrap();
    assert_eq!(cpu.get_reg(12), 0x4000000);

    DataProc {
        opcode: Op::MOV,
        set_flags: false,
        rn: 0,
        rd: 14,
        op2: RegOrImm::Imm { rotate: 0, value: 4 },
    }
    .run(&mut cpu)
    .unwrap();
    assert_eq!(cpu.get_reg(14), 4);
}

#[test]
fn cmp() {
    let mut cpu = CPU::new();
    cpu.set_reg(12, 0x20);
    DataProc {
        opcode: Op::CMP,
        set_flags: true,
        rn: 12,
        rd: 0,
        op2: RegOrImm::Imm { rotate: 0, value: 0 },
    }
    .run(&mut cpu)
    .unwrap();
    assert_eq!(cpu.cpsr.zero, false);
    assert_eq!(cpu.cpsr.carry, true);
    assert_eq!(cpu.cpsr.overflow, false);
    assert_eq!(cpu.cpsr.neg, false);
}

#[test]
fn move_carry() {
    // check that an immediate op2 preserves carry for logical ops
    let mut cpu = CPU::new();
    cpu.cpsr.carry = true;
    DataProc {
        opcode: Op::MOV,
        set_flags: true,
        rn: 0,
        rd: 0,
        op2: RegOrImm::Imm { rotate: 0, value: 0 },
    }
    .run(&mut cpu)
    .unwrap();
    assert_eq!(cpu.cpsr.carry, true);
}

#[test]
fn shift_reg() {
    // check that LSR by a register with value 0 is the same as LSL 0
    let mut cpu = CPU::new();
    cpu.set_reg(4, 0);
    cpu.set_reg(11, 1);
    cpu.set_reg(12, 0);
    cpu.cpsr.neg = true;
    DataProc {
        opcode: Op::MOV,
        set_flags: true,
        rn: 0,
        rd: 12,
        op2: RegOrImm::Reg { shift: 0b0100_0011, reg: 11 },
    }
    .run(&mut cpu)
    .unwrap();
    assert!(!cpu.cpsr.neg);
    assert!(!cpu.cpsr.zero);
    assert_eq!(cpu.get_reg(12), 1);
}

#[test]
fn pc_op() {
    // check that if R15 is used as an operand AND a shift by register
    // amount is specified that the operand(s) get incremented appropriately
    let mut cpu = CPU::new();
    cpu.set_reg(15, 8);
    DataProc {
        opcode: Op::ADD,
        set_flags: false,
        rn: 15,
        rd: 0,
        op2: RegOrImm::Reg { shift: 0b0001_0001, reg: 15 },
    }
    .run(&mut cpu)
    .unwrap();
    assert_eq!(cpu.get_reg(0), 24);

    // doesn't happen for shift by immediate
    DataProc {
        opcode: Op::ADD,
        set_flags: false,
        rn: 15,
        rd: 1,
        op2: RegOrImm::Reg { shift: 0, reg: 15 },
    }
    .run(&mut cpu)
    .unwrap();
    assert_eq!(cpu.get_reg(1), 16);
}

#[test]
fn tst() {
    let mut cpu = CPU::new();
    cpu.cpsr.carry = true;
    cpu.set_reg(0, 0x3000564);
    DataProc {
        opcode: Op::TST,
        set_flags: true,
        rn: 0,
        rd: 0,
        op2: RegOrImm::Imm { rotate: 4, value: 0b1110 },
    }
    .run(&mut cpu)
    .unwrap();
    assert!(!cpu.cpsr.carry)
}

#[test]
fn data_proc_to_pc_restores_cpsr_and_flushes() {
    let mut cpu = CPU::new();
    cpu.cpsr.mode = CPUMode::IRQ;
    cpu.spsr_irq.mode = CPUMode::SYS;
    cpu.spsr_irq.isa = InstructionSet::THUMB;
    cpu.spsr_irq.carry = true;
    cpu.set_reg(14, 0x0800_0104);
    // subs pc, lr, #4
    let cycles = DataProc {
        opcode: Op::SUB,
        set_flags: true,
        rn: 14,
        rd: 15,
        op2: RegOrImm::Imm { rotate: 0, value: 4 },
    }
    .run(&mut cpu)
    .unwrap();
    assert_eq!(cpu.r[15], 0x0800_0100);
    assert_eq!(cpu.cpsr.mode, CPUMode::SYS);
    assert_eq!(cpu.cpsr.isa, InstructionSet::THUMB);
    assert!(cpu.cpsr.carry);
    assert!(cpu.should_flush);
    // fetch from BIOS (1), refill from the cartridge: 1 + 4 and 1 + 2
    assert_eq!(cycles, 1 + 5 + 3);
}

#[test]
fn data_proc_errors() {
    let ins = DataProc {
        opcode: Op::CMP,
        set_flags: false,
        rn: 0,
        rd: 0,
        op2: RegOrImm::Imm { rotate: 0, value: 0 },
    };
    let mut cpu = CPU::new();
    assert_eq!(ins.run(&mut cpu), Err(CpuError::InvalidInstruction));

    let ins = DataProc { opcode: Op::ADD, rn: 16, ..ins };
    assert_eq!(ins.run(&mut cpu), Err(CpuError::IllegalRegisterUse));

    let ins = DataProc { rn: 0, op2: RegOrImm::Reg { shift: 0b1111_0001, reg: 0 }, ..ins };
    assert_eq!(ins.run(&mut cpu), Err(CpuError::IllegalRegisterUse));

    cpu.cpsr.mode = CPUMode::INVALID;
    let ins = DataProc { op2: RegOrImm::Imm { rotate: 0, value: 0 }, ..ins };
    assert_eq!(ins.run(&mut cpu), Err(CpuError::InvalidMode));
}

#[test]
fn multiply_accumulate() {
    let mut cpu = CPU::new();
    cpu.set_reg(1, 0x10000);
    cpu.set_reg(2, 0x10001);
    cpu.set_reg(3, 7);
    let ins =
        Multiply { accumulate: true, set_flags: true, rd: 0, rn: 3, rs: 2, rm: 1 };
    let cycles = ins.run(&mut cpu).unwrap();
    // 0x10000 * 0x10001 = 0x1_0001_0000, of which the low word is kept
    assert_eq!(cpu.get_reg(0), 0x0001_0007);
    assert!(!cpu.cpsr.zero);
    assert!(!cpu.cpsr.neg);
    // fetch, two bytes of the multiplier past the first are not all 0 or 1 ... here one
    assert_eq!(cycles, 1 + mul_cycle_time(0x10001) + 1);
    assert_eq!(mul_cycle_time(0x10001), 2);
    assert_eq!(mul_cycle_time(0), 1);
    assert_eq!(mul_cycle_time(0xFFFF_FF12), 1);
    assert_eq!(mul_cycle_time(0x1234_5678), 4);
    assert_eq!(mul_cycle_time(0x00FF_0100), 2);

    let same = Multiply { rd: 1, rm: 1, ..ins };
    assert_eq!(same.run(&mut cpu), Err(CpuError::IllegalRegisterUse));
    let pc = Multiply { rs: 15, ..ins };
    assert_eq!(pc.run(&mut cpu), Err(CpuError::IllegalRegisterUse));
}

#[test]
fn multiply_long_signed_and_unsigned() {
    let mut cpu = CPU::new();
    cpu.set_reg(2, 0xFFFF_FFFE); // -2
    cpu.set_reg(3, 3);
    let signed = MultiplyLong {
        accumulate: false,
        is_signed: true,
        set_flags: true,
        rdhi: 1,
        rdlo: 0,
        rs: 3,
        rm: 2,
    };
    signed.run(&mut cpu).unwrap();
    assert_eq!(cpu.get_reg(1), 0xFFFF_FFFF);
    assert_eq!(cpu.get_reg(0), 0xFFFF_FFFA);
    assert!(cpu.cpsr.neg);
    assert!(!cpu.cpsr.zero);

    let unsigned = MultiplyLong { is_signed: false, accumulate: true, ..signed };
    cpu.set_reg(1, 1);
    cpu.set_reg(0, 10);
    unsigned.run(&mut cpu).unwrap();
    // 0xFFFFFFFE * 3 + 0x1_0000_000A = 0x4_0000_0004
    assert_eq!(cpu.get_reg(1), 4);
    assert_eq!(cpu.get_reg(0), 4);
    assert!(!cpu.cpsr.neg);

    let clash = MultiplyLong { rdhi: 0, ..signed };
    assert_eq!(clash.run(&mut cpu), Err(CpuError::IllegalRegisterUse));
}

#[test]
fn read_cpsr() {
    let mut cpu = CPU::new();
    cpu.cpsr.carry = true;
    cpu.cpsr.isa = InstructionSet::THUMB;
    cpu.cpsr.mode = CPUMode::FIQ;

    let ins = PSRTransfer { trans: TransferType::Read { stype: StateRegType::Current, dest: 0 } };

    ins.run(&mut cpu).unwrap();

    assert_eq!(cpu.cpsr.to_u32(), cpu.get_reg(0));
    assert_eq!(cpu.get_reg(0), 0x2000_00F1);
}

#[test]
fn write_spsr_invalid() {
    let mut cpu = CPU::new();
    let ins = PSRTransfer {
        trans: TransferType::Write {
            stype: StateRegType::Saved,
            source: RegOrImm::Reg { shift: 0, reg: 14 },
            flag_only: false,
        },
    };
    ins.run(&mut cpu).unwrap();
    let spsr = cpu.get_spsr();
    assert_eq!(spsr.neg, false);
    assert_eq!(spsr.zero, false);
    assert_eq!(spsr.carry, false);
    assert_eq!(spsr.overflow, false);
    assert_eq!(spsr.irq, false);
    assert_eq!(spsr.fiq, false);
    assert_eq!(spsr.isa, InstructionSet::ARM);
    assert_eq!(spsr.mode, CPUMode::INVALID);
}

#[test]
fn write_cpsr_with_invalid_mode_shows_at_the_next_instruction() {
    let mut cpu = CPU::new();
    cpu.set_reg(14, 0x4000_0004);
    let ins = PSRTransfer {
        trans: TransferType::Write {
            stype: StateRegType::Current,
            source: RegOrImm::Reg { shift: 0, reg: 14 },
            flag_only: false,
        },
    };
    assert!(ins.run(&mut cpu).is_ok());
    assert_eq!(cpu.cpsr.mode, CPUMode::INVALID);
    assert!(cpu.cpsr.zero);
    // the word is kept bit for bit
    assert_eq!(cpu.cpsr.to_u32(), 0x4000_0004);
    assert_eq!(ins.run(&mut cpu), Err(CpuError::InvalidMode));
    let add = DataProc {
        opcode: Op::ADD,
        set_flags: false,
        rn: 0,
        rd: 0,
        op2: RegOrImm::Imm { rotate: 0, value: 1 },
    };
    assert_eq!(add.run(&mut cpu), Err(CpuError::InvalidMode));
    assert_eq!(cpu.r[0], 0);
}

#[test]
fn write_flagonly() {
    let mut cpu = CPU::new();
    let ins = PSRTransfer {
        trans: TransferType::Write {
            stype: StateRegType::Current,
            source: RegOrImm::Imm { rotate: 0, value: 0xFFFFFFFF },
            flag_only: true,
        },
    };
    ins.run(&mut cpu).unwrap();
    assert_eq!(cpu.cpsr.neg, true);
    assert_eq!(cpu.cpsr.zero, true);
    assert_eq!(cpu.cpsr.carry, true);
    assert_eq!(cpu.cpsr.overflow, true);
    assert_eq!(cpu.cpsr.irq, true);
    assert_eq!(cpu.cpsr.fiq, true);
    assert_eq!(cpu.cpsr.isa, InstructionSet::ARM);
    assert_eq!(cpu.cpsr.mode, CPUMode::SVC);
}

#[test]
fn psr_transfer_with_r15_is_refused() {
    let ins = PSRTransfer { trans: TransferType::Read { stype: StateRegType::Saved, dest: 15 } };
    assert_eq!(ins.run(&mut CPU::new()), Err(CpuError::IllegalRegisterUse));
}

#[test]
fn write_cpsr_changes_mode_and_bank() {
    let mut cpu = CPU::new();
    cpu.set_reg(13, 0x1111);
    cpu.set_reg(0, 0x0000_0012); // IRQ mode, ARM, interrupts open
    let ins = PSRTransfer {
        trans: TransferType::Write {
            stype: StateRegType::Current,
            source: RegOrImm::Reg { shift: 0, reg: 0 },
            flag_only: false,
        },
    };
    ins.run(&mut cpu).unwrap();
    assert_eq!(cpu.cpsr.mode, CPUMode::IRQ);
    assert!(!cpu.cpsr.irq);
    assert_eq!(cpu.get_reg(13), 0);
}

#[test]
fn swap_byte() {
    let mut cpu = CPU::new();
    let addr = 0x02000001;
    cpu.set_reg(0, addr);
    cpu.set_reg(2, 0xFF);
    cpu.mem.set_byte(addr, 0x3A);

    let ins = SingleDataSwap { byte: true, rn: 0, rd: 1, rm: 2 };

    ins.run(&mut cpu).unwrap();

    assert_eq!(cpu.mem.get_byte(addr), 0xFF);
    assert_eq!(cpu.get_reg(1), 0x3A);
}

#[test]
fn swap_word() {
    let mut cpu = CPU::new();
    let addr = 0x02000001;
    cpu.set_reg(0, addr);
    cpu.set_reg(1, 0xFE41);
    cpu.mem.set_word(addr, 0x3AFF001);

    let ins = SingleDataSwap { byte: false, rn: 0, rd: 1, rm: 1 };

    ins.run(&mut cpu).unwrap();

    assert_eq!(cpu.mem.get_word(addr), 0xFE41);
    assert_eq!(cpu.get_reg(1), 0x3AFF001);
}

#[test]
fn swap_with_r15_is_refused() {
    let ins = SingleDataSwap { byte: false, rn: 0, rd: 15, rm: 1 };
    assert_eq!(ins.run(&mut CPU::new()), Err(CpuError::IllegalRegisterUse));
}

#[test]
fn transfer_load() {
    let mut cpu = CPU::new();
    cpu.set_reg(0, 80);
    cpu.mem.raw.sysrom[100] = 77;
    cpu.transfer_reg(TransferParams {
        pre_index: true,
        offset_up: true,
        size: TransferSize::Byte,
        write_back: false,
        load: true,
        base_reg: 0,
        data_reg: 1,
        signed: false,
        offset: &RegOrImm::Imm { rotate: 0, value: 20 },
    })
    .unwrap();
    assert_eq!(cpu.get_reg(1), 77);
}

#[test]
fn transfer_store() {
    let mut cpu = CPU::new();
    cpu.set_reg(1, 0xFFFF_FE00);
    cpu.set_reg(4, 0x0400_0000);
    cpu.transfer_reg(TransferParams {
        pre_index: true,
        offset_up: true,
        size: TransferSize::Word,
        write_back: false,
        load: false,
        base_reg: 4,
        data_reg: 0,
        signed: false,
        offset: &RegOrImm::Reg { shift: 0, reg: 1 },
    })
    .unwrap();
}

#[test]
fn transfer_store_autoindex() {
    let mut cpu = CPU::new();
    cpu.set_reg(0, 0x0300_0000 + 100);
    cpu.set_reg(1, 77);
    cpu.transfer_reg(TransferParams {
        pre_index: false,
        offset_up: false,
        size: TransferSize::Byte,
        write_back: false,
        load: false,
        base_reg: 0,
        data_reg: 1,
        signed: false,
        offset: &RegOrImm::Imm { rotate: 0, value: 20 },
    })
    .unwrap();
    assert_eq!(cpu.mem.get_byte(0x0300_0000 + 100), 77);
    assert_eq!(cpu.get_reg(0), 0x0300_0000 + 80);
}

#[test]
fn transfer_load_signed() {
    let mut cpu = CPU::new();
    cpu.set_reg(0, 100);
    cpu.mem.raw.sysrom[100] = 0x0B;
    cpu.mem.raw.sysrom[101] = 0xA1;
    cpu.transfer_reg(TransferParams {
        pre_index: false,
        offset_up: false,
        size: TransferSize::Halfword,
        write_back: true,
        load: true,
        base_reg: 0,
        data_reg: 14,
        signed: true,
        offset: &RegOrImm::Imm { rotate: 0, value: 20 },
    })
    .unwrap();
    assert_eq!(cpu.get_reg(14), 0xFFFFA10B);
    assert_eq!(cpu.get_reg(0), 80);
}

#[test]
fn transfer_with_register_offset_uses_the_register_value() {
    let mut cpu = CPU::new();
    cpu.set_reg(1, 0x10);
    cpu.set_reg(4, 0x0300_0000);
    cpu.set_reg(0, 0xCAFE_F00D);
    // str r0, [r4, r1, lsl #2]
    SingleDataTransfer {
        pre_index: true,
        offset_up: true,
        byte: false,
        write_back: false,
        load: false,
        rn: 4,
        rd: 0,
        offset: RegOrImm::Reg { shift: 0b00010_000, reg: 1 },
    }
    .run(&mut cpu)
    .unwrap();
    assert_eq!(cpu.mem.get_word(0x0300_0040), 0xCAFE_F00D);
    assert_eq!(cpu.get_reg(4), 0x0300_0000);
}

#[test]
fn load_into_pc_flushes_and_store_of_pc_is_ahead() {
    let mut cpu = CPU::new();
    cpu.set_reg(0, 0x0300_0000);
    cpu.set_reg(15, 0x0800_0008);
    let store = SingleDataTransfer {
        pre_index: true,
        offset_up: true,
        byte: false,
        write_back: false,
        load: false,
        rn: 0,
        rd: 15,
        offset: RegOrImm::Imm { rotate: 0, value: 0 },
    };
    store.run(&mut cpu).unwrap();
    assert_eq!(cpu.mem.get_word(0x0300_0000), 0x0800_000C);
    assert!(!cpu.should_flush);

    let load = SingleDataTransfer { load: true, ..store };
    load.run(&mut cpu).unwrap();
    assert_eq!(cpu.get_reg(15), 0x0800_000C);
    assert!(cpu.should_flush);
}

#[test]
fn single_and_signed_transfer_errors() {
    let mut cpu = CPU::new();
    let ins = SingleDataTransfer {
        pre_index: true,
        offset_up: true,
        byte: false,
        write_back: true,
        load: true,
        rn: 15,
        rd: 0,
        offset: RegOrImm::Imm { rotate: 0, value: 0 },
    };
    assert_eq!(ins.run(&mut cpu), Err(CpuError::IllegalRegisterUse));
    let ins = SingleDataTransfer { rn: 2, offset: RegOrImm::Reg { shift: 0, reg: 2 }, ..ins };
    assert_eq!(ins.run(&mut cpu), Err(CpuError::IllegalRegisterUse));
    let ins = SingleDataTransfer { offset: RegOrImm::Reg { shift: 0, reg: 15 }, ..ins };
    assert_eq!(ins.run(&mut cpu), Err(CpuError::IllegalRegisterUse));

    let ins = SignedDataTransfer {
        pre_index: true,
        offset_up: true,
        halfword: true,
        write_back: false,
        load: false,
        rn: 0,
        rd: 1,
        signed: true,
        offset: RegOrImm::Imm { rotate: 0, value: 0 },
    };
    assert_eq!(ins.run(&mut cpu), Err(CpuError::InvalidInstruction));
}

#[test]
fn signed_transfer_loads_sign_extended_byte() {
    let mut cpu = CPU::new();
    cpu.set_reg(0, 0x0200_0000);
    cpu.mem.set_byte(0x0200_0004, 0x80);
    SignedDataTransfer {
        pre_index: true,
        offset_up: true,
        halfword: false,
        write_back: true,
        load: true,
        rn: 0,
        rd: 1,
        signed: true,
        offset: RegOrImm::Imm { rotate: 0, value: 4 },
    }
    .run(&mut cpu)
    .unwrap();
    assert_eq!(cpu.get_reg(1), 0xFFFF_FF80);
    assert_eq!(cpu.get_reg(0), 0x0200_0004);
}

#[test]
fn software_interrupt_enters_supervisor_mode() {
    let mut cpu = CPU::new();
    cpu.cpsr.mode = CPUMode::USR;
    cpu.cpsr.irq = false;
    cpu.cpsr.isa = InstructionSet::THUMB;
    cpu.cpsr.carry = true;
    cpu.set_reg(15, 0x0800_0104);
    let cycles = SWInterrupt { comment: 5 }.run(&mut cpu).unwrap();
    assert_eq!(cpu.cpsr.mode, CPUMode::SVC);
    assert!(cpu.cpsr.irq);
    assert_eq!(cpu.cpsr.isa, InstructionSet::ARM);
    assert_eq!(cpu.get_reg(14), 0x0800_0102);
    assert_eq!(cpu.get_reg(15), 0x08);
    assert!(cpu.should_flush);
    assert_eq!(cpu.spsr_svc.mode, CPUMode::USR);
    assert_eq!(cpu.spsr_svc.isa, InstructionSet::THUMB);
    assert!(cpu.spsr_svc.carry);
    assert!(!cpu.spsr_svc.irq);
    assert_eq!(cycles, 2);
}

#[test]
fn a_store_by_the_processor_acknowledges_in_both_views() {
    let mut cpu = CPU::new();
    cpu.mem.set_byte(0x0400_0004, 0b0001_1000);
    cpu.mem.on_vblank_hook();
    cpu.mem.on_hblank_hook();
    assert_eq!(cpu.mem.get_halfword(0x0400_0202), 0b11);
    // strh r0, [r4]
    cpu.set_reg(0, 0b01);
    cpu.set_reg(4, 0x0400_0202);
    cpu.transfer_reg(TransferParams {
        pre_index: true,
        offset_up: true,
        size: TransferSize::Halfword,
        write_back: false,
        load: false,
        base_reg: 4,
        data_reg: 0,
        signed: false,
        offset: &RegOrImm::Imm { rotate: 0, value: 0 },
    })
    .unwrap();
    assert_eq!(cpu.mem.get_halfword(0x0400_0202), 0b10);
    assert!(!cpu.mem.int.triggered.vblank);
    assert!(cpu.mem.int.triggered.hblank);
    // str r0, [r5] into the BIOS is dropped
    cpu.set_reg(5, 0x40);
    cpu.transfer_reg(TransferParams {
        pre_index: true,
        offset_up: true,
        size: TransferSize::Word,
        write_back: false,
        load: false,
        base_reg: 5,
        data_reg: 0,
        signed: false,
        offset: &RegOrImm::Imm { rotate: 0, value: 0 },
    })
    .unwrap();
    assert_eq!(cpu.mem.get_word(0x40), 0);
}
