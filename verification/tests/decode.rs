use gba_core::cpu::pipeline::{_decode_thumb, decode_arm, satisfies_cond, Instruction, ThumbFormat};
use gba_core::cpu::status_reg::PSR;
use gba_core::util::get_nibble;

// for decode_arm()'s condition branches that are based exclusively on the op0, op1,
// and op2 nibbles (which is all but 2), we can effectively test against all possible options
// by enumerating all possible values for op0, op1, and op2. we do this
// using generate_instructions(), which will generate all possible values
// after possibly fixing any of the 12 bits (specified using a NibbleFilter).
// we can then write tests for each instruction by copying fixed values
// directly from the instruction table in the ARM manual (Figure 4-1)

type NibbleFilter = (Option<u32>, Option<u32>, Option<u32>, Option<u32>);

fn generate_instructions(f0: &NibbleFilter, f1: &NibbleFilter, f2: &NibbleFilter) -> Vec<u32> {
    let mut instructions = Vec::new();
    for op0 in generate_nibbles(f0) {
        for op1 in generate_nibbles(f1) {
            for op2 in generate_nibbles(f2) {
                instructions.push((op0 << 24) | (op1 << 20) | (op2 << 4))
            }
        }
    }
    instructions
}

fn generate_nibbles(filter: &NibbleFilter) -> Vec<u32> {
    (0u32..16u32).filter(|num| matches_filter(num, filter)).collect()
}

fn matches_filter(num: &u32, filter: &NibbleFilter) -> bool {
    let (f3, f2, f1, f0) = filter;
    f3.map_or(true, |val| ((num >> 3) & 1u32) == val)
        && f2.map_or(true, |val| ((num >> 2) & 1u32) == val)
        && f1.map_or(true, |val| ((num >> 1) & 1u32) == val)
        && f0.map_or(true, |val| ((num >> 0) & 1u32) == val)
}

#[test]
fn data() {
    assert!(matches!(decode_arm(0x03123456).unwrap(), Instruction::DataProc(_)));
    assert!(matches!(decode_arm(0xA3123456).unwrap(), Instruction::DataProc(_)));
    assert!(matches!(decode_arm(0x001A3D56).unwrap(), Instruction::DataProc(_)));
    assert!(matches!(
        decode_arm(0b11100001101000000110100100010110).unwrap(),
        Instruction::DataProc(_)
    ));
}

#[test]
fn psr() {
    assert!(matches!(
        decode_arm(0b0011_00010_1_001111_0000_000000000000).unwrap(),
        Instruction::PSRTransfer(_)
    ));
    assert!(matches!(
        decode_arm(0b1111_00010_0_1010011111_00000000_1111).unwrap(),
        Instruction::PSRTransfer(_)
    ));
}

#[test]
fn mul() {
    let f0 = (Some(0), Some(0), Some(0), Some(0));
    let f1 = (Some(0), Some(0), None, None);
    let f2 = (Some(1), Some(0), Some(0), Some(1));
    for ins in generate_instructions(&f0, &f1, &f2) {
        assert!(matches!(decode_arm(ins).unwrap(), Instruction::Multiply(_)));
    }
}

#[test]
fn mul_long() {
    let f0 = (Some(0), Some(0), Some(0), Some(0));
    let f1 = (Some(1), None, None, None);
    let f2 = (Some(1), Some(0), Some(0), Some(1));
    for ins in generate_instructions(&f0, &f1, &f2) {
        assert!(matches!(decode_arm(ins).unwrap(), Instruction::MultiplyLong(_)));
    }
}

#[test]
fn single_data_swap() {
    let f0 = (Some(0), Some(0), Some(0), Some(1));
    let f1 = (Some(0), None, Some(0), Some(0));
    let f2 = (Some(1), Some(0), Some(0), Some(1));
    for ins in generate_instructions(&f0, &f1, &f2) {
        assert!(matches!(decode_arm(ins).unwrap(), Instruction::SwapTransfer(_)));
    }
}

#[test]
fn bex() {
    assert!(matches!(decode_arm(0x0_12FFF1_5).unwrap(), Instruction::BranchEx(_)));
}

#[test]
fn signed_halfword_transfer() {
    let f0 = (Some(0), Some(0), Some(0), None);
    let f1 = (None, None, None, None);
    let f2 = (Some(1), None, None, Some(1));
    for ins in generate_instructions(&f0, &f1, &f2) {
        let op0 = get_nibble(ins, 24);
        let op1 = get_nibble(ins, 20);
        let op2 = get_nibble(ins, 4);
        // mul instruction takes precedence
        if op2 == 9 && op0 == 0 && (op1 <= 3 || op1 >= 8) {
            continue;
        }
        // as does the swap
        if op2 == 9 && op0 == 1 {
            continue;
        }
        assert!(matches!(decode_arm(ins).unwrap(), Instruction::SignedTransfer(_)));
    }
}

#[test]
fn single_trans() {
    let f0 = (Some(0), Some(1), None, None);
    let f1 = (None, None, None, None);
    let f2 = (None, None, None, None);
    for ins in generate_instructions(&f0, &f1, &f2) {
        assert!(matches!(decode_arm(ins).unwrap(), Instruction::SingleTransfer(_)));
    }
}

#[test]
fn block_trans() {
    let f0 = (Some(1), Some(0), Some(0), None);
    let f1 = (None, None, None, None);
    let f2 = (None, None, None, None);
    for ins in generate_instructions(&f0, &f1, &f2) {
        assert!(matches!(decode_arm(ins).unwrap(), Instruction::BlockTransfer(_)));
    }
}

#[test]
fn branch() {
    let f0 = (Some(1), Some(0), Some(1), None);
    let f1 = (None, None, None, None);
    let f2 = (None, None, None, None);
    for ins in generate_instructions(&f0, &f1, &f2) {
        assert!(matches!(decode_arm(ins).unwrap(), Instruction::Branch(_)));
    }
}

#[test]
fn sw_interrupt() {
    assert!(matches!(decode_arm(0xFF_123ABC).unwrap(), Instruction::SWInterrupt(_)));
}

#[test]
fn coprocessor_words_are_not_decoded() {
    assert_eq!(decode_arm(0xEC00_0000), None);
    assert_eq!(decode_arm(0xED12_3456), None);
    assert_eq!(decode_arm(0xEE00_0010), None);
}

#[test]
fn sanity() {
    assert!(_decode_thumb(0x0123) == ThumbFormat::MoveShifted);
    assert!(_decode_thumb(0x1012) == ThumbFormat::MoveShifted);
    assert!(_decode_thumb(0x1F12) == ThumbFormat::AddSub);
    assert!(_decode_thumb(0x2000) == ThumbFormat::DataImm);
    assert!(_decode_thumb(0x3FFF) == ThumbFormat::DataImm);
    assert!(_decode_thumb(0x4A00) == ThumbFormat::PcRelLoad);
    assert!(_decode_thumb(0x42FA) == ThumbFormat::AluOp);
    assert!(_decode_thumb(0x451A) == ThumbFormat::HiRegBex);
    assert!(_decode_thumb(0x51AB) == ThumbFormat::RegOffsetTrans);
    assert!(_decode_thumb(0x5700) == ThumbFormat::SignedTrans);
    assert!(_decode_thumb(0x6123) == ThumbFormat::ImmOffsetTrans);
    assert!(_decode_thumb(0x700F) == ThumbFormat::ImmOffsetTrans);
    assert!(_decode_thumb(0x8FFF) == ThumbFormat::HwTrans);
    assert!(_decode_thumb(0x9001) == ThumbFormat::SpRelTrans);
    assert!(_decode_thumb(0xAAAB) == ThumbFormat::LoadAddr);
    assert!(_decode_thumb(0xB00A) == ThumbFormat::IncrSp);
    assert!(_decode_thumb(0xBD00) == ThumbFormat::PushPop);
    assert!(_decode_thumb(0xCEEA) == ThumbFormat::BlockTrans);
    assert!(_decode_thumb(0xDE01) == ThumbFormat::CondBranch);
    assert!(_decode_thumb(0xDF01) == ThumbFormat::Swi);
    assert!(_decode_thumb(0xE590) == ThumbFormat::Branch);
    assert!(_decode_thumb(0xF3C7) == ThumbFormat::LongBranch);
}

#[test]
fn every_condition_follows_the_flags() {
    // N, Z, C, V in bits 3..0 of `flags`
    for flags in 0u32..16 {
        let mut cpsr = PSR::new();
        cpsr.neg = flags & 8 != 0;
        cpsr.zero = flags & 4 != 0;
        cpsr.carry = flags & 2 != 0;
        cpsr.overflow = flags & 1 != 0;
        let (n, z, c, v) = (cpsr.neg, cpsr.zero, cpsr.carry, cpsr.overflow);
        let expected = [
            z,
            !z,
            c,
            !c,
            n,
            !n,
            v,
            !v,
            c && !v,
            !c || v,
            n == v,
            n != v,
            !z && n == v,
            z || n != v,
            true,
        ];
        for cond in 0u32..15 {
            assert_eq!(satisfies_cond(&cpsr, cond), expected[cond as usize]);
        }
    }
}
