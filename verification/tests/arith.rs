use gba_core::cpu::arm::data::{
    add_with_carry, alu, barrel_shift, shift_kind, sub_with_carry, Op, ShiftKind,
};
use gba_core::cpu::arm::mul_long::long_product;
use gba_core::cpu::transfer::{sign_extend_byte, sign_extend_halfword};
use gba_core::mem::io::dma::TimingMode;
use gba_core::mem::Memory;

const VALUES: [u32; 12] = [
    0,
    1,
    2,
    0x7FFF_FFFF,
    0x8000_0000,
    0x8000_0001,
    0xFFFF_FFFE,
    0xFFFF_FFFF,
    0x1234_5678,
    0xDEAD_BEEF,
    0x0000_FFFF,
    0xFFFF_0000,
];

#[test]
fn addition_flags_agree_with_wide_arithmetic() {
    for a in VALUES.iter() {
        for b in VALUES.iter() {
            for carry in [false, true].iter() {
                let wide = *a as u64 + *b as u64 + *carry as u64;
                let signed = *a as i32 as i64 + *b as i32 as i64 + *carry as i64;
                let (sum, c, v) = add_with_carry(*a, *b, *carry);
                assert_eq!(sum, wide as u32);
                assert_eq!(c, wide > 0xFFFF_FFFF);
                assert_eq!(v, Some(signed > i32::MAX as i64 || signed < i32::MIN as i64));

                let (diff, c, v) = sub_with_carry(*a, *b, *carry);
                let borrow = if *carry { 0 } else { 1 };
                assert_eq!(diff, a.wrapping_sub(*b).wrapping_sub(borrow));
                // carry means no borrow
                assert_eq!(c, *a as u64 >= *b as u64 + borrow as u64);
                let signed = *a as i32 as i64 - *b as i32 as i64 - borrow as i64;
                assert_eq!(v, Some(signed > i32::MAX as i64 || signed < i32::MIN as i64));
            }
        }
    }
}

#[test]
fn alu_operations() {
    let a = 0xF0F0_1234;
    let b = 0x0FF0_00FF;
    assert_eq!(alu(Op::AND, a, b, false, true), (a & b, true, None));
    assert_eq!(alu(Op::TST, a, b, false, false), (a & b, false, None));
    assert_eq!(alu(Op::EOR, a, b, true, false), (a ^ b, false, None));
    assert_eq!(alu(Op::TEQ, a, b, true, true), (a ^ b, true, None));
    assert_eq!(alu(Op::ORR, a, b, false, true), (a | b, true, None));
    assert_eq!(alu(Op::MOV, a, b, false, true), (b, true, None));
    assert_eq!(alu(Op::BIC, a, b, false, false), (a & !b, false, None));
    assert_eq!(alu(Op::MVN, a, b, false, false), (!b, false, None));
    assert_eq!(alu(Op::SUB, 5, 3, false, false), (2, true, Some(false)));
    assert_eq!(alu(Op::CMP, 3, 5, true, true), (0xFFFF_FFFE, false, Some(false)));
    assert_eq!(alu(Op::RSB, 3, 5, false, false), (2, true, Some(false)));
    assert_eq!(alu(Op::ADD, 0x7FFF_FFFF, 1, true, false), (0x8000_0000, false, Some(true)));
    assert_eq!(alu(Op::CMN, 0xFFFF_FFFF, 1, false, false), (0, true, Some(false)));
    assert_eq!(alu(Op::ADC, 1, 2, true, false), (4, false, Some(false)));
    assert_eq!(alu(Op::ADC, 1, 2, false, false), (3, false, Some(false)));
    assert_eq!(alu(Op::SBC, 5, 3, false, false), (1, true, Some(false)));
    assert_eq!(alu(Op::SBC, 0x8000_0000, 1, true, false), (0x7FFF_FFFF, true, Some(true)));
    assert_eq!(alu(Op::RSC, 3, 5, true, false), (2, true, Some(false)));
    assert_eq!(alu(Op::RSC, 3, 5, false, false), (1, true, Some(false)));
}

fn bit(value: u32, i: u32) -> bool {
    (value >> i) & 1 == 1
}

#[test]
fn barrel_shifter_follows_its_table() {
    for value in VALUES.iter() {
        let v = *value;
        for carry in [false, true].iter() {
            let c = *carry;
            // an amount of 0 from a register changes nothing
            for kind in [ShiftKind::LSL, ShiftKind::LSR, ShiftKind::ASR, ShiftKind::ROR].iter() {
                assert_eq!(barrel_shift(*kind, 0, false, v, c), (v, c));
            }
            assert_eq!(barrel_shift(ShiftKind::LSL, 0, true, v, c), (v, c));
            assert_eq!(barrel_shift(ShiftKind::LSR, 0, true, v, c), (0, bit(v, 31)));
            let sign = if bit(v, 31) { 0xFFFF_FFFF } else { 0 };
            assert_eq!(barrel_shift(ShiftKind::ASR, 0, true, v, c), (sign, bit(v, 31)));
            assert_eq!(
                barrel_shift(ShiftKind::ROR, 0, true, v, c),
                ((v >> 1) | ((c as u32) << 31), bit(v, 0))
            );
            for immediate in [false, true].iter() {
                let imm = *immediate;
                for n in 1u32..32 {
                    assert_eq!(
                        barrel_shift(ShiftKind::LSL, n, imm, v, c),
                        (v << n, bit(v, 32 - n))
                    );
                    assert_eq!(
                        barrel_shift(ShiftKind::LSR, n, imm, v, c),
                        (v >> n, bit(v, n - 1))
                    );
                    assert_eq!(
                        barrel_shift(ShiftKind::ASR, n, imm, v, c),
                        (((v as i32) >> n) as u32, bit(v, n - 1))
                    );
                    let rotated = v.rotate_right(n);
                    assert_eq!(
                        barrel_shift(ShiftKind::ROR, n, imm, v, c),
                        (rotated, bit(rotated, 31))
                    );
                }
            }
            assert_eq!(barrel_shift(ShiftKind::LSL, 32, false, v, c), (0, bit(v, 0)));
            assert_eq!(barrel_shift(ShiftKind::LSR, 32, false, v, c), (0, bit(v, 31)));
            assert_eq!(barrel_shift(ShiftKind::ASR, 32, false, v, c), (sign, bit(v, 31)));
            assert_eq!(barrel_shift(ShiftKind::ROR, 32, false, v, c), (v, bit(v, 31)));
            for n in [33u32, 64, 100, 255].iter() {
                assert_eq!(barrel_shift(ShiftKind::LSL, *n, false, v, c), (0, false));
                assert_eq!(barrel_shift(ShiftKind::LSR, *n, false, v, c), (0, false));
                assert_eq!(barrel_shift(ShiftKind::ASR, *n, false, v, c), (sign, bit(v, 31)));
                let rotated = v.rotate_right(*n % 32);
                assert_eq!(
                    barrel_shift(ShiftKind::ROR, *n, false, v, c),
                    (rotated, bit(rotated, 31))
                );
            }
        }
    }
    assert_eq!(shift_kind(0b000), ShiftKind::LSL);
    assert_eq!(shift_kind(0b010), ShiftKind::LSR);
    assert_eq!(shift_kind(0b100), ShiftKind::ASR);
    assert_eq!(shift_kind(0b110), ShiftKind::ROR);
}

#[test]
fn long_products_agree_with_wide_arithmetic() {
    let sums: [u64; 4] = [0, 1, 0x8000_0000_0000_0000, 0xFFFF_FFFF_FFFF_FFFF];
    for a in VALUES.iter() {
        for b in VALUES.iter() {
            for s in sums.iter() {
                let unsigned = (*a as u64).wrapping_mul(*b as u64).wrapping_add(*s);
                assert_eq!(long_product(false, *a, *b, *s), unsigned);
                let signed =
                    ((*a as i32 as i64).wrapping_mul(*b as i32 as i64) as u64).wrapping_add(*s);
                assert_eq!(long_product(true, *a, *b, *s), signed);
            }
        }
    }
}

#[test]
fn sign_extension() {
    assert_eq!(sign_extend_byte(0x7F), 0x7F);
    assert_eq!(sign_extend_byte(0x80), 0xFFFF_FF80);
    assert_eq!(sign_extend_byte(0xFF), 0xFFFF_FFFF);
    assert_eq!(sign_extend_halfword(0x7FFF), 0x7FFF);
    assert_eq!(sign_extend_halfword(0x8000), 0xFFFF_8000);
    assert_eq!(sign_extend_halfword(0xA10B), 0xFFFF_A10B);
}

#[test]
fn dma3_copy_towards_the_cartridge() {
    let mut mem = Memory::new();
    mem.set_word(0x0400_00D4, 0x0800_0300);
    mem.set_word(0x0400_00D8, 0x0910_032A);
    mem.set_halfword(0x0400_00DC, 0);
    // enabled, word size, start now
    mem.set_halfword(0x0400_00DE, 0b1000_0100_0000_0000);
    assert_eq!(mem.dma.channels[3].count, 0x4000);
    mem.check_dma(TimingMode::Now);
    let channel = &mem.dma.channels[3];
    assert!(!channel.enabled);
    // 0x4000 words were walked through on both sides
    assert_eq!(channel.src, 0x0800_0300 + 0x1_0000);
    assert_eq!(channel.dest, 0x0910_0328 + 0x1_0000);
    assert_eq!(channel.src % 4, 0);
    assert_eq!(channel.dest % 4, 0);
    assert_eq!(mem.get_halfword(0x0400_00DE) >> 15, 0);
    assert_eq!(mem.get_word(0x0400_00DC) >> 31, 0);
    assert_eq!(mem.get_halfword(0x0400_00DE), 0b0000_0100_0000_0000);
    // no interrupt was asked for
    assert!(!mem.int.triggered.dma[3]);
}
