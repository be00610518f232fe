//! Data processing instructions and the barrel shifter.

use vstd::prelude::*;
use crate::cpu::arm::RegOrImm;
use crate::cpu::status_reg::{CPUMode, InstructionSet};
use crate::cpu::{CpuError, CPU};
use crate::util::{
    get_bit, get_byte, get_nibble, rotate_right, spec_get_bit, spec_get_byte, spec_get_nibble,
    spec_rotate_right,
};

verus! {

#[derive(Copy, Clone, Debug, PartialEq, Eq, Structural)]
pub enum Op {
    AND,
    EOR,
    SUB,
    RSB,
    ADD,
    ADC,
    SBC,
    RSC,
    TST,
    TEQ,
    CMP,
    CMN,
    ORR,
    MOV,
    BIC,
    MVN,
}

impl Op {
    /// The operation that an opcode field names.
    pub open spec fn spec_from_u32(n: u32) -> Option<Op> {
        if n == 0 {
            Some(Op::AND)
        } else if n == 1 {
            Some(Op::EOR)
        } else if n == 2 {
            Some(Op::SUB)
        } else if n == 3 {
            Some(Op::RSB)
        } else if n == 4 {
            Some(Op::ADD)
        } else if n == 5 {
            Some(Op::ADC)
        } else if n == 6 {
            Some(Op::SBC)
        } else if n == 7 {
            Some(Op::RSC)
        } else if n == 8 {
            Some(Op::TST)
        } else if n == 9 {
            Some(Op::TEQ)
        } else if n == 10 {
            Some(Op::CMP)
        } else if n == 11 {
            Some(Op::CMN)
        } else if n == 12 {
            Some(Op::ORR)
        } else if n == 13 {
            Some(Op::MOV)
        } else if n == 14 {
            Some(Op::BIC)
        } else if n == 15 {
            Some(Op::MVN)
        } else {
            None
        }
    }

    #[verifier::when_used_as_spec(spec_from_u32)]
    pub fn from_u32(n: u32) -> (r: Option<Op>)
        ensures
            r == Op::spec_from_u32(n),
    {
        if n == 0 {
            Some(Op::AND)
        } else if n == 1 {
            Some(Op::EOR)
        } else if n == 2 {
            Some(Op::SUB)
        } else if n == 3 {
            Some(Op::RSB)
        } else if n == 4 {
            Some(Op::ADD)
        } else if n == 5 {
            Some(Op::ADC)
        } else if n == 6 {
            Some(Op::SBC)
        } else if n == 7 {
            Some(Op::RSC)
        } else if n == 8 {
            Some(Op::TST)
        } else if n == 9 {
            Some(Op::TEQ)
        } else if n == 10 {
            Some(Op::CMP)
        } else if n == 11 {
            Some(Op::CMN)
        } else if n == 12 {
            Some(Op::ORR)
        } else if n == 13 {
            Some(Op::MOV)
        } else if n == 14 {
            Some(Op::BIC)
        } else if n == 15 {
            Some(Op::MVN)
        } else {
            None
        }
    }

    /// The operation that a four bit field names; fields above 15 count as 15.
    pub open spec fn spec_of_field(n: u32) -> Op {
        match Op::spec_from_u32(n) {
            Some(op) => op,
            None => Op::MVN,
        }
    }

    #[verifier::when_used_as_spec(spec_of_field)]
    pub fn of_field(n: u32) -> (r: Op)
        ensures
            r == Op::spec_of_field(n),
    {
        match Op::from_u32(n) {
            Some(op) => op,
            None => Op::MVN,
        }
    }

    /// TST, TEQ, CMP and CMN only set flags; every other operation writes
    /// its result to the destination register.
    pub open spec fn spec_writes_result(self) -> bool {
        !(self == Op::TST || self == Op::TEQ || self == Op::CMP || self == Op::CMN)
    }

    #[verifier::when_used_as_spec(spec_writes_result)]
    pub fn writes_result(self) -> (r: bool)
        ensures
            r == self.spec_writes_result(),
    {
        match self {
            Op::TST | Op::TEQ | Op::CMP | Op::CMN => false,
            _ => true,
        }
    }
}

/// The four kinds of shift, as bits 2..1 of a shift specifier name them.
#[derive(Copy, Clone, Debug, PartialEq, Eq, Structural)]
pub enum ShiftKind {
    LSL,
    LSR,
    ASR,
    ROR,
}

pub open spec fn spec_shift_kind(shift: u32) -> ShiftKind {
    if spec_get_bit(shift, 2) {
        if spec_get_bit(shift, 1) {
            ShiftKind::ROR
        } else {
            ShiftKind::ASR
        }
    } else {
        if spec_get_bit(shift, 1) {
            ShiftKind::LSR
        } else {
            ShiftKind::LSL
        }
    }
}

/// The kind of shift that a shift specifier asks for.
#[verifier::when_used_as_spec(spec_shift_kind)]
pub fn shift_kind(shift: u32) -> (r: ShiftKind)
    ensures
        r == spec_shift_kind(shift),
{
    if get_bit(shift, 2) {
        if get_bit(shift, 1) {
            ShiftKind::ROR
        } else {
            ShiftKind::ASR
        }
    } else {
        if get_bit(shift, 1) {
            ShiftKind::LSR
        } else {
            ShiftKind::LSL
        }
    }
}

/// What the barrel shifter makes of `value`: the shifted word and the carry
/// it puts out. `immediate` says whether `amount` came from the instruction
/// (where an amount of 0 has a special meaning for LSR, ASR and ROR) or from
/// a register (where 0 leaves value and carry as they are).
///
/// - LSL 0 keeps value and carry; LSL 1..31 puts out bit 32-n; LSL 32 gives
///   0 with bit 0 as carry; more gives 0 and no carry.
/// - LSR 1..31 puts out bit n-1; LSR 32, which an immediate 0 stands for,
///   gives 0 with bit 31 as carry; more gives 0 and no carry.
/// - ASR 1..31 fills with the sign and puts out bit n-1; ASR 32 and more,
///   which an immediate 0 stands for, gives all sign bits.
/// - ROR by an immediate 0 is RRX: the carry comes in at the top and bit 0
///   goes out; otherwise the word is rotated by n mod 32 and bit 31 of the
///   result goes out.
#[verifier::opaque]
pub open spec fn spec_barrel_shift(
    kind: ShiftKind,
    amount: u32,
    immediate: bool,
    value: u32,
    carry_in: bool,
) -> (u32, bool) {
    if !immediate && amount == 0 {
        (value, carry_in)
    } else {
        match kind {
            ShiftKind::LSL => {
                if amount == 0 {
                    (value, carry_in)
                } else if amount < 32 {
                    (value << amount, spec_get_bit(value, (32 - amount) as u8))
                } else if amount == 32 {
                    (0, spec_get_bit(value, 0))
                } else {
                    (0, false)
                }
            },
            ShiftKind::LSR => {
                if amount == 0 || amount == 32 {
                    (0, spec_get_bit(value, 31))
                } else if amount < 32 {
                    (value >> amount, spec_get_bit(value, (amount - 1) as u8))
                } else {
                    (0, false)
                }
            },
            ShiftKind::ASR => {
                if amount == 0 || amount >= 32 {
                    (
                        if spec_get_bit(value, 31) {
                            0xFFFF_FFFF
                        } else {
                            0
                        },
                        spec_get_bit(value, 31),
                    )
                } else {
                    (
                        if spec_get_bit(value, 31) {
                            !((!value) >> amount)
                        } else {
                            value >> amount
                        },
                        spec_get_bit(value, (amount - 1) as u8),
                    )
                }
            },
            ShiftKind::ROR => {
                if amount == 0 {
                    (
                        (value >> 1) | (if carry_in {
                            0x8000_0000u32
                        } else {
                            0
                        }),
                        spec_get_bit(value, 0),
                    )
                } else {
                    (
                        spec_rotate_right(value, amount),
                        spec_get_bit(spec_rotate_right(value, amount), 31),
                    )
                }
            },
        }
    }
}

#[verifier::when_used_as_spec(spec_barrel_shift)]
pub fn barrel_shift(kind: ShiftKind, amount: u32, immediate: bool, value: u32, carry_in: bool) -> (r:
    (u32, bool))
    ensures
        r == spec_barrel_shift(kind, amount, immediate, value, carry_in),
{
    reveal(spec_barrel_shift);
    if !immediate && amount == 0 {
        return (value, carry_in);
    }
    match kind {
        ShiftKind::LSL => {
            if amount == 0 {
                (value, carry_in)
            } else if amount < 32 {
                (value << amount, get_bit(value, (32 - amount) as u8))
            } else if amount == 32 {
                (0, get_bit(value, 0))
            } else {
                (0, false)
            }
        },
        ShiftKind::LSR => {
            if amount == 0 || amount == 32 {
                (0, get_bit(value, 31))
            } else if amount < 32 {
                (value >> amount, get_bit(value, (amount - 1) as u8))
            } else {
                (0, false)
            }
        },
        ShiftKind::ASR => {
            if amount == 0 || amount >= 32 {
                let sign = get_bit(value, 31);
                (
                    if sign {
                        0xFFFF_FFFF
                    } else {
                        0
                    },
                    sign,
                )
            } else {
                (
                    if get_bit(value, 31) {
                        !((!value) >> amount)
                    } else {
                        value >> amount
                    },
                    get_bit(value, (amount - 1) as u8),
                )
            }
        },
        ShiftKind::ROR => {
            if amount == 0 {
                (
                    (value >> 1) | (if carry_in {
                        0x8000_0000u32
                    } else {
                        0
                    }),
                    get_bit(value, 0),
                )
            } else {
                let result = rotate_right(value, amount);
                (result, get_bit(result, 31))
            }
        },
    }
}

/// What is wrong with a shift specifier, if anything: bits 3 and 0 both set
/// name no shift, and R15 cannot supply the amount.
pub open spec fn spec_shift_error(shift: u32) -> Option<CpuError> {
    if spec_get_bit(shift, 0) {
        if spec_get_bit(shift, 3) {
            Some(CpuError::InvalidInstruction)
        } else if spec_get_nibble(shift, 4) == 15 {
            Some(CpuError::IllegalRegisterUse)
        } else {
            None
        }
    } else {
        None
    }
}

#[verifier::when_used_as_spec(spec_shift_error)]
pub fn shift_error(shift: u32) -> (r: Option<CpuError>)
    ensures
        r == spec_shift_error(shift),
{
    if get_bit(shift, 0) {
        if get_bit(shift, 3) {
            Some(CpuError::InvalidInstruction)
        } else if get_nibble(shift, 4) == 15 {
            Some(CpuError::IllegalRegisterUse)
        } else {
            None
        }
    } else {
        None
    }
}

/// Whether the amount is an immediate, and the amount: bits 7..3 of the
/// specifier, or the low byte of the register that bits 7..4 name.
pub open spec fn spec_get_shift_amount(cpu: &CPU, shift: u32) -> (bool, u32) {
    if spec_get_bit(shift, 0) {
        (false, cpu.spec_get_reg(spec_get_nibble(shift, 4) as usize) & 0xFF)
    } else {
        (true, (shift >> 3) & 0b11111)
    }
}

/// Parse the shift bits (4 - 11) and return whether the shift amount was an
/// immediate, and the actual shift amount
#[verifier::when_used_as_spec(spec_get_shift_amount)]
pub fn get_shift_amount(cpu: &CPU, shift: u32) -> (r: (bool, u32))
    requires
        spec_shift_error(shift) is None,
        cpu.cpsr.mode != CPUMode::INVALID,
    ensures
        r == spec_get_shift_amount(cpu, shift),
{
    if get_bit(shift, 0) {
        let rs = get_nibble(shift, 4);
        (false, cpu.get_reg(rs as usize) & 0xFF)
    } else {
        (true, (shift >> 3) & 0b11111)
    }
}

/// The shifted value and the carry that the shifter puts out for a shift
/// specifier, which looks like
///  7 .. 3 | 2 .. 1 | 0                    7 .. 4 | 3 | 2 .. 1 | 0
///  --------------------        OR         ------------------------
///   val   | type   | 0                      reg  | 0 | type   | 1
pub open spec fn spec_apply_shift(cpu: &CPU, shift: u32, val: u32) -> (u32, bool) {
    spec_barrel_shift(
        spec_shift_kind(shift),
        spec_get_shift_amount(cpu, shift).1,
        spec_get_shift_amount(cpu, shift).0,
        val,
        cpu.cpsr.carry,
    )
}

/// Applies a either an instruction specified or a register specified shift to
/// the provided value. The resulting val and the carry bit (which may be used
/// to set the carry flag for logical operations) are returned
#[verifier::when_used_as_spec(spec_apply_shift)]
pub fn apply_shift(cpu: &CPU, shift: u32, val: u32) -> (r: (u32, bool))
    requires
        spec_shift_error(shift) is None,
        cpu.cpsr.mode != CPUMode::INVALID,
    ensures
        r == spec_apply_shift(cpu, shift, val),
{
    let (is_shift_immediate, shift_amount) = get_shift_amount(cpu, shift);
    barrel_shift(shift_kind(shift), shift_amount, is_shift_immediate, val, cpu.cpsr.carry)
}

/// The two's complement reading of a word.
pub open spec fn signed(x: u32) -> int {
    if x >= 0x8000_0000 {
        x - 0x1_0000_0000
    } else {
        x as int
    }
}

/// The sum of two words and a carry: the low 32 bits, whether the unsigned
/// sum left the 32 bit range, and whether the signed sum did.
pub open spec fn spec_add_with_carry(op1: u32, op2: u32, carry: bool) -> (u32, bool, Option<bool>) {
    let c: int = if carry {
        1
    } else {
        0
    };
    let sum = op1 + op2 + c;
    let signed_sum = signed(op1) + signed(op2) + c;
    (
        (sum % 0x1_0000_0000) as u32,
        sum >= 0x1_0000_0000,
        Some(signed_sum < -0x8000_0000 || signed_sum > 0x7FFF_FFFF),
    )
}

/// Return the sum, carry, and overflow of the two operands
#[verifier::when_used_as_spec(spec_add_with_carry)]
pub fn add_with_carry(op1: u32, op2: u32, carry: bool) -> (r: (u32, bool, Option<bool>))
    ensures
        r == spec_add_with_carry(op1, op2, carry),
{
    let c: i64 = if carry {
        1
    } else {
        0
    };
    let sum: i64 = op1 as i64 + op2 as i64 + c;
    let s1: i64 = if op1 >= 0x8000_0000 {
        op1 as i64 - 0x1_0000_0000
    } else {
        op1 as i64
    };
    let s2: i64 = if op2 >= 0x8000_0000 {
        op2 as i64 - 0x1_0000_0000
    } else {
        op2 as i64
    };
    let signed_sum: i64 = s1 + s2 + c;
    (
        (sum % 0x1_0000_0000) as u32,
        sum >= 0x1_0000_0000,
        Some(signed_sum < -0x8000_0000 || signed_sum > 0x7FFF_FFFF),
    )
}

/// Subtraction is addition of the complement: with the carry set it gives
/// `op1 - op2`, with the carry clear one less.
pub open spec fn spec_sub_with_carry(op1: u32, op2: u32, carry: bool) -> (u32, bool, Option<bool>) {
    spec_add_with_carry(op1, (0xFFFF_FFFF - op2) as u32, carry)
}

/// Return the difference, carry, and overflow of the two operands
#[verifier::when_used_as_spec(spec_sub_with_carry)]
pub fn sub_with_carry(op1: u32, op2: u32, carry: bool) -> (r: (u32, bool, Option<bool>))
    ensures
        r == spec_sub_with_carry(op1, op2, carry),
{
    add_with_carry(op1, 0xFFFF_FFFF - op2, carry)
}

/// The result of an operation, the carry it puts out and, for the
/// arithmetic operations, whether it overflowed. The logical operations
/// pass the carry of the shifter on and say nothing of overflow.
#[verifier::opaque]
pub open spec fn spec_alu(op: Op, op1: u32, op2: u32, carry_in: bool, shift_carry: bool) -> (
    u32,
    bool,
    Option<bool>,
) {
    match op {
        Op::AND | Op::TST => (op1 & op2, shift_carry, None),
        Op::EOR | Op::TEQ => (op1 ^ op2, shift_carry, None),
        Op::SUB | Op::CMP => spec_sub_with_carry(op1, op2, true),
        Op::RSB => spec_sub_with_carry(op2, op1, true),
        Op::ADD | Op::CMN => spec_add_with_carry(op1, op2, false),
        Op::ADC => spec_add_with_carry(op1, op2, carry_in),
        Op::SBC => spec_sub_with_carry(op1, op2, carry_in),
        Op::RSC => spec_sub_with_carry(op2, op1, carry_in),
        Op::ORR => (op1 | op2, shift_carry, None),
        Op::MOV => (op2, shift_carry, None),
        Op::BIC => (op1 & (!op2), shift_carry, None),
        Op::MVN => (!op2, shift_carry, None),
    }
}

#[verifier::when_used_as_spec(spec_alu)]
pub fn alu(op: Op, op1: u32, op2: u32, carry_in: bool, shift_carry: bool) -> (r: (
    u32,
    bool,
    Option<bool>,
))
    ensures
        r == spec_alu(op, op1, op2, carry_in, shift_carry),
{
    reveal(spec_alu);
    match op {
        Op::AND | Op::TST => (op1 & op2, shift_carry, None),
        Op::EOR | Op::TEQ => (op1 ^ op2, shift_carry, None),
        Op::SUB | Op::CMP => sub_with_carry(op1, op2, true),
        Op::RSB => sub_with_carry(op2, op1, true),
        Op::ADD | Op::CMN => add_with_carry(op1, op2, false),
        Op::ADC => add_with_carry(op1, op2, carry_in),
        Op::SBC => sub_with_carry(op1, op2, carry_in),
        Op::RSC => sub_with_carry(op2, op1, carry_in),
        Op::ORR => (op1 | op2, shift_carry, None),
        Op::MOV => (op2, shift_carry, None),
        Op::BIC => (op1 & (!op2), shift_carry, None),
        Op::MVN => (!op2, shift_carry, None),
    }
}

#[derive(Clone, Copy, Debug, PartialEq, Eq, Structural)]
pub struct DataProc {
    pub opcode: Op,
    pub set_flags: bool,
    pub rn: usize,
    pub rd: usize,
    pub op2: RegOrImm,
}

impl DataProc {
    /// parses the following format:
    /// 27 .. 26 | 25 | 24 .. 21 | 20 | 19 .. 16 | 15 .. 12 | 11 .. 0
    ///    00    | I  |   opcode | S  |    Rn    |    Rd    |    op2
    pub open spec fn spec_parse_instruction(ins: u32) -> DataProc {
        DataProc {
            rd: spec_get_nibble(ins, 12) as usize,
            rn: spec_get_nibble(ins, 16) as usize,
            set_flags: spec_get_bit(ins, 20),
            opcode: Op::spec_of_field(spec_get_nibble(ins, 21)),
            op2: if spec_get_bit(ins, 25) {
                RegOrImm::Imm { rotate: spec_get_nibble(ins, 8), value: spec_get_byte(ins, 0) }
            } else {
                RegOrImm::Reg { shift: spec_get_byte(ins, 4), reg: spec_get_nibble(ins, 0) }
            },
        }
    }

    #[verifier::when_used_as_spec(spec_parse_instruction)]
    pub fn parse_instruction(ins: u32) -> (r: DataProc)
        ensures
            r == DataProc::spec_parse_instruction(ins),
            r.rd < 16,
            r.rn < 16,
    {
        let is_imm = get_bit(ins, 25);
        DataProc {
            rd: get_nibble(ins, 12) as usize,
            rn: get_nibble(ins, 16) as usize,
            set_flags: get_bit(ins, 20),
            opcode: Op::of_field(get_nibble(ins, 21)),
            op2: if is_imm {
                RegOrImm::Imm { rotate: get_nibble(ins, 8), value: get_byte(ins, 0) }
            } else {
                RegOrImm::Reg { shift: get_byte(ins, 4), reg: get_nibble(ins, 0) }
            },
        }
    }

    /// Why the instruction cannot run on `cpu`, if it cannot.
    pub open spec fn spec_check(&self, cpu: &CPU) -> Option<CpuError> {
        if cpu.cpsr.mode == CPUMode::INVALID {
            Some(CpuError::InvalidMode)
        } else if self.rn >= 16 || self.rd >= 16 {
            Some(CpuError::IllegalRegisterUse)
        } else if !self.set_flags && !self.opcode.spec_writes_result() {
            // a compare that sets no flags is a status register transfer
            Some(CpuError::InvalidInstruction)
        } else if self.rd == 15 && self.set_flags && cpu.cpsr.mode == CPUMode::USR {
            Some(CpuError::InvalidMode)
        } else {
            match self.op2 {
                RegOrImm::Imm { rotate, value } => None,
                RegOrImm::Reg { shift, reg } => if reg >= 16 {
                    Some(CpuError::IllegalRegisterUse)
                } else {
                    spec_shift_error(shift)
                },
            }
        }
    }

    pub fn check(&self, cpu: &CPU) -> (r: Option<CpuError>)
        ensures
            r == self.spec_check(cpu),
    {
        if cpu.cpsr.mode == CPUMode::INVALID {
            Some(CpuError::InvalidMode)
        } else if self.rn >= 16 || self.rd >= 16 {
            Some(CpuError::IllegalRegisterUse)
        } else if !self.set_flags && !self.opcode.writes_result() {
            Some(CpuError::InvalidInstruction)
        } else if self.rd == 15 && self.set_flags && cpu.cpsr.mode == CPUMode::USR {
            Some(CpuError::InvalidMode)
        } else {
            match self.op2 {
                RegOrImm::Imm { rotate, value } => None,
                RegOrImm::Reg { shift, reg } => if reg >= 16 {
                    Some(CpuError::IllegalRegisterUse)
                } else {
                    shift_error(shift)
                },
            }
        }
    }

    /// The first operand: Rn, with bit 1 cleared when it is the program
    /// counter in THUMB state, and 4 more when it is the program counter
    /// and the second operand is shifted by a register.
    #[verifier::opaque]
    pub open spec fn spec_first_operand(&self, cpu: &CPU) -> u32 {
        let rn = cpu.spec_get_reg(self.rn);
        let aligned = if cpu.cpsr.isa == InstructionSet::THUMB && self.rn == 15 {
            rn & !2u32
        } else {
            rn
        };
        match self.op2 {
            RegOrImm::Reg { shift, reg } => if self.rn == 15 && spec_get_bit(shift, 0) {
                aligned.wrapping_add(4)
            } else {
                aligned
            },
            RegOrImm::Imm { rotate, value } => aligned,
        }
    }

    #[verifier::when_used_as_spec(spec_first_operand)]
    pub fn first_operand(&self, cpu: &CPU) -> (r: u32)
        requires
            self.rn < 16,
            cpu.cpsr.mode != CPUMode::INVALID,
        ensures
            r == self.spec_first_operand(cpu),
    {
        reveal(DataProc::spec_first_operand);
        let mut op1 = cpu.get_reg(self.rn);
        if cpu.cpsr.isa == InstructionSet::THUMB && self.rn == 15 {
            op1 = op1 & !2u32;
        }
        match self.op2 {
            RegOrImm::Reg { shift, reg } => {
                // when R15 is used as an operand and a register is used to specify
                // the shift amount, the PC will be 12 bytes ahead instead of 8
                if self.rn == 15 && get_bit(shift, 0) {
                    op1 = op1.wrapping_add(4);
                }
            },
            RegOrImm::Imm { rotate, value } => {},
        }
        op1
    }

    /// The second operand and the carry of the shifter. An immediate is
    /// rotated right by twice its rotate field; the carry is the carry flag
    /// when the field is 0 and bit 31 of the operand otherwise. A register
    /// goes through the barrel shifter, read 4 higher when it is the
    /// program counter and the amount comes from a register.
    #[verifier::opaque]
    pub open spec fn spec_second_operand(&self, cpu: &CPU) -> (u32, bool) {
        match self.op2 {
            RegOrImm::Imm { rotate, value } => {
                let result = spec_rotate_right(value, rotate.wrapping_mul(2));
                (
                    result,
                    if rotate == 0 {
                        cpu.cpsr.carry
                    } else {
                        spec_get_bit(result, 31)
                    },
                )
            },
            RegOrImm::Reg { shift, reg } => {
                let rm = cpu.spec_get_reg(reg as usize);
                spec_apply_shift(
                    cpu,
                    shift,
                    if reg == 15 && spec_get_bit(shift, 0) {
                        rm.wrapping_add(4)
                    } else {
                        rm
                    },
                )
            },
        }
    }

    #[verifier::when_used_as_spec(spec_second_operand)]
    pub fn second_operand(&self, cpu: &CPU) -> (r: (u32, bool))
        requires
            cpu.cpsr.mode != CPUMode::INVALID,
            match self.op2 {
                RegOrImm::Imm { rotate, value } => true,
                RegOrImm::Reg { shift, reg } => reg < 16 && spec_shift_error(shift) is None,
            },
        ensures
            r == self.spec_second_operand(cpu),
    {
        reveal(DataProc::spec_second_operand);
        match self.op2 {
            RegOrImm::Imm { rotate, value } => {
                let result = rotate_right(value, rotate.wrapping_mul(2));
                // rotate 0 <=> LSL 0 which should preserve the carry flag
                let carry_out = if rotate == 0 {
                    cpu.cpsr.carry
                } else {
                    get_bit(result, 31)
                };
                (result, carry_out)
            },
            RegOrImm::Reg { shift, reg } => {
                let mut rm_val = cpu.get_reg(reg as usize);
                if reg == 15 && get_bit(shift, 0) {
                    rm_val = rm_val.wrapping_add(4);
                }
                apply_shift(cpu, shift, rm_val)
            },
        }
    }

    /// The processor after the outcome of the operation is committed: the
    /// result is written to Rd unless the operation only compares; the
    /// flags are set from the result if S is set or the operation only
    /// compares; with S set and R15 as destination the saved status
    /// register is restored; and with R15 as destination the pipeline is
    /// to be flushed.
    #[verifier::opaque]
    pub open spec fn spec_commit(
        &self,
        cpu: CPU,
        result: u32,
        carry: bool,
        overflow: Option<bool>,
    ) -> CPU {
        let written = if self.opcode.spec_writes_result() {
            cpu.spec_set_reg(self.rd, result)
        } else {
            cpu
        };
        let flagged = if self.set_flags || !self.opcode.spec_writes_result() {
            written.spec_set_flags(result == 0, spec_get_bit(result, 31), carry, overflow)
        } else {
            written
        };
        let restored = if self.rd == 15 && self.set_flags {
            flagged.spec_restore_cpsr()
        } else {
            flagged
        };
        if self.rd == 15 {
            restored.spec_request_flush()
        } else {
            restored
        }
    }

    pub fn commit(&self, cpu: &mut CPU, result: u32, carry: bool, overflow: Option<bool>)
        requires
            self.rd < 16,
            old(cpu).cpsr.mode != CPUMode::INVALID,
            self.rd == 15 && self.set_flags ==> old(cpu).cpsr.mode != CPUMode::USR,
        ensures
            *final(cpu) == self.spec_commit(*old(cpu), result, carry, overflow),
            old(cpu).mem.registers_agree() ==> final(cpu).mem.registers_agree(),
            old(cpu).status_wf() ==> final(cpu).status_wf(),
    {
        reveal(DataProc::spec_commit);
        let should_write = self.opcode.writes_result();
        if should_write {
            cpu.set_reg(self.rd, result);
        }
        if self.set_flags || !should_write {
            cpu.set_flags(result == 0, get_bit(result, 31), carry, overflow);
        }
        if self.rd == 15 && self.set_flags {
            cpu.restore_cpsr();
        }
        if self.rd == 15 {
            cpu.request_flush();
        }
    }

    /// The processor after the instruction ran: both operands are
    /// evaluated, the operation is applied to them, and its outcome is
    /// committed.
    pub open spec fn spec_run(&self, cpu: CPU) -> CPU {
        let op2 = self.spec_second_operand(&cpu);
        let out = spec_alu(self.opcode, self.spec_first_operand(&cpu), op2.0, cpu.cpsr.carry, op2.1);
        self.spec_commit(cpu, out.0, out.1, out.2)
    }

    /// The cycles the instruction takes: the fetch, one more where the
    /// second operand is a register, and the refill of the pipeline from
    /// the new program counter where R15 is the destination.
    pub open spec fn spec_cycles(&self, cpu: CPU) -> u32 {
        let fetch = cpu.mem.spec_access_time(cpu.spec_get_reg(15), false);
        let shift: u32 = if self.op2 is Reg {
            1
        } else {
            0
        };
        let after = self.spec_run(cpu);
        let refill = if self.rd == 15 {
            after.mem.spec_access_time(after.r[15], true) + after.mem.spec_access_time(
                after.r[15].wrapping_add(4),
                false,
            )
        } else {
            0
        };
        (fetch + shift + refill) as u32
    }

    pub fn run(&self, cpu: &mut CPU) -> (r: Result<u32, CpuError>)
        ensures
            match r {
                Ok(cycles) => self.spec_check(old(cpu)) is None && *final(cpu) == self.spec_run(
                    *old(cpu),
                ) && cycles == self.spec_cycles(*old(cpu)),
                Err(e) => self.spec_check(old(cpu)) == Some(e) && *final(cpu) == *old(cpu),
            },
            old(cpu).mem.registers_agree() ==> final(cpu).mem.registers_agree(),
            old(cpu).status_wf() ==> final(cpu).status_wf(),
    {
        match self.check(cpu) {
            Some(e) => {
                return Err(e);
            },
            None => {},
        }
        let op1 = self.first_operand(cpu);
        let (op2, shift_carry) = self.second_operand(cpu);
        let (result, carry_out, overflow) = alu(
            self.opcode,
            op1,
            op2,
            cpu.cpsr.carry,
            shift_carry,
        );
        let old_pc = cpu.get_reg(15);  // save PC in case we overwrite it here
        let mut cycles = cpu.mem.access_time(old_pc, false);
        self.commit(cpu, result, carry_out, overflow);
        match self.op2 {
            RegOrImm::Reg { shift, reg } => {
                cycles += 1;
            },
            _ => {},
        }
        if self.rd == 15 {
            cycles += cpu.mem.access_time(cpu.r[15], true) + cpu.mem.access_time(
                cpu.r[15].wrapping_add(4),
                false,
            );
        }
        Ok(cycles)
    }
}

impl DataProc {
    /// A data operation with R15 as destination asks for a pipeline flush.
    pub proof fn lemma_pc_destination_flushes(&self, cpu: CPU)
        requires
            self.rd == 15,
        ensures
            self.spec_run(cpu).should_flush,
    {
        reveal(DataProc::spec_commit);
        reveal(CPU::spec_request_flush);
    }
}

} // verus!
