//! The instructions of the ARM instruction set, one module per format.

pub mod block_trans;
pub mod branch;
pub mod branch_ex;
pub mod data;
pub mod mul;
pub mod mul_long;
pub mod psr;
pub mod signed_trans;
pub mod single_trans;
pub mod swap;
pub mod swi;

use vstd::prelude::*;

verus! {

/// A second operand or an offset: an immediate with its rotation, or a
/// register with the shift that is applied to it.
#[derive(Clone, Copy, Debug, PartialEq, Eq, Structural)]
pub enum RegOrImm {
    Imm { rotate: u32, value: u32 },
    Reg { shift: u32, reg: u32 },
}

} // verus!
