//! The host's part in floating-point instructions.
//!
//! The interpreter does not compute in floating point. It finds the
//! operands of such an instruction on the stack, hands their bits to the
//! host, and puts the bits of the host's result where the instruction's
//! result belongs. A layout says, for each instruction, where that is.

use crate::instruction::FloatOp;
use vstd::prelude::*;

verus! {

/// The operands of a floating-point instruction, as bit patterns. A
/// single-precision operand is in the low 32 bits.
#[derive(Clone, Copy, Debug, PartialEq, Eq, Structural)]
pub struct FloatRequest {
    pub op: FloatOp,
    /// The operand on top of the stack, or the cell that the top points to.
    pub first: u64,
    /// The operand below it, or the instruction's own operand; zero where
    /// the instruction has one operand only.
    pub second: u64,
}

/// Where a floating-point instruction finds its operands and leaves its
/// result.
#[derive(Clone, Copy, Debug, PartialEq, Eq, Structural)]
pub struct Layout {
    /// The width of each operand in bytes, 4 or 8.
    pub operand_width: usize,
    /// Two operands lie on the stack, one on top of the other; otherwise one.
    pub binary: bool,
    /// The width of the result in bytes, 4 or 8.
    pub result_width: usize,
    /// The top slot holds the address of the operand, and the result goes to
    /// that address; otherwise the result takes the operands' place.
    pub indirect: bool,
    /// The second operand is the instruction's own.
    pub immediate: bool,
    /// The first operand is a divisor.
    pub divides: bool,
}

impl Layout {
    pub open spec fn plain(operand_width: usize, binary: bool, result_width: usize) -> Layout {
        Layout {
            operand_width,
            binary,
            result_width,
            indirect: false,
            immediate: false,
            divides: false,
        }
    }

    /// The number of bytes that the operands take on the stack.
    pub open spec fn span(self) -> int {
        if self.binary {
            2 * self.operand_width
        } else {
            self.operand_width as int
        }
    }

    /// The layout of each floating-point instruction.
    pub open spec fn of(op: FloatOp) -> Layout {
        match op {
            FloatOp::FromInt | FloatOp::Neg | FloatOp::ToInt | FloatOp::FromUnsigned
            | FloatOp::ToUnsigned => Self::plain(4, false, 4),
            FloatOp::Add | FloatOp::Sub | FloatOp::Mul | FloatOp::Compare => Self::plain(4, true, 4),
            FloatOp::Div | FloatOp::Rem => Layout { divides: true, ..Self::plain(4, true, 4) },
            FloatOp::Inc | FloatOp::Dec => Layout { indirect: true, ..Self::plain(4, false, 4) },
            FloatOp::CompareImm | FloatOp::AddImm | FloatOp::SubImm | FloatOp::MulImm => Layout {
                immediate: true,
                ..Self::plain(4, false, 4)
            },
            FloatOp::NegDouble => Self::plain(8, false, 8),
            FloatOp::IncDouble | FloatOp::DecDouble => Layout {
                indirect: true,
                ..Self::plain(8, false, 8)
            },
            FloatOp::AddDouble | FloatOp::SubDouble | FloatOp::MulDouble => Self::plain(8, true, 8),
            FloatOp::DivDouble | FloatOp::RemDouble => Layout {
                divides: true,
                ..Self::plain(8, true, 8)
            },
            FloatOp::CompareDouble => Self::plain(8, true, 4),
            FloatOp::DoubleToInt | FloatOp::DoubleToUnsigned | FloatOp::DoubleToFloat => Self::plain(8, false, 4),
            FloatOp::IntToDouble | FloatOp::UnsignedToDouble | FloatOp::FloatToDouble => Self::plain(4, false, 8),
        }
    }

    fn make(operand_width: usize, binary: bool, result_width: usize) -> (l: Layout)
        ensures
            l == Self::plain(operand_width, binary, result_width),
    {
        Layout {
            operand_width,
            binary,
            result_width,
            indirect: false,
            immediate: false,
            divides: false,
        }
    }

    /// The layout of `op`.
    pub fn for_op(op: FloatOp) -> (l: Layout)
        ensures
            l == Self::of(op),
            l.operand_width == 4 || l.operand_width == 8,
            l.result_width == 4 || l.result_width == 8,
            l.indirect ==> l.result_width == l.operand_width && !l.binary,
    {
        match op {
            FloatOp::FromInt | FloatOp::Neg | FloatOp::ToInt | FloatOp::FromUnsigned
            | FloatOp::ToUnsigned => Self::make(4, false, 4),
            FloatOp::Add | FloatOp::Sub | FloatOp::Mul | FloatOp::Compare => Self::make(4, true, 4),
            FloatOp::Div | FloatOp::Rem => {
                let mut l = Self::make(4, true, 4);
                l.divides = true;
                l
            },
            FloatOp::Inc | FloatOp::Dec => {
                let mut l = Self::make(4, false, 4);
                l.indirect = true;
                l
            },
            FloatOp::CompareImm | FloatOp::AddImm | FloatOp::SubImm | FloatOp::MulImm => {
                let mut l = Self::make(4, false, 4);
                l.immediate = true;
                l
            },
            FloatOp::NegDouble => Self::make(8, false, 8),
            FloatOp::IncDouble | FloatOp::DecDouble => {
                let mut l = Self::make(8, false, 8);
                l.indirect = true;
                l
            },
            FloatOp::AddDouble | FloatOp::SubDouble | FloatOp::MulDouble => Self::make(8, true, 8),
            FloatOp::DivDouble | FloatOp::RemDouble => {
                let mut l = Self::make(8, true, 8);
                l.divides = true;
                l
            },
            FloatOp::CompareDouble => Self::make(8, true, 4),
            FloatOp::DoubleToInt | FloatOp::DoubleToUnsigned | FloatOp::DoubleToFloat => Self::make(8, false, 4),
            FloatOp::IntToDouble | FloatOp::UnsignedToDouble | FloatOp::FloatToDouble => Self::make(4, false, 8),
        }
    }
}

} // verus!
