//! The instruction set and its wire format.
//!
//! An instruction is one opcode byte in a slot of four bytes, followed at
//! once by its operand, if it has one, in little-endian order. The opcode
//! numbers are those of the compiler that wrote the bytecode.

use crate::arith::{BinaryOp, Condition, UnaryOp, Width};
use crate::bytes::{le_u16, le_u32, le_u64, read_i32, read_u16, read_u32, read_u64, signed32};
use crate::fault::Fault;
use vstd::prelude::*;
use vstd::slice::slice_subrange;

verus! {

/// The last opcode number that the instruction set assigns.
pub const LAST_OPCODE: u8 = 122;

/// The size of the slot that holds the opcode byte.
pub const OPCODE_SLOT: usize = 4;

/// The floating-point instructions. The interpreter moves their operands
/// and results as bit patterns; the host does the arithmetic.
#[derive(Clone, Copy, Debug, PartialEq, Eq, Structural)]
pub enum FloatOp {
    /// 32: signed integer to single precision.
    FromInt,
    /// 33 to 35: `b op a` in single precision.
    Add,
    Sub,
    Mul,
    /// 36 and 37: `b / a` and `b % a` in single precision.
    Div,
    Rem,
    /// 38: negation in single precision.
    Neg,
    /// 39: three-way comparison in single precision.
    Compare,
    /// 40 and 41: the single-precision cell that the top slot points to,
    /// plus and minus one.
    Inc,
    Dec,
    /// 42: single precision to signed integer.
    ToInt,
    /// 50 and 51: unsigned integer to single precision and back.
    FromUnsigned,
    ToUnsigned,
    /// 69 to 71: negation, increment and decrement in double precision.
    NegDouble,
    IncDouble,
    DecDouble,
    /// 72 to 76: `b op a` in double precision.
    AddDouble,
    SubDouble,
    MulDouble,
    DivDouble,
    RemDouble,
    /// 78: three-way comparison in double precision.
    CompareDouble,
    /// 79 to 81: double precision to signed integer, to unsigned integer
    /// and to single precision.
    DoubleToInt,
    DoubleToUnsigned,
    DoubleToFloat,
    /// 82 to 84: signed integer, unsigned integer and single precision to
    /// double precision.
    IntToDouble,
    UnsignedToDouble,
    FloatToDouble,
    /// 103: three-way comparison of the operand with the top slot.
    CompareImm,
    /// 104, 105 and 107: the top slot plus, minus and times the operand.
    AddImm,
    SubImm,
    MulImm,
}

/// A decoded instruction with its operand.
#[derive(Clone, Copy, Debug, PartialEq, Eq, Structural)]
pub enum Instruction {
    /// 0: frees that many bytes of stack.
    Pop(u16),
    /// 1: claims that many bytes of stack.
    Push(u16),
    /// 2: pushes a 32-bit literal.
    Set4(u32),
    /// 3: replaces the address on top by the 32-bit value it points to.
    Rd4,
    /// 4: pushes the 32-bit value of a frame slot.
    Rdsf4(u16),
    /// 5: pops an address and stores the value below it there.
    Wrt4,
    /// 6: as `Wrt4`, and pops the value too.
    Mov4,
    /// 7: pushes the address of a frame slot.
    Psf(u16),
    /// 8: rewrites a frame slot in place and pops one slot.
    Movsf4(u16),
    /// 9: exchanges the two 32-bit values on top.
    Swap4,
    /// 10: pops into the accumulator.
    Store4,
    /// 11: pushes the accumulator.
    Recall4,
    /// 12 and 98: calls a function of the module.
    Call(u32),
    /// 13: returns, discarding that many bytes of arguments.
    Ret(u16),
    /// 14: jumps by the offset.
    Jmp(i32),
    /// 15 and 16: pops a value and jumps where it is zero, or not zero.
    Jz(i32),
    Jnz(i32),
    /// 17 to 22 (tests), 28, 43, 53 to 56: replaces the top slot.
    Unary(UnaryOp),
    /// 23 to 25, 29, 44 to 49, 52, 57, 58: replaces the two top slots.
    Binary(BinaryOp),
    /// 26: signed division of the two top slots.
    Div,
    /// 27: signed remainder of the two top slots.
    Rem,
    /// 30, 59, 60: adds one to the cell that the top slot points to.
    Inc(Width),
    /// 31, 61, 62: subtracts one from the cell that the top slot points to.
    Dec(Width),
    /// 63: pushes a 32-bit zero.
    PushZero,
    /// 64: copies that many bytes between two stack addresses.
    Copy(u16),
    /// 65: pushes the value of a global.
    Pga(i32),
    /// 66: pushes a 64-bit literal.
    Set8(u64),
    /// 67: pops an address and stores the 64-bit value below it there.
    Wrt8,
    /// 68: replaces the address on top by the 64-bit value it points to.
    Rd8,
    /// 77: exchanges the two 64-bit values on top.
    Swap8,
    /// 85: pops an index and jumps by eight times the index.
    Jmpp,
    /// 86 and 87: pops 32 or 64 bits into the return registers.
    Sret4,
    Sret8,
    /// 88 and 89: pushes 32 or 64 bits from the return registers.
    Rret4,
    Rret8,
    /// 90: pushes the index and the length of a string constant.
    Str(u16),
    /// 91 to 94: pops a value and jumps where the condition holds of it.
    Branch(Condition, i32),
    /// 95: compares the signed operand with the top slot.
    CompareImmSigned(i32),
    /// 96: compares the unsigned operand with the top slot.
    CompareImmUnsigned(u32),
    /// 97: calls a host function.
    CallSys(i32),
    /// 100: pops a value into a global.
    Movga4(i32),
    /// 101, 102 and 106: the top slot plus, minus and times the operand.
    AddImm(i32),
    SubImm(i32),
    MulImm(i32),
    /// 108: yields to the host.
    Suspend,
    /// A floating-point instruction with the bits of its operand, zero for
    /// those that have none.
    Float(FloatOp, u32),
    /// 99 and 109 to 122: assigned, and not carried out.
    Unimplemented(u8),
}

/// What follows an opcode's slot.
#[derive(Clone, Copy, Debug, PartialEq, Eq, Structural)]
pub enum OperandKind {
    Nothing,
    Unsigned16,
    Unsigned32,
    Signed32,
    Unsigned64,
}

/// The kind of operand that each opcode takes.
pub open spec fn operand_kind(op: u8) -> OperandKind {
    if op == 0 || op == 1 || op == 4 || op == 7 || op == 8 || op == 13 || op == 64 || op == 90 {
        OperandKind::Unsigned16
    } else if op == 2 || op == 12 || op == 96 || op == 98 || op == 103 || op == 104 || op == 105
        || op == 107 {
        OperandKind::Unsigned32
    } else if op == 14 || op == 15 || op == 16 || op == 65 || (91 <= op <= 95) || op == 97 || op
        == 100 || op == 101 || op == 102 || op == 106 {
        OperandKind::Signed32
    } else if op == 66 {
        OperandKind::Unsigned64
    } else {
        OperandKind::Nothing
    }
}

/// The instruction of an opcode that takes no operand; `None` above the last
/// assigned number.
pub open spec fn plain(op: u8) -> Option<Instruction> {
    if op == 3 {
        Some(Instruction::Rd4)
    } else if op == 5 {
        Some(Instruction::Wrt4)
    } else if op == 6 {
        Some(Instruction::Mov4)
    } else if op == 9 {
        Some(Instruction::Swap4)
    } else if op == 10 {
        Some(Instruction::Store4)
    } else if op == 11 {
        Some(Instruction::Recall4)
    } else if op == 17 {
        Some(Instruction::Unary(UnaryOp::Test(Condition::Zero)))
    } else if op == 18 {
        Some(Instruction::Unary(UnaryOp::Test(Condition::NonZero)))
    } else if op == 19 {
        Some(Instruction::Unary(UnaryOp::Test(Condition::Negative)))
    } else if op == 20 {
        Some(Instruction::Unary(UnaryOp::Test(Condition::NonNegative)))
    } else if op == 21 {
        Some(Instruction::Unary(UnaryOp::Test(Condition::Positive)))
    } else if op == 22 {
        Some(Instruction::Unary(UnaryOp::Test(Condition::NonPositive)))
    } else if op == 23 {
        Some(Instruction::Binary(BinaryOp::Add))
    } else if op == 24 {
        Some(Instruction::Binary(BinaryOp::Sub))
    } else if op == 25 {
        Some(Instruction::Binary(BinaryOp::Mul))
    } else if op == 26 {
        Some(Instruction::Div)
    } else if op == 27 {
        Some(Instruction::Rem)
    } else if op == 28 {
        Some(Instruction::Unary(UnaryOp::Negate))
    } else if op == 29 {
        Some(Instruction::Binary(BinaryOp::CompareSigned))
    } else if op == 30 {
        Some(Instruction::Inc(Width::Long))
    } else if op == 31 {
        Some(Instruction::Dec(Width::Long))
    } else if op == 43 {
        Some(Instruction::Unary(UnaryOp::Not))
    } else if op == 44 {
        Some(Instruction::Binary(BinaryOp::And))
    } else if op == 45 {
        Some(Instruction::Binary(BinaryOp::Or))
    } else if op == 46 {
        Some(Instruction::Binary(BinaryOp::Xor))
    } else if op == 47 {
        Some(Instruction::Binary(BinaryOp::ShiftLeft))
    } else if op == 48 {
        Some(Instruction::Binary(BinaryOp::ShiftRight))
    } else if op == 49 {
        Some(Instruction::Binary(BinaryOp::ShiftRightSigned))
    } else if op == 52 {
        Some(Instruction::Binary(BinaryOp::CompareUnsigned))
    } else if op == 53 {
        Some(Instruction::Unary(UnaryOp::SignExtendByte))
    } else if op == 54 {
        Some(Instruction::Unary(UnaryOp::SignExtendWord))
    } else if op == 55 {
        Some(Instruction::Unary(UnaryOp::ZeroExtendByte))
    } else if op == 56 {
        Some(Instruction::Unary(UnaryOp::ZeroExtendWord))
    } else if op == 57 {
        Some(Instruction::Binary(BinaryOp::SpliceByte))
    } else if op == 58 {
        Some(Instruction::Binary(BinaryOp::SpliceWord))
    } else if op == 59 {
        Some(Instruction::Inc(Width::Word))
    } else if op == 60 {
        Some(Instruction::Inc(Width::Byte))
    } else if op == 61 {
        Some(Instruction::Dec(Width::Word))
    } else if op == 62 {
        Some(Instruction::Dec(Width::Byte))
    } else if op == 63 {
        Some(Instruction::PushZero)
    } else if op == 67 {
        Some(Instruction::Wrt8)
    } else if op == 68 {
        Some(Instruction::Rd8)
    } else if op == 77 {
        Some(Instruction::Swap8)
    } else if op == 85 {
        Some(Instruction::Jmpp)
    } else if op == 86 {
        Some(Instruction::Sret4)
    } else if op == 87 {
        Some(Instruction::Sret8)
    } else if op == 88 {
        Some(Instruction::Rret4)
    } else if op == 89 {
        Some(Instruction::Rret8)
    } else if op == 108 {
        Some(Instruction::Suspend)
    } else if float_op(op) is Some {
        Some(Instruction::Float(float_op(op)->Some_0, 0))
    } else if op <= LAST_OPCODE {
        Some(Instruction::Unimplemented(op))
    } else {
        None
    }
}

/// The floating-point instruction of an opcode, if it is one.
pub open spec fn float_op(op: u8) -> Option<FloatOp> {
    if op == 32 {
        Some(FloatOp::FromInt)
    } else if op == 33 {
        Some(FloatOp::Add)
    } else if op == 34 {
        Some(FloatOp::Sub)
    } else if op == 35 {
        Some(FloatOp::Mul)
    } else if op == 36 {
        Some(FloatOp::Div)
    } else if op == 37 {
        Some(FloatOp::Rem)
    } else if op == 38 {
        Some(FloatOp::Neg)
    } else if op == 39 {
        Some(FloatOp::Compare)
    } else if op == 40 {
        Some(FloatOp::Inc)
    } else if op == 41 {
        Some(FloatOp::Dec)
    } else if op == 42 {
        Some(FloatOp::ToInt)
    } else if op == 50 {
        Some(FloatOp::FromUnsigned)
    } else if op == 51 {
        Some(FloatOp::ToUnsigned)
    } else if op == 69 {
        Some(FloatOp::NegDouble)
    } else if op == 70 {
        Some(FloatOp::IncDouble)
    } else if op == 71 {
        Some(FloatOp::DecDouble)
    } else if op == 72 {
        Some(FloatOp::AddDouble)
    } else if op == 73 {
        Some(FloatOp::SubDouble)
    } else if op == 74 {
        Some(FloatOp::MulDouble)
    } else if op == 75 {
        Some(FloatOp::DivDouble)
    } else if op == 76 {
        Some(FloatOp::RemDouble)
    } else if op == 78 {
        Some(FloatOp::CompareDouble)
    } else if op == 79 {
        Some(FloatOp::DoubleToInt)
    } else if op == 80 {
        Some(FloatOp::DoubleToUnsigned)
    } else if op == 81 {
        Some(FloatOp::DoubleToFloat)
    } else if op == 82 {
        Some(FloatOp::IntToDouble)
    } else if op == 83 {
        Some(FloatOp::UnsignedToDouble)
    } else if op == 84 {
        Some(FloatOp::FloatToDouble)
    } else if op == 103 {
        Some(FloatOp::CompareImm)
    } else if op == 104 {
        Some(FloatOp::AddImm)
    } else if op == 105 {
        Some(FloatOp::SubImm)
    } else if op == 107 {
        Some(FloatOp::MulImm)
    } else {
        None
    }
}

/// The instruction of an opcode with a 16-bit operand.
pub open spec fn with_u16(op: u8, v: u16) -> Instruction {
    if op == 0 {
        Instruction::Pop(v)
    } else if op == 1 {
        Instruction::Push(v)
    } else if op == 4 {
        Instruction::Rdsf4(v)
    } else if op == 7 {
        Instruction::Psf(v)
    } else if op == 8 {
        Instruction::Movsf4(v)
    } else if op == 13 {
        Instruction::Ret(v)
    } else if op == 64 {
        Instruction::Copy(v)
    } else {
        Instruction::Str(v)
    }
}

/// The instruction of an opcode with an unsigned 32-bit operand.
pub open spec fn with_u32(op: u8, v: u32) -> Instruction {
    if op == 2 {
        Instruction::Set4(v)
    } else if op == 12 || op == 98 {
        Instruction::Call(v)
    } else if op == 96 {
        Instruction::CompareImmUnsigned(v)
    } else if op == 103 {
        Instruction::Float(FloatOp::CompareImm, v)
    } else if op == 104 {
        Instruction::Float(FloatOp::AddImm, v)
    } else if op == 105 {
        Instruction::Float(FloatOp::SubImm, v)
    } else {
        Instruction::Float(FloatOp::MulImm, v)
    }
}

/// The instruction of an opcode with a signed 32-bit operand.
pub open spec fn with_i32(op: u8, v: i32) -> Instruction {
    if op == 14 {
        Instruction::Jmp(v)
    } else if op == 15 {
        Instruction::Jz(v)
    } else if op == 16 {
        Instruction::Jnz(v)
    } else if op == 65 {
        Instruction::Pga(v)
    } else if op == 91 {
        Instruction::Branch(Condition::NonNegative, v)
    } else if op == 92 {
        Instruction::Branch(Condition::Negative, v)
    } else if op == 93 {
        Instruction::Branch(Condition::NonPositive, v)
    } else if op == 94 {
        Instruction::Branch(Condition::Positive, v)
    } else if op == 95 {
        Instruction::CompareImmSigned(v)
    } else if op == 97 {
        Instruction::CallSys(v)
    } else if op == 100 {
        Instruction::Movga4(v)
    } else if op == 101 {
        Instruction::AddImm(v)
    } else if op == 102 {
        Instruction::SubImm(v)
    } else {
        Instruction::MulImm(v)
    }
}

/// An instruction and the offset of the one that follows it.
#[derive(Clone, Copy, Debug, PartialEq, Eq, Structural)]
pub struct Decoded {
    pub inst: Instruction,
    pub next: usize,
}

/// The instruction at `pc` in `code`.
///
/// The opcode's slot has to lie within the code, and so has the operand;
/// otherwise the code is violated. An opcode above the last assigned number
/// is unknown.
pub open spec fn decode(code: Seq<u8>, pc: int) -> Result<Decoded, Fault> {
    if !(0 <= pc && pc + OPCODE_SLOT <= code.len()) {
        Err(Fault::CodeBoundsViolation)
    } else {
        let op = code[pc];
        let at = pc + OPCODE_SLOT;
        match operand_kind(op) {
            OperandKind::Nothing => match plain(op) {
                Some(inst) => Ok(Decoded { inst, next: at as usize }),
                None => Err(Fault::UnknownOpcode(op)),
            },
            OperandKind::Unsigned16 => if at + 2 <= code.len() {
                Ok(
                    Decoded {
                        inst: with_u16(op, le_u16(code.subrange(at, at + 2))),
                        next: (at + 2) as usize,
                    },
                )
            } else {
                Err(Fault::CodeBoundsViolation)
            },
            OperandKind::Unsigned32 => if at + 4 <= code.len() {
                Ok(
                    Decoded {
                        inst: with_u32(op, le_u32(code.subrange(at, at + 4))),
                        next: (at + 4) as usize,
                    },
                )
            } else {
                Err(Fault::CodeBoundsViolation)
            },
            OperandKind::Signed32 => if at + 4 <= code.len() {
                Ok(
                    Decoded {
                        inst: with_i32(op, signed32(le_u32(code.subrange(at, at + 4)))),
                        next: (at + 4) as usize,
                    },
                )
            } else {
                Err(Fault::CodeBoundsViolation)
            },
            OperandKind::Unsigned64 => if at + 8 <= code.len() {
                Ok(
                    Decoded {
                        inst: Instruction::Set8(le_u64(code.subrange(at, at + 8))),
                        next: (at + 8) as usize,
                    },
                )
            } else {
                Err(Fault::CodeBoundsViolation)
            },
        }
    }
}

fn operand_kind_of(op: u8) -> (k: OperandKind)
    ensures
        k == operand_kind(op),
{
    match op {
        0 | 1 | 4 | 7 | 8 | 13 | 64 | 90 => OperandKind::Unsigned16,
        2 | 12 | 96 | 98 | 103 | 104 | 105 | 107 => OperandKind::Unsigned32,
        14 | 15 | 16 | 65 | 91 | 92 | 93 | 94 | 95 | 97 | 100 | 101 | 102 | 106 => OperandKind::Signed32,
        66 => OperandKind::Unsigned64,
        _ => OperandKind::Nothing,
    }
}

fn float_op_of(op: u8) -> (r: Option<FloatOp>)
    ensures
        r == float_op(op),
{
    match op {
        32 => Some(FloatOp::FromInt),
        33 => Some(FloatOp::Add),
        34 => Some(FloatOp::Sub),
        35 => Some(FloatOp::Mul),
        36 => Some(FloatOp::Div),
        37 => Some(FloatOp::Rem),
        38 => Some(FloatOp::Neg),
        39 => Some(FloatOp::Compare),
        40 => Some(FloatOp::Inc),
        41 => Some(FloatOp::Dec),
        42 => Some(FloatOp::ToInt),
        50 => Some(FloatOp::FromUnsigned),
        51 => Some(FloatOp::ToUnsigned),
        69 => Some(FloatOp::NegDouble),
        70 => Some(FloatOp::IncDouble),
        71 => Some(FloatOp::DecDouble),
        72 => Some(FloatOp::AddDouble),
        73 => Some(FloatOp::SubDouble),
        74 => Some(FloatOp::MulDouble),
        75 => Some(FloatOp::DivDouble),
        76 => Some(FloatOp::RemDouble),
        78 => Some(FloatOp::CompareDouble),
        79 => Some(FloatOp::DoubleToInt),
        80 => Some(FloatOp::DoubleToUnsigned),
        81 => Some(FloatOp::DoubleToFloat),
        82 => Some(FloatOp::IntToDouble),
        83 => Some(FloatOp::UnsignedToDouble),
        84 => Some(FloatOp::FloatToDouble),
        103 => Some(FloatOp::CompareImm),
        104 => Some(FloatOp::AddImm),
        105 => Some(FloatOp::SubImm),
        107 => Some(FloatOp::MulImm),
        _ => None,
    }
}

fn plain_of(op: u8) -> (r: Option<Instruction>)
    ensures
        r == plain(op),
{
    match op {
        3 => Some(Instruction::Rd4),
        5 => Some(Instruction::Wrt4),
        6 => Some(Instruction::Mov4),
        9 => Some(Instruction::Swap4),
        10 => Some(Instruction::Store4),
        11 => Some(Instruction::Recall4),
        17 => Some(Instruction::Unary(UnaryOp::Test(Condition::Zero))),
        18 => Some(Instruction::Unary(UnaryOp::Test(Condition::NonZero))),
        19 => Some(Instruction::Unary(UnaryOp::Test(Condition::Negative))),
        20 => Some(Instruction::Unary(UnaryOp::Test(Condition::NonNegative))),
        21 => Some(Instruction::Unary(UnaryOp::Test(Condition::Positive))),
        22 => Some(Instruction::Unary(UnaryOp::Test(Condition::NonPositive))),
        23 => Some(Instruction::Binary(BinaryOp::Add)),
        24 => Some(Instruction::Binary(BinaryOp::Sub)),
        25 => Some(Instruction::Binary(BinaryOp::Mul)),
        26 => Some(Instruction::Div),
        27 => Some(Instruction::Rem),
        28 => Some(Instruction::Unary(UnaryOp::Negate)),
        29 => Some(Instruction::Binary(BinaryOp::CompareSigned)),
        30 => Some(Instruction::Inc(Width::Long)),
        31 => Some(Instruction::Dec(Width::Long)),
        43 => Some(Instruction::Unary(UnaryOp::Not)),
        44 => Some(Instruction::Binary(BinaryOp::And)),
        45 => Some(Instruction::Binary(BinaryOp::Or)),
        46 => Some(Instruction::Binary(BinaryOp::Xor)),
        47 => Some(Instruction::Binary(BinaryOp::ShiftLeft)),
        48 => Some(Instruction::Binary(BinaryOp::ShiftRight)),
        49 => Some(Instruction::Binary(BinaryOp::ShiftRightSigned)),
        52 => Some(Instruction::Binary(BinaryOp::CompareUnsigned)),
        53 => Some(Instruction::Unary(UnaryOp::SignExtendByte)),
        54 => Some(Instruction::Unary(UnaryOp::SignExtendWord)),
        55 => Some(Instruction::Unary(UnaryOp::ZeroExtendByte)),
        56 => Some(Instruction::Unary(UnaryOp::ZeroExtendWord)),
        57 => Some(Instruction::Binary(BinaryOp::SpliceByte)),
        58 => Some(Instruction::Binary(BinaryOp::SpliceWord)),
        59 => Some(Instruction::Inc(Width::Word)),
        60 => Some(Instruction::Inc(Width::Byte)),
        61 => Some(Instruction::Dec(Width::Word)),
        62 => Some(Instruction::Dec(Width::Byte)),
        63 => Some(Instruction::PushZero),
        67 => Some(Instruction::Wrt8),
        68 => Some(Instruction::Rd8),
        77 => Some(Instruction::Swap8),
        85 => Some(Instruction::Jmpp),
        86 => Some(Instruction::Sret4),
        87 => Some(Instruction::Sret8),
        88 => Some(Instruction::Rret4),
        89 => Some(Instruction::Rret8),
        108 => Some(Instruction::Suspend),
        _ => match float_op_of(op) {
            Some(f) => Some(Instruction::Float(f, 0)),
            None => if op <= LAST_OPCODE {
                Some(Instruction::Unimplemented(op))
            } else {
                None
            },
        },
    }
}

fn with_u16_of(op: u8, v: u16) -> (r: Instruction)
    ensures
        r == with_u16(op, v),
{
    match op {
        0 => Instruction::Pop(v),
        1 => Instruction::Push(v),
        4 => Instruction::Rdsf4(v),
        7 => Instruction::Psf(v),
        8 => Instruction::Movsf4(v),
        13 => Instruction::Ret(v),
        64 => Instruction::Copy(v),
        _ => Instruction::Str(v),
    }
}

fn with_u32_of(op: u8, v: u32) -> (r: Instruction)
    ensures
        r == with_u32(op, v),
{
    match op {
        2 => Instruction::Set4(v),
        12 | 98 => Instruction::Call(v),
        96 => Instruction::CompareImmUnsigned(v),
        103 => Instruction::Float(FloatOp::CompareImm, v),
        104 => Instruction::Float(FloatOp::AddImm, v),
        105 => Instruction::Float(FloatOp::SubImm, v),
        _ => Instruction::Float(FloatOp::MulImm, v),
    }
}

fn with_i32_of(op: u8, v: i32) -> (r: Instruction)
    ensures
        r == with_i32(op, v),
{
    match op {
        14 => Instruction::Jmp(v),
        15 => Instruction::Jz(v),
        16 => Instruction::Jnz(v),
        65 => Instruction::Pga(v),
        91 => Instruction::Branch(Condition::NonNegative, v),
        92 => Instruction::Branch(Condition::Negative, v),
        93 => Instruction::Branch(Condition::NonPositive, v),
        94 => Instruction::Branch(Condition::Positive, v),
        95 => Instruction::CompareImmSigned(v),
        97 => Instruction::CallSys(v),
        100 => Instruction::Movga4(v),
        101 => Instruction::AddImm(v),
        102 => Instruction::SubImm(v),
        _ => Instruction::MulImm(v),
    }
}

/// Decodes the instruction at `pc`.
pub fn decode_at(code: &Vec<u8>, pc: usize) -> (r: Result<Decoded, Fault>)
    ensures
        r == decode(code@, pc as int),
{
    let len: usize = code.len();
    if len < OPCODE_SLOT || pc > len - OPCODE_SLOT {
        return Err(Fault::CodeBoundsViolation);
    }
    let op: u8 = code[pc];
    let at: usize = pc + OPCODE_SLOT;
    let rest: &[u8] = slice_subrange(code.as_slice(), at, len);
    match operand_kind_of(op) {
        OperandKind::Nothing => match plain_of(op) {
            Some(inst) => Ok(Decoded { inst, next: at }),
            None => Err(Fault::UnknownOpcode(op)),
        },
        OperandKind::Unsigned16 => match read_u16(rest) {
            Some(v) => {
                assert(rest@.subrange(0, 2) =~= code@.subrange(at as int, at + 2));
                Ok(Decoded { inst: with_u16_of(op, v), next: at + 2 })
            },
            None => Err(Fault::CodeBoundsViolation),
        },
        OperandKind::Unsigned32 => match read_u32(rest) {
            Some(v) => {
                assert(rest@.subrange(0, 4) =~= code@.subrange(at as int, at + 4));
                Ok(Decoded { inst: with_u32_of(op, v), next: at + 4 })
            },
            None => Err(Fault::CodeBoundsViolation),
        },
        OperandKind::Signed32 => match read_i32(rest) {
            Some(v) => {
                assert(rest@.subrange(0, 4) =~= code@.subrange(at as int, at + 4));
                Ok(Decoded { inst: with_i32_of(op, v), next: at + 4 })
            },
            None => Err(Fault::CodeBoundsViolation),
        },
        OperandKind::Unsigned64 => match read_u64(rest) {
            Some(v) => {
                assert(rest@.subrange(0, 8) =~= code@.subrange(at as int, at + 8));
                Ok(Decoded { inst: Instruction::Set8(v), next: at + 8 })
            },
            None => Err(Fault::CodeBoundsViolation),
        },
    }
}

} // verus!
