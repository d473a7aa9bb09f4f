//! The integer operations of the instruction set, on 32-bit patterns.
//!
//! Stack slots hold bit patterns. An operation reads them as unsigned or as
//! two's-complement signed numbers, computes in the integers and wraps the
//! result back into 32 bits: nothing overflows and nothing traps but a zero
//! divisor.
//!
//! Every two-operand function takes `a`, the operand popped first (the top
//! of the stack), and `b`, the operand popped second, and computes `b op a`.

use crate::bytes::{signed32, to_signed, to_unsigned, unsigned32};
use vstd::prelude::*;

verus! {

/// The 32-bit pattern of an integer: its residue modulo 2^32.
pub open spec fn wrap32(x: int) -> u32 {
    (x % 0x1_0000_0000) as u32
}

/// Strict three-way comparison: 1 where `x` is greater, -1 where `y` is,
/// 0 where they are equal.
pub open spec fn three_way(x: int, y: int) -> int {
    if x > y {
        1
    } else if y > x {
        -1
    } else {
        0
    }
}

/// The bit pattern that stands for a comparison result.
pub open spec fn ordering_bits(c: int) -> u32 {
    if c > 0 {
        1
    } else if c < 0 {
        0xffff_ffff
    } else {
        0
    }
}

/// The absolute value.
pub open spec fn magnitude(x: int) -> int {
    if x >= 0 {
        x
    } else {
        -x
    }
}

/// Division that rounds toward zero.
pub open spec fn trunc_div(n: int, d: int) -> int {
    if (n >= 0) == (d >= 0) {
        magnitude(n) / magnitude(d)
    } else {
        -(magnitude(n) / magnitude(d))
    }
}

/// The remainder that goes with `trunc_div`: it has the sign of `n`.
pub open spec fn trunc_rem(n: int, d: int) -> int {
    if n >= 0 {
        magnitude(n) % magnitude(d)
    } else {
        -(magnitude(n) % magnitude(d))
    }
}

/// Signed quotient `b / a`, wrapped.
pub open spec fn quotient32(a: u32, b: u32) -> u32 {
    wrap32(trunc_div(signed32(b) as int, signed32(a) as int))
}

/// Signed remainder `b % a`, wrapped.
pub open spec fn remainder32(a: u32, b: u32) -> u32 {
    wrap32(trunc_rem(signed32(b) as int, signed32(a) as int))
}

/// A test of one signed value against zero.
#[derive(Clone, Copy, Debug, PartialEq, Eq, Structural)]
pub enum Condition {
    Zero,
    NonZero,
    Negative,
    NonNegative,
    Positive,
    NonPositive,
}

/// Whether the pattern `a`, read as a signed number, meets the condition.
pub open spec fn condition_holds(c: Condition, a: u32) -> bool {
    match c {
        Condition::Zero => a == 0,
        Condition::NonZero => a != 0,
        Condition::Negative => signed32(a) < 0,
        Condition::NonNegative => signed32(a) >= 0,
        Condition::Positive => signed32(a) > 0,
        Condition::NonPositive => signed32(a) <= 0,
    }
}

/// The operations that replace the top slot by a function of it.
#[derive(Clone, Copy, Debug, PartialEq, Eq, Structural)]
pub enum UnaryOp {
    /// Two's-complement negation.
    Negate,
    /// Bitwise complement.
    Not,
    /// Sign extension of the low 8 bits.
    SignExtendByte,
    /// Sign extension of the low 16 bits.
    SignExtendWord,
    /// Zero extension of the low 8 bits.
    ZeroExtendByte,
    /// Zero extension of the low 16 bits.
    ZeroExtendWord,
    /// 1 where the condition holds of the slot, 0 where it does not.
    Test(Condition),
}

/// The operations that replace the two top slots by one.
#[derive(Clone, Copy, Debug, PartialEq, Eq, Structural)]
pub enum BinaryOp {
    Add,
    Sub,
    Mul,
    /// Three-way comparison of the operands read as signed numbers.
    CompareSigned,
    /// Three-way comparison of the operands read as unsigned numbers.
    CompareUnsigned,
    And,
    Or,
    Xor,
    /// `b` shifted left by the low five bits of `a`.
    ShiftLeft,
    /// `b` shifted right by the low five bits of `a`, zeros coming in.
    ShiftRight,
    /// `b` shifted right by the low five bits of `a`, the sign coming in.
    ShiftRightSigned,
    /// `b` with its low byte replaced by that of `a`.
    SpliceByte,
    /// `b` with its low 16 bits replaced by those of `a`.
    SpliceWord,
}

/// The width of the cell that an increment or decrement works on.
#[derive(Clone, Copy, Debug, PartialEq, Eq, Structural)]
pub enum Width {
    Byte,
    Word,
    Long,
}

/// The result of a one-operand operation.
pub open spec fn unary(op: UnaryOp, a: u32) -> u32 {
    match op {
        UnaryOp::Negate => wrap32(-(a as int)),
        UnaryOp::Not => !a,
        UnaryOp::SignExtendByte => if a % 0x100 < 0x80 {
            a % 0x100
        } else {
            (a % 0x100 + 0xffff_ff00) as u32
        },
        UnaryOp::SignExtendWord => if a % 0x1_0000 < 0x8000 {
            a % 0x1_0000
        } else {
            (a % 0x1_0000 + 0xffff_0000) as u32
        },
        UnaryOp::ZeroExtendByte => a % 0x100,
        UnaryOp::ZeroExtendWord => a % 0x1_0000,
        UnaryOp::Test(c) => if condition_holds(c, a) {
            1
        } else {
            0
        },
    }
}

/// The result `b op a` of a two-operand operation.
pub open spec fn binary(op: BinaryOp, a: u32, b: u32) -> u32 {
    match op {
        BinaryOp::Add => wrap32(b + a),
        BinaryOp::Sub => wrap32(b - a),
        BinaryOp::Mul => wrap32(b * a),
        BinaryOp::CompareSigned => ordering_bits(three_way(signed32(b) as int, signed32(a) as int)),
        BinaryOp::CompareUnsigned => ordering_bits(three_way(b as int, a as int)),
        BinaryOp::And => b & a,
        BinaryOp::Or => b | a,
        BinaryOp::Xor => b ^ a,
        BinaryOp::ShiftLeft => b << (a % 32),
        BinaryOp::ShiftRight => b >> (a % 32),
        BinaryOp::ShiftRightSigned => unsigned32(signed32(b) >> (a % 32)),
        BinaryOp::SpliceByte => (b - b % 0x100 + a % 0x100) as u32,
        BinaryOp::SpliceWord => (b - b % 0x1_0000 + a % 0x1_0000) as u32,
    }
}

/// The cell value one above `v`, wrapping within the cell's width.
pub open spec fn incremented(w: Width, v: u32) -> u32 {
    match w {
        Width::Byte => ((v + 1) % 0x100) as u32,
        Width::Word => ((v + 1) % 0x1_0000) as u32,
        Width::Long => wrap32(v + 1),
    }
}

/// The cell value one below `v`, wrapping within the cell's width.
pub open spec fn decremented(w: Width, v: u32) -> u32 {
    match w {
        Width::Byte => ((v - 1) % 0x100) as u32,
        Width::Word => ((v - 1) % 0x1_0000) as u32,
        Width::Long => wrap32(v - 1),
    }
}

/// Whether the pattern `a`, read as a signed number, meets the condition.
pub fn test_condition(c: Condition, a: u32) -> (r: bool)
    ensures
        r == condition_holds(c, a),
{
    match c {
        Condition::Zero => a == 0,
        Condition::NonZero => a != 0,
        Condition::Negative => a >= 0x8000_0000,
        Condition::NonNegative => a < 0x8000_0000,
        Condition::Positive => 0 < a && a < 0x8000_0000,
        Condition::NonPositive => a == 0 || a >= 0x8000_0000,
    }
}

/// Three-way comparison of two unsigned numbers, as a bit pattern.
pub fn compare_unsigned(x: u32, y: u32) -> (r: u32)
    ensures
        r == ordering_bits(three_way(x as int, y as int)),
{
    if x > y {
        1
    } else if y > x {
        0xffff_ffff
    } else {
        0
    }
}

/// Three-way comparison of two patterns read as signed numbers.
pub fn compare_signed(x: u32, y: u32) -> (r: u32)
    ensures
        r == ordering_bits(three_way(signed32(x) as int, signed32(y) as int)),
{
    let sx: i32 = to_signed(x);
    let sy: i32 = to_signed(y);
    if sx > sy {
        1
    } else if sy > sx {
        0xffff_ffff
    } else {
        0
    }
}

/// Computes a one-operand operation.
pub fn eval_unary(op: UnaryOp, a: u32) -> (r: u32)
    ensures
        r == unary(op, a),
{
    match op {
        UnaryOp::Negate => {
            if a == 0 {
                0
            } else {
                0xffff_ffff - a + 1
            }
        },
        UnaryOp::Not => !a,
        UnaryOp::SignExtendByte => {
            let low: u32 = a % 0x100;
            if low < 0x80 {
                low
            } else {
                low + 0xffff_ff00
            }
        },
        UnaryOp::SignExtendWord => {
            let low: u32 = a % 0x1_0000;
            if low < 0x8000 {
                low
            } else {
                low + 0xffff_0000
            }
        },
        UnaryOp::ZeroExtendByte => a % 0x100,
        UnaryOp::ZeroExtendWord => a % 0x1_0000,
        UnaryOp::Test(c) => {
            if test_condition(c, a) {
                1
            } else {
                0
            }
        },
    }
}

/// Computes `b op a`.
pub fn eval_binary(op: BinaryOp, a: u32, b: u32) -> (r: u32)
    ensures
        r == binary(op, a, b),
{
    match op {
        BinaryOp::Add => b.wrapping_add(a),
        BinaryOp::Sub => b.wrapping_sub(a),
        BinaryOp::Mul => b.wrapping_mul(a),
        BinaryOp::CompareSigned => compare_signed(b, a),
        BinaryOp::CompareUnsigned => compare_unsigned(b, a),
        BinaryOp::And => b & a,
        BinaryOp::Or => b | a,
        BinaryOp::Xor => b ^ a,
        BinaryOp::ShiftLeft => b << (a % 32),
        BinaryOp::ShiftRight => b >> (a % 32),
        BinaryOp::ShiftRightSigned => to_unsigned(to_signed(b) >> (a % 32)),
        BinaryOp::SpliceByte => b - b % 0x100 + a % 0x100,
        BinaryOp::SpliceWord => b - b % 0x1_0000 + a % 0x1_0000,
    }
}

/// The magnitude of a pattern read as a signed number.
fn magnitude_of(u: u32) -> (m: u32)
    ensures
        m == magnitude(signed32(u) as int),
{
    if u < 0x8000_0000 {
        u
    } else {
        0xffff_ffff - u + 1
    }
}

/// The pattern of `-m`.
fn negated(m: u32) -> (r: u32)
    ensures
        r == wrap32(-(m as int)),
{
    if m == 0 {
        0
    } else {
        0xffff_ffff - m + 1
    }
}

/// Signed quotient `b / a`; the one quotient that does not fit wraps. A
/// zero divisor gives no value.
pub fn eval_quotient(a: u32, b: u32) -> (r: Option<u32>)
    ensures
        r == (if a == 0 {
            None
        } else {
            Some(quotient32(a, b))
        }),
{
    if a == 0 {
        return None;
    }
    let q: u32 = magnitude_of(b) / magnitude_of(a);
    if (b < 0x8000_0000) == (a < 0x8000_0000) {
        Some(q)
    } else {
        Some(negated(q))
    }
}

/// Signed remainder `b % a`, with the sign of `b`. A zero divisor gives no
/// value.
pub fn eval_remainder(a: u32, b: u32) -> (r: Option<u32>)
    ensures
        r == (if a == 0 {
            None
        } else {
            Some(remainder32(a, b))
        }),
{
    if a == 0 {
        return None;
    }
    let m: u32 = magnitude_of(b) % magnitude_of(a);
    if b < 0x8000_0000 {
        Some(m)
    } else {
        Some(negated(m))
    }
}

/// The cell value one above `v`, wrapping within the cell's width.
pub fn eval_increment(w: Width, v: u32) -> (r: u32)
    ensures
        r == incremented(w, v),
{
    match w {
        Width::Byte => ((v as u64 + 1) % 0x100) as u32,
        Width::Word => ((v as u64 + 1) % 0x1_0000) as u32,
        Width::Long => v.wrapping_add(1),
    }
}

/// The cell value one below `v`, wrapping within the cell's width.
pub fn eval_decrement(w: Width, v: u32) -> (r: u32)
    ensures
        r == decremented(w, v),
{
    match w {
        Width::Byte => ((v as u64 + 0xff) % 0x100) as u32,
        Width::Word => ((v as u64 + 0xffff) % 0x1_0000) as u32,
        Width::Long => v.wrapping_sub(1),
    }
}

/// Adding `a` and then subtracting it again gives back the value from
/// before, for all 32-bit patterns: both operations wrap modulo 2^32.
pub proof fn lemma_add_then_sub(a: u32, b: u32)
    ensures
        binary(BinaryOp::Sub, a, binary(BinaryOp::Add, a, b)) == b,
{
}

/// A comparison gives 1, 0 or -1 and nothing else, gives 0 exactly for equal
/// operands, and exchanging the operands negates it; for the signed reading
/// and for the unsigned.
pub proof fn lemma_compare_antisymmetric(a: u32, b: u32)
    ensures
        -1 <= signed32(binary(BinaryOp::CompareSigned, a, b)) <= 1,
        -1 <= signed32(binary(BinaryOp::CompareUnsigned, a, b)) <= 1,
        binary(BinaryOp::CompareSigned, a, b) == 0 <==> a == b,
        binary(BinaryOp::CompareUnsigned, a, b) == 0 <==> a == b,
        signed32(binary(BinaryOp::CompareSigned, a, b)) == -signed32(
            binary(BinaryOp::CompareSigned, b, a),
        ),
        signed32(binary(BinaryOp::CompareUnsigned, a, b)) == -signed32(
            binary(BinaryOp::CompareUnsigned, b, a),
        ),
{
}

/// Quotient and remainder fit together: `n == d * (n / d) + n % d`, the
/// remainder is smaller than the divisor and has the sign of the dividend.
pub proof fn lemma_quotient_remainder(n: int, d: int)
    requires
        d != 0,
    ensures
        n == d * trunc_div(n, d) + trunc_rem(n, d),
        magnitude(trunc_rem(n, d)) < magnitude(d),
        n >= 0 ==> trunc_rem(n, d) >= 0,
        n <= 0 ==> trunc_rem(n, d) <= 0,
{
    let q = magnitude(n) / magnitude(d);
    let r = magnitude(n) % magnitude(d);
    vstd::arithmetic::div_mod::lemma_fundamental_div_mod(magnitude(n), magnitude(d));
    assert(magnitude(n) == magnitude(d) * q + r);
    assert(d * (-q) == -(d * q)) by (nonlinear_arith);
    assert((-d) * q == -(d * q)) by (nonlinear_arith);
}

} // verus!
