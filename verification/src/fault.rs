//! The conditions that stop a script for good.

use vstd::prelude::*;

verus! {

/// A fatal condition. A machine that has faulted keeps its fault until it is
/// bound again; its stack and registers are not to be relied on.
#[derive(Clone, Copy, Debug, PartialEq, Eq, Structural)]
pub enum Fault {
    /// A division or remainder whose divisor is the zero of its type.
    DivideByZero,
    /// An opcode byte above the last assigned number.
    UnknownOpcode(u8),
    /// An assigned opcode that this interpreter does not carry out.
    UnimplementedOpcode(u8),
    /// A stack access, or a stack pointer, outside the stack buffer.
    StackBoundsViolation,
    /// A system call whose index no host function is registered under.
    UnknownHostFunction,
    /// An instruction or a jump target outside the function's code.
    CodeBoundsViolation,
    /// A global slot outside the module's or the context's table.
    GlobalBoundsViolation,
    /// A string constant outside the module's pool.
    UnknownString,
    /// A function index outside the module, or no module at all.
    UnknownFunction,
    /// A floating-point result handed over while none was asked for.
    NoFloatPending,
}

} // verus!
