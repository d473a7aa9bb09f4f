//! The interpreter as a mathematical machine: its state, what each
//! instruction does to it, and what a run of instructions amounts to.
//!
//! Everything here is specification. The executable interpreter is proved
//! to compute exactly these functions on its own state.
//!
//! An instruction is atomic: it either takes effect as a whole, or it
//! faults and leaves everything but the machine's status as it was.

use crate::arith::{
    binary, condition_holds, decremented, incremented, quotient32, remainder32, unary, BinaryOp,
    Condition, UnaryOp, Width,
};
use crate::bytes::{signed32, unsigned32};
use crate::fault::Fault;
use crate::float::{FloatRequest, Layout};
use crate::global_context::ContextView;
use crate::instruction::{decode, Decoded, FloatOp, Instruction};
use crate::module::ModuleView;
use crate::stack::StackView;
use vstd::prelude::*;

verus! {

/// Where a machine stands in its life.
#[derive(Clone, Copy, Debug, PartialEq, Eq, Structural)]
pub enum VmStatus {
    /// No module is bound: there is nothing to run.
    Idle,
    /// A function is bound; it has not returned. A machine that waits for
    /// its host after a suspension, a host call or a floating-point request
    /// is running too.
    Running,
    /// The bound function has returned.
    Returned,
    /// An instruction has faulted.
    Faulted(Fault),
}

/// What a script function's caller gets back when the function returns.
#[derive(Clone, Copy, Debug, PartialEq, Eq, Structural)]
pub struct CallFrame {
    /// The caller.
    pub function_index: usize,
    /// Where the caller goes on.
    pub pc: usize,
    /// The caller's stack pointer at the call.
    pub boundary: usize,
    /// The caller's accumulator.
    pub acc: u32,
}

/// Why `execute` came back.
#[derive(Clone, Copy, Debug, PartialEq, Eq, Structural)]
pub enum ExecOutcome {
    /// No module is bound.
    Unbound,
    /// The bound function has returned.
    Returned,
    /// The script yields; `execute` goes on after the yield point.
    Suspended,
    /// The script calls the host function of this index. The host runs it on
    /// this machine; `execute` then goes on after the call.
    HostCall(usize),
    /// The next instruction is a floating-point one. The host computes the
    /// result from the operands and hands it to `complete_float`.
    Float(FloatRequest),
    /// The instruction budget is used up and the function has not returned.
    BudgetExhausted,
    /// An instruction has faulted.
    Faulted(Fault),
}

/// The state of an interpreter.
#[verifier::ext_equal]
pub struct Machine {
    pub status: VmStatus,
    /// The function that runs.
    pub function_index: usize,
    /// The offset of the next instruction in that function's code.
    pub pc: usize,
    pub stack: StackView,
    /// The return registers.
    pub r1: u32,
    pub r2: u32,
    /// The accumulator of the function that runs.
    pub acc: u32,
    /// The callers that wait, the outermost first.
    pub frames: Seq<CallFrame>,
    /// How many instructions one call of `execute` may run.
    pub budget: u64,
    pub module: Option<ModuleView>,
    pub context: ContextView,
}

/// One instruction's effect, together with the event that ends the run, if
/// the instruction gives one.
pub type Effect = (Machine, Option<ExecOutcome>);

impl Machine {
    pub open spec fn with_status(self, status: VmStatus) -> Machine {
        Machine { status, ..self }
    }

    pub open spec fn with_pc(self, pc: usize) -> Machine {
        Machine { pc, ..self }
    }

    pub open spec fn with_stack(self, stack: StackView) -> Machine {
        Machine { stack, ..self }
    }

    pub open spec fn with_acc(self, acc: u32) -> Machine {
        Machine { acc, ..self }
    }

    pub open spec fn with_ret(self, r1: u32, r2: u32) -> Machine {
        Machine { r1, r2, ..self }
    }

    pub open spec fn with_module(self, module: Option<ModuleView>) -> Machine {
        Machine { module, ..self }
    }

    pub open spec fn with_context(self, context: ContextView) -> Machine {
        Machine { context, ..self }
    }

    pub open spec fn with_budget(self, budget: u64) -> Machine {
        Machine { budget, ..self }
    }

    /// The machine after the fault `f`: only its status differs.
    pub open spec fn faulted(self, f: Fault) -> Machine {
        self.with_status(VmStatus::Faulted(f))
    }

    /// A machine that was just made: idle, without a module, its registers
    /// zero, its stack `stack_size` zero bytes with nothing on it.
    pub open spec fn idle(context: ContextView, stack_size: nat, budget: u64) -> Machine {
        Machine {
            status: VmStatus::Idle,
            function_index: 0,
            pc: 0,
            stack: StackView { bytes: Seq::new(stack_size, |i: int| 0u8), sp: stack_size as int },
            r1: 0,
            r2: 0,
            acc: 0,
            frames: Seq::empty(),
            budget,
            module: None,
            context,
        }
    }

    /// What holds of the state of every interpreter: the stack pointer lies
    /// within the stack, and the stack and the code of each function are no
    /// longer than the machine can address.
    pub open spec fn wf(self) -> bool {
        &&& self.stack.wf()
        &&& self.stack.bytes.len() <= usize::MAX
        &&& self.module matches Some(module) ==> forall|i: int|
            0 <= i < module.functions.len() ==> (#[trigger] module.functions[i]).len()
                <= usize::MAX
    }

    /// The stack pointer.
    pub open spec fn sp(self) -> int {
        self.stack.sp
    }

    /// The size of the stack buffer.
    pub open spec fn stack_len(self) -> int {
        self.stack.bytes.len() as int
    }

    /// The value of the two return registers as one 64-bit number.
    pub open spec fn ret64(self) -> u64 {
        (self.r1 as int + 0x1_0000_0000 * (self.r2 as int)) as u64
    }

    /// The machine bound anew: at the start of its function, its stack
    /// empty, no caller waiting. It runs if it has a module.
    pub open spec fn rebound(self) -> Machine {
        Machine {
            status: if self.module is Some {
                VmStatus::Running
            } else {
                VmStatus::Idle
            },
            pc: 0,
            stack: self.stack.with_sp(self.stack_len()),
            acc: 0,
            frames: Seq::empty(),
            ..self
        }
    }

    /// The code of the function that runs; empty where there is none.
    pub open spec fn code(self) -> Seq<u8> {
        match self.module {
            Some(module) => if self.function_index < module.functions.len() {
                module.functions[self.function_index as int]
            } else {
                Seq::empty()
            },
            None => Seq::empty(),
        }
    }

    /// The next instruction.
    pub open spec fn fetch(self) -> Result<Decoded, Fault> {
        match self.module {
            Some(module) => if self.function_index < module.functions.len() {
                decode(module.functions[self.function_index as int], self.pc as int)
            } else {
                Err(Fault::UnknownFunction)
            },
            None => Err(Fault::UnknownFunction),
        }
    }

    // ---- stack adjustment and literals

    /// Frees `size` bytes of stack; no byte changes.
    pub open spec fn pop(self, size: u16) -> Result<Machine, Fault> {
        if self.sp() + size <= self.stack_len() {
            Ok(self.with_stack(self.stack.with_sp(self.sp() + size)))
        } else {
            Err(Fault::StackBoundsViolation)
        }
    }

    /// Claims `size` bytes of stack; no byte changes.
    pub open spec fn push(self, size: u16) -> Result<Machine, Fault> {
        if size <= self.sp() {
            Ok(self.with_stack(self.stack.with_sp(self.sp() - size)))
        } else {
            Err(Fault::StackBoundsViolation)
        }
    }

    /// Pushes a 32-bit value.
    pub open spec fn set4(self, data: u32) -> Result<Machine, Fault> {
        if 4 <= self.sp() {
            Ok(self.with_stack(self.stack.pushed_u32(data)))
        } else {
            Err(Fault::StackBoundsViolation)
        }
    }

    /// Pushes a 64-bit value.
    pub open spec fn set8(self, data: u64) -> Result<Machine, Fault> {
        if 8 <= self.sp() {
            Ok(self.with_stack(self.stack.pushed_u64(data)))
        } else {
            Err(Fault::StackBoundsViolation)
        }
    }

    /// Pushes two 32-bit values, `upper` first: `lower` ends on top.
    pub open spec fn set_pair(self, lower: u32, upper: u32) -> Result<Machine, Fault> {
        if 8 <= self.sp() {
            Ok(self.with_stack(self.stack.pushed_u32(upper).pushed_u32(lower)))
        } else {
            Err(Fault::StackBoundsViolation)
        }
    }

    // ---- loads and stores through an address on the stack

    /// Replaces the address on top by the 32-bit value that it points to.
    pub open spec fn rd4(self) -> Result<Machine, Fault> {
        let s = self.stack;
        if !s.holds(s.sp, 4) {
            Err(Fault::StackBoundsViolation)
        } else {
            let pos = s.u32_at(s.sp) as int;
            if !s.holds(pos, 4) {
                Err(Fault::StackBoundsViolation)
            } else {
                Ok(self.with_stack(s.with_u32(s.sp, s.u32_at(pos))))
            }
        }
    }

    /// Replaces the address on top by the 64-bit value that it points to: the
    /// stack grows by four bytes.
    pub open spec fn rd8(self) -> Result<Machine, Fault> {
        let s = self.stack;
        if !s.holds(s.sp, 4) || s.sp < 4 {
            Err(Fault::StackBoundsViolation)
        } else {
            let pos = s.u32_at(s.sp) as int;
            if !s.holds(pos, 8) {
                Err(Fault::StackBoundsViolation)
            } else {
                Ok(self.with_stack(s.with_sp(s.sp - 4).with_u64(s.sp - 4, s.u64_at(pos))))
            }
        }
    }

    /// Pops an address and stores the 32-bit value below it there; the value
    /// stays on the stack.
    pub open spec fn wrt4(self) -> Result<Machine, Fault> {
        let s = self.stack;
        if !s.holds(s.sp, 8) {
            Err(Fault::StackBoundsViolation)
        } else {
            let pos = s.u32_at(s.sp) as int;
            if !s.holds(pos, 4) {
                Err(Fault::StackBoundsViolation)
            } else {
                Ok(self.with_stack(s.with_u32(pos, s.u32_at(s.sp + 4)).with_sp(s.sp + 4)))
            }
        }
    }

    /// Pops an address and stores the 64-bit value below it there; the value
    /// stays on the stack.
    pub open spec fn wrt8(self) -> Result<Machine, Fault> {
        let s = self.stack;
        if !s.holds(s.sp, 12) {
            Err(Fault::StackBoundsViolation)
        } else {
            let pos = s.u32_at(s.sp) as int;
            if !s.holds(pos, 8) {
                Err(Fault::StackBoundsViolation)
            } else {
                Ok(self.with_stack(s.with_u64(pos, s.u64_at(s.sp + 4)).with_sp(s.sp + 4)))
            }
        }
    }

    /// As `wrt4`, and pops the value too.
    pub open spec fn mov4(self) -> Result<Machine, Fault> {
        match self.wrt4() {
            Ok(m) => m.pop(4),
            Err(f) => Err(f),
        }
    }

    // ---- frame slots, counted in 32-bit units from the end of the buffer

    /// The offset of frame slot `index`.
    pub open spec fn frame_slot(self, index: u16) -> int {
        self.stack_len() - 4 * index
    }

    /// Pushes the 32-bit value of frame slot `index`.
    pub open spec fn rdsf4(self, index: u16) -> Result<Machine, Fault> {
        let s = self.stack;
        let slot = self.frame_slot(index);
        if !s.holds(slot, 4) || s.sp < 4 {
            Err(Fault::StackBoundsViolation)
        } else {
            Ok(self.with_stack(s.pushed_u32(s.u32_at(slot))))
        }
    }

    /// Pushes the address of frame slot `index`.
    pub open spec fn psf(self, index: u16) -> Result<Machine, Fault> {
        let s = self.stack;
        let slot = self.frame_slot(index);
        if !(0 <= slot <= u32::MAX) || s.sp < 4 {
            Err(Fault::StackBoundsViolation)
        } else {
            Ok(self.with_stack(s.pushed_u32(slot as u32)))
        }
    }

    /// Rewrites frame slot `index` in place, which leaves it as it is, and pops
    /// one slot.
    pub open spec fn movsf4(self, index: u16) -> Result<Machine, Fault> {
        let s = self.stack;
        let slot = self.frame_slot(index);
        if !s.holds(slot, 4) || s.sp + 4 > self.stack_len() {
            Err(Fault::StackBoundsViolation)
        } else {
            Ok(self.with_stack(s.with_sp(s.sp + 4)))
        }
    }

    // ---- exchanges, accumulator, return registers

    /// Exchanges the two 32-bit values on top.
    pub open spec fn swap4(self) -> Result<Machine, Fault> {
        let s = self.stack;
        if !s.holds(s.sp, 8) {
            Err(Fault::StackBoundsViolation)
        } else {
            Ok(
                self.with_stack(
                    s.with_u32(s.sp, s.u32_at(s.sp + 4)).with_u32(s.sp + 4, s.u32_at(s.sp)),
                ),
            )
        }
    }

    /// Exchanges the two 64-bit values on top.
    pub open spec fn swap8(self) -> Result<Machine, Fault> {
        let s = self.stack;
        if !s.holds(s.sp, 16) {
            Err(Fault::StackBoundsViolation)
        } else {
            Ok(
                self.with_stack(
                    s.with_u64(s.sp, s.u64_at(s.sp + 8)).with_u64(s.sp + 8, s.u64_at(s.sp)),
                ),
            )
        }
    }

    /// Pops the top slot into the accumulator.
    pub open spec fn store4(self) -> Result<Machine, Fault> {
        let s = self.stack;
        if !s.holds(s.sp, 4) {
            Err(Fault::StackBoundsViolation)
        } else {
            Ok(self.with_acc(s.u32_at(s.sp)).with_stack(s.with_sp(s.sp + 4)))
        }
    }

    /// Pushes the accumulator.
    pub open spec fn recall4(self) -> Result<Machine, Fault> {
        self.set4(self.acc)
    }

    /// Pops the top slot into the first return register.
    pub open spec fn sret4(self) -> Result<Machine, Fault> {
        let s = self.stack;
        if !s.holds(s.sp, 4) {
            Err(Fault::StackBoundsViolation)
        } else {
            Ok(self.with_ret(s.u32_at(s.sp), self.r2).with_stack(s.with_sp(s.sp + 4)))
        }
    }

    /// Pops two slots into the return registers, the top one into the first.
    pub open spec fn sret8(self) -> Result<Machine, Fault> {
        let s = self.stack;
        if !s.holds(s.sp, 8) {
            Err(Fault::StackBoundsViolation)
        } else {
            Ok(self.with_ret(s.u32_at(s.sp), s.u32_at(s.sp + 4)).with_stack(s.with_sp(s.sp + 8)))
        }
    }

    /// Pushes the first return register.
    pub open spec fn rret4(self) -> Result<Machine, Fault> {
        self.set4(self.r1)
    }

    /// Pushes both return registers, the first one on top.
    pub open spec fn rret8(self) -> Result<Machine, Fault> {
        self.set_pair(self.r1, self.r2)
    }

    // ---- arithmetic

    /// Replaces the top slot by `value`.
    pub open spec fn replace_top(self, value: u32) -> Machine {
        self.with_stack(self.stack.with_u32(self.sp(), value))
    }

    /// Replaces the top slot by `op` of it.
    pub open spec fn unary_op(self, op: UnaryOp) -> Result<Machine, Fault> {
        let s = self.stack;
        if !s.holds(s.sp, 4) {
            Err(Fault::StackBoundsViolation)
        } else {
            Ok(self.replace_top(unary(op, s.u32_at(s.sp))))
        }
    }

    /// Replaces the two top slots by `value`.
    pub open spec fn replace_two(self, value: u32) -> Machine {
        self.with_stack(self.stack.with_sp(self.sp() + 4).with_u32(self.sp() + 4, value))
    }

    /// Replaces the two top slots by `b op a`, where `a` is the top slot and `b`
    /// the one below it.
    pub open spec fn binary_op(self, op: BinaryOp) -> Result<Machine, Fault> {
        let s = self.stack;
        if !s.holds(s.sp, 8) {
            Err(Fault::StackBoundsViolation)
        } else {
            Ok(self.replace_two(binary(op, s.u32_at(s.sp), s.u32_at(s.sp + 4))))
        }
    }

    /// Signed division `b / a` of the two top slots. A zero divisor faults,
    /// whatever lies below it.
    pub open spec fn div(self) -> Result<Machine, Fault> {
        let s = self.stack;
        if !s.holds(s.sp, 4) {
            Err(Fault::StackBoundsViolation)
        } else if s.u32_at(s.sp) == 0 {
            Err(Fault::DivideByZero)
        } else if !s.holds(s.sp, 8) {
            Err(Fault::StackBoundsViolation)
        } else {
            Ok(self.replace_two(quotient32(s.u32_at(s.sp), s.u32_at(s.sp + 4))))
        }
    }

    /// Signed remainder `b % a` of the two top slots. A zero divisor faults,
    /// whatever lies below it.
    pub open spec fn xmod(self) -> Result<Machine, Fault> {
        let s = self.stack;
        if !s.holds(s.sp, 4) {
            Err(Fault::StackBoundsViolation)
        } else if s.u32_at(s.sp) == 0 {
            Err(Fault::DivideByZero)
        } else if !s.holds(s.sp, 8) {
            Err(Fault::StackBoundsViolation)
        } else {
            Ok(self.replace_two(remainder32(s.u32_at(s.sp), s.u32_at(s.sp + 4))))
        }
    }

    /// The top slot combined with an operand of the instruction: `a` and `b`
    /// say which of the two stands where.
    pub open spec fn immediate_op(self, op: BinaryOp, operand: u32, operand_first: bool) -> Result<
        Machine,
        Fault,
    > {
        let s = self.stack;
        if !s.holds(s.sp, 4) {
            Err(Fault::StackBoundsViolation)
        } else if operand_first {
            Ok(self.replace_top(binary(op, operand, s.u32_at(s.sp))))
        } else {
            Ok(self.replace_top(binary(op, s.u32_at(s.sp), operand)))
        }
    }

    /// The number of bytes of a cell.
    pub open spec fn cell_size(w: Width) -> int {
        match w {
            Width::Byte => 1,
            Width::Word => 2,
            Width::Long => 4,
        }
    }

    /// The value of the cell of width `w` at `pos`.
    pub open spec fn cell_at(s: StackView, w: Width, pos: int) -> u32 {
        match w {
            Width::Byte => s.u8_at(pos) as u32,
            Width::Word => s.u16_at(pos) as u32,
            Width::Long => s.u32_at(pos),
        }
    }

    /// The stack with `v` stored in the cell of width `w` at `pos`.
    pub open spec fn with_cell(s: StackView, w: Width, pos: int, v: u32) -> StackView {
        match w {
            Width::Byte => s.with_u8(pos, v as u8),
            Width::Word => s.with_u16(pos, v as u16),
            Width::Long => s.with_u32(pos, v),
        }
    }

    /// Adds one to the cell that the top slot points to; the address stays.
    pub open spec fn inc(self, w: Width) -> Result<Machine, Fault> {
        let s = self.stack;
        if !s.holds(s.sp, 4) {
            Err(Fault::StackBoundsViolation)
        } else {
            let pos = s.u32_at(s.sp) as int;
            if !s.holds(pos, Self::cell_size(w)) {
                Err(Fault::StackBoundsViolation)
            } else {
                Ok(
                    self.with_stack(
                        Self::with_cell(s, w, pos, incremented(w, Self::cell_at(s, w, pos))),
                    ),
                )
            }
        }
    }

    /// Subtracts one from the cell that the top slot points to.
    pub open spec fn dec(self, w: Width) -> Result<Machine, Fault> {
        let s = self.stack;
        if !s.holds(s.sp, 4) {
            Err(Fault::StackBoundsViolation)
        } else {
            let pos = s.u32_at(s.sp) as int;
            if !s.holds(pos, Self::cell_size(w)) {
                Err(Fault::StackBoundsViolation)
            } else {
                Ok(
                    self.with_stack(
                        Self::with_cell(s, w, pos, decremented(w, Self::cell_at(s, w, pos))),
                    ),
                )
            }
        }
    }

    /// Pops the destination address and copies `count` bytes to it from the
    /// source address, which stays on top. The bytes copied are those that
    /// the source held before the copy.
    pub open spec fn copy(self, count: u16) -> Result<Machine, Fault> {
        let s = self.stack;
        if !s.holds(s.sp, 8) {
            Err(Fault::StackBoundsViolation)
        } else {
            let dst = s.u32_at(s.sp) as int;
            let src = s.u32_at(s.sp + 4) as int;
            if !s.holds(src, count as int) || !s.holds(dst, count as int) {
                Err(Fault::StackBoundsViolation)
            } else {
                Ok(
                    self.with_stack(
                        s.with_bytes(dst, s.bytes.subrange(src, src + count)).with_sp(s.sp + 4),
                    ),
                )
            }
        }
    }

    // ---- control flow

    /// Moves the program counter by `offset`; the target has to lie within
    /// the code, or at its end.
    pub open spec fn jump(self, offset: int) -> Result<Machine, Fault> {
        let target = self.pc + offset;
        if 0 <= target <= self.code().len() {
            Ok(self.with_pc(target as usize))
        } else {
            Err(Fault::CodeBoundsViolation)
        }
    }

    /// Jumps by `offset`.
    pub open spec fn jmp(self, offset: i32) -> Result<Machine, Fault> {
        self.jump(offset as int)
    }

    /// Pops a value and jumps where the condition holds of it.
    pub open spec fn j(self, offset: i32, c: Condition) -> Result<Machine, Fault> {
        let s = self.stack;
        if !s.holds(s.sp, 4) {
            Err(Fault::StackBoundsViolation)
        } else {
            let popped = self.with_stack(s.with_sp(s.sp + 4));
            if condition_holds(c, s.u32_at(s.sp)) {
                popped.jump(offset as int)
            } else {
                Ok(popped)
            }
        }
    }

    /// Pops a value and jumps where it is zero.
    pub open spec fn jz(self, offset: i32) -> Result<Machine, Fault> {
        self.j(offset, Condition::Zero)
    }

    /// Pops a value and jumps where it is not zero.
    pub open spec fn jnz(self, offset: i32) -> Result<Machine, Fault> {
        self.j(offset, Condition::NonZero)
    }

    /// Pops an index and jumps by eight times the index: a jump table.
    pub open spec fn jmpp(self) -> Result<Machine, Fault> {
        let s = self.stack;
        if !s.holds(s.sp, 4) {
            Err(Fault::StackBoundsViolation)
        } else {
            self.with_stack(s.with_sp(s.sp + 4)).jump(8 * (signed32(s.u32_at(s.sp)) as int))
        }
    }

    /// Calls a function of the module: the caller's place is saved, and the
    /// callee starts at its first instruction with a fresh accumulator.
    pub open spec fn call(self, function: u32) -> Result<Machine, Fault> {
        match self.module {
            Some(module) => if function < module.functions.len() {
                Ok(
                    Machine {
                        function_index: function as usize,
                        pc: 0,
                        acc: 0,
                        frames: self.frames.push(
                            CallFrame {
                                function_index: self.function_index,
                                pc: self.pc,
                                boundary: self.sp() as usize,
                                acc: self.acc,
                            },
                        ),
                        ..self
                    },
                )
            } else {
                Err(Fault::UnknownFunction)
            },
            None => Err(Fault::UnknownFunction),
        }
    }

    /// Returns. In a called function the stack pointer goes back to where it
    /// stood at the call, `param_size` bytes of arguments are discarded and
    /// the caller goes on. In the outermost function `param_size` bytes are
    /// discarded and the machine has returned.
    pub open spec fn ret(self, param_size: u16) -> Result<Machine, Fault> {
        if self.frames.len() == 0 {
            if self.sp() + param_size <= self.stack_len() {
                Ok(
                    self.with_stack(self.stack.with_sp(self.sp() + param_size)).with_status(
                        VmStatus::Returned,
                    ),
                )
            } else {
                Err(Fault::StackBoundsViolation)
            }
        } else {
            let frame = self.frames.last();
            if frame.boundary + param_size <= self.stack_len() {
                Ok(
                    Machine {
                        function_index: frame.function_index,
                        pc: frame.pc,
                        acc: frame.acc,
                        stack: self.stack.with_sp(frame.boundary + param_size),
                        frames: self.frames.drop_last(),
                        ..self
                    },
                )
            } else {
                Err(Fault::StackBoundsViolation)
            }
        }
    }

    /// The index of the host function that a system call with this operand
    /// asks for: operand -1 is index 0, -2 is index 1, and so on.
    pub open spec fn host_index(function: i32) -> int {
        -(function as int) - 1
    }

    /// The host function that a system call asks for, if it is registered.
    pub open spec fn callsys(self, function: i32) -> Result<usize, Fault> {
        let index = Self::host_index(function);
        if 0 <= index < self.context.functions.len() {
            Ok(index as usize)
        } else {
            Err(Fault::UnknownHostFunction)
        }
    }

    // ---- globals and strings

    /// Whether `index` names a slot of the module.
    pub open spec fn is_module_global(index: i32) -> bool {
        index > 0
    }

    /// The context slot that a non-positive `index` names.
    pub open spec fn context_slot(index: i32) -> int {
        -(index as int) - 1
    }

    /// The value of the global that `index` names: a positive index names
    /// that slot of the module, any other index a slot of the context.
    pub open spec fn global(self, index: i32) -> Result<u32, Fault> {
        if Self::is_module_global(index) {
            match self.module {
                Some(module) => if index < module.globals.len() {
                    Ok(module.globals[index as int])
                } else {
                    Err(Fault::GlobalBoundsViolation)
                },
                None => Err(Fault::GlobalBoundsViolation),
            }
        } else {
            let slot = Self::context_slot(index);
            if 0 <= slot < self.context.vars.len() {
                Ok(self.context.vars[slot])
            } else {
                Err(Fault::GlobalBoundsViolation)
            }
        }
    }

    /// The machine with `value` in the global that `index` names.
    pub open spec fn with_global(self, index: i32, value: u32) -> Machine {
        if Self::is_module_global(index) {
            self.with_module(Some(self.module->Some_0.with_global(index as int, value)))
        } else {
            self.with_context(self.context.with_var(Self::context_slot(index), value))
        }
    }

    /// Pushes the value of the global that `index` names.
    pub open spec fn pga(self, index: i32) -> Result<Machine, Fault> {
        match self.global(index) {
            Ok(value) => self.set4(value),
            Err(f) => Err(f),
        }
    }

    /// Pops the top slot into the global that `index` names.
    pub open spec fn movga4(self, index: i32) -> Result<Machine, Fault> {
        let s = self.stack;
        if !s.holds(s.sp, 4) {
            Err(Fault::StackBoundsViolation)
        } else if self.global(index) is Err {
            Err(Fault::GlobalBoundsViolation)
        } else {
            Ok(self.with_global(index, s.u32_at(s.sp)).with_stack(s.with_sp(s.sp + 4)))
        }
    }

    /// Pushes a reference to a string constant: its index, and on top of it
    /// its length. The string itself stays in the pool.
    pub open spec fn str(self, index: u16) -> Result<Machine, Fault> {
        match self.module {
            Some(module) => if index < module.strings.len() && module.strings[index as int].len()
                <= u32::MAX {
                self.set_pair(module.strings[index as int].len() as u32, index as u32)
            } else {
                Err(Fault::UnknownString)
            },
            None => Err(Fault::UnknownString),
        }
    }

    // ---- floating point: the interpreter moves the bits

    /// The value of `width` bytes at `pos`, widened.
    pub open spec fn bits_at(s: StackView, pos: int, width: int) -> u64 {
        if width == 4 {
            s.u32_at(pos) as u64
        } else {
            s.u64_at(pos)
        }
    }

    /// Stores the low `width` bytes of `bits` at `pos`.
    pub open spec fn with_bits(s: StackView, pos: int, width: int, bits: u64) -> StackView {
        if width == 4 {
            s.with_u32(pos, (bits % 0x1_0000_0000) as u32)
        } else {
            s.with_u64(pos, bits)
        }
    }

    /// Whether the bits are those of a floating-point zero, of either sign.
    pub open spec fn is_float_zero(bits: u64, width: int) -> bool {
        if width == 4 {
            bits == 0 || bits == 0x8000_0000
        } else {
            bits == 0 || bits == 0x8000_0000_0000_0000
        }
    }

    /// Where the operands of a floating-point instruction lie.
    pub open spec fn float_base(self, l: Layout) -> Result<int, Fault> {
        let s = self.stack;
        if l.indirect {
            if !s.holds(s.sp, 4) {
                Err(Fault::StackBoundsViolation)
            } else if !s.holds(s.u32_at(s.sp) as int, l.operand_width as int) {
                Err(Fault::StackBoundsViolation)
            } else {
                Ok(s.u32_at(s.sp) as int)
            }
        } else if !s.holds(s.sp, l.operand_width as int) {
            Err(Fault::StackBoundsViolation)
        } else if l.divides && Self::is_float_zero(
            Self::bits_at(s, s.sp, l.operand_width as int),
            l.operand_width as int,
        ) {
            Err(Fault::DivideByZero)
        } else if !s.holds(s.sp, l.span()) || s.sp + l.span() < l.result_width {
            Err(Fault::StackBoundsViolation)
        } else {
            Ok(s.sp)
        }
    }

    /// The operands that the host is asked to compute on: `first` is the
    /// operand on top of the stack, `second` the one below it or the
    /// instruction's own.
    pub open spec fn float_request(self, op: FloatOp, operand: u32) -> Result<FloatRequest, Fault> {
        let l = Layout::of(op);
        let s = self.stack;
        match self.float_base(l) {
            Err(f) => Err(f),
            Ok(base) => Ok(
                FloatRequest {
                    op,
                    first: Self::bits_at(s, base, l.operand_width as int),
                    second: if l.immediate {
                        operand as u64
                    } else if l.binary {
                        Self::bits_at(s, base + l.operand_width, l.operand_width as int)
                    } else {
                        0
                    },
                },
            ),
        }
    }

    /// The machine after the host's `result` has taken the operands' place.
    pub open spec fn float_commit(self, op: FloatOp, result: u64) -> Result<Machine, Fault> {
        let l = Layout::of(op);
        let s = self.stack;
        match self.float_base(l) {
            Err(f) => Err(f),
            Ok(base) => if l.indirect {
                Ok(self.with_stack(Self::with_bits(s, base, l.result_width as int, result)))
            } else {
                let top = s.sp + l.span() - l.result_width;
                Ok(
                    self.with_stack(
                        Self::with_bits(s.with_sp(top), top, l.result_width as int, result),
                    ),
                )
            },
        }
    }

    // ---- one instruction

    /// What an instruction other than a floating-point one does to a machine
    /// whose program counter has passed it.
    pub open spec fn perform(self, inst: Instruction) -> Result<Machine, Fault> {
        match inst {
            Instruction::Pop(size) => self.pop(size),
            Instruction::Push(size) => self.push(size),
            Instruction::Set4(data) => self.set4(data),
            Instruction::Rd4 => self.rd4(),
            Instruction::Rdsf4(index) => self.rdsf4(index),
            Instruction::Wrt4 => self.wrt4(),
            Instruction::Mov4 => self.mov4(),
            Instruction::Psf(index) => self.psf(index),
            Instruction::Movsf4(index) => self.movsf4(index),
            Instruction::Swap4 => self.swap4(),
            Instruction::Store4 => self.store4(),
            Instruction::Recall4 => self.recall4(),
            Instruction::Call(function) => self.call(function),
            Instruction::Ret(param_size) => self.ret(param_size),
            Instruction::Jmp(offset) => self.jmp(offset),
            Instruction::Jz(offset) => self.jz(offset),
            Instruction::Jnz(offset) => self.jnz(offset),
            Instruction::Unary(op) => self.unary_op(op),
            Instruction::Binary(op) => self.binary_op(op),
            Instruction::Div => self.div(),
            Instruction::Rem => self.xmod(),
            Instruction::Inc(w) => self.inc(w),
            Instruction::Dec(w) => self.dec(w),
            Instruction::PushZero => self.set4(0),
            Instruction::Copy(count) => self.copy(count),
            Instruction::Pga(index) => self.pga(index),
            Instruction::Set8(data) => self.set8(data),
            Instruction::Wrt8 => self.wrt8(),
            Instruction::Rd8 => self.rd8(),
            Instruction::Swap8 => self.swap8(),
            Instruction::Jmpp => self.jmpp(),
            Instruction::Sret4 => self.sret4(),
            Instruction::Sret8 => self.sret8(),
            Instruction::Rret4 => self.rret4(),
            Instruction::Rret8 => self.rret8(),
            Instruction::Str(index) => self.str(index),
            Instruction::Branch(c, offset) => self.j(offset, c),
            Instruction::CompareImmSigned(rhs) => self.immediate_op(
                BinaryOp::CompareSigned,
                unsigned32(rhs),
                false,
            ),
            Instruction::CompareImmUnsigned(rhs) => self.immediate_op(
                BinaryOp::CompareUnsigned,
                rhs,
                false,
            ),
            Instruction::CallSys(function) => match self.callsys(function) {
                Ok(_) => Ok(self),
                Err(f) => Err(f),
            },
            Instruction::Movga4(index) => self.movga4(index),
            Instruction::AddImm(rhs) => self.immediate_op(BinaryOp::Add, unsigned32(rhs), true),
            Instruction::SubImm(rhs) => self.immediate_op(BinaryOp::Sub, unsigned32(rhs), true),
            Instruction::MulImm(rhs) => self.immediate_op(BinaryOp::Mul, unsigned32(rhs), true),
            Instruction::Suspend => Ok(self),
            Instruction::Float(_, _) => Ok(self),
            Instruction::Unimplemented(op) => Err(Fault::UnimplementedOpcode(op)),
        }
    }

    /// The event that an instruction ends the run with, once it has taken
    /// effect and left the machine `after`.
    pub open spec fn event(self, inst: Instruction, after: Machine) -> Option<ExecOutcome> {
        match inst {
            Instruction::Ret(_) => if after.status == VmStatus::Returned {
                Some(ExecOutcome::Returned)
            } else {
                None
            },
            Instruction::CallSys(function) => Some(
                ExecOutcome::HostCall(Self::host_index(function) as usize),
            ),
            Instruction::Suspend => Some(ExecOutcome::Suspended),
            _ => None,
        }
    }

    /// The fault `f` as an effect of this machine.
    pub open spec fn fault_effect(self, f: Fault) -> Effect {
        (self.faulted(f), Some(ExecOutcome::Faulted(f)))
    }

    /// One step of a running machine: the next instruction is fetched and
    /// takes effect. A floating-point instruction does not take effect: the
    /// step gives the request for the host and leaves the machine before
    /// the instruction.
    #[verifier::opaque]
    pub open spec fn step(self) -> Effect {
        match self.fetch() {
            Err(f) => self.fault_effect(f),
            Ok(d) => match d.inst {
                Instruction::Float(op, operand) => match self.float_request(op, operand) {
                    Ok(request) => (self, Some(ExecOutcome::Float(request))),
                    Err(f) => self.fault_effect(f),
                },
                inst => match self.with_pc(d.next).perform(inst) {
                    Ok(after) => (after, self.event(inst, after)),
                    Err(f) => self.fault_effect(f),
                },
            },
        }
    }

    /// A run of at most `fuel` instructions: it ends with the first event,
    /// or when the fuel is used up.
    pub open spec fn run(self, fuel: nat) -> (Machine, ExecOutcome)
        decreases fuel,
    {
        if fuel == 0 {
            (self, ExecOutcome::BudgetExhausted)
        } else {
            let (after, event) = self.step();
            match event {
                Some(outcome) => (after, outcome),
                None => after.run((fuel - 1) as nat),
            }
        }
    }

    /// What `execute` does: a running machine runs for its budget, any
    /// other machine stays as it is and says why.
    pub open spec fn execute(self) -> (Machine, ExecOutcome) {
        match self.status {
            VmStatus::Idle => (self, ExecOutcome::Unbound),
            VmStatus::Returned => (self, ExecOutcome::Returned),
            VmStatus::Faulted(f) => (self, ExecOutcome::Faulted(f)),
            VmStatus::Running => self.run(self.budget as nat),
        }
    }

    /// What `complete_float` does with the host's `result`: where the
    /// machine runs and its next instruction is a floating-point one, the
    /// instruction takes effect with that result, or faults; otherwise
    /// nothing was asked for and nothing changes.
    pub open spec fn complete_float(self, result: u64) -> (Machine, Result<(), Fault>) {
        if self.status != VmStatus::Running {
            (self, Err(Fault::NoFloatPending))
        } else {
            match self.fetch() {
                Ok(d) => match d.inst {
                    Instruction::Float(op, _) => match self.with_pc(d.next).float_commit(
                        op,
                        result,
                    ) {
                        Ok(after) => (after, Ok(())),
                        Err(f) => (self.faulted(f), Err(f)),
                    },
                    _ => (self, Err(Fault::NoFloatPending)),
                },
                Err(_) => (self, Err(Fault::NoFloatPending)),
            }
        }
    }

    /// What `pop_stack_i32` does: the top slot is popped and read as a
    /// signed number. Outside the buffer the machine faults.
    pub open spec fn pop_stack_i32(self) -> (Machine, Result<i32, Fault>) {
        let s = self.stack;
        if s.holds(s.sp, 4) {
            (self.with_stack(s.with_sp(s.sp + 4)), Ok(signed32(s.u32_at(s.sp))))
        } else {
            (self.faulted(Fault::StackBoundsViolation), Err(Fault::StackBoundsViolation))
        }
    }

    /// What `push_ret_i32` does: the bits of `value` are pushed. Outside
    /// the buffer the machine faults.
    pub open spec fn push_ret_i32(self, value: i32) -> (Machine, Result<(), Fault>) {
        match self.set4(unsigned32(value)) {
            Ok(after) => (after, Ok(())),
            Err(f) => (self.faulted(f), Err(f)),
        }
    }
}

/// What a function that carries out an instruction does: where the
/// instruction takes effect it gives `Ok` and leaves the machine `after`
/// as the semantics say; where it faults it gives the fault and changes
/// nothing.
pub open spec fn carried_out(
    before: Machine,
    expected: Result<Machine, Fault>,
    r: Result<(), Fault>,
    after: Machine,
) -> bool {
    match expected {
        Ok(m) => r == Ok::<(), Fault>(()) && after =~= m,
        Err(f) => r == Err::<(), Fault>(f) && after =~= before,
    }
}

} // verus!
