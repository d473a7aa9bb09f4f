//! The interpreter: a machine that is bound to one function of a module
//! and runs it until the function returns, yields to the host or faults.

use crate::arith::{
    eval_binary, eval_decrement, eval_increment, eval_quotient, eval_remainder, eval_unary,
    test_condition, BinaryOp, Condition, UnaryOp, Width,
};
use crate::bytes::{to_signed, to_unsigned};
use crate::fault::Fault;
use crate::float::{FloatRequest, Layout};
use crate::global_context::ScriptGlobalContext;
use crate::instruction::{decode_at, Decoded, FloatOp, Instruction};
use crate::machine::{carried_out, CallFrame, ExecOutcome, Machine, VmStatus};
use crate::module::ScriptModule;
use crate::stack::VmStack;
use vstd::prelude::*;

verus! {

/// The size of the stack that `ScriptVm::new` gives a machine.
pub const DEFAULT_STACK_SIZE: usize = 4096;

/// How many instructions one call of `execute` runs at most, unless the
/// host sets another budget.
pub const DEFAULT_INSTRUCTION_BUDGET: u64 = 1_000_000;

/// An interpreter with its own stack, bound to a global context and, once
/// the host has set them, to a module and one of its functions.
pub struct ScriptVm {
    context: ScriptGlobalContext,
    module: Option<ScriptModule>,
    function_index: usize,
    pc: usize,
    stack: VmStack,
    r1: u32,
    r2: u32,
    reg: u32,
    frames: Vec<CallFrame>,
    status: VmStatus,
    budget: u64,
}

impl View for ScriptVm {
    type V = Machine;

    closed spec fn view(&self) -> Machine {
        Machine {
            status: self.status,
            function_index: self.function_index,
            pc: self.pc,
            stack: self.stack@,
            r1: self.r1,
            r2: self.r2,
            acc: self.reg,
            frames: self.frames@,
            budget: self.budget,
            module: match self.module {
                Some(module) => Some(module@),
                None => None,
            },
            context: self.context@,
        }
    }
}

impl ScriptVm {
    /// A machine with a stack of `DEFAULT_STACK_SIZE` bytes: see
    /// `with_stack_size`.
    pub fn new(context: ScriptGlobalContext) -> (vm: ScriptVm)
        ensures
            vm@ == Machine::idle(context@, DEFAULT_STACK_SIZE as nat, DEFAULT_INSTRUCTION_BUDGET),
            vm@.wf(),
    {
        ScriptVm::with_stack_size(context, DEFAULT_STACK_SIZE)
    }

    /// A machine with a stack of `stack_size` zero bytes, all registers zero
    /// and no module: it is idle.
    pub fn with_stack_size(context: ScriptGlobalContext, stack_size: usize) -> (vm: ScriptVm)
        ensures
            vm@ == Machine::idle(context@, stack_size as nat, DEFAULT_INSTRUCTION_BUDGET),
            vm@.wf(),
    {
        let vm = ScriptVm {
            context,
            module: None,
            function_index: 0,
            pc: 0,
            stack: VmStack::new(stack_size),
            r1: 0,
            r2: 0,
            reg: 0,
            frames: Vec::new(),
            status: VmStatus::Idle,
            budget: DEFAULT_INSTRUCTION_BUDGET,
        };
        assert(vm@ =~= Machine::idle(
            context@,
            stack_size as nat,
            DEFAULT_INSTRUCTION_BUDGET,
        ));
        vm.observe();
        vm
    }

    /// Puts the machine at the start of its function, with an empty stack
    /// and no caller waiting.
    fn rebind(&mut self)
        ensures
            final(self)@ == old(self)@.rebound(),
    {
        let len: usize = self.stack.len();
        let moved = self.stack.set_sp(len);
        self.pc = 0;
        self.reg = 0;
        self.frames = Vec::new();
        self.status = if self.module.is_some() {
            VmStatus::Running
        } else {
            VmStatus::Idle
        };
        assert(self@ =~= old(self)@.rebound());
    }

    /// Binds the machine to `module` and to the function whose index was set
    /// last, function 0 if none was: it runs from that function's start.
    pub fn set_module(&mut self, module: ScriptModule)
        ensures
            final(self)@ == old(self)@.with_module(Some(module@)).rebound(),
            final(self)@.wf(),
    {
        self.module = Some(module);
        self.rebind();
        self.observe();
    }

    /// Binds the machine to the function at `index` of its module: it runs
    /// from that function's start, or stays idle while it has no module.
    pub fn set_function(&mut self, index: usize)
        ensures
            final(self)@ == (Machine { function_index: index, ..old(self)@ }).rebound(),
            final(self)@.wf(),
    {
        self.function_index = index;
        self.rebind();
        self.observe();
    }

    /// Observes that the machine's state is well formed.
    fn observe(&self)
        ensures
            self@.wf(),
    {
        let len: usize = self.stack.len();
        proof {
            if self.module is Some {
                self.module->Some_0.lemma_code_fits();
            }
        }
    }

    /// Records the fault `f` and gives the outcome that reports it.
    fn fail(&mut self, f: Fault) -> (outcome: ExecOutcome)
        ensures
            final(self)@ == old(self)@.faulted(f),
            outcome == ExecOutcome::Faulted(f),
    {
        self.status = VmStatus::Faulted(f);
        ExecOutcome::Faulted(f)
    }

    fn pop(&mut self, size: u16) -> (r: Result<(), Fault>)
        ensures
            carried_out(old(self)@, old(self)@.pop(size), r, final(self)@),
    {
        self.stack.release(size as usize)
    }

    fn push(&mut self, size: u16) -> (r: Result<(), Fault>)
        ensures
            carried_out(old(self)@, old(self)@.push(size), r, final(self)@),
    {
        self.stack.reserve(size as usize)
    }

    fn set4(&mut self, data: u32) -> (r: Result<(), Fault>)
        ensures
            carried_out(old(self)@, old(self)@.set4(data), r, final(self)@),
    {
        self.stack.push_u32(data)
    }

    fn set8(&mut self, data: u64) -> (r: Result<(), Fault>)
        ensures
            carried_out(old(self)@, old(self)@.set8(data), r, final(self)@),
    {
        self.stack.push_u64(data)
    }

    fn set_pair(&mut self, lower: u32, upper: u32) -> (r: Result<(), Fault>)
        ensures
            carried_out(old(self)@, old(self)@.set_pair(lower, upper), r, final(self)@),
    {
        let sp: usize = self.stack.sp();
        if sp < 8 {
            return Err(Fault::StackBoundsViolation);
        }
        self.stack.push_u32(upper)?;
        self.stack.push_u32(lower)
    }

    fn rd4(&mut self) -> (r: Result<(), Fault>)
        ensures
            carried_out(old(self)@, old(self)@.rd4(), r, final(self)@),
    {
        let sp: usize = self.stack.sp();
        let pos: usize = self.stack.read_u32(sp)? as usize;
        let data: u32 = self.stack.read_u32(pos)?;
        self.stack.write_u32(sp, data)
    }

    fn rd8(&mut self) -> (r: Result<(), Fault>)
        ensures
            carried_out(old(self)@, old(self)@.rd8(), r, final(self)@),
    {
        let sp: usize = self.stack.sp();
        let pos: usize = self.stack.read_u32(sp)? as usize;
        let data: u64 = self.stack.read_u64(pos)?;
        self.stack.reserve(4)?;
        self.stack.write_u64(sp - 4, data)
    }

    fn wrt4(&mut self) -> (r: Result<(), Fault>)
        ensures
            carried_out(old(self)@, old(self)@.wrt4(), r, final(self)@),
    {
        let sp: usize = self.stack.sp();
        if !self.stack.holds(sp, 8) {
            return Err(Fault::StackBoundsViolation);
        }
        let pos: usize = self.stack.read_u32(sp)? as usize;
        let data: u32 = self.stack.read_u32(sp + 4)?;
        self.stack.write_u32(pos, data)?;
        self.stack.release(4)
    }

    fn wrt8(&mut self) -> (r: Result<(), Fault>)
        ensures
            carried_out(old(self)@, old(self)@.wrt8(), r, final(self)@),
    {
        let sp: usize = self.stack.sp();
        if !self.stack.holds(sp, 12) {
            return Err(Fault::StackBoundsViolation);
        }
        let pos: usize = self.stack.read_u32(sp)? as usize;
        let data: u64 = self.stack.read_u64(sp + 4)?;
        self.stack.write_u64(pos, data)?;
        self.stack.release(4)
    }

    fn mov4(&mut self) -> (r: Result<(), Fault>)
        ensures
            carried_out(old(self)@, old(self)@.mov4(), r, final(self)@),
    {
        self.wrt4()?;
        self.pop(4)
    }

    /// The offset of frame slot `index`, where the buffer reaches that far.
    fn frame_slot(&self, index: u16) -> (r: Option<usize>)
        ensures
            match r {
                Some(slot) => slot == self@.frame_slot(index),
                None => self@.frame_slot(index) < 0,
            },
    {
        let len: usize = self.stack.len();
        let offset: usize = 4 * (index as usize);
        if offset <= len {
            Some(len - offset)
        } else {
            None
        }
    }

    fn rdsf4(&mut self, index: u16) -> (r: Result<(), Fault>)
        ensures
            carried_out(old(self)@, old(self)@.rdsf4(index), r, final(self)@),
    {
        match self.frame_slot(index) {
            Some(slot) => {
                let data: u32 = self.stack.read_u32(slot)?;
                self.stack.push_u32(data)
            },
            None => Err(Fault::StackBoundsViolation),
        }
    }

    fn psf(&mut self, index: u16) -> (r: Result<(), Fault>)
        ensures
            carried_out(old(self)@, old(self)@.psf(index), r, final(self)@),
    {
        match self.frame_slot(index) {
            Some(slot) => {
                if slot > u32::MAX as usize {
                    return Err(Fault::StackBoundsViolation);
                }
                self.stack.push_u32(slot as u32)
            },
            None => Err(Fault::StackBoundsViolation),
        }
    }

    fn movsf4(&mut self, index: u16) -> (r: Result<(), Fault>)
        ensures
            carried_out(old(self)@, old(self)@.movsf4(index), r, final(self)@),
    {
        match self.frame_slot(index) {
            Some(slot) => {
                if !self.stack.holds(slot, 4) {
                    return Err(Fault::StackBoundsViolation);
                }
                self.stack.release(4)
            },
            None => Err(Fault::StackBoundsViolation),
        }
    }

    fn swap4(&mut self) -> (r: Result<(), Fault>)
        ensures
            carried_out(old(self)@, old(self)@.swap4(), r, final(self)@),
    {
        let sp: usize = self.stack.sp();
        if !self.stack.holds(sp, 8) {
            return Err(Fault::StackBoundsViolation);
        }
        let data: u32 = self.stack.read_u32(sp)?;
        let data2: u32 = self.stack.read_u32(sp + 4)?;
        self.stack.write_u32(sp, data2)?;
        self.stack.write_u32(sp + 4, data)
    }

    fn swap8(&mut self) -> (r: Result<(), Fault>)
        ensures
            carried_out(old(self)@, old(self)@.swap8(), r, final(self)@),
    {
        let sp: usize = self.stack.sp();
        if !self.stack.holds(sp, 16) {
            return Err(Fault::StackBoundsViolation);
        }
        let data: u64 = self.stack.read_u64(sp)?;
        let data2: u64 = self.stack.read_u64(sp + 8)?;
        self.stack.write_u64(sp, data2)?;
        self.stack.write_u64(sp + 8, data)
    }

    fn store4(&mut self) -> (r: Result<(), Fault>)
        ensures
            carried_out(old(self)@, old(self)@.store4(), r, final(self)@),
    {
        let data: u32 = self.stack.pop_u32()?;
        self.reg = data;
        Ok(())
    }

    fn recall4(&mut self) -> (r: Result<(), Fault>)
        ensures
            carried_out(old(self)@, old(self)@.recall4(), r, final(self)@),
    {
        self.stack.push_u32(self.reg)
    }

    fn sret4(&mut self) -> (r: Result<(), Fault>)
        ensures
            carried_out(old(self)@, old(self)@.sret4(), r, final(self)@),
    {
        let data: u32 = self.stack.pop_u32()?;
        self.r1 = data;
        Ok(())
    }

    fn sret8(&mut self) -> (r: Result<(), Fault>)
        ensures
            carried_out(old(self)@, old(self)@.sret8(), r, final(self)@),
    {
        let sp: usize = self.stack.sp();
        if !self.stack.holds(sp, 8) {
            return Err(Fault::StackBoundsViolation);
        }
        let low: u32 = self.stack.pop_u32()?;
        let high: u32 = self.stack.pop_u32()?;
        self.r1 = low;
        self.r2 = high;
        Ok(())
    }

    fn rret4(&mut self) -> (r: Result<(), Fault>)
        ensures
            carried_out(old(self)@, old(self)@.rret4(), r, final(self)@),
    {
        self.stack.push_u32(self.r1)
    }

    fn rret8(&mut self) -> (r: Result<(), Fault>)
        ensures
            carried_out(old(self)@, old(self)@.rret8(), r, final(self)@),
    {
        self.set_pair(self.r1, self.r2)
    }
}

impl ScriptVm {
    fn unary_op(&mut self, op: UnaryOp) -> (r: Result<(), Fault>)
        ensures
            carried_out(old(self)@, old(self)@.unary_op(op), r, final(self)@),
    {
        let sp: usize = self.stack.sp();
        let data: u32 = self.stack.read_u32(sp)?;
        self.stack.write_u32(sp, eval_unary(op, data))
    }

    /// Replaces the two top slots by `value`.
    fn replace_two(&mut self, value: u32)
        requires
            old(self)@.stack.holds(old(self)@.sp(), 8),
        ensures
            final(self)@ == old(self)@.replace_two(value),
    {
        let sp: usize = self.stack.sp();
        let within = self.stack.holds(sp, 8);
        let released = self.stack.release(4);
        let stored = self.stack.write_u32(sp + 4, value);
        assert(self@ =~= old(self)@.replace_two(value));
    }

    fn binary_op(&mut self, op: BinaryOp) -> (r: Result<(), Fault>)
        ensures
            carried_out(old(self)@, old(self)@.binary_op(op), r, final(self)@),
    {
        let sp: usize = self.stack.sp();
        if !self.stack.holds(sp, 8) {
            return Err(Fault::StackBoundsViolation);
        }
        let data: u32 = self.stack.read_u32(sp)?;
        let data2: u32 = self.stack.read_u32(sp + 4)?;
        self.replace_two(eval_binary(op, data, data2));
        Ok(())
    }

    fn div(&mut self) -> (r: Result<(), Fault>)
        ensures
            carried_out(old(self)@, old(self)@.div(), r, final(self)@),
            old(self)@.stack.holds(old(self)@.sp(), 4) && old(self)@.stack.u32_at(old(self)@.sp())
                == 0 ==> r == Err::<(), Fault>(Fault::DivideByZero),
    {
        let sp: usize = self.stack.sp();
        let data1: u32 = self.stack.read_u32(sp)?;
        if data1 == 0 {
            return Err(Fault::DivideByZero);
        }
        if !self.stack.holds(sp, 8) {
            return Err(Fault::StackBoundsViolation);
        }
        let data2: u32 = self.stack.read_u32(sp + 4)?;
        match eval_quotient(data1, data2) {
            Some(value) => {
                self.replace_two(value);
                Ok(())
            },
            None => Err(Fault::DivideByZero),
        }
    }

    fn xmod(&mut self) -> (r: Result<(), Fault>)
        ensures
            carried_out(old(self)@, old(self)@.xmod(), r, final(self)@),
            old(self)@.stack.holds(old(self)@.sp(), 4) && old(self)@.stack.u32_at(old(self)@.sp())
                == 0 ==> r == Err::<(), Fault>(Fault::DivideByZero),
    {
        let sp: usize = self.stack.sp();
        let data1: u32 = self.stack.read_u32(sp)?;
        if data1 == 0 {
            return Err(Fault::DivideByZero);
        }
        if !self.stack.holds(sp, 8) {
            return Err(Fault::StackBoundsViolation);
        }
        let data2: u32 = self.stack.read_u32(sp + 4)?;
        match eval_remainder(data1, data2) {
            Some(value) => {
                self.replace_two(value);
                Ok(())
            },
            None => Err(Fault::DivideByZero),
        }
    }

    fn immediate_op(&mut self, op: BinaryOp, operand: u32, operand_first: bool) -> (r: Result<
        (),
        Fault,
    >)
        ensures
            carried_out(
                old(self)@,
                old(self)@.immediate_op(op, operand, operand_first),
                r,
                final(self)@,
            ),
    {
        let sp: usize = self.stack.sp();
        let data: u32 = self.stack.read_u32(sp)?;
        let value: u32 = if operand_first {
            eval_binary(op, operand, data)
        } else {
            eval_binary(op, data, operand)
        };
        self.stack.write_u32(sp, value)
    }

    fn inc(&mut self, w: Width) -> (r: Result<(), Fault>)
        ensures
            carried_out(old(self)@, old(self)@.inc(w), r, final(self)@),
    {
        let sp: usize = self.stack.sp();
        let pos: usize = self.stack.read_u32(sp)? as usize;
        match w {
            Width::Byte => {
                let data: u8 = self.stack.read_u8(pos)?;
                self.stack.write_u8(pos, eval_increment(w, data as u32) as u8)
            },
            Width::Word => {
                let data: u16 = self.stack.read_u16(pos)?;
                self.stack.write_u16(pos, eval_increment(w, data as u32) as u16)
            },
            Width::Long => {
                let data: u32 = self.stack.read_u32(pos)?;
                self.stack.write_u32(pos, eval_increment(w, data))
            },
        }
    }

    fn dec(&mut self, w: Width) -> (r: Result<(), Fault>)
        ensures
            carried_out(old(self)@, old(self)@.dec(w), r, final(self)@),
    {
        let sp: usize = self.stack.sp();
        let pos: usize = self.stack.read_u32(sp)? as usize;
        match w {
            Width::Byte => {
                let data: u8 = self.stack.read_u8(pos)?;
                self.stack.write_u8(pos, eval_decrement(w, data as u32) as u8)
            },
            Width::Word => {
                let data: u16 = self.stack.read_u16(pos)?;
                self.stack.write_u16(pos, eval_decrement(w, data as u32) as u16)
            },
            Width::Long => {
                let data: u32 = self.stack.read_u32(pos)?;
                self.stack.write_u32(pos, eval_decrement(w, data))
            },
        }
    }

    fn copy(&mut self, count: u16) -> (r: Result<(), Fault>)
        ensures
            carried_out(old(self)@, old(self)@.copy(count), r, final(self)@),
    {
        let sp: usize = self.stack.sp();
        if !self.stack.holds(sp, 8) {
            return Err(Fault::StackBoundsViolation);
        }
        let dst: usize = self.stack.read_u32(sp)? as usize;
        let src: usize = self.stack.read_u32(sp + 4)? as usize;
        self.stack.copy_within(src, dst, count as usize)?;
        self.stack.release(4)
    }

    /// The length of the code of the function that runs.
    fn code_len(&self) -> (n: usize)
        ensures
            n == self@.code().len(),
    {
        match &self.module {
            Some(module) => {
                if self.function_index < module.function_count() {
                    module.function(self.function_index).inst.len()
                } else {
                    0
                }
            },
            None => 0,
        }
    }

    fn jump(&mut self, offset: i64) -> (r: Result<(), Fault>)
        requires
            -0x8_0000_0000 <= offset <= 0x8_0000_0000,
        ensures
            carried_out(old(self)@, old(self)@.jump(offset as int), r, final(self)@),
    {
        let len: usize = self.code_len();
        let pc: usize = self.pc;
        if offset >= 0 {
            if pc > len || offset as u64 > (len - pc) as u64 {
                return Err(Fault::CodeBoundsViolation);
            }
            self.pc = pc + offset as usize;
        } else {
            let back: u64 = (-offset) as u64;
            if back > pc as u64 || pc - back as usize > len {
                return Err(Fault::CodeBoundsViolation);
            }
            self.pc = pc - back as usize;
        }
        Ok(())
    }

    fn jmp(&mut self, offset: i32) -> (r: Result<(), Fault>)
        ensures
            carried_out(old(self)@, old(self)@.jmp(offset), r, final(self)@),
    {
        self.jump(offset as i64)
    }

    fn j(&mut self, offset: i32, c: Condition) -> (r: Result<(), Fault>)
        ensures
            carried_out(old(self)@, old(self)@.j(offset, c), r, final(self)@),
    {
        let sp: usize = self.stack.sp();
        let data: u32 = self.stack.read_u32(sp)?;
        if test_condition(c, data) {
            self.jump(offset as i64)?;
        }
        let popped = self.stack.release(4);
        assert(self@ =~= old(self)@.j(offset, c)->Ok_0);
        popped
    }

    fn jz(&mut self, offset: i32) -> (r: Result<(), Fault>)
        ensures
            carried_out(old(self)@, old(self)@.jz(offset), r, final(self)@),
    {
        self.j(offset, Condition::Zero)
    }

    fn jnz(&mut self, offset: i32) -> (r: Result<(), Fault>)
        ensures
            carried_out(old(self)@, old(self)@.jnz(offset), r, final(self)@),
    {
        self.j(offset, Condition::NonZero)
    }

    fn jmpp(&mut self) -> (r: Result<(), Fault>)
        ensures
            carried_out(old(self)@, old(self)@.jmpp(), r, final(self)@),
    {
        let sp: usize = self.stack.sp();
        let data: u32 = self.stack.read_u32(sp)?;
        self.jump(8 * (to_signed(data) as i64))?;
        let popped = self.stack.release(4);
        assert(self@ =~= old(self)@.jmpp()->Ok_0);
        popped
    }

    fn call(&mut self, function: u32) -> (r: Result<(), Fault>)
        ensures
            carried_out(old(self)@, old(self)@.call(function), r, final(self)@),
    {
        let known: bool = match &self.module {
            Some(module) => (function as usize) < module.function_count(),
            None => false,
        };
        if !known {
            return Err(Fault::UnknownFunction);
        }
        let frame = CallFrame {
            function_index: self.function_index,
            pc: self.pc,
            boundary: self.stack.sp(),
            acc: self.reg,
        };
        self.frames.push(frame);
        self.function_index = function as usize;
        self.pc = 0;
        self.reg = 0;
        assert(self@ =~= old(self)@.call(function)->Ok_0);
        Ok(())
    }

    fn ret(&mut self, param_size: u16) -> (r: Result<(), Fault>)
        ensures
            carried_out(old(self)@, old(self)@.ret(param_size), r, final(self)@),
    {
        let depth: usize = self.frames.len();
        if depth == 0 {
            self.stack.release(param_size as usize)?;
            self.status = VmStatus::Returned;
            Ok(())
        } else {
            let frame: CallFrame = self.frames[depth - 1];
            let len: usize = self.stack.len();
            if frame.boundary > len || param_size as usize > len - frame.boundary {
                return Err(Fault::StackBoundsViolation);
            }
            let moved = self.stack.set_sp(frame.boundary + param_size as usize);
            let dropped = self.frames.pop();
            self.function_index = frame.function_index;
            self.pc = frame.pc;
            self.reg = frame.acc;
            assert(self@ =~= old(self)@.ret(param_size)->Ok_0);
            Ok(())
        }
    }

    fn callsys(&self, function: i32) -> (r: Result<usize, Fault>)
        ensures
            r == self@.callsys(function),
            r is Ok ==> r->Ok_0 == Machine::host_index(function),
    {
        let index: i64 = -(function as i64) - 1;
        if index >= 0 && (index as u64) < self.context.function_count() as u64 {
            Ok(index as usize)
        } else {
            Err(Fault::UnknownHostFunction)
        }
    }

    /// The value of the global that `index` names.
    fn global(&self, index: i32) -> (r: Result<u32, Fault>)
        ensures
            r == self@.global(index),
    {
        if index > 0 {
            match &self.module {
                Some(module) => module.global_slot(index as usize),
                None => Err(Fault::GlobalBoundsViolation),
            }
        } else {
            let slot: i64 = -(index as i64) - 1;
            if slot < 0 {
                Err(Fault::GlobalBoundsViolation)
            } else {
                self.context.var(slot as usize)
            }
        }
    }

    /// Stores `value` in the global that `index` names.
    fn set_global(&mut self, index: i32, value: u32) -> (r: Result<(), Fault>)
        ensures
            old(self)@.global(index) is Ok ==> r is Ok && final(self)@ == old(self)@.with_global(
                index,
                value,
            ),
            old(self)@.global(index) is Err ==> r == Err::<(), Fault>(Fault::GlobalBoundsViolation)
                && final(self)@ == old(self)@,
    {
        if index > 0 {
            match &mut self.module {
                Some(module) => {
                    let stored = module.set_global_slot(index as usize, value);
                    stored
                },
                None => Err(Fault::GlobalBoundsViolation),
            }
        } else {
            let slot: i64 = -(index as i64) - 1;
            if slot < 0 {
                Err(Fault::GlobalBoundsViolation)
            } else {
                self.context.set_var(slot as usize, value)
            }
        }
    }

    fn pga(&mut self, index: i32) -> (r: Result<(), Fault>)
        ensures
            carried_out(old(self)@, old(self)@.pga(index), r, final(self)@),
    {
        let data: u32 = self.global(index)?;
        self.stack.push_u32(data)
    }

    fn movga4(&mut self, index: i32) -> (r: Result<(), Fault>)
        ensures
            carried_out(old(self)@, old(self)@.movga4(index), r, final(self)@),
    {
        let sp: usize = self.stack.sp();
        let data: u32 = self.stack.read_u32(sp)?;
        self.set_global(index, data)?;
        let popped = self.stack.release(4);
        assert(self@ =~= old(self)@.movga4(index)->Ok_0);
        popped
    }

    fn str(&mut self, index: u16) -> (r: Result<(), Fault>)
        ensures
            carried_out(old(self)@, old(self)@.str(index), r, final(self)@),
    {
        let length: usize = match &self.module {
            Some(module) => {
                match module.string(index as usize) {
                    Ok(string) => string.len(),
                    Err(f) => {
                        return Err(Fault::UnknownString);
                    },
                }
            },
            None => {
                return Err(Fault::UnknownString);
            },
        };
        if length > u32::MAX as usize {
            return Err(Fault::UnknownString);
        }
        self.set_pair(length as u32, index as u32)
    }
}

impl ScriptVm {
    /// The value of `width` bytes at `pos`, widened.
    fn read_bits(&self, pos: usize, width: usize) -> (r: Result<u64, Fault>)
        requires
            width == 4 || width == 8,
        ensures
            r == crate::stack::checked(
                self@.stack.holds(pos as int, width as int),
                Machine::bits_at(self@.stack, pos as int, width as int),
            ),
    {
        if width == 4 {
            let low: u32 = self.stack.read_u32(pos)?;
            Ok(low as u64)
        } else {
            self.stack.read_u64(pos)
        }
    }

    /// Stores the low `width` bytes of `bits` at `pos`.
    fn write_bits(&mut self, pos: usize, width: usize, bits: u64) -> (r: Result<(), Fault>)
        requires
            width == 4 || width == 8,
        ensures
            carried_out(
                old(self)@,
                if old(self)@.stack.holds(pos as int, width as int) {
                    Ok(
                        old(self)@.with_stack(
                            Machine::with_bits(old(self)@.stack, pos as int, width as int, bits),
                        ),
                    )
                } else {
                    Err(Fault::StackBoundsViolation)
                },
                r,
                final(self)@,
            ),
    {
        if width == 4 {
            self.stack.write_u32(pos, (bits % 0x1_0000_0000) as u32)
        } else {
            self.stack.write_u64(pos, bits)
        }
    }

    /// Where the operands of a floating-point instruction lie.
    fn float_base(&self, l: Layout) -> (r: Result<usize, Fault>)
        requires
            l.operand_width == 4 || l.operand_width == 8,
            l.result_width == 4 || l.result_width == 8,
            l.indirect ==> !l.binary,
        ensures
            match self@.float_base(l) {
                Ok(base) => r == Ok::<usize, Fault>(base as usize) && base == r->Ok_0,
                Err(f) => r == Err::<usize, Fault>(f),
            },
            r is Ok ==> self@.stack.holds(r->Ok_0 as int, l.span()) && r->Ok_0 + l.span()
                <= usize::MAX,
    {
        let sp: usize = self.stack.sp();
        if l.indirect {
            let pos: usize = self.stack.read_u32(sp)? as usize;
            if !self.stack.holds(pos, l.operand_width) {
                return Err(Fault::StackBoundsViolation);
            }
            Ok(pos)
        } else {
            let first: u64 = self.read_bits(sp, l.operand_width)?;
            if l.divides {
                let zero: bool = if l.operand_width == 4 {
                    first == 0 || first == 0x8000_0000
                } else {
                    first == 0 || first == 0x8000_0000_0000_0000
                };
                if zero {
                    return Err(Fault::DivideByZero);
                }
            }
            let span: usize = if l.binary {
                2 * l.operand_width
            } else {
                l.operand_width
            };
            if !self.stack.holds(sp, span) || sp + span < l.result_width {
                return Err(Fault::StackBoundsViolation);
            }
            Ok(sp)
        }
    }

    fn float_request(&self, op: FloatOp, operand: u32) -> (r: Result<FloatRequest, Fault>)
        ensures
            r == self@.float_request(op, operand),
    {
        let l: Layout = Layout::for_op(op);
        let base: usize = self.float_base(l)?;
        let first: u64 = self.read_bits(base, l.operand_width)?;
        let second: u64 = if l.immediate {
            operand as u64
        } else if l.binary {
            self.read_bits(base + l.operand_width, l.operand_width)?
        } else {
            0
        };
        Ok(FloatRequest { op, first, second })
    }

    fn float_commit(&mut self, op: FloatOp, result: u64) -> (r: Result<(), Fault>)
        ensures
            carried_out(old(self)@, old(self)@.float_commit(op, result), r, final(self)@),
    {
        let l: Layout = Layout::for_op(op);
        let base: usize = self.float_base(l)?;
        if l.indirect {
            self.write_bits(base, l.result_width, result)
        } else {
            let span: usize = if l.binary {
                2 * l.operand_width
            } else {
                l.operand_width
            };
            let top: usize = base + span - l.result_width;
            self.stack.set_sp(top)?;
            let stored = self.write_bits(top, l.result_width, result);
            assert(self@ =~= old(self)@.float_commit(op, result)->Ok_0);
            stored
        }
    }

    /// Carries out an instruction other than a floating-point one, on a
    /// machine whose program counter has passed it, and gives the event
    /// that the instruction ends the run with.
    fn perform(&mut self, inst: Instruction) -> (r: Result<Option<ExecOutcome>, Fault>)
        ensures
            match old(self)@.perform(inst) {
                Ok(after) => r == Ok::<Option<ExecOutcome>, Fault>(old(self)@.event(inst, after))
                    && final(self)@ =~= after,
                Err(f) => r == Err::<Option<ExecOutcome>, Fault>(f) && final(self)@ =~= old(
                    self,
                )@,
            },
    {
        match inst {
            Instruction::Pop(size) => self.pop(size)?,
            Instruction::Push(size) => self.push(size)?,
            Instruction::Set4(data) => self.set4(data)?,
            Instruction::Rd4 => self.rd4()?,
            Instruction::Rdsf4(index) => self.rdsf4(index)?,
            Instruction::Wrt4 => self.wrt4()?,
            Instruction::Mov4 => self.mov4()?,
            Instruction::Psf(index) => self.psf(index)?,
            Instruction::Movsf4(index) => self.movsf4(index)?,
            Instruction::Swap4 => self.swap4()?,
            Instruction::Store4 => self.store4()?,
            Instruction::Recall4 => self.recall4()?,
            Instruction::Call(function) => self.call(function)?,
            Instruction::Ret(param_size) => {
                self.ret(param_size)?;
                return Ok(
                    match self.status {
                        VmStatus::Returned => Some(ExecOutcome::Returned),
                        _ => None,
                    },
                );
            },
            Instruction::Jmp(offset) => self.jmp(offset)?,
            Instruction::Jz(offset) => self.jz(offset)?,
            Instruction::Jnz(offset) => self.jnz(offset)?,
            Instruction::Unary(op) => self.unary_op(op)?,
            Instruction::Binary(op) => self.binary_op(op)?,
            Instruction::Div => self.div()?,
            Instruction::Rem => self.xmod()?,
            Instruction::Inc(w) => self.inc(w)?,
            Instruction::Dec(w) => self.dec(w)?,
            Instruction::PushZero => self.set4(0)?,
            Instruction::Copy(count) => self.copy(count)?,
            Instruction::Pga(index) => self.pga(index)?,
            Instruction::Set8(data) => self.set8(data)?,
            Instruction::Wrt8 => self.wrt8()?,
            Instruction::Rd8 => self.rd8()?,
            Instruction::Swap8 => self.swap8()?,
            Instruction::Jmpp => self.jmpp()?,
            Instruction::Sret4 => self.sret4()?,
            Instruction::Sret8 => self.sret8()?,
            Instruction::Rret4 => self.rret4()?,
            Instruction::Rret8 => self.rret8()?,
            Instruction::Str(index) => self.str(index)?,
            Instruction::Branch(c, offset) => self.j(offset, c)?,
            Instruction::CompareImmSigned(rhs) => self.immediate_op(
                BinaryOp::CompareSigned,
                to_unsigned(rhs),
                false,
            )?,
            Instruction::CompareImmUnsigned(rhs) => self.immediate_op(
                BinaryOp::CompareUnsigned,
                rhs,
                false,
            )?,
            Instruction::CallSys(function) => {
                let index: usize = self.callsys(function)?;
                return Ok(Some(ExecOutcome::HostCall(index)));
            },
            Instruction::Movga4(index) => self.movga4(index)?,
            Instruction::AddImm(rhs) => self.immediate_op(BinaryOp::Add, to_unsigned(rhs), true)?,
            Instruction::SubImm(rhs) => self.immediate_op(BinaryOp::Sub, to_unsigned(rhs), true)?,
            Instruction::MulImm(rhs) => self.immediate_op(BinaryOp::Mul, to_unsigned(rhs), true)?,
            Instruction::Suspend => {
                return Ok(Some(ExecOutcome::Suspended));
            },
            // a floating-point instruction is the host's: see `step`
            Instruction::Float(_, _) => {},
            Instruction::Unimplemented(op) => {
                return Err(Fault::UnimplementedOpcode(op));
            },
        }
        Ok(None)
    }

    /// The next instruction.
    fn fetch(&self) -> (r: Result<Decoded, Fault>)
        ensures
            r == self@.fetch(),
    {
        match &self.module {
            Some(module) => {
                if self.function_index < module.function_count() {
                    decode_at(&module.function(self.function_index).inst, self.pc)
                } else {
                    Err(Fault::UnknownFunction)
                }
            },
            None => Err(Fault::UnknownFunction),
        }
    }

    /// Runs one instruction and gives the event that ends the run, if the
    /// instruction gives one.
    fn step(&mut self) -> (event: Option<ExecOutcome>)
        ensures
            final(self)@ == old(self)@.step().0,
            event == old(self)@.step().1,
    {
        reveal(Machine::step);
        let d: Decoded = match self.fetch() {
            Ok(d) => d,
            Err(f) => {
                return Some(self.fail(f));
            },
        };
        match d.inst {
            Instruction::Float(op, operand) => {
                match self.float_request(op, operand) {
                    Ok(request) => Some(ExecOutcome::Float(request)),
                    Err(f) => Some(self.fail(f)),
                }
            },
            inst => {
                let pc: usize = self.pc;
                self.pc = d.next;
                match self.perform(inst) {
                    Ok(event) => event,
                    Err(f) => {
                        self.pc = pc;
                        assert(self@ =~= old(self)@);
                        Some(self.fail(f))
                    },
                }
            },
        }
    }

    /// Runs the bound function: until it returns, yields to the host or
    /// faults, and for no more instructions than the budget allows.
    ///
    /// A machine that is not running is left as it is, and the outcome says
    /// why it does not run.
    pub fn execute(&mut self) -> (outcome: ExecOutcome)
        ensures
            final(self)@ == old(self)@.execute().0,
            outcome == old(self)@.execute().1,
            final(self)@.wf(),
    {
        let outcome = self.run();
        self.observe();
        outcome
    }

    /// Runs a running machine for its budget.
    fn run(&mut self) -> (outcome: ExecOutcome)
        ensures
            final(self)@ == old(self)@.execute().0,
            outcome == old(self)@.execute().1,
    {
        match self.status {
            VmStatus::Idle => ExecOutcome::Unbound,
            VmStatus::Returned => ExecOutcome::Returned,
            VmStatus::Faulted(f) => ExecOutcome::Faulted(f),
            VmStatus::Running => {
                let mut fuel: u64 = self.budget;
                while fuel > 0
                    invariant
                        old(self)@.status == VmStatus::Running,
                        self@.run(fuel as nat) == old(self)@.run(old(self)@.budget as nat),
                    decreases fuel,
                {
                    match self.step() {
                        Some(outcome) => {
                            return outcome;
                        },
                        None => {},
                    }
                    fuel = fuel - 1;
                }
                ExecOutcome::BudgetExhausted
            },
        }
    }

    /// Puts the host's result of the pending floating-point instruction in
    /// its place and moves past the instruction.
    ///
    /// Where the machine does not run, or its next instruction is no
    /// floating-point one, nothing was asked for: nothing changes. Where
    /// the instruction faults, the machine has faulted.
    pub fn complete_float(&mut self, result: u64) -> (r: Result<(), Fault>)
        ensures
            final(self)@ == old(self)@.complete_float(result).0,
            r == old(self)@.complete_float(result).1,
            final(self)@.wf(),
    {
        let r = self.commit(result);
        self.observe();
        r
    }

    /// Puts `result` in the place of the pending instruction's operands.
    fn commit(&mut self, result: u64) -> (r: Result<(), Fault>)
        ensures
            final(self)@ == old(self)@.complete_float(result).0,
            r == old(self)@.complete_float(result).1,
    {
        match self.status {
            VmStatus::Running => {},
            _ => {
                return Err(Fault::NoFloatPending);
            },
        }
        let d: Decoded = match self.fetch() {
            Ok(d) => d,
            Err(f) => {
                return Err(Fault::NoFloatPending);
            },
        };
        match d.inst {
            Instruction::Float(op, _) => {
                let pc: usize = self.pc;
                self.pc = d.next;
                match self.float_commit(op, result) {
                    Ok(()) => Ok(()),
                    Err(f) => {
                        self.pc = pc;
                        assert(self@ =~= old(self)@);
                        self.status = VmStatus::Faulted(f);
                        Err(f)
                    },
                }
            },
            _ => Err(Fault::NoFloatPending),
        }
    }

    /// Pops the top slot and gives it as a signed number: the way a host
    /// function takes an argument. Outside the stack the machine faults.
    pub fn pop_stack_i32(&mut self) -> (r: Result<i32, Fault>)
        ensures
            final(self)@ == old(self)@.pop_stack_i32().0,
            r == old(self)@.pop_stack_i32().1,
            final(self)@.wf(),
    {
        let r = match self.stack.pop_u32() {
            Ok(data) => {
                assert(self@ =~= old(self)@.pop_stack_i32().0);
                Ok(to_signed(data))
            },
            Err(f) => {
                self.status = VmStatus::Faulted(f);
                Err(f)
            },
        };
        self.observe();
        r
    }

    /// Pushes a signed number: the way a host function gives its result.
    /// Outside the stack the machine faults.
    pub fn push_ret_i32(&mut self, ret: i32) -> (r: Result<(), Fault>)
        ensures
            final(self)@ == old(self)@.push_ret_i32(ret).0,
            r == old(self)@.push_ret_i32(ret).1,
            final(self)@.wf(),
    {
        let r = match self.set4(to_unsigned(ret)) {
            Ok(()) => Ok(()),
            Err(f) => {
                self.status = VmStatus::Faulted(f);
                Err(f)
            },
        };
        self.observe();
        r
    }
}

impl ScriptVm {
    /// Sets how many instructions one call of `execute` may run.
    pub fn set_instruction_budget(&mut self, budget: u64)
        ensures
            final(self)@ == old(self)@.with_budget(budget),
            final(self)@.wf(),
    {
        self.budget = budget;
        self.observe();
    }

    pub fn instruction_budget(&self) -> (budget: u64)
        ensures
            budget == self@.budget,
    {
        self.budget
    }

    pub fn status(&self) -> (status: VmStatus)
        ensures
            status == self@.status,
    {
        self.status
    }

    pub fn function_index(&self) -> (index: usize)
        ensures
            index == self@.function_index,
    {
        self.function_index
    }

    /// The offset of the next instruction.
    pub fn pc(&self) -> (pc: usize)
        ensures
            pc == self@.pc,
    {
        self.pc
    }

    /// The stack pointer, which never leaves the stack buffer.
    pub fn sp(&self) -> (sp: usize)
        ensures
            sp == self@.sp(),
            sp <= self@.stack_len(),
    {
        self.stack.sp()
    }

    /// The size of the stack buffer.
    pub fn stack_len(&self) -> (len: usize)
        ensures
            len == self@.stack_len(),
    {
        self.stack.len()
    }

    /// The 32-bit value at offset `pos` of the stack buffer.
    pub fn stack_u32(&self, pos: usize) -> (r: Result<u32, Fault>)
        ensures
            r == crate::stack::checked(
                self@.stack.holds(pos as int, 4),
                self@.stack.u32_at(pos as int),
            ),
    {
        self.stack.read_u32(pos)
    }

    /// The 32-bit result that the script left in the first return register.
    pub fn ret_u32(&self) -> (value: u32)
        ensures
            value == self@.r1,
    {
        self.r1
    }

    /// The 64-bit result that the script left in the two return registers,
    /// the first register holding the low half.
    pub fn ret_u64(&self) -> (value: u64)
        ensures
            value == self@.ret64(),
    {
        self.r1 as u64 + (self.r2 as u64) * 0x1_0000_0000
    }

    /// How many callers wait for the function that runs.
    pub fn call_depth(&self) -> (depth: usize)
        ensures
            depth == self@.frames.len(),
    {
        self.frames.len()
    }

    pub fn context(&self) -> (context: &ScriptGlobalContext)
        ensures
            context@ == self@.context,
    {
        &self.context
    }

    pub fn module(&self) -> (module: Option<&ScriptModule>)
        ensures
            match module {
                Some(m) => self@.module == Some(m@),
                None => self@.module is None,
            },
    {
        self.module.as_ref()
    }

    /// Takes the machine apart: the context and the module go back to the
    /// host, which may bind another machine to them.
    pub fn into_parts(self) -> (parts: (ScriptGlobalContext, Option<ScriptModule>))
        ensures
            parts.0@ == self@.context,
            match parts.1 {
                Some(m) => self@.module == Some(m@),
                None => self@.module is None,
            },
    {
        (self.context, self.module)
    }
}

} // verus!
