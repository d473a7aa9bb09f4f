//! General facts about the machine, proved from its semantics.

use crate::arith::{binary, BinaryOp};
use crate::bytes::{lemma_le_round_trip, lemma_splice, lemma_splice_elsewhere, u32_le};
use crate::fault::Fault;
use crate::float::Layout;
use crate::instruction::{Decoded, FloatOp, Instruction};
use crate::machine::{ExecOutcome, Machine, VmStatus};
use crate::stack::StackView;
use vstd::prelude::*;

verus! {

/// The instructions of `insts` carried out one after the other, up to the
/// first that faults.
pub open spec fn perform_all(m: Machine, insts: Seq<Instruction>) -> Result<Machine, Fault>
    decreases insts.len(),
{
    if insts.len() == 0 {
        Ok(m)
    } else {
        match m.perform(insts[0]) {
            Ok(next) => perform_all(next, insts.subrange(1, insts.len() as int)),
            Err(f) => Err(f),
        }
    }
}

/// The number of bytes that a sequence of stack adjustments frees in all:
/// what its `Pop`s free less what its `Push`es claim.
pub open spec fn net_freed(insts: Seq<Instruction>) -> int
    decreases insts.len(),
{
    if insts.len() == 0 {
        0
    } else {
        let rest = net_freed(insts.subrange(1, insts.len() as int));
        match insts[0] {
            Instruction::Pop(size) => size + rest,
            Instruction::Push(size) => rest - size,
            _ => rest,
        }
    }
}

/// Every instruction of the sequence is a `Pop` or a `Push`.
pub open spec fn only_adjusts(insts: Seq<Instruction>) -> bool {
    forall|i: int|
        0 <= i < insts.len() ==> (#[trigger] insts[i] is Pop || insts[i] is Push)
}

/// A sequence of pushes and pops that runs without fault moves the stack
/// pointer by what it frees in all, and changes nothing else. A balanced
/// sequence, one that frees as much as it claims, leaves the machine as it
/// found it.
pub proof fn lemma_balanced_adjustments(m: Machine, insts: Seq<Instruction>)
    requires
        only_adjusts(insts),
        perform_all(m, insts) is Ok,
    ensures
        perform_all(m, insts)->Ok_0 == m.with_stack(m.stack.with_sp(m.sp() + net_freed(insts))),
        net_freed(insts) == 0 ==> perform_all(m, insts)->Ok_0 == m,
    decreases insts.len(),
{
    if insts.len() > 0 {
        let rest = insts.subrange(1, insts.len() as int);
        assert(insts[0] is Pop || insts[0] is Push);
        let next = m.perform(insts[0])->Ok_0;
        assert forall|i: int| 0 <= i < rest.len() implies (#[trigger] rest[i] is Pop || rest[i]
            is Push) by {
            assert(rest[i] == insts[i + 1]);
        }
        lemma_balanced_adjustments(next, rest);
        assert(perform_all(m, insts)->Ok_0 =~= m.with_stack(
            m.stack.with_sp(m.sp() + net_freed(insts)),
        ));
    }
    assert(m.with_stack(m.stack.with_sp(m.sp() + 0)) =~= m);
}

/// What is pushed is what lies on top: after `set4(v)` the top slot reads
/// `v`, and the bytes above it are as before.
pub proof fn lemma_top_after_push(s: StackView, v: u32)
    requires
        s.wf(),
        4 <= s.sp,
    ensures
        s.pushed_u32(v).wf(),
        s.pushed_u32(v).holds(s.sp - 4, 4),
        s.pushed_u32(v).u32_at(s.sp - 4) == v,
        forall|pos: int|
            s.sp <= pos && pos + 4 <= s.bytes.len() ==> #[trigger] s.pushed_u32(v).u32_at(pos)
                == s.u32_at(pos),
{
    lemma_le_round_trip(0, v, 0);
    lemma_splice(s.bytes, s.sp - 4, u32_le(v));
    assert forall|pos: int| s.sp <= pos && pos + 4 <= s.bytes.len() implies #[trigger] s.pushed_u32(
        v,
    ).u32_at(pos) == s.u32_at(pos) by {
        lemma_splice_elsewhere(s.bytes, s.sp - 4, u32_le(v), pos, pos + 4);
    }
}

/// Adding and then subtracting the same number gives back the number from
/// before: with `a` below `b` on the stack, `add`, a push of `b` and `sub`
/// leave `a` on top, for all 32-bit `a` and `b`.
pub proof fn lemma_add_then_sub_restores(m: Machine)
    requires
        m.stack.wf(),
        m.stack.holds(m.sp(), 8),
    ensures
        ({
            let a = m.stack.u32_at(m.sp() + 4);
            let b = m.stack.u32_at(m.sp());
            &&& m.binary_op(BinaryOp::Add) is Ok
            &&& m.binary_op(BinaryOp::Add)->Ok_0.set4(b) is Ok
            &&& m.binary_op(BinaryOp::Add)->Ok_0.set4(b)->Ok_0.binary_op(BinaryOp::Sub) is Ok
            &&& ({
                let after = m.binary_op(BinaryOp::Add)->Ok_0.set4(b)->Ok_0.binary_op(
                    BinaryOp::Sub,
                )->Ok_0;
                after.sp() == m.sp() + 4 && after.stack.u32_at(after.sp()) == a
            })
        }),
{
    let s = m.stack;
    let a = s.u32_at(s.sp + 4);
    let b = s.u32_at(s.sp);
    let sum = binary(BinaryOp::Add, b, a);
    let m1 = m.binary_op(BinaryOp::Add)->Ok_0;
    lemma_le_round_trip(0, sum, 0);
    lemma_splice(s.bytes, s.sp + 4, u32_le(sum));
    assert(m1.stack.u32_at(s.sp + 4) == sum);
    let m2 = m1.set4(b)->Ok_0;
    lemma_top_after_push(m1.stack, b);
    assert(m2.stack.u32_at(s.sp) == b);
    assert(m2.stack.u32_at(s.sp + 4) == sum);
    let m3 = m2.binary_op(BinaryOp::Sub)->Ok_0;
    let back = binary(BinaryOp::Sub, b, sum);
    crate::arith::lemma_add_then_sub(b, a);
    lemma_le_round_trip(0, back, 0);
    lemma_splice(m2.stack.bytes, s.sp + 4, u32_le(back));
}

/// A division or a remainder whose divisor, the top slot, is zero faults
/// and gives no value: the instruction itself, a step that meets it, and a
/// run that meets it first.
pub proof fn lemma_zero_divisor_faults(m: Machine, d: Decoded, fuel: nat)
    requires
        m.stack.holds(m.sp(), 4),
        m.stack.u32_at(m.sp()) == 0,
        d.inst == Instruction::Div || d.inst == Instruction::Rem,
    ensures
        m.div() == Err::<Machine, Fault>(Fault::DivideByZero),
        m.xmod() == Err::<Machine, Fault>(Fault::DivideByZero),
        m.fetch() == Ok::<Decoded, Fault>(d) ==> m.step() == m.fault_effect(Fault::DivideByZero),
        m.fetch() == Ok::<Decoded, Fault>(d) && fuel > 0 ==> m.run(fuel) == (
            m.faulted(Fault::DivideByZero),
            ExecOutcome::Faulted(Fault::DivideByZero),
        ),
{
    reveal(Machine::step);
}

/// A floating-point division or remainder whose divisor is a zero of either
/// sign faults before the host is asked: no request goes out, and no result
/// is accepted.
pub proof fn lemma_zero_float_divisor_faults(m: Machine, op: FloatOp, operand: u32, result: u64)
    requires
        op == FloatOp::Div || op == FloatOp::Rem || op == FloatOp::DivDouble || op
            == FloatOp::RemDouble,
        m.stack.holds(m.sp(), Layout::of(op).operand_width as int),
        Machine::is_float_zero(
            Machine::bits_at(m.stack, m.sp(), Layout::of(op).operand_width as int),
            Layout::of(op).operand_width as int,
        ),
    ensures
        m.float_request(op, operand) == Err::<crate::float::FloatRequest, Fault>(
            Fault::DivideByZero,
        ),
        m.float_commit(op, result) == Err::<Machine, Fault>(Fault::DivideByZero),
{
}

/// A zero that was just pushed makes `jz` jump: the program counter moves
/// by the offset. A one does not: the program counter stays. Either way the
/// value is consumed and the stack pointer is where it was before the push.
pub proof fn lemma_jz_after_push(m: Machine, offset: i32)
    requires
        m.wf(),
        4 <= m.sp(),
    ensures
        m.set4(0) is Ok,
        m.set4(1) is Ok,
        0 <= m.pc + offset <= m.code().len() ==> m.set4(0)->Ok_0.jz(offset) is Ok && m.set4(
            0,
        )->Ok_0.jz(offset)->Ok_0.pc == m.pc + offset && m.set4(0)->Ok_0.jz(offset)->Ok_0.sp()
            == m.sp(),
        !(0 <= m.pc + offset <= m.code().len()) ==> m.set4(0)->Ok_0.jz(offset) == Err::<
            Machine,
            Fault,
        >(Fault::CodeBoundsViolation),
        m.set4(1)->Ok_0.jz(offset) is Ok,
        m.set4(1)->Ok_0.jz(offset)->Ok_0.pc == m.pc,
        m.set4(1)->Ok_0.jz(offset)->Ok_0.sp() == m.sp(),
{
    lemma_top_after_push(m.stack, 0);
    lemma_top_after_push(m.stack, 1);
    assert(m.set4(0)->Ok_0.code() == m.code());
}

/// A value written to a global reads back: after `movga4` has stored the
/// top slot under an index, the global of that index holds the value, and
/// `pga` with the same index pushes it.
pub proof fn lemma_global_round_trip(m: Machine, index: i32)
    requires
        m.stack.wf(),
        m.movga4(index) is Ok,
    ensures
        ({
            let value = m.stack.u32_at(m.sp());
            let stored = m.movga4(index)->Ok_0;
            &&& stored.global(index) == Ok::<u32, Fault>(value)
            &&& stored.pga(index) is Ok
            &&& stored.pga(index)->Ok_0.sp() == m.sp()
            &&& stored.pga(index)->Ok_0.stack.u32_at(m.sp()) == value
        }),
{
    let value = m.stack.u32_at(m.sp());
    let stored = m.movga4(index)->Ok_0;
    lemma_top_after_push(stored.stack, value);
}

/// The two tables of globals are apart. A write under a positive index
/// changes that slot of the module and nothing of the context; a write
/// under any other index changes that slot of the context and nothing of
/// the module. The global of every other index reads as before.
pub proof fn lemma_globals_disjoint(m: Machine, index: i32, other: i32)
    requires
        m.movga4(index) is Ok,
    ensures
        index > 0 ==> m.movga4(index)->Ok_0.context == m.context,
        index <= 0 ==> m.movga4(index)->Ok_0.module == m.module,
        other != index ==> m.movga4(index)->Ok_0.global(other) == m.global(other),
{
}

/// A yield keeps the machine whole. A suspension and a call of a registered
/// host function end the run and change nothing but the program counter,
/// which has passed the instruction: the next run goes on from there.
pub proof fn lemma_yield_keeps_machine(m: Machine, d: Decoded, function: i32, fuel: nat)
    requires
        m.fetch() == Ok::<Decoded, Fault>(d),
        fuel > 0,
    ensures
        d.inst == Instruction::Suspend ==> m.run(fuel) == (
            m.with_pc(d.next),
            ExecOutcome::Suspended,
        ),
        d.inst == Instruction::CallSys(function) && 0 <= Machine::host_index(function)
            < m.context.functions.len() ==> m.run(fuel) == (
            m.with_pc(d.next),
            ExecOutcome::HostCall(Machine::host_index(function) as usize),
        ),
        d.inst == Instruction::CallSys(function) && !(0 <= Machine::host_index(function)
            < m.context.functions.len()) ==> m.run(fuel) == (
            m.faulted(Fault::UnknownHostFunction),
            ExecOutcome::Faulted(Fault::UnknownHostFunction),
        ),
{
    reveal(Machine::step);
}

/// The next `n` instructions run without an event: none of them returns,
/// yields or faults.
pub open spec fn quiet(m: Machine, n: nat) -> bool
    decreases n,
{
    n == 0 || (m.step().1 is None && quiet(m.step().0, (n - 1) as nat))
}

/// The machine after `n` instructions that give no event.
pub open spec fn after_steps(m: Machine, n: nat) -> Machine
    decreases n,
{
    if n == 0 {
        m
    } else {
        after_steps(m.step().0, (n - 1) as nat)
    }
}

/// The number of instructions that a run of at most `fuel` instructions
/// takes: those that give no event, and the one that ends the run.
pub open spec fn instructions_run(m: Machine, fuel: nat) -> nat
    decreases fuel,
{
    if fuel == 0 {
        0
    } else if m.step().1 is Some {
        1
    } else {
        1 + instructions_run(m.step().0, (fuel - 1) as nat)
    }
}

/// The watchdog: no run takes more instructions than its budget. A run
/// stops with `BudgetExhausted` exactly when its whole budget went into
/// instructions that gave no event; the machine is then where those
/// instructions left it, and goes on from there.
pub proof fn lemma_watchdog(m: Machine, fuel: nat)
    ensures
        instructions_run(m, fuel) <= fuel,
        m.run(fuel).1 == ExecOutcome::BudgetExhausted <==> quiet(m, fuel),
        quiet(m, fuel) ==> m.run(fuel).0 == after_steps(m, fuel) && instructions_run(m, fuel)
            == fuel,
    decreases fuel,
{
    if fuel > 0 {
        lemma_watchdog(m.step().0, (fuel - 1) as nat);
        lemma_step_outcome(m);
    }
}

/// No single instruction reports an exhausted budget, or a machine without
/// a module.
pub proof fn lemma_step_outcome(m: Machine)
    ensures
        m.step().1 != Some(ExecOutcome::BudgetExhausted),
        m.step().1 != Some(ExecOutcome::Unbound),
{
    reveal(Machine::step);
}

/// A function that only jumps to itself never returns: however large the
/// budget, the run ends with `BudgetExhausted` and the machine is where it
/// started.
pub proof fn lemma_endless_loop_is_caught(m: Machine, d: Decoded, offset: i32, fuel: nat)
    requires
        m.fetch() == Ok::<Decoded, Fault>(d),
        d.inst == Instruction::Jmp(offset),
        d.next + offset == m.pc,
        m.pc <= m.code().len(),
    ensures
        m.run(fuel) == (m, ExecOutcome::BudgetExhausted),
    decreases fuel,
{
    if fuel > 0 {
        lemma_jump_to_self(m, d, offset);
        lemma_endless_loop_is_caught(m, d, offset, (fuel - 1) as nat);
    }
}

proof fn lemma_jump_to_self(m: Machine, d: Decoded, offset: i32)
    requires
        m.fetch() == Ok::<Decoded, Fault>(d),
        d.inst == Instruction::Jmp(offset),
        d.next + offset == m.pc,
        m.pc <= m.code().len(),
    ensures
        m.step() == (m, None::<ExecOutcome>),
{
    reveal(Machine::step);
    let passed = m.with_pc(d.next);
    assert(passed.code() == m.code());
    assert(passed.jmp(offset) == Ok::<Machine, Fault>(passed.with_pc(m.pc)));
    assert(passed.with_pc(m.pc) =~= m);
}

/// The stack pointer never leaves the stack, and the stack never changes
/// its size: whatever a machine does in one step, in a run, or when the
/// host hands it a floating-point result.
pub proof fn lemma_stack_pointer_in_bounds(m: Machine, fuel: nat, result: u64)
    requires
        m.stack.wf(),
    ensures
        m.step().0.stack.wf(),
        m.step().0.stack_len() == m.stack_len(),
        m.run(fuel).0.stack.wf(),
        m.run(fuel).0.stack_len() == m.stack_len(),
        m.complete_float(result).0.stack.wf(),
        m.complete_float(result).0.stack_len() == m.stack_len(),
    decreases fuel,
{
    lemma_step_keeps_stack(m);
    if fuel > 0 {
        lemma_stack_pointer_in_bounds(m.step().0, (fuel - 1) as nat, result);
    }
    match m.fetch() {
        Ok(d) => match d.inst {
            Instruction::Float(op, _) => {
                lemma_float_commit_keeps_stack(m.with_pc(d.next), op, result);
            },
            _ => {},
        },
        Err(_) => {},
    }
}

proof fn lemma_float_commit_keeps_stack(m: Machine, op: FloatOp, result: u64)
    requires
        m.stack.wf(),
    ensures
        m.float_commit(op, result) is Ok ==> m.float_commit(op, result)->Ok_0.stack.wf()
            && m.float_commit(op, result)->Ok_0.stack_len() == m.stack_len(),
{
}

proof fn lemma_step_keeps_stack(m: Machine)
    requires
        m.stack.wf(),
    ensures
        m.step().0.stack.wf(),
        m.step().0.stack_len() == m.stack_len(),
{
    reveal(Machine::step);
    match m.fetch() {
        Ok(d) => {
            lemma_perform_keeps_stack(m.with_pc(d.next), d.inst);
        },
        Err(_) => {},
    }
}

#[verifier::rlimit(100)]
proof fn lemma_perform_keeps_stack(m: Machine, inst: Instruction)
    requires
        m.stack.wf(),
    ensures
        m.perform(inst) is Ok ==> m.perform(inst)->Ok_0.stack.wf() && m.perform(
            inst,
        )->Ok_0.stack_len() == m.stack_len(),
{
}

/// The status of a machine says how its last run ended. A running machine
/// stays running through every instruction that gives no event and through
/// every yield; it has returned exactly when the run reports the return,
/// and it has faulted, with the fault reported, exactly when the run
/// reports a fault.
pub proof fn lemma_status_follows_outcome(m: Machine, fuel: nat)
    requires
        m.status == VmStatus::Running,
    ensures
        match m.run(fuel).1 {
            ExecOutcome::Returned => m.run(fuel).0.status == VmStatus::Returned,
            ExecOutcome::Faulted(f) => m.run(fuel).0.status == VmStatus::Faulted(f),
            ExecOutcome::Unbound => false,
            _ => m.run(fuel).0.status == VmStatus::Running,
        },
    decreases fuel,
{
    if fuel > 0 {
        lemma_step_status(m);
        if m.step().1 is None {
            lemma_status_follows_outcome(m.step().0, (fuel - 1) as nat);
        }
    }
}

proof fn lemma_step_status(m: Machine)
    requires
        m.status == VmStatus::Running,
    ensures
        match m.step().1 {
            Some(ExecOutcome::Returned) => m.step().0.status == VmStatus::Returned,
            Some(ExecOutcome::Faulted(f)) => m.step().0.status == VmStatus::Faulted(f),
            Some(ExecOutcome::Unbound) => false,
            Some(ExecOutcome::BudgetExhausted) => false,
            _ => m.step().0.status == VmStatus::Running,
        },
{
    reveal(Machine::step);
    match m.fetch() {
        Ok(d) => {
            lemma_perform_status(m.with_pc(d.next), d.inst);
        },
        Err(_) => {},
    }
}

#[verifier::rlimit(100)]
proof fn lemma_perform_status(m: Machine, inst: Instruction)
    ensures
        m.perform(inst) is Ok ==> m.perform(inst)->Ok_0.status == m.status || (inst is Ret
            && m.perform(inst)->Ok_0.status == VmStatus::Returned),
{
}

} // verus!
