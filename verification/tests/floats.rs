use yaobow_script::fault::Fault;
use yaobow_script::float::{FloatRequest, Layout};
use yaobow_script::global_context::ScriptGlobalContext;
use yaobow_script::instruction::FloatOp;
use yaobow_script::machine::{ExecOutcome, VmStatus};
use yaobow_script::module::{ScriptFunction, ScriptModule};
use yaobow_script::vm::ScriptVm;

const END: usize = 4096;

fn plain(code: &mut Vec<u8>, opcode: u8) {
    code.extend_from_slice(&[opcode, 0, 0, 0]);
}

fn push_f32(code: &mut Vec<u8>, value: f32) {
    plain(code, 2);
    code.extend_from_slice(&value.to_bits().to_le_bytes());
}

fn push_f64(code: &mut Vec<u8>, value: f64) {
    plain(code, 66);
    code.extend_from_slice(&value.to_bits().to_le_bytes());
}

fn push_u32(code: &mut Vec<u8>, value: u32) {
    plain(code, 2);
    code.extend_from_slice(&value.to_le_bytes());
}

fn with_f32(code: &mut Vec<u8>, opcode: u8, value: f32) {
    plain(code, opcode);
    code.extend_from_slice(&value.to_bits().to_le_bytes());
}

fn float_machine(code: Vec<u8>) -> ScriptVm {
    let module = ScriptModule::new(vec![ScriptFunction::new(code)], Vec::new(), Vec::new());
    let mut vm = ScriptVm::new(ScriptGlobalContext::new(0));
    vm.set_module(module);
    vm
}

fn single(bits: u64) -> f32 {
    f32::from_bits(bits as u32)
}

fn double(bits: u64) -> f64 {
    f64::from_bits(bits)
}

fn three_way<T: PartialOrd>(b: T, a: T) -> u64 {
    if b > a {
        1
    } else if a > b {
        (-1i32) as u32 as u64
    } else {
        0
    }
}

/// What a host does with a request: the arithmetic, on the bits.
fn host_float_unit(request: FloatRequest) -> u64 {
    let a = request.first;
    let b = request.second;
    match request.op {
        FloatOp::FromInt => (a as u32 as i32 as f32).to_bits() as u64,
        FloatOp::Add => (single(b) + single(a)).to_bits() as u64,
        FloatOp::Sub => (single(b) - single(a)).to_bits() as u64,
        FloatOp::Mul => (single(b) * single(a)).to_bits() as u64,
        FloatOp::Div => (single(b) / single(a)).to_bits() as u64,
        FloatOp::Rem => (single(b) % single(a)).to_bits() as u64,
        FloatOp::Neg => (-single(a)).to_bits() as u64,
        FloatOp::Compare => three_way(single(b), single(a)),
        FloatOp::Inc => (single(a) + 1.0).to_bits() as u64,
        FloatOp::Dec => (single(a) - 1.0).to_bits() as u64,
        FloatOp::ToInt => (single(a) as i32) as u32 as u64,
        FloatOp::FromUnsigned => (a as u32 as f32).to_bits() as u64,
        FloatOp::ToUnsigned => (single(a) as u32) as u64,
        FloatOp::NegDouble => (-double(a)).to_bits(),
        FloatOp::IncDouble => (double(a) + 1.0).to_bits(),
        FloatOp::DecDouble => (double(a) - 1.0).to_bits(),
        FloatOp::AddDouble => (double(b) + double(a)).to_bits(),
        FloatOp::SubDouble => (double(b) - double(a)).to_bits(),
        FloatOp::MulDouble => (double(b) * double(a)).to_bits(),
        FloatOp::DivDouble => (double(b) / double(a)).to_bits(),
        FloatOp::RemDouble => (double(b) % double(a)).to_bits(),
        FloatOp::CompareDouble => three_way(double(b), double(a)),
        FloatOp::DoubleToInt => (double(a) as i32) as u32 as u64,
        FloatOp::DoubleToUnsigned => (double(a) as u32) as u64,
        FloatOp::DoubleToFloat => (double(a) as f32).to_bits() as u64,
        FloatOp::IntToDouble => (a as u32 as i32 as f64).to_bits(),
        FloatOp::UnsignedToDouble => (a as u32 as f64).to_bits(),
        FloatOp::FloatToDouble => (single(a) as f64).to_bits(),
        FloatOp::CompareImm => three_way(single(b), single(a)),
        FloatOp::AddImm => (single(a) + single(b)).to_bits() as u64,
        FloatOp::SubImm => (single(a) - single(b)).to_bits() as u64,
        FloatOp::MulImm => (single(a) * single(b)).to_bits() as u64,
    }
}

fn drive(vm: &mut ScriptVm) -> ExecOutcome {
    loop {
        match vm.execute() {
            ExecOutcome::Float(request) => {
                assert_eq!(vm.complete_float(host_float_unit(request)), Ok(()));
            }
            other => return other,
        }
    }
}

fn top_f32(code: Vec<u8>) -> (f32, usize) {
    let mut code = code;
    plain(&mut code, 13);
    code.extend_from_slice(&[0, 0]);
    let mut vm = float_machine(code);
    assert_eq!(drive(&mut vm), ExecOutcome::Returned);
    (f32::from_bits(vm.stack_u32(vm.sp()).unwrap()), vm.sp())
}

fn top_f64(code: Vec<u8>) -> (f64, usize) {
    let mut code = code;
    plain(&mut code, 13);
    code.extend_from_slice(&[0, 0]);
    let mut vm = float_machine(code);
    assert_eq!(drive(&mut vm), ExecOutcome::Returned);
    let low = vm.stack_u32(vm.sp()).unwrap() as u64;
    let high = vm.stack_u32(vm.sp() + 4).unwrap() as u64;
    (f64::from_bits(low | high << 32), vm.sp())
}

fn top_u32(code: Vec<u8>) -> (u32, usize) {
    let mut code = code;
    plain(&mut code, 13);
    code.extend_from_slice(&[0, 0]);
    let mut vm = float_machine(code);
    assert_eq!(drive(&mut vm), ExecOutcome::Returned);
    (vm.stack_u32(vm.sp()).unwrap(), vm.sp())
}

#[test]
fn float_request_carries_the_operands() {
    let mut code = Vec::new();
    push_f32(&mut code, 1.5);
    push_f32(&mut code, 2.25);
    plain(&mut code, 34);
    let mut vm = float_machine(code);
    let outcome = vm.execute();
    assert_eq!(
        outcome,
        ExecOutcome::Float(FloatRequest {
            op: FloatOp::Sub,
            first: 2.25f32.to_bits() as u64,
            second: 1.5f32.to_bits() as u64,
        })
    );
    assert_eq!(vm.pc(), 16);
    assert_eq!(vm.sp(), END - 8);
    assert_eq!(vm.status(), VmStatus::Running);
    // asked again, the machine gives the same request
    assert_eq!(vm.execute(), outcome);
    assert_eq!(vm.complete_float((-0.75f32).to_bits() as u64), Ok(()));
    assert_eq!(vm.pc(), 20);
    assert_eq!(vm.sp(), END - 4);
    assert_eq!(vm.stack_u32(END - 4), Ok((-0.75f32).to_bits()));
}

#[test]
fn single_precision_arithmetic() {
    let binary = |opcode: u8, b: f32, a: f32| {
        let mut code = Vec::new();
        push_f32(&mut code, b);
        push_f32(&mut code, a);
        plain(&mut code, opcode);
        top_f32(code)
    };
    assert_eq!(binary(33, 1.5, 2.25), (3.75, END - 4));
    assert_eq!(binary(34, 1.5, 2.25), (-0.75, END - 4));
    assert_eq!(binary(35, 1.5, 2.0), (3.0, END - 4));
    assert_eq!(binary(36, 3.0, 2.0), (1.5, END - 4));
    assert_eq!(binary(37, 7.0, 4.0), (3.0, END - 4));
    let mut code = Vec::new();
    push_f32(&mut code, 2.5);
    plain(&mut code, 38);
    assert_eq!(top_f32(code), (-2.5, END - 4));
}

#[test]
fn single_precision_comparison() {
    let compare = |b: f32, a: f32| {
        let mut code = Vec::new();
        push_f32(&mut code, b);
        push_f32(&mut code, a);
        plain(&mut code, 39);
        top_u32(code)
    };
    assert_eq!(compare(1.0, 2.0), ((-1i32) as u32, END - 4));
    assert_eq!(compare(2.0, 1.0), (1, END - 4));
    assert_eq!(compare(2.0, 2.0), (0, END - 4));
}

#[test]
fn single_precision_cell_and_conversions() {
    let mut code = Vec::new();
    push_f32(&mut code, 1.5);
    plain(&mut code, 7);
    code.extend_from_slice(&[1, 0]);
    plain(&mut code, 40);
    plain(&mut code, 0);
    code.extend_from_slice(&[4, 0]);
    assert_eq!(top_f32(code), (2.5, END - 4));
    let mut code = Vec::new();
    push_f32(&mut code, 1.5);
    plain(&mut code, 7);
    code.extend_from_slice(&[1, 0]);
    plain(&mut code, 41);
    plain(&mut code, 0);
    code.extend_from_slice(&[4, 0]);
    assert_eq!(top_f32(code), (0.5, END - 4));

    let mut code = Vec::new();
    push_u32(&mut code, (-3i32) as u32);
    plain(&mut code, 32);
    assert_eq!(top_f32(code), (-3.0, END - 4));
    let mut code = Vec::new();
    push_f32(&mut code, -3.75);
    plain(&mut code, 42);
    assert_eq!(top_u32(code), ((-3i32) as u32, END - 4));
    let mut code = Vec::new();
    push_u32(&mut code, 0xFFFF_FF00);
    plain(&mut code, 50);
    assert_eq!(top_f32(code), (4294967040.0, END - 4));
    let mut code = Vec::new();
    push_f32(&mut code, 3.75);
    plain(&mut code, 51);
    assert_eq!(top_u32(code), (3, END - 4));
}

#[test]
fn single_precision_immediates() {
    let immediate = |opcode: u8, data: f32, rhs: f32| {
        let mut code = Vec::new();
        push_f32(&mut code, data);
        with_f32(&mut code, opcode, rhs);
        code
    };
    assert_eq!(top_f32(immediate(104, 1.5, 2.0)), (3.5, END - 4));
    assert_eq!(top_f32(immediate(105, 1.5, 2.0)), (-0.5, END - 4));
    assert_eq!(top_f32(immediate(107, 1.5, 2.0)), (3.0, END - 4));
    assert_eq!(top_u32(immediate(103, 1.5, 2.0)), (1, END - 4));
    assert_eq!(top_u32(immediate(103, 2.0, 1.5)), ((-1i32) as u32, END - 4));
    assert_eq!(top_u32(immediate(103, 2.0, 2.0)), (0, END - 4));
}

#[test]
fn double_precision_arithmetic() {
    let binary = |opcode: u8, b: f64, a: f64| {
        let mut code = Vec::new();
        push_f64(&mut code, b);
        push_f64(&mut code, a);
        plain(&mut code, opcode);
        top_f64(code)
    };
    assert_eq!(binary(72, 1.5, 2.25), (3.75, END - 8));
    assert_eq!(binary(73, 1.5, 2.25), (-0.75, END - 8));
    assert_eq!(binary(74, 1.5, 2.0), (3.0, END - 8));
    assert_eq!(binary(75, 3.0, 2.0), (1.5, END - 8));
    assert_eq!(binary(76, 7.0, 4.0), (3.0, END - 8));
    let mut code = Vec::new();
    push_f64(&mut code, 2.5);
    plain(&mut code, 69);
    assert_eq!(top_f64(code), (-2.5, END - 8));
    let mut code = Vec::new();
    push_f64(&mut code, 1.0);
    push_f64(&mut code, 2.0);
    plain(&mut code, 78);
    assert_eq!(top_u32(code), ((-1i32) as u32, END - 4));
}

#[test]
fn double_precision_cell_and_conversions() {
    let mut code = Vec::new();
    push_f64(&mut code, 1.5);
    plain(&mut code, 7);
    code.extend_from_slice(&[2, 0]);
    plain(&mut code, 70);
    plain(&mut code, 0);
    code.extend_from_slice(&[4, 0]);
    assert_eq!(top_f64(code), (2.5, END - 8));
    let mut code = Vec::new();
    push_f64(&mut code, 1.5);
    plain(&mut code, 7);
    code.extend_from_slice(&[2, 0]);
    plain(&mut code, 71);
    plain(&mut code, 0);
    code.extend_from_slice(&[4, 0]);
    assert_eq!(top_f64(code), (0.5, END - 8));

    let mut code = Vec::new();
    push_f64(&mut code, -3.75);
    plain(&mut code, 79);
    assert_eq!(top_u32(code), ((-3i32) as u32, END - 4));
    let mut code = Vec::new();
    push_f64(&mut code, 3.75);
    plain(&mut code, 80);
    assert_eq!(top_u32(code), (3, END - 4));
    let mut code = Vec::new();
    push_f64(&mut code, 0.5);
    plain(&mut code, 81);
    assert_eq!(top_f32(code), (0.5, END - 4));
    let mut code = Vec::new();
    push_u32(&mut code, (-3i32) as u32);
    plain(&mut code, 82);
    assert_eq!(top_f64(code), (-3.0, END - 8));
    let mut code = Vec::new();
    push_u32(&mut code, 0xFFFF_FFFF);
    plain(&mut code, 83);
    assert_eq!(top_f64(code), (4294967295.0, END - 8));
    let mut code = Vec::new();
    push_f32(&mut code, 0.25);
    plain(&mut code, 84);
    assert_eq!(top_f64(code), (0.25, END - 8));
}

#[test]
fn float_division_by_zero_faults() {
    for (opcode, zero) in [(36u8, 0.0f32), (37, 0.0), (36, -0.0), (37, -0.0)] {
        let mut code = Vec::new();
        push_f32(&mut code, 1.0);
        push_f32(&mut code, zero);
        plain(&mut code, opcode);
        let mut vm = float_machine(code);
        assert_eq!(vm.execute(), ExecOutcome::Faulted(Fault::DivideByZero));
        assert_eq!(vm.sp(), END - 8);
    }
    for (opcode, zero) in [(75u8, 0.0f64), (76, 0.0), (75, -0.0), (76, -0.0)] {
        let mut code = Vec::new();
        push_f64(&mut code, 1.0);
        push_f64(&mut code, zero);
        plain(&mut code, opcode);
        let mut vm = float_machine(code);
        assert_eq!(vm.execute(), ExecOutcome::Faulted(Fault::DivideByZero));
    }
}

#[test]
fn float_operands_outside_the_stack_fault() {
    let mut code = Vec::new();
    push_f32(&mut code, 1.0);
    plain(&mut code, 33);
    let mut vm = float_machine(code);
    assert_eq!(vm.execute(), ExecOutcome::Faulted(Fault::StackBoundsViolation));
    let mut code = Vec::new();
    plain(&mut code, 1);
    code.extend_from_slice(&[0xFE, 0x0F]);
    plain(&mut code, 82);
    let mut vm = float_machine(code);
    assert_eq!(vm.execute(), ExecOutcome::Faulted(Fault::StackBoundsViolation));
    let mut code = Vec::new();
    push_u32(&mut code, 4095);
    plain(&mut code, 40);
    let mut vm = float_machine(code);
    assert_eq!(vm.execute(), ExecOutcome::Faulted(Fault::StackBoundsViolation));
}

#[test]
fn float_result_without_request_is_refused() {
    let mut code = Vec::new();
    push_u32(&mut code, 1);
    plain(&mut code, 13);
    code.extend_from_slice(&[0, 0]);
    let mut vm = float_machine(code);
    assert_eq!(vm.complete_float(7), Err(Fault::NoFloatPending));
    assert_eq!(vm.status(), VmStatus::Running);
    assert_eq!(vm.pc(), 0);
    assert_eq!(vm.execute(), ExecOutcome::Returned);
    assert_eq!(vm.complete_float(7), Err(Fault::NoFloatPending));
    let mut idle = ScriptVm::new(ScriptGlobalContext::new(0));
    assert_eq!(idle.complete_float(7), Err(Fault::NoFloatPending));
    let mut ended = float_machine(Vec::new());
    assert_eq!(ended.complete_float(7), Err(Fault::NoFloatPending));
    assert_eq!(ended.status(), VmStatus::Running);
}

#[test]
fn layouts_of_the_float_instructions() {
    let add = Layout::for_op(FloatOp::Add);
    assert_eq!((add.operand_width, add.binary, add.result_width), (4, true, 4));
    assert!(!add.indirect && !add.immediate && !add.divides);
    assert!(Layout::for_op(FloatOp::Div).divides);
    assert!(Layout::for_op(FloatOp::RemDouble).divides);
    assert!(Layout::for_op(FloatOp::Inc).indirect);
    assert!(Layout::for_op(FloatOp::DecDouble).indirect);
    assert!(Layout::for_op(FloatOp::MulImm).immediate);
    let compare = Layout::for_op(FloatOp::CompareDouble);
    assert_eq!((compare.operand_width, compare.binary, compare.result_width), (8, true, 4));
    let widen = Layout::for_op(FloatOp::FloatToDouble);
    assert_eq!((widen.operand_width, widen.binary, widen.result_width), (4, false, 8));
    let narrow = Layout::for_op(FloatOp::DoubleToInt);
    assert_eq!((narrow.operand_width, narrow.binary, narrow.result_width), (8, false, 4));
}
