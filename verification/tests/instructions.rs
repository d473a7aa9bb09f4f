use yaobow_script::fault::Fault;
use yaobow_script::global_context::ScriptGlobalContext;
use yaobow_script::machine::{ExecOutcome, VmStatus};
use yaobow_script::module::{ScriptFunction, ScriptModule};
use yaobow_script::vm::ScriptVm;

const TOP: usize = 4096;

struct Program {
    code: Vec<u8>,
}

impl Program {
    fn new() -> Program {
        Program { code: Vec::new() }
    }

    fn op(mut self, opcode: u8) -> Program {
        self.code.extend_from_slice(&[opcode, 0, 0, 0]);
        self
    }

    fn op16(self, opcode: u8, operand: u16) -> Program {
        let mut program = self.op(opcode);
        program.code.extend_from_slice(&operand.to_le_bytes());
        program
    }

    fn op32(self, opcode: u8, operand: u32) -> Program {
        let mut program = self.op(opcode);
        program.code.extend_from_slice(&operand.to_le_bytes());
        program
    }

    fn opi(self, opcode: u8, operand: i32) -> Program {
        self.op32(opcode, operand as u32)
    }

    fn op64(self, opcode: u8, operand: u64) -> Program {
        let mut program = self.op(opcode);
        program.code.extend_from_slice(&operand.to_le_bytes());
        program
    }

    fn set4(self, value: u32) -> Program {
        self.op32(2, value)
    }

    fn ret(self) -> Program {
        self.op16(13, 0)
    }
}

fn bind(functions: Vec<Program>) -> ScriptVm {
    let mut context = ScriptGlobalContext::new(2);
    context.register_function(String::from("first"));
    context.register_function(String::from("second"));
    let functions = functions.into_iter().map(|f| ScriptFunction::new(f.code)).collect();
    let strings = vec![b"hello".to_vec(), Vec::new()];
    let module = ScriptModule::new(functions, vec![10, 11, 12], strings);
    let mut vm = ScriptVm::new(context);
    vm.set_module(module);
    vm.set_function(0);
    vm
}

fn finish(program: Program) -> ScriptVm {
    let mut vm = bind(vec![program.ret()]);
    assert_eq!(vm.execute(), ExecOutcome::Returned);
    vm
}

fn top_of(program: Program) -> u32 {
    let vm = finish(program);
    vm.stack_u32(vm.sp()).unwrap()
}

fn fault_of(program: Program) -> Fault {
    let mut vm = bind(vec![program]);
    match vm.execute() {
        ExecOutcome::Faulted(f) => {
            assert_eq!(vm.status(), VmStatus::Faulted(f));
            f
        }
        other => panic!("no fault: {:?}", other),
    }
}

#[test]
fn push_and_pop_move_the_stack_pointer_only() {
    let vm = finish(Program::new().op16(1, 8));
    assert_eq!(vm.sp(), TOP - 8);
    let vm = finish(Program::new().op16(1, 8).op16(0, 8));
    assert_eq!(vm.sp(), TOP);
    let vm = finish(Program::new().set4(7).op16(0, 4).op16(1, 4));
    assert_eq!(vm.sp(), TOP - 4);
    assert_eq!(vm.stack_u32(TOP - 4), Ok(7));
}

#[test]
fn balanced_adjustments_restore_the_stack_pointer() {
    let vm = finish(
        Program::new().op16(1, 12).op16(0, 4).op16(1, 100).op16(0, 8).op16(0, 100).op16(1, 6).op16(0, 6),
    );
    assert_eq!(vm.sp(), TOP);
}

#[test]
fn set4_pushes_its_literal_in_little_endian() {
    let vm = finish(Program::new().set4(0x0102_0304));
    assert_eq!(vm.sp(), TOP - 4);
    assert_eq!(vm.stack_u32(TOP - 4), Ok(0x0102_0304));
    let mut vm = vm;
    vm.set_function(0);
    assert_eq!(vm.sp(), TOP);
}

#[test]
fn set8_pushes_sixty_four_bits() {
    let mut vm = finish(Program::new().op64(66, 0x1122_3344_5566_7788));
    assert_eq!(vm.sp(), TOP - 8);
    assert_eq!(vm.stack_u32(TOP - 8), Ok(0x5566_7788));
    assert_eq!(vm.stack_u32(TOP - 4), Ok(0x1122_3344));
    assert_eq!(vm.pop_stack_i32(), Ok(0x5566_7788));
}

#[test]
fn push_zero_pushes_a_zero() {
    let vm = finish(Program::new().set4(9).op(63));
    assert_eq!(vm.sp(), TOP - 8);
    assert_eq!(vm.stack_u32(TOP - 8), Ok(0));
    assert_eq!(vm.stack_u32(TOP - 4), Ok(9));
}

#[test]
fn rd4_loads_through_the_address_on_top() {
    let vm = finish(Program::new().set4(77).set4((TOP - 4) as u32).op(3));
    assert_eq!(vm.sp(), TOP - 8);
    assert_eq!(vm.stack_u32(TOP - 8), Ok(77));
}

#[test]
fn wrt4_stores_and_keeps_the_value() {
    let vm = finish(Program::new().set4(0).set4(55).set4((TOP - 4) as u32).op(5));
    assert_eq!(vm.sp(), TOP - 8);
    assert_eq!(vm.stack_u32(TOP - 8), Ok(55));
    assert_eq!(vm.stack_u32(TOP - 4), Ok(55));
}

#[test]
fn mov4_stores_and_drops_the_value() {
    let vm = finish(Program::new().set4(0).set4(55).set4((TOP - 4) as u32).op(6));
    assert_eq!(vm.sp(), TOP - 4);
    assert_eq!(vm.stack_u32(TOP - 4), Ok(55));
}

#[test]
fn rd8_loads_sixty_four_bits() {
    let vm = finish(Program::new().op64(66, 0xAABB_CCDD_0102_0304).set4((TOP - 8) as u32).op(68));
    assert_eq!(vm.sp(), TOP - 16);
    assert_eq!(vm.stack_u32(TOP - 16), Ok(0x0102_0304));
    assert_eq!(vm.stack_u32(TOP - 12), Ok(0xAABB_CCDD));
}

#[test]
fn wrt8_stores_sixty_four_bits() {
    let vm = finish(
        Program::new().op64(66, 0).op64(66, 0xAABB_CCDD_0102_0304).set4((TOP - 8) as u32).op(67),
    );
    assert_eq!(vm.sp(), TOP - 16);
    assert_eq!(vm.stack_u32(TOP - 8), Ok(0x0102_0304));
    assert_eq!(vm.stack_u32(TOP - 4), Ok(0xAABB_CCDD));
}

#[test]
fn frame_slots_count_from_the_end_of_the_stack() {
    let vm = finish(Program::new().set4(99).set4(98).op16(4, 1));
    assert_eq!(vm.sp(), TOP - 12);
    assert_eq!(vm.stack_u32(TOP - 12), Ok(99));
    let vm = finish(Program::new().set4(99).set4(98).op16(4, 2));
    assert_eq!(vm.stack_u32(TOP - 12), Ok(98));
    let vm = finish(Program::new().op16(7, 1));
    assert_eq!(vm.stack_u32(TOP - 4), Ok((TOP - 4) as u32));
    let vm = finish(Program::new().op16(7, 0));
    assert_eq!(vm.stack_u32(TOP - 4), Ok(TOP as u32));
}

#[test]
fn movsf4_keeps_the_slot_and_pops() {
    let vm = finish(Program::new().set4(5).set4(6).op16(8, 1));
    assert_eq!(vm.sp(), TOP - 4);
    assert_eq!(vm.stack_u32(TOP - 4), Ok(5));
    assert_eq!(vm.stack_u32(TOP - 8), Ok(6));
}

#[test]
fn swaps_exchange_the_two_top_values() {
    let vm = finish(Program::new().set4(1).set4(2).op(9));
    assert_eq!(vm.sp(), TOP - 8);
    assert_eq!(vm.stack_u32(TOP - 8), Ok(1));
    assert_eq!(vm.stack_u32(TOP - 4), Ok(2));
    let vm = finish(Program::new().op64(66, 0x1_0000_0002).op64(66, 0x3_0000_0004).op(77));
    assert_eq!(vm.sp(), TOP - 16);
    assert_eq!(vm.stack_u32(TOP - 16), Ok(2));
    assert_eq!(vm.stack_u32(TOP - 12), Ok(1));
    assert_eq!(vm.stack_u32(TOP - 8), Ok(4));
    assert_eq!(vm.stack_u32(TOP - 4), Ok(3));
}

#[test]
fn accumulator_stores_and_recalls() {
    let vm = finish(Program::new().set4(9).op(10).op(11).op(11));
    assert_eq!(vm.sp(), TOP - 8);
    assert_eq!(vm.stack_u32(TOP - 8), Ok(9));
    assert_eq!(vm.stack_u32(TOP - 4), Ok(9));
}

#[test]
fn return_registers_store_and_recall() {
    let vm = finish(Program::new().set4(5).op(86).op(88));
    assert_eq!(vm.ret_u32(), 5);
    assert_eq!(vm.stack_u32(TOP - 4), Ok(5));
    let vm = finish(Program::new().op64(66, 0x1122_3344_5566_7788).op(87));
    assert_eq!(vm.sp(), TOP);
    assert_eq!(vm.ret_u32(), 0x5566_7788);
    assert_eq!(vm.ret_u64(), 0x1122_3344_5566_7788);
    let vm = finish(Program::new().op64(66, 0x1122_3344_5566_7788).op(87).op(89));
    assert_eq!(vm.sp(), TOP - 8);
    assert_eq!(vm.stack_u32(TOP - 8), Ok(0x5566_7788));
    assert_eq!(vm.stack_u32(TOP - 4), Ok(0x1122_3344));
}

#[test]
fn add_sub_mul_wrap() {
    assert_eq!(top_of(Program::new().set4(0xFFFF_FFFF).set4(2).op(23)), 1);
    assert_eq!(top_of(Program::new().set4(5).set4(3).op(24)), 2);
    assert_eq!(top_of(Program::new().set4(3).set4(5).op(24)), 0xFFFF_FFFE);
    assert_eq!(top_of(Program::new().set4(0x1_0000).set4(0x1_0000).op(25)), 0);
    assert_eq!(top_of(Program::new().set4((-3i32) as u32).set4(4).op(25)), (-12i32) as u32);
    let vm = finish(Program::new().set4(1).set4(2).op(23));
    assert_eq!(vm.sp(), TOP - 4);
}

#[test]
fn add_then_sub_gives_back_the_first_operand() {
    for (a, b) in [(0u32, 0u32), (7, 9), (0xFFFF_FFFF, 1), (0x8000_0000, 0x8000_0000), (3, 0xFFFF_FFFE)] {
        assert_eq!(top_of(Program::new().set4(a).set4(b).op(23).set4(b).op(24)), a);
    }
}

#[test]
fn division_rounds_toward_zero() {
    assert_eq!(top_of(Program::new().set4(7).set4(2).op(26)), 3);
    assert_eq!(top_of(Program::new().set4((-7i32) as u32).set4(2).op(26)), (-3i32) as u32);
    assert_eq!(top_of(Program::new().set4(7).set4((-2i32) as u32).op(26)), (-3i32) as u32);
    assert_eq!(top_of(Program::new().set4((-7i32) as u32).set4((-2i32) as u32).op(26)), 3);
    assert_eq!(top_of(Program::new().set4(0x8000_0000).set4(0xFFFF_FFFF).op(26)), 0x8000_0000);
    assert_eq!(top_of(Program::new().set4(7).set4(2).op(27)), 1);
    assert_eq!(top_of(Program::new().set4((-7i32) as u32).set4(2).op(27)), (-1i32) as u32);
    assert_eq!(top_of(Program::new().set4(7).set4((-2i32) as u32).op(27)), 1);
    assert_eq!(top_of(Program::new().set4(0x8000_0000).set4(0xFFFF_FFFF).op(27)), 0);
}

#[test]
fn division_by_zero_faults_and_leaves_the_operands() {
    let mut vm = bind(vec![Program::new().set4(7).set4(0).op(26)]);
    assert_eq!(vm.execute(), ExecOutcome::Faulted(Fault::DivideByZero));
    assert_eq!(vm.sp(), TOP - 8);
    assert_eq!(vm.stack_u32(TOP - 4), Ok(7));
    assert_eq!(vm.pc(), 16);
    assert_eq!(fault_of(Program::new().set4(7).set4(0).op(27)), Fault::DivideByZero);
    assert_eq!(fault_of(Program::new().set4(0).op(26)), Fault::DivideByZero);
    assert_eq!(fault_of(Program::new().set4(0).set4(0).op(27)), Fault::DivideByZero);
}

#[test]
fn negation_and_complement() {
    assert_eq!(top_of(Program::new().set4(5).op(28)), (-5i32) as u32);
    assert_eq!(top_of(Program::new().set4(0).op(28)), 0);
    assert_eq!(top_of(Program::new().set4(0x8000_0000).op(28)), 0x8000_0000);
    assert_eq!(top_of(Program::new().set4(0).op(43)), 0xFFFF_FFFF);
    assert_eq!(top_of(Program::new().set4(0xF0F0_1234).op(43)), 0x0F0F_EDCB);
}

#[test]
fn comparison_is_three_way() {
    assert_eq!(top_of(Program::new().set4(1).set4(2).op(29)), (-1i32) as u32);
    assert_eq!(top_of(Program::new().set4(2).set4(1).op(29)), 1);
    assert_eq!(top_of(Program::new().set4(2).set4(2).op(29)), 0);
    assert_eq!(top_of(Program::new().set4((-1i32) as u32).set4(1).op(29)), (-1i32) as u32);
    assert_eq!(top_of(Program::new().set4((-1i32) as u32).set4(1).op(52)), 1);
    assert_eq!(top_of(Program::new().set4(1).set4((-1i32) as u32).op(52)), (-1i32) as u32);
    assert_eq!(top_of(Program::new().set4(3).set4(3).op(52)), 0);
}

#[test]
fn comparison_is_antisymmetric() {
    for (a, b) in [(1u32, 2u32), (0, 0xFFFF_FFFF), (0x8000_0000, 0x7FFF_FFFF), (5, 5)] {
        for opcode in [29u8, 52u8] {
            let one = top_of(Program::new().set4(a).set4(b).op(opcode)) as i32;
            let other = top_of(Program::new().set4(b).set4(a).op(opcode)) as i32;
            assert!(one == -1 || one == 0 || one == 1);
            assert_eq!(one, -other);
        }
    }
}

#[test]
fn increments_work_on_the_cell_behind_the_address() {
    let vm = finish(Program::new().set4(41).op16(7, 1).op(30));
    assert_eq!(vm.sp(), TOP - 8);
    assert_eq!(vm.stack_u32(TOP - 4), Ok(42));
    assert_eq!(vm.stack_u32(TOP - 8), Ok((TOP - 4) as u32));
    let vm = finish(Program::new().set4(0xFFFF_FFFF).op16(7, 1).op(30));
    assert_eq!(vm.stack_u32(TOP - 4), Ok(0));
    let vm = finish(Program::new().set4(0).op16(7, 1).op(31));
    assert_eq!(vm.stack_u32(TOP - 4), Ok(0xFFFF_FFFF));
    let vm = finish(Program::new().set4(0x0001_FFFF).op16(7, 1).op(59));
    assert_eq!(vm.stack_u32(TOP - 4), Ok(0x0001_0000));
    let vm = finish(Program::new().set4(0x0000_01FF).op16(7, 1).op(60));
    assert_eq!(vm.stack_u32(TOP - 4), Ok(0x0000_0100));
    let vm = finish(Program::new().set4(0x0001_0000).op16(7, 1).op(61));
    assert_eq!(vm.stack_u32(TOP - 4), Ok(0x0001_FFFF));
    let vm = finish(Program::new().set4(0x0000_0100).op16(7, 1).op(62));
    assert_eq!(vm.stack_u32(TOP - 4), Ok(0x0000_01FF));
    let vm = finish(Program::new().set4(0x0000_0105).op16(7, 1).op(62));
    assert_eq!(vm.stack_u32(TOP - 4), Ok(0x0000_0104));
}

#[test]
fn sign_tests_replace_the_top_slot() {
    let minus = (-1i32) as u32;
    let cases: [(u8, [u32; 3]); 6] = [
        (17, [1, 0, 0]),
        (18, [0, 1, 1]),
        (19, [0, 1, 0]),
        (20, [1, 0, 1]),
        (21, [0, 0, 1]),
        (22, [1, 1, 0]),
    ];
    for (opcode, expected) in cases {
        for (value, wanted) in [0u32, minus, 1].into_iter().zip(expected) {
            let vm = finish(Program::new().set4(value).op(opcode));
            assert_eq!(vm.sp(), TOP - 4);
            assert_eq!(vm.stack_u32(TOP - 4), Ok(wanted));
        }
    }
}

#[test]
fn bitwise_operations() {
    assert_eq!(top_of(Program::new().set4(0b1100).set4(0b1010).op(44)), 0b1000);
    assert_eq!(top_of(Program::new().set4(0b1100).set4(0b1010).op(45)), 0b1110);
    assert_eq!(top_of(Program::new().set4(0b1100).set4(0b1010).op(46)), 0b0110);
    assert_eq!(top_of(Program::new().set4(1).set4(4).op(47)), 16);
    assert_eq!(top_of(Program::new().set4(0x8000_0001).set4(1).op(47)), 2);
    assert_eq!(top_of(Program::new().set4(0x8000_0000).set4(31).op(48)), 1);
    assert_eq!(top_of(Program::new().set4(0x8000_0000).set4(31).op(49)), 0xFFFF_FFFF);
    assert_eq!(top_of(Program::new().set4(0x4000_0000).set4(30).op(49)), 1);
    assert_eq!(top_of(Program::new().set4(5).set4(32).op(47)), 5);
    assert_eq!(top_of(Program::new().set4(5).set4(33).op(48)), 2);
}

#[test]
fn extensions_of_the_low_bits() {
    assert_eq!(top_of(Program::new().set4(0x1234_5680).op(53)), 0xFFFF_FF80);
    assert_eq!(top_of(Program::new().set4(0x1234_567F).op(53)), 0x7F);
    assert_eq!(top_of(Program::new().set4(0x1234_8000).op(54)), 0xFFFF_8000);
    assert_eq!(top_of(Program::new().set4(0x1234_7FFF).op(54)), 0x7FFF);
    assert_eq!(top_of(Program::new().set4(0x1234_56FF).op(55)), 0xFF);
    assert_eq!(top_of(Program::new().set4(0x1234_FFFF).op(56)), 0xFFFF);
}

#[test]
fn partial_stores_splice_the_low_bits() {
    assert_eq!(top_of(Program::new().set4(0x1122_3344).set4(0xAABB_CCDD).op(57)), 0x1122_33DD);
    assert_eq!(top_of(Program::new().set4(0x1122_3344).set4(0xAABB_CCDD).op(58)), 0x1122_CCDD);
}

#[test]
fn copy_moves_a_block_of_bytes() {
    let vm = finish(
        Program::new()
            .op64(66, 0x0807_0605_0403_0201)
            .op16(1, 8)
            .set4((TOP - 8) as u32)
            .set4((TOP - 16) as u32)
            .op16(64, 6),
    );
    assert_eq!(vm.sp(), TOP - 20);
    assert_eq!(vm.stack_u32(TOP - 20), Ok((TOP - 8) as u32));
    assert_eq!(vm.stack_u32(TOP - 16), Ok(0x0403_0201));
    assert_eq!(vm.stack_u32(TOP - 12), Ok(0x0000_0605));
    assert_eq!(vm.stack_u32(TOP - 8), Ok(0x0403_0201));
}

#[test]
fn copy_of_meeting_ranges_takes_the_bytes_from_before() {
    let vm = finish(
        Program::new()
            .op64(66, 0x0807_0605_0403_0201)
            .set4((TOP - 8) as u32)
            .set4((TOP - 6) as u32)
            .op16(64, 4),
    );
    assert_eq!(vm.stack_u32(TOP - 8), Ok(0x0201_0201));
    assert_eq!(vm.stack_u32(TOP - 4), Ok(0x0807_0403));
}

#[test]
fn globals_round_trip_and_stay_apart() {
    let vm = finish(Program::new().set4(7).opi(100, 1).opi(65, 1));
    assert_eq!(vm.sp(), TOP - 4);
    assert_eq!(vm.stack_u32(TOP - 4), Ok(7));
    assert_eq!(vm.module().unwrap().global_slot(1), Ok(7));
    assert_eq!(vm.module().unwrap().global_slot(0), Ok(10));
    assert_eq!(vm.module().unwrap().global_slot(2), Ok(12));
    assert_eq!(vm.context().var(0), Ok(0));
    assert_eq!(vm.context().var(1), Ok(0));

    let vm = finish(Program::new().set4(9).opi(100, -1).opi(65, -1));
    assert_eq!(vm.stack_u32(TOP - 4), Ok(9));
    assert_eq!(vm.context().var(0), Ok(9));
    assert_eq!(vm.context().var(1), Ok(0));
    assert_eq!(vm.module().unwrap().global_slot(1), Ok(11));

    let vm = finish(Program::new().set4(3).opi(100, -2).opi(65, 2));
    assert_eq!(vm.stack_u32(TOP - 4), Ok(12));
    assert_eq!(vm.context().var(1), Ok(3));
}

#[test]
fn jumps_move_the_program_counter() {
    let vm = finish(Program::new().opi(14, 8).set4(111).set4(222));
    assert_eq!(vm.sp(), TOP - 4);
    assert_eq!(vm.stack_u32(TOP - 4), Ok(222));
    let vm = finish(Program::new().set4(2).op(85).set4(111).set4(222).set4(333));
    assert_eq!(vm.sp(), TOP - 4);
    assert_eq!(vm.stack_u32(TOP - 4), Ok(333));
}

#[test]
fn jz_jumps_on_zero_only_and_consumes() {
    let vm = finish(Program::new().set4(0).opi(15, 8).set4(111).set4(222));
    assert_eq!(vm.sp(), TOP - 4);
    assert_eq!(vm.stack_u32(TOP - 4), Ok(222));
    let vm = finish(Program::new().set4(1).opi(15, 8).set4(111).set4(222));
    assert_eq!(vm.sp(), TOP - 8);
    assert_eq!(vm.stack_u32(TOP - 4), Ok(111));
    let vm = finish(Program::new().set4(1).opi(16, 8).set4(111).set4(222));
    assert_eq!(vm.sp(), TOP - 4);
    let vm = finish(Program::new().set4(0).opi(16, 8).set4(111).set4(222));
    assert_eq!(vm.sp(), TOP - 8);
}

#[test]
fn jz_moves_the_program_counter_by_its_offset() {
    let mut vm = bind(vec![Program::new().set4(0).opi(15, 6).ret().op(108)]);
    assert_eq!(vm.execute(), ExecOutcome::Suspended);
    assert_eq!(vm.pc(), 16 + 6 + 4);
    assert_eq!(vm.sp(), TOP);
    let mut vm = bind(vec![Program::new().set4(1).opi(15, 6).op(108)]);
    assert_eq!(vm.execute(), ExecOutcome::Suspended);
    assert_eq!(vm.pc(), 16 + 4);
    assert_eq!(vm.sp(), TOP);
}

#[test]
fn sign_branches_consume_and_jump() {
    let minus = (-1i32) as u32;
    let cases: [(u8, [bool; 3]); 4] = [
        (91, [true, false, true]),
        (92, [false, true, false]),
        (93, [true, true, false]),
        (94, [false, false, true]),
    ];
    for (opcode, expected) in cases {
        for (value, jumps) in [0u32, minus, 1].into_iter().zip(expected) {
            let vm = finish(Program::new().set4(value).opi(opcode, 8).set4(111).set4(222));
            assert_eq!(vm.sp(), if jumps { TOP - 4 } else { TOP - 8 });
        }
    }
}

#[test]
fn string_reference_is_index_and_length() {
    let vm = finish(Program::new().op16(90, 0));
    assert_eq!(vm.sp(), TOP - 8);
    assert_eq!(vm.stack_u32(TOP - 8), Ok(5));
    assert_eq!(vm.stack_u32(TOP - 4), Ok(0));
    let vm = finish(Program::new().op16(90, 1));
    assert_eq!(vm.stack_u32(TOP - 8), Ok(0));
    assert_eq!(vm.stack_u32(TOP - 4), Ok(1));
    assert_eq!(vm.module().unwrap().string(0).unwrap().as_slice(), b"hello");
}

#[test]
fn immediate_operations() {
    assert_eq!(top_of(Program::new().set4(5).opi(95, 7)), 1);
    assert_eq!(top_of(Program::new().set4(7).opi(95, 5)), (-1i32) as u32);
    assert_eq!(top_of(Program::new().set4(7).opi(95, 7)), 0);
    assert_eq!(top_of(Program::new().set4((-1i32) as u32).opi(95, 0)), 1);
    assert_eq!(top_of(Program::new().set4((-1i32) as u32).op32(96, 0)), (-1i32) as u32);
    assert_eq!(top_of(Program::new().set4(5).opi(101, -2)), 3);
    assert_eq!(top_of(Program::new().set4(5).opi(102, 7)), (-2i32) as u32);
    assert_eq!(top_of(Program::new().set4(5).opi(106, -3)), (-15i32) as u32);
    assert_eq!(top_of(Program::new().set4(0xFFFF_FFFF).opi(101, 1)), 0);
}

#[test]
fn call_saves_and_ret_restores_the_caller() {
    let caller = Program::new().set4(1).op32(12, 1).op(88).ret();
    let callee = Program::new().set4(2).set4(3).op(86).ret();
    let mut vm = bind(vec![caller, callee]);
    assert_eq!(vm.execute(), ExecOutcome::Returned);
    assert_eq!(vm.function_index(), 0);
    assert_eq!(vm.call_depth(), 0);
    assert_eq!(vm.ret_u32(), 3);
    assert_eq!(vm.sp(), TOP - 8);
    assert_eq!(vm.stack_u32(TOP - 8), Ok(3));
    assert_eq!(vm.stack_u32(TOP - 4), Ok(1));
}

#[test]
fn ret_discards_the_arguments() {
    let caller = Program::new().set4(10).set4(20).op32(98, 1).ret();
    let callee = Program::new().op16(13, 8);
    let mut vm = bind(vec![caller, callee]);
    assert_eq!(vm.execute(), ExecOutcome::Returned);
    assert_eq!(vm.sp(), TOP);
    let mut vm = bind(vec![Program::new().set4(10).op16(13, 4)]);
    assert_eq!(vm.execute(), ExecOutcome::Returned);
    assert_eq!(vm.sp(), TOP);
}

#[test]
fn callee_has_its_own_accumulator() {
    let caller = Program::new().set4(5).op(10).op32(12, 1).op(11).ret();
    let callee = Program::new().op(11).op(86).set4(8).op(10).ret();
    let mut vm = bind(vec![caller, callee]);
    assert_eq!(vm.execute(), ExecOutcome::Returned);
    assert_eq!(vm.ret_u32(), 0);
    assert_eq!(vm.stack_u32(vm.sp()), Ok(5));
}

#[test]
fn suspend_yields_and_execute_goes_on() {
    let mut vm = bind(vec![Program::new().set4(1).op(108).set4(2).ret()]);
    assert_eq!(vm.execute(), ExecOutcome::Suspended);
    assert_eq!(vm.status(), VmStatus::Running);
    assert_eq!(vm.pc(), 12);
    assert_eq!(vm.sp(), TOP - 4);
    assert_eq!(vm.execute(), ExecOutcome::Returned);
    assert_eq!(vm.sp(), TOP - 8);
    assert_eq!(vm.execute(), ExecOutcome::Returned);
    assert_eq!(vm.sp(), TOP - 8);
}

#[test]
fn host_call_reports_the_index() {
    let mut vm = bind(vec![Program::new().opi(97, -2).ret()]);
    assert_eq!(vm.execute(), ExecOutcome::HostCall(1));
    assert_eq!(vm.context().function_name(1).unwrap().as_str(), "second");
    assert_eq!(vm.pc(), 8);
    assert_eq!(vm.execute(), ExecOutcome::Returned);
}

#[test]
fn budget_bounds_one_call_of_execute() {
    let mut vm = bind(vec![Program::new().set4(1).set4(2).set4(3).ret()]);
    vm.set_instruction_budget(2);
    assert_eq!(vm.instruction_budget(), 2);
    assert_eq!(vm.execute(), ExecOutcome::BudgetExhausted);
    assert_eq!(vm.sp(), TOP - 8);
    assert_eq!(vm.status(), VmStatus::Running);
    assert_eq!(vm.execute(), ExecOutcome::Returned);
    assert_eq!(vm.sp(), TOP - 12);
    let mut vm = bind(vec![Program::new().ret()]);
    vm.set_instruction_budget(0);
    assert_eq!(vm.execute(), ExecOutcome::BudgetExhausted);
}

#[test]
fn stack_size_is_the_host_s_choice() {
    let mut vm = ScriptVm::with_stack_size(ScriptGlobalContext::new(0), 8);
    assert_eq!(vm.stack_len(), 8);
    assert_eq!(vm.sp(), 8);
    assert_eq!(vm.push_ret_i32(1), Ok(()));
    assert_eq!(vm.push_ret_i32(2), Ok(()));
    assert_eq!(vm.push_ret_i32(3), Err(Fault::StackBoundsViolation));
    let mut none = ScriptVm::with_stack_size(ScriptGlobalContext::new(0), 0);
    assert_eq!(none.sp(), 0);
    assert_eq!(none.pop_stack_i32(), Err(Fault::StackBoundsViolation));
}

#[test]
fn machine_without_module_is_idle() {
    let mut vm = ScriptVm::new(ScriptGlobalContext::new(0));
    assert_eq!(vm.status(), VmStatus::Idle);
    assert_eq!(vm.sp(), TOP);
    assert_eq!(vm.stack_len(), TOP);
    assert_eq!(vm.pc(), 0);
    assert_eq!(vm.execute(), ExecOutcome::Unbound);
    vm.set_function(3);
    assert_eq!(vm.status(), VmStatus::Idle);
    assert_eq!(vm.function_index(), 3);
    assert_eq!(vm.execute(), ExecOutcome::Unbound);
    assert!(vm.module().is_none());
}

#[test]
fn faulted_machine_stays_faulted_until_bound_again() {
    let mut vm = bind(vec![Program::new().set4(1).set4(0).op(26), Program::new().set4(4).ret()]);
    assert_eq!(vm.execute(), ExecOutcome::Faulted(Fault::DivideByZero));
    assert_eq!(vm.execute(), ExecOutcome::Faulted(Fault::DivideByZero));
    assert_eq!(vm.sp(), TOP - 8);
    vm.set_function(1);
    assert_eq!(vm.status(), VmStatus::Running);
    assert_eq!(vm.sp(), TOP);
    assert_eq!(vm.pc(), 0);
    assert_eq!(vm.execute(), ExecOutcome::Returned);
    assert_eq!(vm.stack_u32(TOP - 4), Ok(4));
}

#[test]
fn parts_go_back_to_the_host() {
    let vm = finish(Program::new().set4(9).opi(100, -1));
    let (context, module) = vm.into_parts();
    assert_eq!(context.var(0), Ok(9));
    let mut next = ScriptVm::new(context);
    next.set_module(module.unwrap());
    assert_eq!(next.status(), VmStatus::Running);
    assert_eq!(next.context().var(0), Ok(9));
}

#[test]
fn faults_of_each_kind() {
    assert_eq!(fault_of(Program::new().op(123)), Fault::UnknownOpcode(123));
    assert_eq!(fault_of(Program::new().op(255)), Fault::UnknownOpcode(255));
    for opcode in [99u8, 109, 110, 111, 112, 113, 114, 115, 116, 117, 118, 119, 120, 121, 122] {
        assert_eq!(fault_of(Program::new().op(opcode)), Fault::UnimplementedOpcode(opcode));
    }
    assert_eq!(fault_of(Program::new().op16(0, 1)), Fault::StackBoundsViolation);
    assert_eq!(fault_of(Program::new().op16(1, 4097)), Fault::StackBoundsViolation);
    assert_eq!(fault_of(Program::new().op16(1, 4096).set4(1)), Fault::StackBoundsViolation);
    assert_eq!(fault_of(Program::new().op(23)), Fault::StackBoundsViolation);
    assert_eq!(fault_of(Program::new().set4(1).op(23)), Fault::StackBoundsViolation);
    assert_eq!(fault_of(Program::new().set4(4093).op(3)), Fault::StackBoundsViolation);
    assert_eq!(fault_of(Program::new().set4(1).set4(4096).op(5)), Fault::StackBoundsViolation);
    assert_eq!(fault_of(Program::new().op16(4, 0)), Fault::StackBoundsViolation);
    assert_eq!(fault_of(Program::new().op16(4, 1025)), Fault::StackBoundsViolation);
    assert_eq!(fault_of(Program::new().op16(7, 1025)), Fault::StackBoundsViolation);
    assert_eq!(fault_of(Program::new().op(86)), Fault::StackBoundsViolation);
    assert_eq!(fault_of(Program::new().op16(13, 1)), Fault::StackBoundsViolation);
    assert_eq!(
        fault_of(Program::new().set4(0).set4(4090).set4(0).op16(64, 8)),
        Fault::StackBoundsViolation
    );
    assert_eq!(fault_of(Program::new().opi(97, -3)), Fault::UnknownHostFunction);
    assert_eq!(fault_of(Program::new().opi(97, 0)), Fault::UnknownHostFunction);
    assert_eq!(fault_of(Program::new().opi(97, 1)), Fault::UnknownHostFunction);
    assert_eq!(fault_of(Program::new()), Fault::CodeBoundsViolation);
    assert_eq!(fault_of(Program::new().set4(1)), Fault::CodeBoundsViolation);
    assert_eq!(fault_of(Program::new().opi(14, 1)), Fault::CodeBoundsViolation);
    assert_eq!(fault_of(Program::new().opi(14, -9)), Fault::CodeBoundsViolation);
    assert_eq!(fault_of(Program::new().set4(0).opi(15, 100)), Fault::CodeBoundsViolation);
    assert_eq!(fault_of(Program::new().set4(5).op(85)), Fault::CodeBoundsViolation);
    assert_eq!(fault_of(Program { code: vec![2, 0, 0, 0, 1, 2] }), Fault::CodeBoundsViolation);
    assert_eq!(fault_of(Program { code: vec![13, 0, 0] }), Fault::CodeBoundsViolation);
    assert_eq!(fault_of(Program::new().opi(65, 0)), Fault::GlobalBoundsViolation);
    assert_eq!(fault_of(Program::new().opi(65, 3)), Fault::GlobalBoundsViolation);
    assert_eq!(fault_of(Program::new().opi(65, -3)), Fault::GlobalBoundsViolation);
    assert_eq!(fault_of(Program::new().set4(1).opi(100, 0)), Fault::GlobalBoundsViolation);
    assert_eq!(fault_of(Program::new().set4(1).opi(100, i32::MIN)), Fault::GlobalBoundsViolation);
    assert_eq!(fault_of(Program::new().op16(90, 2)), Fault::UnknownString);
    assert_eq!(fault_of(Program::new().op32(12, 1)), Fault::UnknownFunction);
    assert_eq!(fault_of(Program::new().op32(98, 7)), Fault::UnknownFunction);
    let mut vm = bind(vec![Program::new().ret()]);
    vm.set_function(1);
    assert_eq!(vm.execute(), ExecOutcome::Faulted(Fault::UnknownFunction));
}

#[test]
fn a_fault_changes_nothing_but_the_status() {
    let mut vm = bind(vec![Program::new().set4(0).opi(15, 100)]);
    assert_eq!(vm.execute(), ExecOutcome::Faulted(Fault::CodeBoundsViolation));
    assert_eq!(vm.pc(), 8);
    assert_eq!(vm.sp(), TOP - 4);
    let mut vm = bind(vec![Program::new().set4(1).set4(4096).op(6)]);
    assert_eq!(vm.execute(), ExecOutcome::Faulted(Fault::StackBoundsViolation));
    assert_eq!(vm.pc(), 16);
    assert_eq!(vm.sp(), TOP - 8);
}

#[test]
fn host_accessors_fault_outside_the_stack() {
    let mut vm = bind(vec![Program::new().ret()]);
    assert_eq!(vm.pop_stack_i32(), Err(Fault::StackBoundsViolation));
    assert_eq!(vm.status(), VmStatus::Faulted(Fault::StackBoundsViolation));
    let mut vm = bind(vec![Program::new().ret()]);
    assert_eq!(vm.push_ret_i32(-5), Ok(()));
    assert_eq!(vm.stack_u32(TOP - 4), Ok(0xFFFF_FFFB));
    assert_eq!(vm.pop_stack_i32(), Ok(-5));
    assert_eq!(vm.sp(), TOP);
    for _ in 0..1024 {
        assert_eq!(vm.push_ret_i32(1), Ok(()));
    }
    assert_eq!(vm.sp(), 0);
    assert_eq!(vm.push_ret_i32(1), Err(Fault::StackBoundsViolation));
    assert_eq!(vm.status(), VmStatus::Faulted(Fault::StackBoundsViolation));
    assert_eq!(vm.stack_u32(TOP - 3), Err(Fault::StackBoundsViolation));
}
