use word_vm::error::VmError;
use word_vm::instruction_executor::{
    decode_opcode, execute, i_add, i_divide, i_move, i_multiply, i_pass, i_subtract, i_syscall,
    unknown_instruction, Control, Opcode,
};
use word_vm::memory::{RegisterTarget, Vm, DATA_START, PROGRAM_COUNTER};
use word_vm::operand::{ValueArgument, ValueTypeHeader};

fn literal(value: u16) -> ValueArgument {
    ValueArgument { header: ValueTypeHeader::LITERAL, value }
}

fn reference(bank: RegisterTarget, value: u16) -> ValueArgument {
    ValueArgument { header: ValueTypeHeader::REGISTER(bank), value }
}

fn accumulator() -> ValueArgument {
    reference(RegisterTarget::SYSTEM, 0)
}

fn machine_with_accumulator(value: u16) -> Vm {
    let mut vm = Vm::new();
    vm.set_system_register(0, value);
    vm
}

#[test]
fn opcodes_decode_to_their_instructions() {
    assert_eq!(decode_opcode(0), Some(Opcode::Pass));
    assert_eq!(decode_opcode(1), Some(Opcode::Syscall));
    assert_eq!(decode_opcode(2), Some(Opcode::Move));
    assert_eq!(decode_opcode(3), Some(Opcode::Add));
    assert_eq!(decode_opcode(4), Some(Opcode::Subtract));
    assert_eq!(decode_opcode(5), Some(Opcode::Multiply));
    assert_eq!(decode_opcode(6), Some(Opcode::Divide));
    for code in 7..=255u8 {
        assert_eq!(decode_opcode(code), None);
    }
}

#[test]
fn known_opcodes_never_raise_a_decode_error() {
    let operands = [
        literal(1),
        reference(RegisterTarget::DATA, 2),
        reference(RegisterTarget::STACK, 3),
        reference(RegisterTarget::SYSTEM, 4),
        reference(RegisterTarget::SYSTEM, 300),
    ];
    for code in 0..=6u8 {
        for left in operands {
            for right in operands {
                let mut vm = Vm::new();
                match execute(&mut vm, code, left, right) {
                    Err(VmError::UnknownInstruction { .. })
                    | Err(VmError::UnknownAddressingMode { .. }) => {
                        panic!("decode error for opcode {}", code)
                    }
                    _ => {}
                }
            }
        }
    }
}

#[test]
fn unknown_opcode_is_fatal_and_changes_nothing() {
    let mut vm = machine_with_accumulator(99);
    vm.set_system_register(PROGRAM_COUNTER, 5);
    let registers = *vm.system_registers();
    assert_eq!(
        execute(&mut vm, 7, literal(1), accumulator()),
        Err(VmError::UnknownInstruction { opcode: 7, pc: 5 })
    );
    assert_eq!(vm.accumulator(), 99);
    assert_eq!(vm.system_registers(), &registers);
    assert_eq!(vm.program_memory(), &[0u16; 4096]);
    assert_eq!(
        execute(&mut vm, 255, literal(1), accumulator()),
        Err(VmError::UnknownInstruction { opcode: 255, pc: 5 })
    );
    assert_eq!(unknown_instruction(&vm, 8), VmError::UnknownInstruction { opcode: 8, pc: 5 });
}

#[test]
fn pass_does_nothing() {
    let mut vm = machine_with_accumulator(3);
    assert_eq!(execute(&mut vm, 0, literal(9), accumulator()), Ok(Control::Continue));
    assert_eq!(i_pass(&mut vm, literal(9), literal(9)), Ok(Control::Continue));
    // The operands are not even read.
    assert_eq!(
        i_pass(&mut vm, reference(RegisterTarget::SYSTEM, 999), literal(0)),
        Ok(Control::Continue)
    );
    assert_eq!(vm.accumulator(), 3);
    assert!(vm.output().is_empty());
}

#[test]
fn move_sets_the_right_operand() {
    for value in [0u16, 1, 0x00FF, 0x8000, 0xFFFF] {
        for target in [
            accumulator(),
            reference(RegisterTarget::DATA, 17),
            reference(RegisterTarget::STACK, 4095),
        ] {
            let mut vm = Vm::new();
            assert_eq!(i_move(&mut vm, literal(value), target), Ok(Control::Continue));
            assert_eq!(target.get(&vm), Ok(value));
        }
    }
}

#[test]
fn move_through_execute() {
    let mut vm = Vm::new();
    vm.set_system_register(DATA_START, 50);
    vm.set_program_register(53, 0x0BAD);
    assert_eq!(
        execute(&mut vm, 2, reference(RegisterTarget::DATA, 3), accumulator()),
        Ok(Control::Continue)
    );
    assert_eq!(vm.accumulator(), 0x0BAD);
}

#[test]
fn move_to_a_literal_is_fatal() {
    let mut vm = Vm::new();
    assert_eq!(i_move(&mut vm, literal(1), literal(2)), Err(VmError::InvalidWriteTarget));
}

#[test]
fn add_is_exact_where_the_sum_fits() {
    for (left, right) in [(0u16, 0u16), (1, 2), (1000, 2000), (0xFFFF, 0), (0x7FFF, 0x8000)] {
        let mut vm = machine_with_accumulator(right);
        assert_eq!(execute(&mut vm, 3, literal(left), accumulator()), Ok(Control::Continue));
        assert_eq!(vm.accumulator(), right + left);
    }
}

#[test]
fn add_wraps_around() {
    let mut vm = machine_with_accumulator(0xFFFF);
    assert_eq!(i_add(&mut vm, literal(1), accumulator()), Ok(Control::Continue));
    assert_eq!(vm.accumulator(), 0);
    let mut vm = machine_with_accumulator(0x8000);
    assert_eq!(i_add(&mut vm, literal(0x8001), accumulator()), Ok(Control::Continue));
    assert_eq!(vm.accumulator(), 1);
}

#[test]
fn subtract_takes_left_from_right() {
    let mut vm = machine_with_accumulator(10);
    assert_eq!(execute(&mut vm, 4, literal(3), accumulator()), Ok(Control::Continue));
    assert_eq!(vm.accumulator(), 7);
    let mut vm = machine_with_accumulator(0xFFFF);
    assert_eq!(i_subtract(&mut vm, literal(0xFFFF), accumulator()), Ok(Control::Continue));
    assert_eq!(vm.accumulator(), 0);
}

#[test]
fn subtract_wraps_around() {
    let mut vm = machine_with_accumulator(3);
    assert_eq!(i_subtract(&mut vm, literal(10), accumulator()), Ok(Control::Continue));
    assert_eq!(vm.accumulator(), 0xFFF9);
    let mut vm = machine_with_accumulator(0);
    assert_eq!(i_subtract(&mut vm, literal(1), accumulator()), Ok(Control::Continue));
    assert_eq!(vm.accumulator(), 0xFFFF);
}

#[test]
fn multiply_is_exact_where_the_product_fits() {
    for (left, right) in [(0u16, 5u16), (1, 0xFFFF), (255, 257), (12, 12)] {
        let mut vm = machine_with_accumulator(right);
        assert_eq!(execute(&mut vm, 5, literal(left), accumulator()), Ok(Control::Continue));
        assert_eq!(vm.accumulator(), right * left);
    }
}

#[test]
fn multiply_wraps_around() {
    let mut vm = machine_with_accumulator(0x100);
    assert_eq!(i_multiply(&mut vm, literal(0x100), accumulator()), Ok(Control::Continue));
    assert_eq!(vm.accumulator(), 0);
    let mut vm = machine_with_accumulator(0xFFFF);
    assert_eq!(i_multiply(&mut vm, literal(0xFFFF), accumulator()), Ok(Control::Continue));
    assert_eq!(vm.accumulator(), 1);
}

#[test]
fn divide_rounds_down() {
    let mut vm = machine_with_accumulator(17);
    assert_eq!(execute(&mut vm, 6, literal(5), accumulator()), Ok(Control::Continue));
    assert_eq!(vm.accumulator(), 3);
    let mut vm = machine_with_accumulator(0xFFFF);
    assert_eq!(i_divide(&mut vm, literal(1), accumulator()), Ok(Control::Continue));
    assert_eq!(vm.accumulator(), 0xFFFF);
    let mut vm = machine_with_accumulator(4);
    assert_eq!(i_divide(&mut vm, literal(5), accumulator()), Ok(Control::Continue));
    assert_eq!(vm.accumulator(), 0);
}

#[test]
fn divide_by_zero_is_fatal_for_every_dividend() {
    for dividend in [0u16, 1, 2, 255, 256, 0x7FFF, 0x8000, 0xFFFF] {
        let mut vm = machine_with_accumulator(dividend);
        assert_eq!(
            execute(&mut vm, 6, literal(0), accumulator()),
            Err(VmError::DivisionByZero)
        );
        assert_eq!(vm.accumulator(), dividend);
    }
    // A zero read from a register divides no better than a literal zero.
    let mut vm = machine_with_accumulator(8);
    assert_eq!(
        i_divide(&mut vm, reference(RegisterTarget::SYSTEM, 9), accumulator()),
        Err(VmError::DivisionByZero)
    );
    // Nor does a literal dividend escape: the division comes before the write.
    assert_eq!(i_divide(&mut vm, literal(0), literal(8)), Err(VmError::DivisionByZero));
}

#[test]
fn arithmetic_on_a_literal_target_is_fatal() {
    let mut vm = Vm::new();
    assert_eq!(i_add(&mut vm, literal(1), literal(2)), Err(VmError::InvalidWriteTarget));
    assert_eq!(i_subtract(&mut vm, literal(1), literal(2)), Err(VmError::InvalidWriteTarget));
    assert_eq!(i_multiply(&mut vm, literal(1), literal(2)), Err(VmError::InvalidWriteTarget));
    assert_eq!(i_divide(&mut vm, literal(1), literal(2)), Err(VmError::InvalidWriteTarget));
}

#[test]
fn arithmetic_reads_the_right_operand_first() {
    let mut vm = Vm::new();
    let left = reference(RegisterTarget::SYSTEM, 400);
    let right = reference(RegisterTarget::SYSTEM, 500);
    assert_eq!(
        i_add(&mut vm, left, right),
        Err(VmError::BoundsViolation {
            bank: RegisterTarget::SYSTEM,
            offset: 500,
            instruction_address: 0,
        })
    );
    assert_eq!(
        i_add(&mut vm, left, accumulator()),
        Err(VmError::BoundsViolation {
            bank: RegisterTarget::SYSTEM,
            offset: 400,
            instruction_address: 0,
        })
    );
}

#[test]
fn syscall_zero_asks_for_termination() {
    let mut vm = Vm::new();
    assert_eq!(execute(&mut vm, 1, literal(0), literal(0)), Ok(Control::Halt));
    assert_eq!(
        i_syscall(&mut vm, accumulator(), reference(RegisterTarget::SYSTEM, 999)),
        Ok(Control::Halt)
    );
    assert!(vm.output().is_empty());
    assert_eq!(vm.system_registers(), &[0u16; 256]);
}

#[test]
fn syscall_one_prints_the_low_byte_of_a_literal() {
    let mut vm = Vm::new();
    assert_eq!(execute(&mut vm, 1, literal(1), literal(0x41)), Ok(Control::Continue));
    assert_eq!(vm.output(), &vec![0x41u8]);
    assert_eq!(i_syscall(&mut vm, literal(1), literal(0x1242)), Ok(Control::Continue));
    assert_eq!(vm.output(), &vec![0x41u8, 0x42]);
    assert_eq!(i_syscall(&mut vm, literal(1), literal(0)), Ok(Control::Continue));
    assert_eq!(vm.output(), &vec![0x41u8, 0x42, 0]);
}

#[test]
fn syscall_one_prints_text_up_to_the_first_zero_byte() {
    let mut vm = Vm::new();
    vm.set_program_register(10, 0x4869);
    vm.set_program_register(11, 0x0000);
    vm.set_program_register(12, 0x5858);
    assert_eq!(
        execute(&mut vm, 1, literal(1), reference(RegisterTarget::DATA, 10)),
        Ok(Control::Continue)
    );
    assert_eq!(vm.output(), &b"VM: Hi".to_vec());
    assert_eq!(&vm.output()[4..], b"Hi");
}

#[test]
fn text_may_end_in_a_low_byte() {
    let mut vm = Vm::new();
    vm.set_system_register(DATA_START, 100);
    vm.set_program_register(100, 0x4865);
    vm.set_program_register(101, 0x6C6C);
    vm.set_program_register(102, 0x6F00);
    vm.set_program_register(103, 0x2121);
    assert_eq!(
        i_syscall(&mut vm, literal(1), reference(RegisterTarget::DATA, 0)),
        Ok(Control::Continue)
    );
    assert_eq!(vm.output(), &b"VM: Hello".to_vec());
}

#[test]
fn text_stops_at_a_zero_high_byte() {
    let mut vm = Vm::new();
    vm.set_program_register(0, 0x4869);
    vm.set_program_register(1, 0x0041);
    assert_eq!(
        i_syscall(&mut vm, literal(1), reference(RegisterTarget::STACK, 0)),
        Ok(Control::Continue)
    );
    assert_eq!(vm.output(), &b"VM: Hi".to_vec());
}

#[test]
fn empty_text_prints_the_prefix_alone() {
    let mut vm = Vm::new();
    assert_eq!(
        i_syscall(&mut vm, literal(1), reference(RegisterTarget::SYSTEM, 7)),
        Ok(Control::Continue)
    );
    assert_eq!(vm.output(), &b"VM: ".to_vec());
}

#[test]
fn text_from_the_system_bank() {
    let mut vm = Vm::new();
    vm.set_system_register(20, 0x4F4B);
    assert_eq!(
        i_syscall(&mut vm, literal(1), reference(RegisterTarget::SYSTEM, 20)),
        Ok(Control::Continue)
    );
    assert_eq!(vm.output(), &b"VM: OK".to_vec());
}

#[test]
fn text_that_leaves_its_bank_is_fatal() {
    let mut vm = Vm::new();
    vm.set_program_register(4094, 0x4142);
    vm.set_program_register(4095, 0x4344);
    assert_eq!(
        i_syscall(&mut vm, literal(1), reference(RegisterTarget::DATA, 4094)),
        Err(VmError::BoundsViolation {
            bank: RegisterTarget::DATA,
            offset: 4096,
            instruction_address: 0,
        })
    );
    assert_eq!(vm.output(), &b"VM: ABCD".to_vec());

    let mut vm = Vm::new();
    assert_eq!(
        i_syscall(&mut vm, literal(1), reference(RegisterTarget::SYSTEM, 0xFFFF)),
        Err(VmError::BoundsViolation {
            bank: RegisterTarget::SYSTEM,
            offset: 0xFFFF,
            instruction_address: 0,
        })
    );
    assert_eq!(vm.output(), &b"VM: ".to_vec());
}

#[test]
fn reserved_syscalls_do_nothing() {
    for selector in [2u16, 3, 255, 256, 0xFFFF] {
        let mut vm = machine_with_accumulator(5);
        assert_eq!(
            execute(&mut vm, 1, literal(selector), accumulator()),
            Ok(Control::Continue)
        );
        assert_eq!(
            i_syscall(&mut vm, literal(selector), reference(RegisterTarget::SYSTEM, 999)),
            Ok(Control::Continue)
        );
        assert_eq!(vm.accumulator(), 5);
        assert!(vm.output().is_empty());
    }
}

#[test]
fn syscall_selector_comes_from_the_left_operand() {
    let mut vm = Vm::new();
    vm.set_system_register(30, 1);
    assert_eq!(
        i_syscall(&mut vm, reference(RegisterTarget::SYSTEM, 30), literal(0x5A)),
        Ok(Control::Continue)
    );
    assert_eq!(vm.output(), &vec![0x5Au8]);
    assert_eq!(
        i_syscall(&mut vm, reference(RegisterTarget::SYSTEM, 256), literal(0x5A)),
        Err(VmError::BoundsViolation {
            bank: RegisterTarget::SYSTEM,
            offset: 256,
            instruction_address: 0,
        })
    );
}

#[test]
fn output_can_be_taken() {
    let mut vm = Vm::new();
    assert_eq!(i_syscall(&mut vm, literal(1), literal(0x41)), Ok(Control::Continue));
    assert_eq!(vm.take_output(), vec![0x41u8]);
    assert!(vm.output().is_empty());
    assert_eq!(i_syscall(&mut vm, literal(1), literal(0x42)), Ok(Control::Continue));
    assert_eq!(vm.take_output(), vec![0x42u8]);
}
