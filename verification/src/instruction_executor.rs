//! The instruction set: the dispatch from an opcode byte to its handler, and
//! what each handler does to the machine.
//!
//! | opcode | instruction | effect                                   |
//! |--------|-------------|------------------------------------------|
//! | 0      | pass        | none                                     |
//! | 1      | syscall     | selected by the left operand, see below  |
//! | 2      | move        | right := left                            |
//! | 3      | add         | right := right + left                    |
//! | 4      | subtract    | right := right - left                    |
//! | 5      | multiply    | right := right * left                    |
//! | 6      | divide      | right := right / left                    |
//!
//! Arithmetic wraps around at 2^16. Division by zero is fatal.
//!
//! System call 0 asks the machine to stop. System call 1 writes to standard
//! output: a literal right operand as one character, a reference as the
//! zero-terminated text it points at, after a fixed prefix. Every other
//! selector is reserved and does nothing.

use crate::error::VmError;
use crate::memory::{RegisterTarget, Vm, VmState, PROGRAM_MEMORY_SIZE};
use crate::operand::{ValueArgument, ValueTypeHeader};
use crate::word::{
    add_words, divide_words, high_byte, low_byte, lower_byte, multiply_words, subtract_words,
    upper_byte, word_add, word_div, word_mul, word_sub,
};
use vstd::prelude::*;

verus! {

/// What the fetch-execute loop does after an instruction.
#[derive(Clone, Copy, Debug, PartialEq, Eq, Structural)]
pub enum Control {
    /// Go on with the next instruction.
    Continue,
    /// Stop: the program asked for termination.
    Halt,
}

/// The instructions of the machine.
#[derive(Clone, Copy, Debug, PartialEq, Eq, Structural)]
pub enum Opcode {
    Pass,
    Syscall,
    Move,
    Add,
    Subtract,
    Multiply,
    Divide,
}

/// The instruction that an opcode byte names, if it names one.
pub open spec fn opcode_of(instruction_call_code: u8) -> Option<Opcode> {
    if instruction_call_code == 0 {
        Some(Opcode::Pass)
    } else if instruction_call_code == 1 {
        Some(Opcode::Syscall)
    } else if instruction_call_code == 2 {
        Some(Opcode::Move)
    } else if instruction_call_code == 3 {
        Some(Opcode::Add)
    } else if instruction_call_code == 4 {
        Some(Opcode::Subtract)
    } else if instruction_call_code == 5 {
        Some(Opcode::Multiply)
    } else if instruction_call_code == 6 {
        Some(Opcode::Divide)
    } else {
        None
    }
}

/// The bytes that precede every text written by system call 1: `VM: `.
pub open spec fn diagnostic_prefix() -> Seq<u8> {
    seq![0x56u8, 0x4du8, 0x3au8, 0x20u8]
}

/// Byte `i` of the text packed at `offset` in `bank`: two bytes to a word,
/// the high byte of each word before its low byte.
pub open spec fn text_byte(s: VmState, bank: RegisterTarget, offset: u16, i: nat) -> u8 {
    let word = s.load(bank, offset + i / 2);
    if i % 2 == 0 {
        high_byte(word)
    } else {
        low_byte(word)
    }
}

/// The text packed at `offset` in `bank`, from byte `i` up to the first zero
/// byte, which is not part of it. Where the text runs out of the bank before
/// a zero byte, the bounds violation that ends it comes with what was read.
pub open spec fn text_from(s: VmState, bank: RegisterTarget, offset: u16, i: nat) -> (
    Seq<u8>,
    Option<VmError>,
)
    decreases 2 * PROGRAM_MEMORY_SIZE - i,
{
    if !s.in_bounds(bank, offset + i / 2) {
        (Seq::empty(), Some(s.violation(bank, offset + i / 2)))
    } else if text_byte(s, bank, offset, i) == 0 {
        (Seq::empty(), None)
    } else {
        let (rest, end) = text_from(s, bank, offset, i + 1);
        (seq![text_byte(s, bank, offset, i)] + rest, end)
    }
}

/// The outcome of an instruction that changes nothing.
pub open spec fn pass(s: VmState) -> (VmState, Result<Control, VmError>) {
    (s, Ok(Control::Continue))
}

/// The outcome of an instruction that fails before it changes anything.
pub open spec fn fail(s: VmState, error: VmError) -> (VmState, Result<Control, VmError>) {
    (s, Err(error))
}

/// The outcome of assigning `value` to `target` as the last act of an
/// instruction.
pub open spec fn assign(s: VmState, target: ValueArgument, value: u16) -> (
    VmState,
    Result<Control, VmError>,
) {
    let (t, done) = target.write(s, value);
    match done {
        Ok(_) => (t, Ok(Control::Continue)),
        Err(error) => (t, Err(error)),
    }
}

/// The outcome of system call 1 on the operand `value_b`.
pub open spec fn print(s: VmState, value_b: ValueArgument) -> (VmState, Result<Control, VmError>) {
    match value_b.header {
        ValueTypeHeader::LITERAL => (s.emit(seq![low_byte(value_b.value)]), Ok(Control::Continue)),
        ValueTypeHeader::REGISTER(bank) => {
            let (text, end) = text_from(s, bank, value_b.value, 0);
            let t = s.emit(diagnostic_prefix() + text);
            match end {
                None => (t, Ok(Control::Continue)),
                Some(error) => (t, Err(error)),
            }
        },
    }
}

/// The outcome of `syscall`: the left operand selects the call.
pub open spec fn syscall(s: VmState, value_a: ValueArgument, value_b: ValueArgument) -> (
    VmState,
    Result<Control, VmError>,
) {
    match value_a.read(s) {
        Err(error) => fail(s, error),
        Ok(selector) => if selector == 0 {
            (s, Ok(Control::Halt))
        } else if selector == 1 {
            print(s, value_b)
        } else {
            pass(s)
        },
    }
}

/// The outcome of `move`: the right operand becomes the left.
pub open spec fn move_value(s: VmState, value_a: ValueArgument, value_b: ValueArgument) -> (
    VmState,
    Result<Control, VmError>,
) {
    match value_a.read(s) {
        Err(error) => fail(s, error),
        Ok(left) => assign(s, value_b, left),
    }
}

/// The outcome of an arithmetic instruction: the right operand is read,
/// then the left, and the right becomes `combine(right, left)`. Where
/// `combine` has no result the divisor was zero.
pub open spec fn arithmetic(
    s: VmState,
    value_a: ValueArgument,
    value_b: ValueArgument,
    combine: spec_fn(u16, u16) -> Option<u16>,
) -> (VmState, Result<Control, VmError>) {
    match value_b.read(s) {
        Err(error) => fail(s, error),
        Ok(right) => match value_a.read(s) {
            Err(error) => fail(s, error),
            Ok(left) => match combine(right, left) {
                Some(value) => assign(s, value_b, value),
                None => fail(s, VmError::DivisionByZero),
            },
        },
    }
}

/// The outcome of the instruction `opcode` on two operands.
pub open spec fn perform(
    s: VmState,
    opcode: Opcode,
    value_a: ValueArgument,
    value_b: ValueArgument,
) -> (VmState, Result<Control, VmError>) {
    match opcode {
        Opcode::Pass => pass(s),
        Opcode::Syscall => syscall(s, value_a, value_b),
        Opcode::Move => move_value(s, value_a, value_b),
        Opcode::Add => arithmetic(s, value_a, value_b, |r: u16, l: u16| Some(word_add(r, l))),
        Opcode::Subtract => arithmetic(s, value_a, value_b, |r: u16, l: u16| Some(word_sub(r, l))),
        Opcode::Multiply => arithmetic(s, value_a, value_b, |r: u16, l: u16| Some(word_mul(r, l))),
        Opcode::Divide => arithmetic(s, value_a, value_b, |r: u16, l: u16| word_div(r, l)),
    }
}

/// The outcome of dispatching on an opcode byte: the instruction it names
/// is performed, and a byte that names none is an error that changes
/// nothing.
pub open spec fn dispatch(
    s: VmState,
    instruction_call_code: u8,
    value_a: ValueArgument,
    value_b: ValueArgument,
) -> (VmState, Result<Control, VmError>) {
    match opcode_of(instruction_call_code) {
        Some(opcode) => perform(s, opcode, value_a, value_b),
        None => fail(
            s,
            VmError::UnknownInstruction { opcode: instruction_call_code, pc: s.program_counter() },
        ),
    }
}

/// Decodes an opcode byte. Bytes above 6 name no instruction.
pub fn decode_opcode(instruction_call_code: u8) -> (opcode: Option<Opcode>)
    ensures
        opcode == opcode_of(instruction_call_code),
{
    match instruction_call_code {
        0 => Some(Opcode::Pass),
        1 => Some(Opcode::Syscall),
        2 => Some(Opcode::Move),
        3 => Some(Opcode::Add),
        4 => Some(Opcode::Subtract),
        5 => Some(Opcode::Multiply),
        6 => Some(Opcode::Divide),
        _ => None,
    }
}

/// Executes one decoded instruction. An opcode outside the instruction set
/// is an error, and the machine is then left as it was.
pub fn execute(
    vm: &mut Vm,
    instruction_call_code: u8,
    value_a: ValueArgument,
    value_b: ValueArgument,
) -> (next: Result<Control, VmError>)
    ensures
        (final(vm)@, next) == dispatch(old(vm)@, instruction_call_code, value_a, value_b),
{
    match decode_opcode(instruction_call_code) {
        Some(Opcode::Pass) => i_pass(vm, value_a, value_b),
        Some(Opcode::Syscall) => i_syscall(vm, value_a, value_b),
        Some(Opcode::Move) => i_move(vm, value_a, value_b),
        Some(Opcode::Add) => i_add(vm, value_a, value_b),
        Some(Opcode::Subtract) => i_subtract(vm, value_a, value_b),
        Some(Opcode::Multiply) => i_multiply(vm, value_a, value_b),
        Some(Opcode::Divide) => i_divide(vm, value_a, value_b),
        None => Err(unknown_instruction(vm, instruction_call_code)),
    }
}

/// Does nothing.
pub fn i_pass(vm: &mut Vm, value_a: ValueArgument, value_b: ValueArgument) -> (next: Result<
    Control,
    VmError,
>)
    ensures
        (final(vm)@, next) == pass(old(vm)@),
{
    Ok(Control::Continue)
}

/// The error for an opcode byte that names no instruction, with the program
/// counter of the machine.
pub fn unknown_instruction(vm: &Vm, instruction_call_code: u8) -> (error: VmError)
    ensures
        error == (VmError::UnknownInstruction {
            opcode: instruction_call_code,
            pc: vm@.program_counter(),
        }),
{
    VmError::UnknownInstruction { opcode: instruction_call_code, pc: vm.program_counter() }
}

/// Assigns `value` to `target` and goes on.
fn finish(vm: &mut Vm, target: ValueArgument, value: u16) -> (next: Result<Control, VmError>)
    ensures
        (final(vm)@, next) == assign(old(vm)@, target, value),
{
    match target.set(vm, value) {
        Ok(_) => Ok(Control::Continue),
        Err(error) => Err(error),
    }
}

/// Sets the right operand to the value of the left.
pub fn i_move(vm: &mut Vm, value_a: ValueArgument, value_b: ValueArgument) -> (next: Result<
    Control,
    VmError,
>)
    ensures
        (final(vm)@, next) == move_value(old(vm)@, value_a, value_b),
{
    match value_a.get(vm) {
        Ok(left) => finish(vm, value_b, left),
        Err(error) => Err(error),
    }
}

/// Reads the right operand, then the left.
fn operands(vm: &Vm, value_a: ValueArgument, value_b: ValueArgument) -> (values: Result<
    (u16, u16),
    VmError,
>)
    ensures
        values == (match value_b.read(vm@) {
            Err(error) => Err(error),
            Ok(right) => match value_a.read(vm@) {
                Err(error) => Err(error),
                Ok(left) => Ok((right, left)),
            },
        }),
{
    match value_b.get(vm) {
        Err(error) => Err(error),
        Ok(right) => match value_a.get(vm) {
            Err(error) => Err(error),
            Ok(left) => Ok((right, left)),
        },
    }
}

/// Adds the left operand to the right, wrapping around at 2^16.
pub fn i_add(vm: &mut Vm, value_a: ValueArgument, value_b: ValueArgument) -> (next: Result<
    Control,
    VmError,
>)
    ensures
        (final(vm)@, next) == perform(old(vm)@, Opcode::Add, value_a, value_b),
{
    match operands(vm, value_a, value_b) {
        Ok((right, left)) => finish(vm, value_b, add_words(right, left)),
        Err(error) => Err(error),
    }
}

/// Subtracts the left operand from the right, wrapping around below zero.
pub fn i_subtract(vm: &mut Vm, value_a: ValueArgument, value_b: ValueArgument) -> (next: Result<
    Control,
    VmError,
>)
    ensures
        (final(vm)@, next) == perform(old(vm)@, Opcode::Subtract, value_a, value_b),
{
    match operands(vm, value_a, value_b) {
        Ok((right, left)) => finish(vm, value_b, subtract_words(right, left)),
        Err(error) => Err(error),
    }
}

/// Multiplies the right operand by the left, wrapping around at 2^16.
pub fn i_multiply(vm: &mut Vm, value_a: ValueArgument, value_b: ValueArgument) -> (next: Result<
    Control,
    VmError,
>)
    ensures
        (final(vm)@, next) == perform(old(vm)@, Opcode::Multiply, value_a, value_b),
{
    match operands(vm, value_a, value_b) {
        Ok((right, left)) => finish(vm, value_b, multiply_words(right, left)),
        Err(error) => Err(error),
    }
}

/// Divides the right operand by the left, rounding down. A zero divisor is
/// fatal whatever the dividend, and then nothing is written.
pub fn i_divide(vm: &mut Vm, value_a: ValueArgument, value_b: ValueArgument) -> (next: Result<
    Control,
    VmError,
>)
    ensures
        (final(vm)@, next) == perform(old(vm)@, Opcode::Divide, value_a, value_b),
{
    match operands(vm, value_a, value_b) {
        Ok((right, left)) => match divide_words(right, left) {
            Some(quotient) => finish(vm, value_b, quotient),
            None => Err(VmError::DivisionByZero),
        },
        Err(error) => Err(error),
    }
}

/// Performs the system call that the left operand selects.
///
/// Call 0 asks for termination. Call 1 writes the right operand to standard
/// output: the low byte of a literal as one character; for a reference the
/// prefix, then the bytes it points at, the high byte of each word before
/// the low byte, up to the first zero byte. A text that leaves its bank
/// before a zero byte ends in a bounds violation, after the bytes that were
/// read have been written. Every other call does nothing.
pub fn i_syscall(vm: &mut Vm, value_a: ValueArgument, value_b: ValueArgument) -> (next: Result<
    Control,
    VmError,
>)
    ensures
        (final(vm)@, next) == syscall(old(vm)@, value_a, value_b),
{
    let selector = match value_a.get(vm) {
        Ok(selector) => selector,
        Err(error) => {
            return Err(error);
        },
    };
    match selector as u32 {
        0 => Ok(Control::Halt),
        1 => {
            match value_b.header {
                ValueTypeHeader::LITERAL => {
                    vm.emit(lower_byte(value_b.value));
                    Ok(Control::Continue)
                },
                ValueTypeHeader::REGISTER(register) => {
                    let ghost start = vm@;
                    vm.emit(0x56);
                    vm.emit(0x4d);
                    vm.emit(0x3a);
                    vm.emit(0x20);
                    assert(vm@.output =~= start.output + diagnostic_prefix());
                    let mut i: usize = 0;
                    loop
                        invariant
                            start == old(vm)@,
                            value_a.read(start) == Ok::<u16, VmError>(1),
                            value_b.header == ValueTypeHeader::REGISTER(register),
                            i <= 2 * 4096,
                            i > 0 ==> start.in_bounds(register, value_b.value + (i - 1) / 2),
                            vm@.program == start.program,
                            vm@.system == start.system,
                            vm@.halted == start.halted,
                            vm@.output + text_from(start, register, value_b.value, i as nat).0
                                == start.output + diagnostic_prefix() + text_from(
                                start,
                                register,
                                value_b.value,
                                0,
                            ).0,
                            text_from(start, register, value_b.value, i as nat).1 == text_from(
                                start,
                                register,
                                value_b.value,
                                0,
                            ).1,
                        ensures
                            vm@ == start.emit(
                                diagnostic_prefix() + text_from(start, register, value_b.value, 0).0,
                            ),
                            text_from(start, register, value_b.value, 0).1.is_none(),
                        decreases 2 * 4096 - i,
                    {
                        let offset: usize = value_b.value as usize + i / 2;
                        let current = match vm.get_register(&register, offset as u16) {
                            Ok(current) => current,
                            Err(error) => {
                                assert(vm@.output =~= start.output + (diagnostic_prefix()
                                    + text_from(start, register, value_b.value, 0).0));
                                return Err(error);
                            },
                        };
                        let current_byte: u8 = if i % 2 == 0 {
                            upper_byte(current)
                        } else {
                            lower_byte(current)
                        };
                        if current_byte == 0 {
                            assert(vm@.output =~= start.output + (diagnostic_prefix()
                                + text_from(start, register, value_b.value, 0).0));
                            break ;
                        }
                        let ghost before = vm@.output;
                        vm.emit(current_byte);
                        assert(before + text_from(start, register, value_b.value, i as nat).0
                            =~= vm@.output + text_from(
                            start,
                            register,
                            value_b.value,
                            (i + 1) as nat,
                        ).0);
                        i += 1;
                    }
                    Ok(Control::Continue)
                },
            }
        },
        _ => Ok(Control::Continue),
    }
}

/// What the text at `offset` in `bank` is made of, from byte `i` on: each
/// of its bytes is the packed byte at its place and is not zero; it ends
/// before a zero byte, or, with a bounds violation, before the first byte
/// whose word lies outside the bank.
pub proof fn lemma_text_from(s: VmState, bank: RegisterTarget, offset: u16, i: nat)
    ensures
        ({
            let (text, end) = text_from(s, bank, offset, i);
            let stop = i + text.len();
            &&& forall|j: int|
                #![trigger text[j]]
                0 <= j < text.len() ==> text[j] == text_byte(s, bank, offset, (i + j) as nat)
                    && text[j] != 0 && s.in_bounds(bank, offset + (i + j) / 2)
            &&& end is None ==> s.in_bounds(bank, offset + stop / 2) && text_byte(
                s,
                bank,
                offset,
                stop,
            ) == 0
            &&& end is Some ==> !s.in_bounds(bank, offset + stop / 2) && end == Some(
                s.violation(bank, offset + stop / 2),
            )
        }),
    decreases 2 * PROGRAM_MEMORY_SIZE - i,
{
    if s.in_bounds(bank, offset + i / 2) && text_byte(s, bank, offset, i) != 0 {
        lemma_text_from(s, bank, offset, i + 1);
        let (rest, end) = text_from(s, bank, offset, i + 1);
        let (text, _) = text_from(s, bank, offset, i);
        assert(text == seq![text_byte(s, bank, offset, i)] + rest);
        assert forall|j: int|
            #![trigger text[j]]
            0 <= j < text.len() implies text[j] == text_byte(s, bank, offset, (i + j) as nat)
            && text[j] != 0 && s.in_bounds(bank, offset + (i + j) / 2) by {
            if j > 0 {
                assert(text[j] == rest[j - 1]);
                assert(i + j == i + 1 + (j - 1));
            }
        }
        assert(i + text.len() == i + 1 + rest.len());
    }
}

/// A text that starts at byte 0 and leaves its bank reports the offset of
/// the first word outside the bank, as it is: that offset fits in a word.
pub proof fn lemma_text_overrun(s: VmState, bank: RegisterTarget, offset: u16)
    requires
        text_from(s, bank, offset, 0).1 is Some,
    ensures
        ({
            let (text, end) = text_from(s, bank, offset, 0);
            &&& offset + text.len() / 2 <= u16::MAX
            &&& end == Some(
                VmError::BoundsViolation {
                    bank,
                    offset: (offset + text.len() / 2) as u16,
                    instruction_address: s.instruction_address() as u32,
                },
            )
        }),
{
    lemma_text_from(s, bank, offset, 0);
    let (text, end) = text_from(s, bank, offset, 0);
    if text.len() > 0 {
        let last = text.len() - 1;
        assert(text[last] != 0);
        assert(s.in_bounds(bank, offset + (0 + last) / 2));
    }
}

/// An instruction of the instruction set never fails with a decode error:
/// only a bounds violation, a write to a literal or a division by zero can
/// end it.
pub proof fn lemma_known_opcode_is_no_decode_error(
    s: VmState,
    instruction_call_code: u8,
    value_a: ValueArgument,
    value_b: ValueArgument,
)
    requires
        instruction_call_code <= 6,
    ensures
        opcode_of(instruction_call_code) is Some,
        dispatch(s, instruction_call_code, value_a, value_b).1 matches Err(error)
            ==> !error.is_decode_error(),
{
    if let ValueTypeHeader::REGISTER(bank) = value_b.header {
        lemma_text_from(s, bank, value_b.value, 0);
    }
}

/// An opcode byte outside the instruction set fails with
/// `UnknownInstruction`, which names the byte and the program counter, and
/// leaves the whole state, the accumulator with it, as it was.
pub proof fn lemma_unknown_opcode(
    s: VmState,
    instruction_call_code: u8,
    value_a: ValueArgument,
    value_b: ValueArgument,
)
    requires
        instruction_call_code > 6,
    ensures
        dispatch(s, instruction_call_code, value_a, value_b) == (
            s,
            Err::<Control, VmError>(
                VmError::UnknownInstruction {
                    opcode: instruction_call_code,
                    pc: s.program_counter(),
                },
            ),
        ),
{
}

/// After a successful `move` the right operand reads as the value of the
/// left: for a literal left operand, as the literal. The move succeeds
/// exactly when the left operand can be read and the right is a reference
/// within the bounds of its bank.
pub proof fn lemma_move(s: VmState, value_a: ValueArgument, value_b: ValueArgument)
    requires
        s.wf(),
    ensures
        ({
            let (t, next) = move_value(s, value_a, value_b);
            &&& next is Ok <==> value_a.read(s) is Ok && value_b.read(s) is Ok && value_b.header
                is REGISTER
            &&& next is Ok ==> next == Ok::<Control, VmError>(Control::Continue) && value_b.read(t)
                == value_a.read(s)
            &&& value_a.header is LITERAL && next is Ok ==> value_b.read(t) == Ok::<u16, VmError>(
                value_a.value,
            )
            &&& next is Err ==> t == s
        }),
{
}

/// What the four arithmetic instructions leave in the right operand, when
/// the left operand reads as `left`, the right as `right`, and the right is
/// a reference: the sum, difference and product modulo 2^16, which are the
/// exact results wherever those fit in a word, and the quotient rounded
/// down.
pub proof fn lemma_arithmetic(
    s: VmState,
    value_a: ValueArgument,
    value_b: ValueArgument,
    left: u16,
    right: u16,
)
    requires
        s.wf(),
        value_a.read(s) == Ok::<u16, VmError>(left),
        value_b.read(s) == Ok::<u16, VmError>(right),
        value_b.header is REGISTER,
    ensures
        value_b.read(perform(s, Opcode::Add, value_a, value_b).0) == Ok::<u16, VmError>(
            word_add(right, left),
        ),
        value_b.read(perform(s, Opcode::Subtract, value_a, value_b).0) == Ok::<u16, VmError>(
            word_sub(right, left),
        ),
        value_b.read(perform(s, Opcode::Multiply, value_a, value_b).0) == Ok::<u16, VmError>(
            word_mul(right, left),
        ),
        right + left <= u16::MAX ==> word_add(right, left) == right + left,
        right - left >= 0 ==> word_sub(right, left) == right - left,
        right * left <= u16::MAX ==> word_mul(right, left) == right * left,
        left != 0 ==> value_b.read(perform(s, Opcode::Divide, value_a, value_b).0) == Ok::<
            u16,
            VmError,
        >((right / left) as u16),
        perform(s, Opcode::Add, value_a, value_b).1 is Ok,
        perform(s, Opcode::Subtract, value_a, value_b).1 is Ok,
        perform(s, Opcode::Multiply, value_a, value_b).1 is Ok,
        left != 0 ==> perform(s, Opcode::Divide, value_a, value_b).1 is Ok,
{
    crate::word::lemma_wrap_free(right, left);
}

/// Division by zero is fatal whatever the dividend, and writes nothing. The
/// error is `DivisionByZero` wherever the dividend can be read.
pub proof fn lemma_divide_by_zero(s: VmState, value_a: ValueArgument, value_b: ValueArgument)
    requires
        value_a.read(s) == Ok::<u16, VmError>(0),
    ensures
        perform(s, Opcode::Divide, value_a, value_b).1 is Err,
        perform(s, Opcode::Divide, value_a, value_b).0 == s,
        value_b.read(s) is Ok ==> perform(s, Opcode::Divide, value_a, value_b).1 == Err::<
            Control,
            VmError,
        >(VmError::DivisionByZero),
{
}

/// System call 0 asks for termination and changes nothing.
pub proof fn lemma_syscall_halt(s: VmState, value_a: ValueArgument, value_b: ValueArgument)
    requires
        value_a.read(s) == Ok::<u16, VmError>(0),
    ensures
        syscall(s, value_a, value_b) == (s, Ok::<Control, VmError>(Control::Halt)),
{
}

/// System call 1 on a literal writes exactly one character, the low byte
/// of the literal, and changes nothing else.
pub proof fn lemma_syscall_print_literal(s: VmState, value_a: ValueArgument, literal: u16)
    requires
        value_a.read(s) == Ok::<u16, VmError>(1),
    ensures
        ({
            let value_b = ValueArgument { header: ValueTypeHeader::LITERAL, value: literal };
            let (t, next) = syscall(s, value_a, value_b);
            &&& next == Ok::<Control, VmError>(Control::Continue)
            &&& t.output == s.output.push((literal % 256) as u8)
            &&& t == VmState { output: t.output, ..s }
        }),
{
    crate::word::lemma_word_bytes(literal);
    assert(s.output + seq![low_byte(literal)] =~= s.output.push(low_byte(literal)));
}

/// System call 1 on a reference writes the prefix and then the text that
/// the reference points at, and changes nothing else. It fails exactly
/// when the text leaves its bank before a zero byte.
pub proof fn lemma_syscall_print_text(
    s: VmState,
    value_a: ValueArgument,
    bank: RegisterTarget,
    offset: u16,
)
    requires
        value_a.read(s) == Ok::<u16, VmError>(1),
    ensures
        ({
            let value_b = ValueArgument { header: ValueTypeHeader::REGISTER(bank), value: offset };
            let (t, next) = syscall(s, value_a, value_b);
            let (text, end) = text_from(s, bank, offset, 0);
            &&& t == VmState { output: s.output + diagnostic_prefix() + text, ..s }
            &&& end is None <==> next == Ok::<Control, VmError>(Control::Continue)
            &&& end matches Some(error) ==> next == Err::<Control, VmError>(error)
        }),
{
    let (text, end) = text_from(s, bank, offset, 0);
    assert(s.output + (diagnostic_prefix() + text) =~= s.output + diagnostic_prefix() + text);
}

/// A reserved system call, one with a selector above 1, does nothing.
pub proof fn lemma_syscall_reserved(s: VmState, value_a: ValueArgument, value_b: ValueArgument)
    requires
        value_a.read(s) matches Ok(selector) && selector > 1,
    ensures
        syscall(s, value_a, value_b) == (s, Ok::<Control, VmError>(Control::Continue)),
{
}

} // verus!
