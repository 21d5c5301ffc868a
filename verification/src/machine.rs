//! The fetch-execute loop: decoding the instruction at the program counter,
//! executing it, and advancing.
//!
//! A machine is running or halted. It halts when the program asks for
//! termination and when an instruction fails; a halted machine executes
//! nothing further. After every other instruction the loop adds one to the
//! program counter, wrapping around at 2^16, and nothing else advances it.

use crate::error::VmError;
use crate::instruction_executor::{
    dispatch, execute, lemma_known_opcode_is_no_decode_error, Control,
};
use crate::memory::{
    RegisterTarget, Vm, VmState, INSTRUCTION_WIDTH, PROGRAM_COUNTER, PROGRAM_MEMORY_SIZE,
};
use crate::operand::{create_value_argument, operand_of, ValueArgument};
use crate::word::{
    high_byte, high_nibble, low_byte, low_nibble, lower_byte, upper_byte, word_add,
};
use vstd::prelude::*;

verus! {

/// The two states of the fetch-execute loop.
#[derive(Clone, Copy, Debug, PartialEq, Eq, Structural)]
pub enum RunState {
    Running,
    Halted,
}

/// One decoded instruction: the opcode byte and the two resolved operands.
#[derive(Clone, Copy, Debug, PartialEq, Eq, Structural)]
pub struct Instruction {
    pub opcode: u8,
    pub left: ValueArgument,
    pub right: ValueArgument,
}

/// What a halted machine leaves behind: the accumulator and a copy of all
/// memory and all registers.
#[derive(Clone, Copy, Debug, PartialEq, Eq)]
pub struct FinalState {
    pub accumulator: u16,
    pub program_memory: [u16; 4096],
    pub system_registers: [u16; 256],
}

impl FinalState {
    /// Whether this is what the state `s` leaves behind.
    pub open spec fn is_snapshot_of(self, s: VmState) -> bool {
        &&& self.accumulator == s.accumulator()
        &&& self.program_memory@ == s.program
        &&& self.system_registers@ == s.system
    }
}

/// The instruction at program counter `pc`.
///
/// It occupies the three words from address `3 * pc`. The first holds the
/// opcode in its high byte and the two addressing-mode headers in its low
/// byte, the left operand's in the high nibble; the second and third are
/// the raw words of the left and right operand. The opcode byte is not
/// judged here.
pub open spec fn decode(s: VmState, pc: u16) -> Result<Instruction, VmError> {
    let address = pc * INSTRUCTION_WIDTH;
    if address + 2 >= PROGRAM_MEMORY_SIZE {
        Err(VmError::InstructionOutOfBounds { pc, instruction_address: address as u32 })
    } else {
        let headers = low_byte(s.program[address]);
        match operand_of(high_nibble(headers), s.program[address + 1]) {
            None => Err(VmError::UnknownAddressingMode { header: high_nibble(headers), pc }),
            Some(left) => match operand_of(low_nibble(headers), s.program[address + 2]) {
                None => Err(VmError::UnknownAddressingMode { header: low_nibble(headers), pc }),
                Some(right) => Ok(
                    Instruction { opcode: high_byte(s.program[address]), left, right },
                ),
            },
        }
    }
}

/// The state with one added to the program counter, modulo 2^16.
pub open spec fn advance(s: VmState) -> VmState {
    s.store(RegisterTarget::SYSTEM, PROGRAM_COUNTER as int, word_add(s.program_counter(), 1))
}

/// One turn of the fetch-execute loop.
pub open spec fn step(s: VmState) -> (VmState, Result<RunState, VmError>) {
    if s.halted {
        (s, Ok(RunState::Halted))
    } else {
        match decode(s, s.program_counter()) {
            Err(error) => (s.halt(), Err(error)),
            Ok(instruction) => {
                let (t, next) = dispatch(
                    s,
                    instruction.opcode,
                    instruction.left,
                    instruction.right,
                );
                match next {
                    Ok(Control::Continue) => (advance(t), Ok(RunState::Running)),
                    Ok(Control::Halt) => (t.halt(), Ok(RunState::Halted)),
                    Err(error) => (t.halt(), Err(error)),
                }
            },
        }
    }
}

/// At most `steps` turns of the fetch-execute loop, ending early when the
/// machine halts or an instruction fails.
pub open spec fn run_for(s: VmState, steps: nat) -> (VmState, Result<RunState, VmError>)
    decreases steps,
{
    if steps == 0 {
        (s, Ok(if s.halted { RunState::Halted } else { RunState::Running }))
    } else {
        let (t, state) = step(s);
        match state {
            Ok(RunState::Running) => run_for(t, (steps - 1) as nat),
            _ => (t, state),
        }
    }
}

impl Vm {
    /// Decodes the instruction at program counter `pc`. The program counter
    /// of the machine is neither read nor advanced.
    pub fn fetch(&self, pc: u16) -> (instruction: Result<Instruction, VmError>)
        ensures
            instruction == decode(self@, pc),
    {
        let instruction_address: usize = pc as usize * INSTRUCTION_WIDTH as usize;
        let (instruction, value_left, value_right) = match (
            self.get_program_register(instruction_address),
            self.get_program_register(instruction_address + 1),
            self.get_program_register(instruction_address + 2),
        ) {
            (Some(instruction), Some(value_left), Some(value_right)) => (
                instruction,
                value_left,
                value_right,
            ),
            _ => {
                return Err(
                    VmError::InstructionOutOfBounds {
                        pc,
                        instruction_address: instruction_address as u32,
                    },
                );
            },
        };
        let instruction_call_code: u8 = upper_byte(instruction);
        let instruction_value_headers: u8 = lower_byte(instruction);

        let header_left = instruction_value_headers >> 4;
        let header_right = instruction_value_headers & 0b1111;

        let value_argument_left = match create_value_argument(header_left, value_left) {
            Some(operand) => operand,
            None => {
                return Err(VmError::UnknownAddressingMode { header: header_left, pc });
            },
        };
        let value_argument_right = match create_value_argument(header_right, value_right) {
            Some(operand) => operand,
            None => {
                return Err(VmError::UnknownAddressingMode { header: header_right, pc });
            },
        };
        Ok(
            Instruction {
                opcode: instruction_call_code,
                left: value_argument_left,
                right: value_argument_right,
            },
        )
    }

    /// Executes the instruction at the program counter, unless the machine
    /// is halted already. A failed instruction halts the machine.
    pub fn execute_next(&mut self) -> (state: Result<RunState, VmError>)
        ensures
            (final(self)@, state) == step(old(self)@),
    {
        if self.is_halted() {
            return Ok(RunState::Halted);
        }
        let next_address = self.program_counter();
        let instruction = match self.fetch(next_address) {
            Ok(instruction) => instruction,
            Err(error) => {
                self.halt();
                return Err(error);
            },
        };
        match execute(self, instruction.opcode, instruction.left, instruction.right) {
            Ok(Control::Continue) => {
                let next_address = self.program_counter().wrapping_add(1);
                self.set_system_register(PROGRAM_COUNTER, next_address);
                Ok(RunState::Running)
            },
            Ok(Control::Halt) => {
                self.halt();
                Ok(RunState::Halted)
            },
            Err(error) => {
                self.halt();
                Err(error)
            },
        }
    }

    /// The accumulator and a copy of all memory and all registers.
    pub fn snapshot(&self) -> (state: FinalState)
        ensures
            state.is_snapshot_of(self@),
    {
        FinalState {
            accumulator: self.accumulator(),
            program_memory: *self.program_memory(),
            system_registers: *self.system_registers(),
        }
    }

    /// Runs the fetch-execute loop for at most `max_steps` instructions.
    ///
    /// Returns the final state when the machine is halted, nothing when the
    /// steps ran out while it was still running, and the error when an
    /// instruction failed. A program need not halt, so the loop is bounded;
    /// calling again goes on where the last call stopped.
    pub fn run(&mut self, max_steps: u64) -> (outcome: Result<Option<FinalState>, VmError>)
        ensures
            final(self)@ == run_for(old(self)@, max_steps as nat).0,
            match run_for(old(self)@, max_steps as nat).1 {
                Ok(RunState::Halted) => outcome matches Ok(Some(state)) && state.is_snapshot_of(
                    final(self)@,
                ),
                Ok(RunState::Running) => outcome matches Ok(None),
                Err(error) => outcome == Err::<Option<FinalState>, VmError>(error),
            },
    {
        let mut remaining: u64 = max_steps;
        while remaining > 0
            invariant
                run_for(self@, remaining as nat) == run_for(old(self)@, max_steps as nat),
            decreases remaining,
        {
            match self.execute_next() {
                Ok(RunState::Running) => {
                    remaining -= 1;
                },
                Ok(RunState::Halted) => {
                    return Ok(Some(self.snapshot()));
                },
                Err(error) => {
                    return Err(error);
                },
            }
        }
        if self.is_halted() {
            Ok(Some(self.snapshot()))
        } else {
            Ok(None)
        }
    }
}

/// Whether the first word of the instruction at `pc` holds an opcode of the
/// instruction set and two addressing-mode headers that select a mode.
pub open spec fn well_encoded(s: VmState, pc: u16) -> bool {
    let word = s.program[pc * INSTRUCTION_WIDTH];
    &&& high_byte(word) <= 6
    &&& high_nibble(low_byte(word)) <= 3
    &&& low_nibble(low_byte(word)) <= 3
}

/// A well-encoded instruction is decoded wherever it lies in program
/// memory, and executing it never ends in a decode error.
pub proof fn lemma_well_encoded_is_no_decode_error(s: VmState)
    requires
        well_encoded(s, s.program_counter()),
    ensures
        s.instruction_address() + 2 < PROGRAM_MEMORY_SIZE ==> decode(s, s.program_counter()) is Ok,
        decode(s, s.program_counter()) matches Err(error) ==> !error.is_decode_error(),
        step(s).1 matches Err(error) ==> !error.is_decode_error(),
{
    if let Ok(instruction) = decode(s, s.program_counter()) {
        lemma_known_opcode_is_no_decode_error(
            s,
            instruction.opcode,
            instruction.left,
            instruction.right,
        );
    }
}

/// An instruction whose opcode byte is outside the instruction set halts
/// the machine with `UnknownInstruction`, which names the byte and the
/// program counter. Memory, registers and output, the accumulator among
/// them, stay as they were.
pub proof fn lemma_unknown_opcode_halts(s: VmState)
    requires
        !s.halted,
        decode(s, s.program_counter()) matches Ok(instruction) && instruction.opcode > 6,
    ensures
        step(s) == (
            s.halt(),
            Err::<RunState, VmError>(
                VmError::UnknownInstruction {
                    opcode: decode(s, s.program_counter())->Ok_0.opcode,
                    pc: s.program_counter(),
                },
            ),
        ),
        step(s).0.accumulator() == s.accumulator(),
{
}

/// System call 0 halts the machine where it stands: the state is otherwise
/// unchanged, the program counter with it, and however many steps the loop
/// is given it takes no further one.
pub proof fn lemma_termination_request_halts(s: VmState, steps: nat)
    requires
        !s.halted,
        decode(s, s.program_counter()) matches Ok(instruction) && instruction.opcode == 1
            && instruction.left.read(s) == Ok::<u16, VmError>(0),
        steps > 0,
    ensures
        step(s) == (s.halt(), Ok::<RunState, VmError>(RunState::Halted)),
        run_for(s, steps) == (s.halt(), Ok::<RunState, VmError>(RunState::Halted)),
{
}

/// A halted machine executes nothing: every further step, and every
/// further run, leaves it as it is.
pub proof fn lemma_halted_executes_nothing(s: VmState, steps: nat)
    requires
        s.halted,
    ensures
        step(s) == (s, Ok::<RunState, VmError>(RunState::Halted)),
        run_for(s, steps) == (s, Ok::<RunState, VmError>(RunState::Halted)),
{
}

/// Whatever a step does, the machine is halted after it unless the step
/// reports that it is still running; a failed step always halts.
pub proof fn lemma_step_halts_unless_running(s: VmState)
    ensures
        step(s).1 != Ok::<RunState, VmError>(RunState::Running) <==> step(s).0.halted,
{
}

/// A step keeps both arrays at their fixed length.
pub proof fn lemma_step_preserves_wf(s: VmState)
    requires
        s.wf(),
    ensures
        step(s).0.wf(),
{
}

/// A run keeps both arrays at their fixed length, and ends running only
/// when its steps ran out.
pub proof fn lemma_run_preserves_wf(s: VmState, steps: nat)
    requires
        s.wf(),
    ensures
        run_for(s, steps).0.wf(),
        run_for(s, steps).1 != Ok::<RunState, VmError>(RunState::Running) <==> run_for(
            s,
            steps,
        ).0.halted,
    decreases steps,
{
    if steps > 0 {
        lemma_step_preserves_wf(s);
        lemma_step_halts_unless_running(s);
        if step(s).1 == Ok::<RunState, VmError>(RunState::Running) {
            lemma_run_preserves_wf(step(s).0, (steps - 1) as nat);
        }
    }
}

} // verus!
