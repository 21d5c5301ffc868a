//! Addressable memory: the two word arrays of the machine and the three
//! banks through which operands reach them.
//!
//! Program memory holds code, data and stack in one address space. The
//! system registers hold the accumulator, the program counter and the base
//! addresses of the stack and data segments. The system bank addresses the
//! registers directly; the stack and data banks add their base address to
//! an offset and address program memory.

use crate::error::VmError;
use vstd::prelude::*;

verus! {

/// Number of words of program memory.
pub const PROGRAM_MEMORY_SIZE: usize = 4096;

/// Number of system registers.
pub const SYSTEM_REGISTER_COUNT: usize = 256;

/// Number of words that one instruction occupies.
pub const INSTRUCTION_WIDTH: u16 = 3;

/// Index of the accumulator among the system registers.
pub const ACCUMULATOR: u16 = 0;

/// Index of the program counter among the system registers.
pub const PROGRAM_COUNTER: u16 = 1;

/// Index of the register that holds the base address of the stack segment.
pub const STACK_START: u16 = 2;

/// Index of the register that holds the base address of the data segment.
pub const DATA_START: u16 = 3;

/// One of the three banks that an operand can refer to.
#[derive(Clone, Copy, Debug, PartialEq, Eq, Structural)]
pub enum RegisterTarget {
    STACK,
    DATA,
    SYSTEM,
}

/// The state of a machine as contracts see it.
pub ghost struct VmState {
    /// Program memory, word by word.
    pub program: Seq<u16>,
    /// The system registers.
    pub system: Seq<u16>,
    /// Every byte written to standard output so far, and not yet taken.
    pub output: Seq<u8>,
    /// Whether the fetch-execute loop has stopped for good.
    pub halted: bool,
}

impl VmState {
    /// Both arrays have their fixed length.
    pub open spec fn wf(self) -> bool {
        &&& self.program.len() == PROGRAM_MEMORY_SIZE
        &&& self.system.len() == SYSTEM_REGISTER_COUNT
    }

    pub open spec fn accumulator(self) -> u16 {
        self.system[ACCUMULATOR as int]
    }

    pub open spec fn program_counter(self) -> u16 {
        self.system[PROGRAM_COUNTER as int]
    }

    /// Address of the first word of the current instruction.
    pub open spec fn instruction_address(self) -> int {
        self.program_counter() * INSTRUCTION_WIDTH
    }

    /// The address that offset zero of `bank` resolves to.
    pub open spec fn base(self, bank: RegisterTarget) -> int {
        match bank {
            RegisterTarget::SYSTEM => 0,
            RegisterTarget::STACK => self.system[STACK_START as int] as int,
            RegisterTarget::DATA => self.system[DATA_START as int] as int,
        }
    }

    /// Whether `offset` in `bank` resolves to a cell of the backing array.
    pub open spec fn in_bounds(self, bank: RegisterTarget, offset: int) -> bool {
        match bank {
            RegisterTarget::SYSTEM => 0 <= offset < SYSTEM_REGISTER_COUNT,
            _ => 0 <= self.base(bank) + offset < PROGRAM_MEMORY_SIZE,
        }
    }

    /// The word at `offset` in `bank`.
    pub open spec fn load(self, bank: RegisterTarget, offset: int) -> u16
        recommends
            self.in_bounds(bank, offset),
    {
        match bank {
            RegisterTarget::SYSTEM => self.system[offset],
            _ => self.program[self.base(bank) + offset],
        }
    }

    /// The state with `value` at `offset` in `bank`, and nothing else changed.
    pub open spec fn store(self, bank: RegisterTarget, offset: int, value: u16) -> VmState
        recommends
            self.in_bounds(bank, offset),
    {
        match bank {
            RegisterTarget::SYSTEM => VmState { system: self.system.update(offset, value), ..self },
            _ => VmState {
                program: self.program.update(self.base(bank) + offset, value),
                ..self
            },
        }
    }

    /// The error that an access to `offset` in `bank` raises when it is out
    /// of bounds.
    pub open spec fn violation(self, bank: RegisterTarget, offset: int) -> VmError {
        VmError::BoundsViolation {
            bank,
            offset: offset as u16,
            instruction_address: self.instruction_address() as u32,
        }
    }

    /// Reading a bank: the word, or a bounds violation. The state is never
    /// changed by a read.
    pub open spec fn read(self, bank: RegisterTarget, offset: u16) -> Result<u16, VmError> {
        if self.in_bounds(bank, offset as int) {
            Ok(self.load(bank, offset as int))
        } else {
            Err(self.violation(bank, offset as int))
        }
    }

    /// Writing a bank: the state after the write, or the unchanged state and
    /// a bounds violation.
    pub open spec fn write(self, bank: RegisterTarget, offset: u16, value: u16) -> (
        VmState,
        Result<(), VmError>,
    ) {
        if self.in_bounds(bank, offset as int) {
            (self.store(bank, offset as int, value), Ok(()))
        } else {
            (self, Err(self.violation(bank, offset as int)))
        }
    }

    /// The state after `bytes` went to standard output.
    pub open spec fn emit(self, bytes: Seq<u8>) -> VmState {
        VmState { output: self.output + bytes, ..self }
    }

    /// The state after the fetch-execute loop stopped.
    pub open spec fn halt(self) -> VmState {
        VmState { halted: true, ..self }
    }
}

/// A machine: its memory, its registers, the output it has produced, and
/// whether it still runs. Each machine owns its state; two machines share
/// nothing.
pub struct Vm {
    program_memory: [u16; 4096],
    system_registers: [u16; 256],
    output: Vec<u8>,
    halted: bool,
}

impl View for Vm {
    type V = VmState;

    closed spec fn view(&self) -> VmState {
        VmState {
            program: self.program_memory@,
            system: self.system_registers@,
            output: self.output@,
            halted: self.halted,
        }
    }
}

impl Vm {
    /// The state of every machine has both arrays at their fixed length.
    pub proof fn lemma_wf(&self)
        ensures
            self@.wf(),
    {
    }

    /// A machine with all memory and all registers zero, no output, running.
    pub fn new() -> (vm: Vm)
        ensures
            vm@.program == Seq::new(PROGRAM_MEMORY_SIZE as nat, |i: int| 0u16),
            vm@.system == Seq::new(SYSTEM_REGISTER_COUNT as nat, |i: int| 0u16),
            vm@.output == Seq::<u8>::empty(),
            !vm@.halted,
            vm@.wf(),
    {
        Vm {
            program_memory: [0u16; 4096],
            system_registers: [0u16; 256],
            output: Vec::new(),
            halted: false,
        }
    }

    /// The system register at `address`, if there is one.
    pub fn get_system_register(&self, address: u16) -> (word: Option<u16>)
        ensures
            word == (if address < SYSTEM_REGISTER_COUNT {
                Some(self@.system[address as int])
            } else {
                None
            }),
    {
        if (address as usize) < SYSTEM_REGISTER_COUNT {
            Some(self.system_registers[address as usize])
        } else {
            None
        }
    }

    /// Stores `value` in the system register at `address` and returns the
    /// word it replaces. Where there is no such register nothing is stored.
    pub fn set_system_register(&mut self, address: u16, value: u16) -> (replaced: Option<u16>)
        ensures
            address < SYSTEM_REGISTER_COUNT ==> replaced == Some(old(self)@.system[address as int])
                && final(self)@ == (VmState {
                system: old(self)@.system.update(address as int, value),
                ..old(self)@
            }),
            address >= SYSTEM_REGISTER_COUNT ==> replaced.is_none() && final(self)@ == old(self)@,
    {
        if (address as usize) < SYSTEM_REGISTER_COUNT {
            let replaced = self.system_registers[address as usize];
            self.system_registers[address as usize] = value;
            Some(replaced)
        } else {
            None
        }
    }

    /// The word of program memory at `address`, if there is one.
    pub fn get_program_register(&self, address: usize) -> (word: Option<u16>)
        ensures
            word == (if address < PROGRAM_MEMORY_SIZE {
                Some(self@.program[address as int])
            } else {
                None
            }),
    {
        if address < PROGRAM_MEMORY_SIZE {
            Some(self.program_memory[address])
        } else {
            None
        }
    }

    /// Stores `value` in program memory at `address` and returns the word it
    /// replaces. Where there is no such cell nothing is stored.
    pub fn set_program_register(&mut self, address: usize, value: u16) -> (replaced: Option<u16>)
        ensures
            address < PROGRAM_MEMORY_SIZE ==> replaced == Some(old(self)@.program[address as int])
                && final(self)@ == (VmState {
                program: old(self)@.program.update(address as int, value),
                ..old(self)@
            }),
            address >= PROGRAM_MEMORY_SIZE ==> replaced.is_none() && final(self)@ == old(self)@,
    {
        if address < PROGRAM_MEMORY_SIZE {
            let replaced = self.program_memory[address];
            self.program_memory[address] = value;
            Some(replaced)
        } else {
            None
        }
    }

    /// Program memory, word by word.
    pub fn program_memory(&self) -> (words: &[u16; 4096])
        ensures
            words@ == self@.program,
    {
        &self.program_memory
    }

    /// The system registers.
    pub fn system_registers(&self) -> (words: &[u16; 256])
        ensures
            words@ == self@.system,
    {
        &self.system_registers
    }

    /// The accumulator.
    pub fn accumulator(&self) -> (word: u16)
        ensures
            word == self@.accumulator(),
    {
        self.system_registers[ACCUMULATOR as usize]
    }

    /// The program counter.
    pub fn program_counter(&self) -> (word: u16)
        ensures
            word == self@.program_counter(),
    {
        self.system_registers[PROGRAM_COUNTER as usize]
    }

    /// Address of the first word of the current instruction.
    pub fn instruction_address(&self) -> (address: u32)
        ensures
            address == self@.instruction_address(),
    {
        self.program_counter() as u32 * INSTRUCTION_WIDTH as u32
    }

    /// The bounds violation for `offset` in `bank`, with the address of the
    /// current instruction.
    fn violation(&self, bank: RegisterTarget, offset: u16) -> (error: VmError)
        ensures
            error == self@.violation(bank, offset as int),
    {
        VmError::BoundsViolation { bank, offset, instruction_address: self.instruction_address() }
    }

    /// The address in the backing array that `address` in `register_section`
    /// resolves to, if it lies inside the array.
    fn resolve(&self, register_section: &RegisterTarget, address: u16) -> (cell: Option<usize>)
        ensures
            cell is Some <==> self@.in_bounds(*register_section, address as int),
            cell matches Some(c) ==> c == self@.base(*register_section) + address,
    {
        let (base, limit): (u16, usize) = match register_section {
            RegisterTarget::SYSTEM => (0, SYSTEM_REGISTER_COUNT),
            RegisterTarget::STACK => (
                self.system_registers[STACK_START as usize],
                PROGRAM_MEMORY_SIZE,
            ),
            RegisterTarget::DATA => (self.system_registers[DATA_START as usize], PROGRAM_MEMORY_SIZE),
        };
        let cell: usize = base as usize + address as usize;
        if cell < limit {
            Some(cell)
        } else {
            None
        }
    }

    /// Reads the word at `address` in `register_section`. An address that
    /// resolves outside the backing array is a bounds violation; it is never
    /// wrapped or truncated.
    pub fn get_register(&self, register_section: &RegisterTarget, address: u16) -> (word: Result<
        u16,
        VmError,
    >)
        ensures
            word == self@.read(*register_section, address),
    {
        match self.resolve(register_section, address) {
            Some(cell) => match register_section {
                RegisterTarget::SYSTEM => Ok(self.system_registers[cell]),
                _ => Ok(self.program_memory[cell]),
            },
            None => Err(self.violation(*register_section, address)),
        }
    }

    /// Writes `value` at `address` in `register_section`. An address that
    /// resolves outside the backing array is a bounds violation, and then
    /// nothing is written.
    pub fn set_register(&mut self, register_section: &RegisterTarget, address: u16, value: u16) -> (done:
        Result<(), VmError>)
        ensures
            (final(self)@, done) == old(self)@.write(*register_section, address, value),
    {
        match self.resolve(register_section, address) {
            Some(cell) => {
                match register_section {
                    RegisterTarget::SYSTEM => {
                        self.system_registers[cell] = value;
                    },
                    _ => {
                        self.program_memory[cell] = value;
                    },
                }
                Ok(())
            },
            None => Err(self.violation(*register_section, address)),
        }
    }

    /// Appends one byte to the output.
    pub(crate) fn emit(&mut self, byte: u8)
        ensures
            final(self)@ == old(self)@.emit(seq![byte]),
    {
        self.output.push(byte);
        assert(self.output@ =~= old(self).output@ + seq![byte]);
    }

    /// The output produced so far and not yet taken.
    pub fn output(&self) -> (bytes: &Vec<u8>)
        ensures
            bytes@ == self@.output,
    {
        &self.output
    }

    /// Hands out the output produced so far and leaves none behind.
    pub fn take_output(&mut self) -> (bytes: Vec<u8>)
        ensures
            bytes@ == old(self)@.output,
            final(self)@ == (VmState { output: Seq::<u8>::empty(), ..old(self)@ }),
    {
        let mut bytes: Vec<u8> = Vec::new();
        core::mem::swap(&mut bytes, &mut self.output);
        bytes
    }

    /// Whether the fetch-execute loop has stopped for good.
    pub fn is_halted(&self) -> (halted: bool)
        ensures
            halted == self@.halted,
    {
        self.halted
    }

    /// Stops the fetch-execute loop for good.
    pub fn halt(&mut self)
        ensures
            final(self)@ == old(self)@.halt(),
    {
        self.halted = true;
    }
}

} // verus!
