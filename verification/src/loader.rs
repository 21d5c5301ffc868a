//! Program images: the byte stream a program arrives as, and how a machine
//! is set up from it.
//!
//! The first two bytes of an image are the start of the data segment, high
//! byte first. Every byte after them belongs to the program: taken two at a
//! time, high byte first, they are the words of program memory from address
//! 0 on. A last byte without a partner is padded with a zero low byte. The
//! stack segment starts one past the last word written, so an image with
//! `n` program bytes writes `(n + 1) / 2` words and its stack starts at
//! that address; a program that fills program memory exactly is accepted.

use crate::error::LoadError;
use crate::memory::{
    Vm, VmState, DATA_START, PROGRAM_MEMORY_SIZE, STACK_START, SYSTEM_REGISTER_COUNT,
};
use crate::word::{join_bytes, pack_word};
use vstd::prelude::*;

verus! {

/// What an image holds: the start of the data segment and the words of the
/// program.
#[derive(Debug, PartialEq, Eq)]
pub struct ProgramImage {
    pub data_start: u16,
    pub program_words: Vec<u16>,
}

/// The byte at index `i`, or zero where the image has ended.
pub open spec fn byte_or_zero(bytes: Seq<u8>, i: int) -> u8 {
    if 0 <= i < bytes.len() {
        bytes[i]
    } else {
        0
    }
}

/// Number of program bytes of an image: all but the header.
pub open spec fn program_bytes(bytes: Seq<u8>) -> int {
    bytes.len() - 2
}

/// Number of words that an image writes to program memory: one for every
/// two program bytes, and one more for an odd byte at the end.
pub open spec fn image_word_count(bytes: Seq<u8>) -> int {
    (program_bytes(bytes) + 1) / 2
}

/// Word `k` of the program of an image.
pub open spec fn image_word(bytes: Seq<u8>, k: int) -> u16 {
    pack_word(byte_or_zero(bytes, 2 + 2 * k), byte_or_zero(bytes, 3 + 2 * k))
}

/// The words that an image writes to program memory.
pub open spec fn image_words(bytes: Seq<u8>) -> Seq<u16> {
    Seq::new(image_word_count(bytes) as nat, |k: int| image_word(bytes, k))
}

/// The start of the data segment that an image names.
pub open spec fn image_data_start(bytes: Seq<u8>) -> u16 {
    pack_word(bytes[0], bytes[1])
}

/// Why an image is refused, if it is.
pub open spec fn image_fault(bytes: Seq<u8>) -> Option<LoadError> {
    if bytes.len() < 2 {
        Some(LoadError::MissingHeader)
    } else if image_word_count(bytes) > PROGRAM_MEMORY_SIZE {
        Some(LoadError::ProgramTooLarge)
    } else {
        None
    }
}

/// The state of a machine that was just set up: the program at the bottom
/// of program memory and zeros above it, the two segment registers set, all
/// other registers zero, no output, running.
pub open spec fn initial_state(program_words: Seq<u16>, data_start: u16, stack_start: u16)
    -> VmState {
    VmState {
        program: Seq::new(
            PROGRAM_MEMORY_SIZE as nat,
            |k: int| if k < program_words.len() { program_words[k] } else { 0u16 },
        ),
        system: Seq::new(
            SYSTEM_REGISTER_COUNT as nat,
            |i: int|
                if i == STACK_START {
                    stack_start
                } else if i == DATA_START {
                    data_start
                } else {
                    0u16
                },
        ),
        output: Seq::empty(),
        halted: false,
    }
}

/// The state of the machine that an accepted image sets up.
pub open spec fn loaded_state(bytes: Seq<u8>) -> VmState {
    initial_state(image_words(bytes), image_data_start(bytes), image_word_count(bytes) as u16)
}

/// Reads an image. It is refused when it is shorter than its header, and
/// when its program has more words than program memory.
pub fn read_image(contents: &[u8]) -> (image: Result<ProgramImage, LoadError>)
    ensures
        match image {
            Ok(image) => image_fault(contents@).is_none() && image.data_start == image_data_start(
                contents@,
            ) && image.program_words@ == image_words(contents@),
            Err(error) => image_fault(contents@) == Some(error),
        },
{
    let read_offset: usize = 2;
    if contents.len() < read_offset {
        return Err(LoadError::MissingHeader);
    }
    let data_start = join_bytes(contents[0], contents[1]);
    let remainder: usize = contents.len() - read_offset;
    if remainder > 2 * PROGRAM_MEMORY_SIZE {
        return Err(LoadError::ProgramTooLarge);
    }
    let mut program_words: Vec<u16> = Vec::new();
    let mut i: usize = 0;
    while i < remainder
        invariant
            contents.len() == remainder + read_offset,
            read_offset == 2,
            remainder <= 2 * PROGRAM_MEMORY_SIZE,
            i % 2 == 0,
            i <= remainder + 1,
            program_words.len() == i / 2,
            forall|k: int| 0 <= k < i / 2 ==> program_words[k] == image_word(contents@, k),
        decreases remainder + 1 - i,
    {
        let byte_left_raw: u8 = contents[i + read_offset];
        let byte_right_raw: u8 = if i + 1 + read_offset < contents.len() {
            contents[i + 1 + read_offset]
        } else {
            0
        };
        program_words.push(join_bytes(byte_left_raw, byte_right_raw));
        i += 2;
    }
    assert(program_words@ =~= image_words(contents@));
    Ok(ProgramImage { data_start, program_words })
}

impl Vm {
    /// Sets up a machine: `program_words` from address 0 of program memory,
    /// the two segment registers as given, everything else zero. A program
    /// with more words than program memory is refused.
    pub fn initialize(program_words: &[u16], data_start: u16, stack_start: u16) -> (vm: Result<
        Vm,
        LoadError,
    >)
        ensures
            match vm {
                Ok(vm) => program_words.len() <= PROGRAM_MEMORY_SIZE && vm@ == initial_state(
                    program_words@,
                    data_start,
                    stack_start,
                ),
                Err(error) => program_words.len() > PROGRAM_MEMORY_SIZE && error
                    == LoadError::ProgramTooLarge,
            },
    {
        if program_words.len() > PROGRAM_MEMORY_SIZE {
            return Err(LoadError::ProgramTooLarge);
        }
        let mut vm = Vm::new();
        vm.set_system_register(DATA_START, data_start);
        vm.set_system_register(STACK_START, stack_start);
        let mut address: usize = 0;
        while address < program_words.len()
            invariant
                address <= program_words.len() <= PROGRAM_MEMORY_SIZE,
                vm@.wf(),
                vm@.system == initial_state(program_words@, data_start, stack_start).system,
                vm@.output == Seq::<u8>::empty(),
                !vm@.halted,
                forall|k: int|
                    0 <= k < PROGRAM_MEMORY_SIZE ==> vm@.program[k] == (if k < address {
                        program_words[k]
                    } else {
                        0u16
                    }),
            decreases program_words.len() - address,
        {
            vm.set_program_register(address, program_words[address]);
            address += 1;
        }
        assert(vm@.program =~= initial_state(program_words@, data_start, stack_start).program);
        Ok(vm)
    }
}

/// Sets up a machine from a program image: the data segment starts where
/// the header says, the program lies at the bottom of program memory, and
/// the stack segment starts one past its last word.
pub fn initialise_memory(contents: &[u8]) -> (vm: Result<Vm, LoadError>)
    ensures
        match vm {
            Ok(vm) => image_fault(contents@).is_none() && vm@ == loaded_state(contents@),
            Err(error) => image_fault(contents@) == Some(error),
        },
{
    let image = match read_image(contents) {
        Ok(image) => image,
        Err(error) => {
            return Err(error);
        },
    };
    let stack_start: usize = image.program_words.len();
    Vm::initialize(image.program_words.as_slice(), image.data_start, stack_start as u16)
}

/// An image is accepted exactly when it has its header and at most as many
/// program bytes as program memory holds, two to a word.
pub proof fn lemma_image_accepted(bytes: Seq<u8>)
    ensures
        image_fault(bytes).is_none() <==> 2 <= bytes.len() && program_bytes(bytes) <= 2
            * PROGRAM_MEMORY_SIZE,
        bytes.len() < 2 <==> image_fault(bytes) == Some(LoadError::MissingHeader),
{
}

/// Loading gives back the image: the word at address `k` holds the program
/// bytes `2k` and `2k + 1`, the first in its high byte, where the image has
/// both; a last byte without a partner stands in the high byte over a zero
/// low byte; every word past the program bytes is zero. The data segment
/// starts where the header says, and the stack segment one past the last
/// word written.
pub proof fn lemma_loader_round_trip(bytes: Seq<u8>, k: int)
    requires
        image_fault(bytes).is_none(),
        0 <= k < PROGRAM_MEMORY_SIZE,
    ensures
        loaded_state(bytes).wf(),
        2 * k + 2 <= program_bytes(bytes) ==> loaded_state(bytes).program[k] == pack_word(
            bytes[2 + 2 * k],
            bytes[2 + 2 * k + 1],
        ),
        2 * k + 1 == program_bytes(bytes) ==> loaded_state(bytes).program[k] == pack_word(
            bytes[2 + 2 * k],
            0,
        ),
        2 * k >= program_bytes(bytes) ==> loaded_state(bytes).program[k] == 0,
        loaded_state(bytes).system[DATA_START as int] == pack_word(bytes[0], bytes[1]),
        loaded_state(bytes).system[STACK_START as int] == (program_bytes(bytes) + 1) / 2,
        loaded_state(bytes).program_counter() == 0,
        loaded_state(bytes).accumulator() == 0,
{
    assert(pack_word(0, 0) == 0) by (bit_vector);
}

} // verus!
