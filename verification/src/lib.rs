//! A small bytecode virtual machine over 16-bit words.
//!
//! A machine owns 4096 words of program memory and 256 system registers.
//! An instruction is three words: an opcode with two addressing-mode
//! headers, and the raw words of a left and a right operand. Every function
//! that works on a machine states, over the machine's view as a `VmState`,
//! exactly what it returns and what it leaves behind.
//!
//! - `word`: the fields of a word, and arithmetic modulo 2^16
//! - `memory`: the machine, its two arrays and its three banks
//! - `operand`: addressing modes and resolved operands
//! - `instruction_executor`: the instruction set
//! - `machine`: decoding, and the fetch-execute loop
//! - `loader`: program images
//! - `dump`: memory as hexadecimal text
//! - `error`: the fatal conditions

pub mod dump;
pub mod error;
pub mod instruction_executor;
pub mod loader;
pub mod machine;
pub mod memory;
pub mod operand;
pub mod word;
