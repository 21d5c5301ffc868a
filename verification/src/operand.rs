//! Operands: how a four-bit addressing-mode header and a raw word resolve to
//! a literal or to a cell of one of the banks.

use crate::error::VmError;
use crate::memory::{RegisterTarget, Vm, VmState};
use vstd::prelude::*;

verus! {

/// What the raw word of an operand stands for.
#[derive(Clone, Copy, Debug, PartialEq, Eq, Structural)]
pub enum ValueTypeHeader {
    /// The word is the value itself.
    LITERAL,
    /// The word is an offset into the named bank.
    REGISTER(RegisterTarget),
}

/// A resolved operand. It lives for the execution of one instruction.
#[derive(Clone, Copy, Debug, PartialEq, Eq, Structural)]
pub struct ValueArgument {
    pub header: ValueTypeHeader,
    pub value: u16,
}

/// The addressing mode that an encoded header selects, if it selects one.
pub open spec fn header_of(encoded_header: u8) -> Option<ValueTypeHeader> {
    if encoded_header == 0 {
        Some(ValueTypeHeader::LITERAL)
    } else if encoded_header == 1 {
        Some(ValueTypeHeader::REGISTER(RegisterTarget::DATA))
    } else if encoded_header == 2 {
        Some(ValueTypeHeader::REGISTER(RegisterTarget::STACK))
    } else if encoded_header == 3 {
        Some(ValueTypeHeader::REGISTER(RegisterTarget::SYSTEM))
    } else {
        None
    }
}

/// The operand that an encoded header and a raw word resolve to, if the
/// header selects an addressing mode.
pub open spec fn operand_of(header: u8, value: u16) -> Option<ValueArgument> {
    match header_of(header) {
        Some(h) => Some(ValueArgument { header: h, value }),
        None => None,
    }
}

impl ValueArgument {
    /// The value of the operand in state `s`: the literal itself, or the
    /// word that the reference points at.
    pub open spec fn read(self, s: VmState) -> Result<u16, VmError> {
        match self.header {
            ValueTypeHeader::LITERAL => Ok(self.value),
            ValueTypeHeader::REGISTER(bank) => s.read(bank, self.value),
        }
    }

    /// Assigning `value` to the operand in state `s`: a literal is no
    /// target, a reference is written through.
    pub open spec fn write(self, s: VmState, value: u16) -> (VmState, Result<(), VmError>) {
        match self.header {
            ValueTypeHeader::LITERAL => (s, Err(VmError::InvalidWriteTarget)),
            ValueTypeHeader::REGISTER(bank) => s.write(bank, self.value, value),
        }
    }

    /// Assigns `value` to the operand. Assigning to a literal always fails
    /// with `InvalidWriteTarget`; a failed assignment changes nothing.
    pub fn set(&self, vm: &mut Vm, value: u16) -> (done: Result<(), VmError>)
        ensures
            (final(vm)@, done) == self.write(old(vm)@, value),
            self.header is LITERAL ==> done == Err::<(), VmError>(VmError::InvalidWriteTarget)
                && final(vm)@ == old(vm)@,
    {
        match &self.header {
            ValueTypeHeader::LITERAL => Err(VmError::InvalidWriteTarget),
            ValueTypeHeader::REGISTER(target) => vm.set_register(target, self.value, value),
        }
    }

    /// The value of the operand. Reading changes nothing.
    pub fn get(&self, vm: &Vm) -> (word: Result<u16, VmError>)
        ensures
            word == self.read(vm@),
    {
        match &self.header {
            ValueTypeHeader::LITERAL => Ok(self.value),
            ValueTypeHeader::REGISTER(target) => vm.get_register(target, self.value),
        }
    }
}

/// Resolves an operand from its encoded header and raw word. A header above
/// 3 selects no addressing mode and resolves to nothing.
pub fn create_value_argument(header: u8, value: u16) -> (operand: Option<ValueArgument>)
    ensures
        operand == operand_of(header, value),
{
    match resolve_value_type_header(header) {
        Some(header) => Some(ValueArgument { header, value }),
        None => None,
    }
}

/// Decodes an addressing-mode header: 0 is a literal, 1 the data bank, 2
/// the stack bank, 3 the system bank. Any other header decodes to nothing.
pub fn resolve_value_type_header(encoded_header: u8) -> (header: Option<ValueTypeHeader>)
    ensures
        header == header_of(encoded_header),
{
    match encoded_header {
        0 => Some(ValueTypeHeader::LITERAL),
        1 => Some(ValueTypeHeader::REGISTER(RegisterTarget::DATA)),
        2 => Some(ValueTypeHeader::REGISTER(RegisterTarget::STACK)),
        3 => Some(ValueTypeHeader::REGISTER(RegisterTarget::SYSTEM)),
        _ => None,
    }
}

/// A value assigned through a reference is the value read back through it.
pub proof fn lemma_read_after_write(s: VmState, operand: ValueArgument, value: u16)
    requires
        s.wf(),
        operand.write(s, value).1 is Ok,
    ensures
        operand.read(operand.write(s, value).0) == Ok::<u16, VmError>(value),
        operand.write(s, value).0.wf(),
{
}

/// Assigning to a literal is an error whatever the value, and leaves the
/// state as it was.
pub proof fn lemma_literal_is_no_target(s: VmState, literal: u16, value: u16)
    ensures
        (ValueArgument { header: ValueTypeHeader::LITERAL, value: literal }).write(s, value) == (
            s,
            Err::<(), VmError>(VmError::InvalidWriteTarget),
        ),
{
}

} // verus!
