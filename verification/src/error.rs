//! Classified per-function analysis failures.

use vstd::prelude::*;
use crate::instr::{mnemonic_text, Instr};

verus! {

/// Why a function body's frame size could not be determined.
#[derive(Clone, Copy, Debug, PartialEq, Eq, Structural)]
pub enum FrameError {
    /// The body never writes the stack-pointer global.
    NoStackPointerWrite,
    /// The body writes the stack-pointer global more than once, which signals
    /// a dynamically sized frame the analyzer does not model.
    MultipleStackPointerWrites,
    /// The prologue contains an instruction (or an operand shape) the
    /// symbolic evaluator does not support; carries the offending instruction.
    UnsupportedPrologueInstruction { instr: Instr },
    /// The stack-pointer slot did not end up holding its own prior value
    /// decremented by a constant.
    StackPointerUnchangedOrUnrecognized,
}

/// The diagnostic text of each failure; an unsupported instruction is
/// described by its mnemonic.
pub open spec fn describe_text(e: FrameError) -> Seq<char> {
    match e {
        FrameError::NoStackPointerWrite => "no set operation for stack pointer found"@,
        FrameError::MultipleStackPointerWrites => "more than one set operation for stack pointer found"@,
        FrameError::UnsupportedPrologueInstruction { instr } => mnemonic_text(instr),
        FrameError::StackPointerUnchangedOrUnrecognized => "stack pointer is not changed"@,
    }
}

impl FrameError {
    /// A human-readable description of the failure.
    pub fn describe(&self) -> (r: &'static str)
        ensures
            r@ == describe_text(*self),
    {
        match self {
            FrameError::NoStackPointerWrite => "no set operation for stack pointer found",
            FrameError::MultipleStackPointerWrites => "more than one set operation for stack pointer found",
            FrameError::UnsupportedPrologueInstruction { instr } => instr.mnemonic(),
            FrameError::StackPointerUnchangedOrUnrecognized => "stack pointer is not changed",
        }
    }
}

} // verus!
