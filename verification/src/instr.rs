//! The closed instruction set that the prologue analyzer understands.

use vstd::prelude::*;

verus! {

/// One decoded operator from a function body.
///
/// Only the operators that can take part in the stack-pointer adjustment
/// idiom are distinguished; every other operator is collapsed into `Other`,
/// which the symbolic evaluator rejects as unsupported.
#[derive(Clone, Copy, Debug, PartialEq, Eq, Structural)]
pub enum Instr {
    /// Pushes the 32-bit constant `value`.
    I32Const { value: i32 },
    /// Pushes the value of local `index`.
    LocalGet { index: u32 },
    /// Pops into local `index`.
    LocalSet { index: u32 },
    /// Stores the top of the operand stack into local `index` without popping.
    LocalTee { index: u32 },
    /// Pushes the value of global `index`.
    GlobalGet { index: u32 },
    /// Pops into global `index`.
    GlobalSet { index: u32 },
    /// Pops two operands and pushes their 32-bit difference.
    I32Sub,
    /// Any operator outside the set above.
    Other,
}

/// The diagnostic name of each instruction.
pub open spec fn mnemonic_text(i: Instr) -> Seq<char> {
    match i {
        Instr::I32Const { .. } => "i32.const"@,
        Instr::LocalGet { .. } => "local.get"@,
        Instr::LocalSet { .. } => "local.set"@,
        Instr::LocalTee { .. } => "local.tee"@,
        Instr::GlobalGet { .. } => "global.get"@,
        Instr::GlobalSet { .. } => "global.set"@,
        Instr::I32Sub => "i32.sub"@,
        Instr::Other => "unrecognized operator"@,
    }
}

impl Instr {
    /// A short human-readable name for diagnostics.
    pub fn mnemonic(&self) -> (r: &'static str)
        ensures
            r@ == mnemonic_text(*self),
    {
        match self {
            Instr::I32Const { .. } => "i32.const",
            Instr::LocalGet { .. } => "local.get",
            Instr::LocalSet { .. } => "local.set",
            Instr::LocalTee { .. } => "local.tee",
            Instr::GlobalGet { .. } => "global.get",
            Instr::GlobalSet { .. } => "global.set",
            Instr::I32Sub => "i32.sub",
            Instr::Other => "unrecognized operator",
        }
    }
}

/// Whether `i` writes the stack-pointer global `sp`.
pub open spec fn is_sp_write(i: Instr, sp: u32) -> bool {
    i matches Instr::GlobalSet { index } && index == sp
}

} // verus!
