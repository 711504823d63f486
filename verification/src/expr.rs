//! The symbolic value algebra used by the prologue evaluator.

use vstd::prelude::*;

verus! {

/// A symbolic operand value.
///
/// The algebra is deliberately tiny: its single operation subtracts a known
/// constant from the incoming (unknown) value of a global. Because that is
/// the only constructor of `Computed`, the base of a `Computed` value is
/// always the prior value of some global, so only that global's index is
/// stored.
#[derive(Clone, Copy, Debug, PartialEq, Eq, Structural)]
pub enum SymbolicValue {
    /// A known constant.
    Immediate { value: usize },
    /// The incoming value of global `index`, not known concretely.
    UnknownGlobal { index: u32 },
    /// The incoming value of local `index`, not known concretely.
    UnknownLocal { index: u32 },
    /// The incoming value of global `base_global`, decremented by `minus`.
    Computed { base_global: u32, minus: usize },
}

/// The value that Rust's widening cast of an `i32` to `usize` produces:
/// the constant itself when non-negative, otherwise its two's-complement
/// image at the width of `usize`.
pub open spec fn spec_wrap_i32_to_usize(v: i32) -> usize {
    if v >= 0 {
        v as usize
    } else {
        (usize::MAX + 1 + v) as usize
    }
}

/// Converts an `i32` immediate to the `usize` the algebra stores for it.
pub fn wrap_i32_to_usize(v: i32) -> (r: usize)
    ensures
        r == spec_wrap_i32_to_usize(v),
{
    if v >= 0 {
        v as usize
    } else {
        let magnitude: i64 = -(v as i64);
        usize::MAX - (magnitude as usize - 1)
    }
}

/// The algebra's single operation: `lhs - rhs` is defined only when `lhs` is
/// the unknown value of a global and `rhs` is a known constant; every other
/// operand shape is unsupported and yields `None`.
pub open spec fn spec_sub(lhs: SymbolicValue, rhs: SymbolicValue) -> Option<SymbolicValue> {
    match (lhs, rhs) {
        (SymbolicValue::UnknownGlobal { index }, SymbolicValue::Immediate { value }) => Some(
            SymbolicValue::Computed { base_global: index, minus: value },
        ),
        _ => None,
    }
}

impl SymbolicValue {
    /// Subtracts `rhs` from `self`, failing on any operand shape the algebra
    /// does not define.
    pub fn sub(self, rhs: SymbolicValue) -> (r: Option<SymbolicValue>)
        ensures
            r == spec_sub(self, rhs),
    {
        match (self, rhs) {
            (SymbolicValue::UnknownGlobal { index }, SymbolicValue::Immediate { value }) => Some(
                SymbolicValue::Computed { base_global: index, minus: value },
            ),
            _ => None,
        }
    }
}

} // verus!
