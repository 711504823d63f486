//! Reconciliation of the global function index space with the
//! code-section-local index space.

use vstd::prelude::*;

verus! {

/// Why a global function index has no code-local counterpart.
#[derive(Clone, Copy, Debug, PartialEq, Eq, Structural)]
pub enum ResolveError {
    /// The index belongs to an imported function, which has no body.
    NotLocallyDefined,
}

/// The function index space of a module: the first `base` indices are
/// imported functions; defined functions follow at `base`, `base + 1`, ...
/// in code-section encounter order.
#[derive(Clone, Copy, Debug, PartialEq, Eq, Structural)]
pub struct FunctionIndexSpace {
    /// The number of imported functions.
    pub base: usize,
}

/// The code-local index of a global function index, when it has one.
pub open spec fn spec_to_code_local(base: usize, global_index: usize) -> Result<
    usize,
    ResolveError,
> {
    if global_index >= base {
        Ok((global_index - base) as usize)
    } else {
        Err(ResolveError::NotLocallyDefined)
    }
}

impl FunctionIndexSpace {
    /// A space with `base` imported functions.
    pub fn new(base: usize) -> (r: Self)
        ensures
            r.base == base,
    {
        FunctionIndexSpace { base }
    }

    /// Maps a global function index to its code-local index, failing for
    /// indices that denote imports.
    pub fn to_code_local(&self, global_index: usize) -> (r: Result<usize, ResolveError>)
        ensures
            r == spec_to_code_local(self.base, global_index),
    {
        if global_index >= self.base {
            Ok(global_index - self.base)
        } else {
            Err(ResolveError::NotLocallyDefined)
        }
    }

    /// Maps a code-local index back to its global function index; `None`
    /// when the sum does not fit the index type.
    pub fn to_global(&self, code_local: usize) -> (r: Option<usize>)
        ensures
            self.base + code_local <= usize::MAX ==> r == Some((self.base + code_local) as usize),
            self.base + code_local > usize::MAX ==> r is None,
    {
        self.base.checked_add(code_local)
    }
}

/// Index resolution is a bijection between code-section encounter order and
/// the global indices at and above `base`: translating a code-local index to
/// its global index and back (or the other way round) is the identity.
pub proof fn lemma_index_resolution_bijection(base: usize, code_local: usize, global_index: usize)
    requires
        base + code_local <= usize::MAX,
        global_index >= base,
    ensures
        spec_to_code_local(base, (base + code_local) as usize) == Ok::<usize, ResolveError>(
            code_local,
        ),
        base + spec_to_code_local(base, global_index).unwrap() == global_index,
{
}

} // verus!
