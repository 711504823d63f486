//! Static stack-usage estimation for WebAssembly modules.
//!
//! The crate analyses the prologue of each function in a compiled module to
//! determine how many bytes the function subtracts from a designated
//! stack-pointer global, then joins those per-function frame sizes against a
//! captured call stack (a list of function names) to report a total
//! worst-case stack footprint.

pub mod aggregate;
pub mod decode;
pub mod error;
pub mod eval;
pub mod expr;
pub mod instr;
pub mod names;
pub mod prologue;
pub mod resolver;
pub mod sections;
