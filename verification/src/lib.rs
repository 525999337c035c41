//! Disassembler for decoded AVM1 action lists: resolves byte-offset branch
//! targets to instruction indices, threads the string constant pool through
//! an instruction list and into nested function bodies, and renders an
//! indented trace of every action list found in a movie's tag tree.
use vstd::prelude::*;

pub mod model;
pub mod pool;
pub mod render;
pub mod resolver;
pub mod trace;
pub mod walker;

verus! {

/// Number of indentation columns added for each level of function nesting.
pub const INDENT_STEP: usize = 4;

/// Indentation of a top-level action list.
pub const BASE_INDENT: usize = 4;

/// Maximum function-nesting depth the renderer will follow before it
/// reports the input as malformed.
pub const NESTING_LIMIT: usize = 64;

} // verus!
