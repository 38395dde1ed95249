//! Runtime values held in a chunk's constant pool, and source line numbers.

use vstd::prelude::*;

verus! {

/// A source line number, as produced by the lexer.
pub type Line = u32;

/// A runtime constant.
#[derive(Debug, Clone, PartialEq, Eq, Structural)]
pub enum Value {
    Int(i32),
    Bool(bool),
}

} // verus!
