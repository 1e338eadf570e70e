//! What can go wrong.

use vstd::prelude::*;
use crate::op_code::OpCode;

verus! {

/// Why an instruction could not be executed.
#[derive(Clone, Copy, Debug, PartialEq, Eq, Structural)]
pub enum ExecutionError {
    /// The instruction, carried here, is not part of the instruction set.
    UnimplementedOpcode(OpCode),
    /// A return was executed while the call stack was empty.
    StackUnderflow,
}

/// A program does not fit between the start of program memory and the end
/// of memory.
#[derive(Clone, Copy, Debug, PartialEq, Eq, Structural)]
pub struct RomTooLarge {
    /// Length of the rejected program in bytes.
    pub size: usize,
}

} // verus!
