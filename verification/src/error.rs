//! Failures that the core reports to its caller.
use vstd::prelude::*;

verus! {

/// A failure of the core. Execution is deterministic, so none of these is
/// transient: each one points at the program or at the data handed in.
#[derive(Debug, Clone, Copy, PartialEq, Eq, Structural)]
pub enum CpuError {
    /// The byte fetched at `address` is not an instruction of the processor.
    IllegalOpcode { opcode: u8, address: u16 },
    /// A program of `length` bytes does not fit into memory from `address` on.
    ProgramTooLarge { length: usize, address: u16 },
}

} // verus!
