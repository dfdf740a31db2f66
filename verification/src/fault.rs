//! The fatal conditions that stop the machine.

use vstd::prelude::*;

verus! {

/// A fatal condition. Once one is reported the machine must not be stepped
/// any further.
#[derive(Clone, Copy, Debug, PartialEq, Eq, Structural)]
pub enum Fault {
    /// The program image does not fit between the load address and the end
    /// of memory.
    ProgramTooLarge,
    /// A return was executed with no return address on the stack.
    StackUnderflow,
    /// A call was executed with the stack already full.
    StackOverflow,
    /// A fetch, load or store reached outside the 4 KiB of memory.
    MemoryFault,
}

} // verus!
