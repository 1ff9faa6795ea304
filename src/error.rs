use vstd::prelude::*;

verus! {

/// What can go wrong when loading a program or executing an instruction.
#[derive(Clone, Copy, Debug, PartialEq, Eq, Structural)]
pub enum EngineError {
    /// The fetched word matches no instruction pattern.
    UnknownOpcode(u16),
    /// A call with all sixteen return slots in use.
    StackOverflow,
    /// A return with no return address on the stack.
    StackUnderflow,
    /// An access that starts at the given address leaves the addressable
    /// memory, or a write that would touch the built-in font.
    MemoryOutOfBounds(u16),
    /// The program image does not fit between 0x200 and the end of memory.
    ProgramTooLarge,
}

} // verus!
