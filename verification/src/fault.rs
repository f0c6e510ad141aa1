use vstd::prelude::*;

verus! {

/// The conditions that end execution. None of them is retried: each one is a
/// deterministic property of the program and the state it ran in.
#[derive(Clone, Copy, Debug, PartialEq, Eq, Structural)]
pub enum Fault {
    /// The instruction word, carried here, matches no defined pattern.
    InvalidOpcode(u16),
    /// A call was made with sixteen return addresses already on the stack.
    StackOverflow,
    /// A return was made with nothing on the stack.
    StackUnderflow,
    /// The program counter, the index register or a sprite's rows reach past
    /// the end of memory.
    MemoryOutOfBounds,
    /// The program does not fit between the load address and the end of
    /// memory.
    RomTooLarge,
}

} // verus!
