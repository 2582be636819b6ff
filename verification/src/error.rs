use vstd::prelude::*;

verus! {

/// The fatal conditions of the machine. None of them is transient: each one
/// points at a malformed program image.
#[derive(Clone, Copy, Debug, PartialEq, Eq, Structural)]
pub enum Error {
    /// An address, or the program counter, lies outside memory.
    OutOfBounds,
    /// The fetched word matches no instruction; it is carried along.
    UnknownOpcode(u16),
    /// A call was made with the call stack full.
    StackOverflow,
    /// A return was made with the call stack empty.
    StackUnderflow,
    /// A program image does not fit into memory at its load address.
    LoadTooLarge,
}

} // verus!
