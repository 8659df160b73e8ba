use vstd::prelude::*;

verus! {

/// A fault detected while executing a guest instruction.
///
/// The reference hardware silently corrupts state or aborts in these
/// situations; this core instead reports the condition to the host and
/// leaves the machine state intact so the host can display diagnostics.
#[derive(Clone, Copy, Debug, PartialEq, Eq, Structural)]
pub enum Fault {
    /// No defined opcode shape matches the fetched word. Carries the
    /// address the word was fetched from and its two raw bytes.
    IllegalInstruction(u16, u8, u8),
    /// A seventeenth return address was pushed without an intervening pop.
    StackOverflow,
    /// A return address was popped from an empty stack.
    StackUnderflow,
    /// A memory access outside the 4096-byte address space. Carries the
    /// base address of the failed access.
    AddressOutOfRange(u16),
    /// A guest register named a key slot outside the sixteen that exist.
    KeyOutOfRange(u8),
    /// The program image does not fit between 0x200 and the end of memory.
    ProgramTooLarge,
}

} // verus!
