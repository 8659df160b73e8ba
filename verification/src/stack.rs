use vstd::prelude::*;

use crate::fault::Fault;

verus! {

/// Number of return addresses the stack can hold.
pub const STACK_DEPTH: usize = 16;

/// The call stack: a LIFO store of at most sixteen 16-bit return addresses.
///
/// The reference hardware keeps a raw slot array and an unchecked pointer,
/// so a seventeenth push or a pop of an empty stack silently corrupts
/// state; here both conditions are reported as faults instead.
pub struct Stack {
    entries: Vec<u16>,
}

impl View for Stack {
    type V = Seq<u16>;

    closed spec fn view(&self) -> Seq<u16> {
        self.entries@
    }
}

impl Stack {
    /// The stack never holds more than `STACK_DEPTH` addresses.
    pub open spec fn wf(self) -> bool {
        self@.len() <= STACK_DEPTH
    }

    /// A fresh, empty stack.
    pub fn new() -> (r: Self)
        ensures
            r.wf(),
            r@ == Seq::<u16>::empty(),
    {
        Stack { entries: Vec::new() }
    }

    /// Push a return address on top of the stack, or report overflow if
    /// all sixteen slots are in use.
    pub fn push(&mut self, val: u16) -> (r: Result<(), Fault>)
        requires
            old(self).wf(),
        ensures
            final(self).wf(),
            old(self)@.len() < STACK_DEPTH ==> r == Ok::<(), Fault>(()) && final(self)@
                == old(self)@.push(val),
            old(self)@.len() == STACK_DEPTH ==> r == Err::<(), Fault>(Fault::StackOverflow)
                && final(self)@ == old(self)@,
    {
        if self.entries.len() == STACK_DEPTH {
            Err(Fault::StackOverflow)
        } else {
            self.entries.push(val);
            Ok(())
        }
    }

    /// Pop the most recently pushed address, or report underflow if the
    /// stack is empty.
    pub fn pop(&mut self) -> (r: Result<u16, Fault>)
        requires
            old(self).wf(),
        ensures
            final(self).wf(),
            old(self)@.len() > 0 ==> r == Ok::<u16, Fault>(old(self)@.last()) && final(self)@
                == old(self)@.drop_last(),
            old(self)@.len() == 0 ==> r == Err::<u16, Fault>(Fault::StackUnderflow)
                && final(self)@ == old(self)@,
    {
        match self.entries.pop() {
            Some(val) => Ok(val),
            None => {
                proof {
                    assert(self@ =~= old(self)@);
                }
                Err(Fault::StackUnderflow)
            },
        }
    }

    /// Empty the stack.
    pub fn reset(&mut self)
        ensures
            final(self).wf(),
            final(self)@ == Seq::<u16>::empty(),
    {
        self.entries.clear();
    }
}

/// Pushing an address and then popping returns exactly that address and
/// leaves the earlier entries as they were: the store is last-in,
/// first-out, and a push followed by a pop round-trips the whole stack.
pub proof fn lemma_stack_lifo(entries: Seq<u16>, val: u16)
    ensures
        entries.push(val).last() == val,
        entries.push(val).drop_last() =~= entries,
{
}

} // verus!
