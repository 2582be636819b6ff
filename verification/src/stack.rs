use vstd::prelude::*;
use crate::error::Error;
use crate::STACK_SIZE;

verus! {

/// The call stack: at most `STACK_SIZE` return addresses, last in first out.
pub struct Stack {
    frames: Vec<u16>,
}

impl View for Stack {
    type V = Seq<u16>;

    closed spec fn view(&self) -> Seq<u16> {
        self.frames@
    }
}

impl Stack {
    /// The stack never holds more than `STACK_SIZE` addresses.
    pub open spec fn wf(&self) -> bool {
        self@.len() <= STACK_SIZE
    }

    /// An empty stack.
    pub fn new() -> (stack: Stack)
        ensures
            stack.wf(),
            stack@ == Seq::<u16>::empty(),
    {
        Stack { frames: Vec::new() }
    }

    /// Number of addresses on the stack.
    pub fn depth(&self) -> (depth: usize)
        ensures
            depth == self@.len(),
    {
        self.frames.len()
    }

    /// Puts `addr` on top. A full stack is left as it was.
    pub fn push(&mut self, addr: u16) -> (result: Result<(), Error>)
        requires
            old(self).wf(),
        ensures
            final(self).wf(),
            old(self)@.len() < STACK_SIZE ==> result == Ok::<(), Error>(()) && final(self)@
                == old(self)@.push(addr),
            old(self)@.len() >= STACK_SIZE ==> result == Err::<(), Error>(Error::StackOverflow)
                && final(self)@ == old(self)@,
    {
        if self.frames.len() >= STACK_SIZE {
            return Err(Error::StackOverflow);
        }
        self.frames.push(addr);
        Ok(())
    }

    /// Takes the top address off. An empty stack yields an error, never a
    /// made-up address.
    pub fn pop(&mut self) -> (result: Result<u16, Error>)
        requires
            old(self).wf(),
        ensures
            final(self).wf(),
            old(self)@.len() > 0 ==> result == Ok::<u16, Error>(old(self)@.last()) && final(self)@ == old(self)@.drop_last(),
            old(self)@.len() == 0 ==> result == Err::<u16, Error>(Error::StackUnderflow)
                && final(self)@ == old(self)@,
    {
        match self.frames.pop() {
            Some(addr) => Ok(addr),
            None => Err(Error::StackUnderflow),
        }
    }
}

} // verus!
