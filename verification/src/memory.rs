use vstd::prelude::*;
use crate::error::Error;
use crate::font::{FONT_MEM_OFFSET, FONT_SET, FONT_SIZE};
use crate::RAM_SIZE;

verus! {

/// The contents of memory before any program is loaded: the font at its
/// fixed address, zero everywhere else.
pub open spec fn initial_memory() -> Seq<u8> {
    Seq::new(
        RAM_SIZE as nat,
        |a: int|
            if FONT_MEM_OFFSET <= a < FONT_MEM_OFFSET + FONT_SIZE {
                FONT_SET[a - FONT_MEM_OFFSET]
            } else {
                0u8
            },
    )
}

/// `memory` with `bytes` copied over the cells from `offset` on.
pub open spec fn loaded(memory: Seq<u8>, bytes: Seq<u8>, offset: int) -> Seq<u8> {
    Seq::new(
        memory.len(),
        |a: int|
            if offset <= a < offset + bytes.len() {
                bytes[a - offset]
            } else {
                memory[a]
            },
    )
}

/// The big-endian word made of the bytes at `addr` and `addr + 1`.
pub open spec fn word_at(memory: Seq<u8>, addr: int) -> int {
    memory[addr] * 256 + memory[addr + 1]
}

/// The machine's memory: `RAM_SIZE` bytes, never resized.
pub struct Memory {
    bytes: Vec<u8>,
}

impl View for Memory {
    type V = Seq<u8>;

    closed spec fn view(&self) -> Seq<u8> {
        self.bytes@
    }
}

impl Memory {
    /// Memory always holds exactly `RAM_SIZE` bytes.
    pub open spec fn wf(&self) -> bool {
        self@.len() == RAM_SIZE
    }

    /// Fresh memory, holding the font and nothing else.
    pub fn new() -> (memory: Memory)
        ensures
            memory.wf(),
            memory@ == initial_memory(),
    {
        let mut bytes: Vec<u8> = Vec::new();
        let mut a: usize = 0;
        while a < RAM_SIZE
            invariant
                a <= RAM_SIZE,
                bytes.len() == a,
                forall|k: int| 0 <= k < a ==> bytes[k] == initial_memory()[k],
            decreases RAM_SIZE - a,
        {
            if FONT_MEM_OFFSET <= a && a < FONT_MEM_OFFSET + FONT_SIZE {
                bytes.push(FONT_SET[a - FONT_MEM_OFFSET]);
            } else {
                bytes.push(0);
            }
            a += 1;
        }
        assert(bytes@ =~= initial_memory());
        Memory { bytes }
    }

    /// Copies `bytes` into memory starting at `offset`. An image that does
    /// not fit is rejected whole and memory is left as it was.
    pub fn load(&mut self, bytes: &Vec<u8>, offset: usize) -> (result: Result<(), Error>)
        requires
            old(self).wf(),
        ensures
            final(self).wf(),
            offset + bytes.len() <= RAM_SIZE ==> result == Ok::<(), Error>(()) && final(self)@
                == loaded(old(self)@, bytes@, offset as int),
            offset + bytes.len() > RAM_SIZE ==> result == Err::<(), Error>(Error::OutOfBounds)
                && final(self)@ == old(self)@,
    {
        let len = bytes.len();
        if len > RAM_SIZE || offset > RAM_SIZE - len {
            return Err(Error::OutOfBounds);
        }
        let mut k: usize = 0;
        while k < len
            invariant
                k <= len,
                len == bytes.len(),
                offset + len <= RAM_SIZE,
                self.bytes.len() == RAM_SIZE,
                forall|a: int|
                    0 <= a < RAM_SIZE ==> self.bytes[a] == if offset <= a < offset + k {
                        bytes[a - offset]
                    } else {
                        old(self).bytes[a]
                    },
            decreases len - k,
        {
            self.bytes[offset + k] = bytes[k];
            k += 1;
        }
        assert(self@ =~= loaded(old(self)@, bytes@, offset as int));
        Ok(())
    }

    /// The byte at `addr`.
    pub fn read_byte(&self, addr: usize) -> (result: Result<u8, Error>)
        requires
            self.wf(),
        ensures
            addr < RAM_SIZE ==> result == Ok::<u8, Error>(self@[addr as int]),
            addr >= RAM_SIZE ==> result == Err::<u8, Error>(Error::OutOfBounds),
    {
        if addr < RAM_SIZE {
            Ok(self.bytes[addr])
        } else {
            Err(Error::OutOfBounds)
        }
    }

    /// Stores `value` at `addr`.
    pub fn write_byte(&mut self, addr: usize, value: u8) -> (result: Result<(), Error>)
        requires
            old(self).wf(),
        ensures
            final(self).wf(),
            addr < RAM_SIZE ==> result == Ok::<(), Error>(()) && final(self)@ == old(self)@.update(addr as int, value),
            addr >= RAM_SIZE ==> result == Err::<(), Error>(Error::OutOfBounds) && final(self)@
                == old(self)@,
    {
        if addr < RAM_SIZE {
            self.bytes[addr] = value;
            Ok(())
        } else {
            Err(Error::OutOfBounds)
        }
    }

    /// The two bytes at `addr` and `addr + 1`, combined big-endian.
    pub fn read_word(&self, addr: usize) -> (result: Result<u16, Error>)
        requires
            self.wf(),
        ensures
            addr + 1 < RAM_SIZE ==> result == Ok::<u16, Error>(word_at(self@, addr as int) as u16),
            addr + 1 < RAM_SIZE ==> word_at(self@, addr as int) <= u16::MAX,
            addr + 1 >= RAM_SIZE ==> result == Err::<u16, Error>(Error::OutOfBounds),
    {
        if addr >= RAM_SIZE - 1 {
            return Err(Error::OutOfBounds);
        }
        let high: u8 = self.bytes[addr];
        let low: u8 = self.bytes[addr + 1];
        let word: u16 = ((high as u16) << 8) | (low as u16);
        assert((((high as u16) << 8) | (low as u16)) == high * 256 + low) by (bit_vector);
        Ok(word)
    }

    /// The `len` bytes from `addr` on, copied out.
    pub fn read_range(&self, addr: usize, len: usize) -> (result: Result<Vec<u8>, Error>)
        requires
            self.wf(),
        ensures
            addr + len <= RAM_SIZE ==> result is Ok && result->Ok_0@ == self@.subrange(
                addr as int,
                addr + len,
            ),
            addr + len > RAM_SIZE ==> result == Err::<Vec<u8>, Error>(Error::OutOfBounds),
    {
        if len > RAM_SIZE || addr > RAM_SIZE - len {
            return Err(Error::OutOfBounds);
        }
        let mut out: Vec<u8> = Vec::new();
        let mut k: usize = 0;
        while k < len
            invariant
                k <= len,
                addr + len <= RAM_SIZE,
                self.bytes.len() == RAM_SIZE,
                out.len() == k,
                forall|j: int| 0 <= j < k ==> out[j] == self.bytes[addr + j],
            decreases len - k,
        {
            out.push(self.bytes[addr + k]);
            k += 1;
        }
        assert(out@ =~= self@.subrange(addr as int, addr + len));
        Ok(out)
    }
}

} // verus!
