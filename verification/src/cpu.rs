use vstd::prelude::*;
use crate::error::Error;
use crate::memory::{word_at, Memory};
use crate::RAM_SIZE;

verus! {

/// Number of general-purpose registers.
pub const NUM_REG: usize = 16;

/// Index of the register that doubles as the flag register.
pub const FLAG_REG: usize = 0xF;

/// Address at which programs are loaded and at which execution starts.
pub const GAME_MEM_OFFSET: usize = 0x200;

/// The register file: program counter, index register, the sixteen
/// general-purpose registers and the two timers.
#[derive(Debug)]
pub struct Cpu {
    pub pc: u16,
    pub i: u16,
    pub registers: [u8; 16],
    pub delay_timer: u8,
    pub sound_timer: u8,
}

impl Default for Cpu {
    /// The register file at power-on: everything zero, the program counter
    /// at the start of the program area.
    fn default() -> (cpu: Cpu)
        ensures
            cpu.pc == GAME_MEM_OFFSET,
            cpu.i == 0,
            cpu.registers@ == Seq::new(NUM_REG as nat, |r: int| 0u8),
            cpu.delay_timer == 0,
            cpu.sound_timer == 0,
    {
        let cpu = Cpu { pc: 0x200, i: 0, registers: [0u8; 16], delay_timer: 0, sound_timer: 0 };
        assert(cpu.registers@ =~= Seq::new(NUM_REG as nat, |r: int| 0u8));
        cpu
    }
}

impl Cpu {
    /// Reads the word at the program counter and moves the program counter
    /// past it. Where the word does not lie inside memory nothing changes.
    pub fn fetch(&mut self, memory: &Memory) -> (result: Result<u16, Error>)
        requires
            memory.wf(),
        ensures
            old(self).pc + 1 < RAM_SIZE ==> result == Ok::<u16, Error>(
                word_at(memory@, old(self).pc as int) as u16,
            ) && *final(self) == (Cpu { pc: (old(self).pc + 2) as u16, ..*old(self) }),
            old(self).pc + 1 >= RAM_SIZE ==> result == Err::<u16, Error>(Error::OutOfBounds)
                && *final(self) == *old(self),
    {
        match memory.read_word(self.pc as usize) {
            Ok(word) => {
                self.pc = self.pc + 2;
                Ok(word)
            },
            Err(e) => Err(e),
        }
    }
}

} // verus!
