use vstd::prelude::*;
use crate::alu::{add_with_carry, shift_left, shift_right, subtract_with_flag};
use crate::cpu::{Cpu, FLAG_REG};
use crate::display::{blank, Display};
use crate::error::Error;
use crate::font::{FONT_MEM_OFFSET, GLYPH_SIZE};
use crate::memory::{loaded, Memory};
use crate::model::{
    draws, effect, execute_spec, fetched_word, idle, initial, lemma_perform_keeps_wf,
    lemma_step_keeps_wf, perform_spec, random_fits, run_spec, run_valid, skips, step_draws,
    step_random_fits, step_spec, ticked, Signal, Snapshot, State,
};
use crate::opcode::{decode, Instruction};
use crate::rng::random_below;
use crate::stack::Stack;
use crate::{DISPLAY_HEIGHT, DISPLAY_WIDTH, RAM_SIZE};

verus! {

/// The instructions that only move the program counter and the call
/// stack, or clear the screen.
spec fn is_flow(instr: Instruction) -> bool {
    ||| instr is ClearScreen
    ||| instr is Return
    ||| instr is Jump
    ||| instr is Call
    ||| instr is JumpOffset
}

/// The instructions that put a value into one register.
spec fn is_assignment(instr: Instruction) -> bool {
    ||| instr is LoadImmediate
    ||| instr is AddImmediate
    ||| instr is Move
    ||| instr is Or
    ||| instr is And
    ||| instr is Xor
    ||| instr is Random
    ||| instr is ReadDelay
}

/// The instructions that set the flag register and a target register.
spec fn is_arithmetic(instr: Instruction) -> bool {
    ||| instr is AddRegister
    ||| instr is Subtract
    ||| instr is ShiftRight
    ||| instr is SubtractReversed
    ||| instr is ShiftLeft
}

/// The instructions on the index register and the timers, and the wait
/// for a key.
spec fn is_index_or_timer(instr: Instruction) -> bool {
    ||| instr is LoadIndex
    ||| instr is WaitForKey
    ||| instr is SetDelay
    ||| instr is SetSound
    ||| instr is AddToIndex
    ||| instr is LoadGlyph
}

/// Whether executing `instr` in state `pre` leaves the state `post` and
/// returns `result`.
spec fn performs(
    pre: Snapshot,
    post: Snapshot,
    result: Result<Signal, Error>,
    instr: Instruction,
    key: Option<u8>,
    random: u8,
) -> bool {
    (post, result) == perform_spec(pre, instr, key, random)
}

/// The virtual machine: register file, call stack, memory and display
/// buffer, with the flag that tells a renderer that the buffer was drawn
/// to, and the state of the fetch-execute cycle.
pub struct Chip8 {
    cpu: Cpu,
    stack: Stack,
    ram: Memory,
    vram: Display,
    drew: bool,
    state: State,
}

impl View for Chip8 {
    type V = Snapshot;

    closed spec fn view(&self) -> Snapshot {
        Snapshot {
            pc: self.cpu.pc,
            index: self.cpu.i,
            registers: self.cpu.registers@,
            delay_timer: self.cpu.delay_timer,
            sound_timer: self.cpu.sound_timer,
            stack: self.stack@,
            memory: self.ram@,
            pixels: self.vram@,
            drew: self.drew,
            state: self.state,
        }
    }
}

impl Chip8 {
    /// The machine's parts have their fixed sizes.
    pub open spec fn wf(&self) -> bool {
        self@.wf()
    }

    /// A machine that was just switched on: the font in memory, everything
    /// else zero, ready to run from the start of the program area.
    pub fn new() -> (machine: Chip8)
        ensures
            machine.wf(),
            machine@ == initial(),
    {
        let machine = Chip8 {
            cpu: Cpu::default(),
            stack: Stack::new(),
            ram: Memory::new(),
            vram: Display::new(),
            drew: false,
            state: State::Running,
        };
        assert(machine@ =~= initial());
        machine
    }

    /// Copies the program image `bin` into memory from `offset` on. An
    /// image that does not fit is rejected whole: memory is neither grown
    /// nor partly written.
    pub fn load_binary(&mut self, bin: Vec<u8>, offset: usize) -> (result: Result<(), Error>)
        requires
            old(self).wf(),
        ensures
            final(self).wf(),
            offset + bin.len() <= RAM_SIZE ==> result == Ok::<(), Error>(()) && final(self)@ == (
            Snapshot { memory: loaded(old(self)@.memory, bin@, offset as int), ..old(self)@ }),
            offset + bin.len() > RAM_SIZE ==> result == Err::<(), Error>(Error::LoadTooLarge)
                && final(self)@ == old(self)@,
    {
        match self.ram.load(&bin, offset) {
            Ok(()) => Ok(()),
            Err(_) => Err(Error::LoadTooLarge),
        }
    }

    /// The program counter.
    pub fn pc(&self) -> (pc: u16)
        ensures
            pc == self@.pc,
    {
        self.cpu.pc
    }

    /// The index register.
    pub fn index(&self) -> (index: u16)
        ensures
            index == self@.index,
    {
        self.cpu.i
    }

    /// The sixteen general-purpose registers.
    pub fn registers(&self) -> (registers: [u8; 16])
        ensures
            registers@ == self@.registers,
    {
        self.cpu.registers
    }

    /// The delay timer.
    pub fn delay_timer(&self) -> (timer: u8)
        ensures
            timer == self@.delay_timer,
    {
        self.cpu.delay_timer
    }

    /// The sound timer.
    pub fn sound_timer(&self) -> (timer: u8)
        ensures
            timer == self@.sound_timer,
    {
        self.cpu.sound_timer
    }

    /// Number of return addresses on the call stack.
    pub fn stack_depth(&self) -> (depth: usize)
        ensures
            depth == self@.stack.len(),
    {
        self.stack.depth()
    }

    /// The byte of memory at `addr`.
    pub fn read_byte(&self, addr: usize) -> (result: Result<u8, Error>)
        requires
            self.wf(),
        ensures
            addr < RAM_SIZE ==> result == Ok::<u8, Error>(self@.memory[addr as int]),
            addr >= RAM_SIZE ==> result == Err::<u8, Error>(Error::OutOfBounds),
    {
        self.ram.read_byte(addr)
    }

    /// The pixel in column `x` of row `y`, or nothing outside the grid.
    pub fn pixel(&self, x: usize, y: usize) -> (pixel: Option<u8>)
        requires
            self.wf(),
        ensures
            x < DISPLAY_WIDTH && y < DISPLAY_HEIGHT ==> pixel == Some(
                self@.pixels[y * DISPLAY_WIDTH + x],
            ),
            !(x < DISPLAY_WIDTH && y < DISPLAY_HEIGHT) ==> pixel.is_none(),
    {
        self.vram.pixel(x, y)
    }

    /// The whole pixel grid, row by row, for a renderer to read.
    pub fn pixels(&self) -> (pixels: &Vec<u8>)
        ensures
            pixels@ == self@.pixels,
    {
        self.vram.pixels()
    }

    /// Whether the display buffer was drawn to since the flag was last
    /// taken.
    pub fn drew(&self) -> (drew: bool)
        ensures
            drew == self@.drew,
    {
        self.drew
    }

    /// Reads the drawn-to flag and lowers it.
    pub fn take_drew(&mut self) -> (drew: bool)
        ensures
            old(self).wf() ==> final(self).wf(),
            drew == old(self)@.drew,
            final(self)@ == (Snapshot { drew: false, ..old(self)@ }),
    {
        let drew = self.drew;
        self.drew = false;
        drew
    }

    /// Where the machine stands in its life.
    pub fn state(&self) -> (state: State)
        ensures
            state == self@.state,
    {
        self.state
    }

    /// Lets `ticks` ticks of the 60 Hz clock pass: both timers count down,
    /// each stopping at zero. The tone sounds if the clock ticked while the
    /// sound timer was above zero.
    pub fn tick(&mut self, ticks: u64) -> (tone: bool)
        ensures
            old(self).wf() ==> final(self).wf(),
            final(self)@ == ticked(old(self)@, ticks as nat),
            tone == (ticks > 0 && old(self)@.sound_timer > 0),
    {
        let tone = ticks > 0 && self.cpu.sound_timer > 0;
        self.cpu.delay_timer = if self.cpu.delay_timer as u64 >= ticks {
            self.cpu.delay_timer - ticks as u8
        } else {
            0
        };
        self.cpu.sound_timer = if self.cpu.sound_timer as u64 >= ticks {
            self.cpu.sound_timer - ticks as u8
        } else {
            0
        };
        tone
    }

    /// Reads the instruction word at the program counter and moves the
    /// program counter past it.
    pub fn fetch(&mut self) -> (result: Result<u16, Error>)
        requires
            old(self).wf(),
        ensures
            final(self).wf(),
            old(self)@.pc + 1 < RAM_SIZE ==> result == Ok::<u16, Error>(fetched_word(old(self)@))
                && final(self)@ == (Snapshot { pc: (old(self)@.pc + 2) as u16, ..old(self)@ }),
            old(self)@.pc + 1 >= RAM_SIZE ==> result == Err::<u16, Error>(Error::OutOfBounds)
                && final(self)@ == old(self)@,
    {
        self.cpu.fetch(&self.ram)
    }

    /// Puts `value` into register `x`.
    fn set_register(&mut self, x: u8, value: u8) -> (result: Result<Signal, Error>)
        requires
            old(self).wf(),
            x < 16,
        ensures
            final(self).wf(),
            result == Ok::<Signal, Error>(Signal::Proceed),
            final(self)@ == old(self)@.with_register(x, value),
    {
        self.cpu.registers[x as usize] = value;
        assert(self@ =~= old(self)@.with_register(x, value));
        Ok(Signal::Proceed)
    }

    /// Puts `flag` into the flag register, then `value` into register `x`.
    fn set_flag_and_register(&mut self, flag: u8, x: u8, value: u8) -> (result: Result<
        Signal,
        Error,
    >)
        requires
            old(self).wf(),
            x < 16,
        ensures
            final(self).wf(),
            result == Ok::<Signal, Error>(Signal::Proceed),
            final(self)@ == old(self)@.with_flag_and_register(flag, x, value),
    {
        self.cpu.registers[FLAG_REG] = flag;
        self.cpu.registers[x as usize] = value;
        assert(self@ =~= old(self)@.with_flag_and_register(flag, x, value));
        Ok(Signal::Proceed)
    }

    /// Moves the program counter past one instruction if `taken`. Where it
    /// would leave the range of the 16-bit program counter, nothing changes.
    fn skip_if(&mut self, taken: bool) -> (result: Result<Signal, Error>)
        requires
            old(self).wf(),
        ensures
            final(self).wf(),
            taken && old(self)@.pc + 2 > u16::MAX ==> result == Err::<Signal, Error>(
                Error::OutOfBounds,
            ) && final(self)@ == old(self)@,
            !(taken && old(self)@.pc + 2 > u16::MAX) ==> result == Ok::<Signal, Error>(
                Signal::Proceed,
            ) && final(self)@ == old(self)@.skip_if(taken),
    {
        if taken {
            match self.cpu.pc.checked_add(2) {
                Some(pc) => {
                    self.cpu.pc = pc;
                },
                None => {
                    return Err(Error::OutOfBounds);
                },
            }
        }
        Ok(Signal::Proceed)
    }

    /// Draws the sprite of `rows` rows at the index register to the place
    /// that the registers `x` and `y` name, and sets the flag register to
    /// whether that turned a pixel off. A sprite that does not lie inside
    /// memory is not drawn at all.
    fn draw_sprite(&mut self, x: u8, y: u8, rows: u8) -> (result: Result<Signal, Error>)
        requires
            old(self).wf(),
            x < 16,
            y < 16,
        ensures
            final(self).wf(),
            (final(self)@, result) == perform_spec(
                old(self)@,
                Instruction::Draw(x, y, rows),
                None,
                0,
            ),
    {
        let sprite: Vec<u8> = if rows == 0 {
            Vec::new()
        } else {
            match self.ram.read_range(self.cpu.i as usize, rows as usize) {
                Ok(bytes) => bytes,
                Err(e) => {
                    return Err(e);
                },
            }
        };
        assert(sprite@ =~= old(self)@.sprite(rows));
        let vx = self.cpu.registers[x as usize];
        let vy = self.cpu.registers[y as usize];
        let collision = self.vram.draw(&sprite, vx, vy);
        self.cpu.registers[FLAG_REG] = if collision {
            1
        } else {
            0
        };
        self.drew = true;
        assert(self@ =~= effect(old(self)@, Instruction::Draw(x, y, rows), None, 0));
        Ok(Signal::Redraw)
    }

    /// Copies the registers `V0..=Vx` to memory at the index register, or
    /// nothing at all where they do not fit.
    fn store_registers(&mut self, x: u8) -> (result: Result<Signal, Error>)
        requires
            old(self).wf(),
            x < 16,
        ensures
            final(self).wf(),
            (final(self)@, result) == perform_spec(
                old(self)@,
                Instruction::StoreRegisters(x),
                None,
                0,
            ),
    {
        let base: usize = self.cpu.i as usize;
        if base + x as usize >= RAM_SIZE {
            return Err(Error::OutOfBounds);
        }
        let mut r: usize = 0;
        while r <= x as usize
            invariant
                r <= x + 1,
                x < 16,
                base == old(self)@.index,
                base + x < RAM_SIZE,
                self.wf(),
                self@ == (Snapshot { memory: self@.memory, ..old(self)@ }),
                forall|a: int|
                    0 <= a < RAM_SIZE ==> self@.memory[a] == if base <= a < base + r {
                        old(self)@.registers[a - base]
                    } else {
                        old(self)@.memory[a]
                    },
            decreases x + 1 - r,
        {
            let value = self.cpu.registers[r];
            match self.ram.write_byte(base + r, value) {
                Ok(()) => {},
                Err(e) => {
                    return Err(e);
                },
            }
            r += 1;
        }
        assert(self@.memory =~= loaded(
            old(self)@.memory,
            old(self)@.registers.subrange(0, x + 1),
            base as int,
        ));
        Ok(Signal::Proceed)
    }

    /// Fills the registers `V0..=Vx` from memory at the index register, or
    /// none at all where the bytes do not lie inside memory.
    fn load_registers(&mut self, x: u8) -> (result: Result<Signal, Error>)
        requires
            old(self).wf(),
            x < 16,
        ensures
            final(self).wf(),
            (final(self)@, result) == perform_spec(
                old(self)@,
                Instruction::LoadRegisters(x),
                None,
                0,
            ),
    {
        let base: usize = self.cpu.i as usize;
        if base + x as usize >= RAM_SIZE {
            return Err(Error::OutOfBounds);
        }
        let mut r: usize = 0;
        while r <= x as usize
            invariant
                r <= x + 1,
                x < 16,
                base == old(self)@.index,
                base + x < RAM_SIZE,
                self.wf(),
                self@ == (Snapshot { registers: self@.registers, ..old(self)@ }),
                forall|k: int|
                    0 <= k < 16 ==> self@.registers[k] == if k < r {
                        old(self)@.memory[base + k]
                    } else {
                        old(self)@.registers[k]
                    },
            decreases x + 1 - r,
        {
            match self.ram.read_byte(base + r) {
                Ok(value) => {
                    self.cpu.registers[r] = value;
                },
                Err(e) => {
                    return Err(e);
                },
            }
            r += 1;
        }
        assert(self@.registers =~= loaded(
            old(self)@.registers,
            old(self)@.memory.subrange(base as int, base + x + 1),
            0,
        ));
        Ok(Signal::Proceed)
    }

    /// Whether the skip instruction `instr` skips; false of any other.
    fn taken(&self, instr: Instruction, key: Option<u8>) -> (taken: bool)
        requires
            self.wf(),
            instr.wf(),
        ensures
            taken == skips(self@, instr, key),
    {
        match instr {
            Instruction::SkipIfEqual(x, nn) => self.cpu.registers[x as usize] == nn,
            Instruction::SkipIfNotEqual(x, nn) => self.cpu.registers[x as usize] != nn,
            Instruction::SkipIfRegistersEqual(x, y) => self.cpu.registers[x as usize]
                == self.cpu.registers[y as usize],
            Instruction::SkipIfRegistersNotEqual(x, y) => self.cpu.registers[x as usize]
                != self.cpu.registers[y as usize],
            Instruction::SkipIfKey(x) => match key {
                Some(k) => k == self.cpu.registers[x as usize],
                None => false,
            },
            Instruction::SkipIfNotKey(x) => match key {
                Some(k) => k != self.cpu.registers[x as usize],
                None => true,
            },
            _ => false,
        }
    }

    /// Turns every pixel off.
    fn clear_screen(&mut self) -> (result: Result<Signal, Error>)
        requires
            old(self).wf(),
        ensures
            final(self).wf(),
            result == Ok::<Signal, Error>(Signal::Proceed),
            final(self)@ == (Snapshot { pixels: blank(), ..old(self)@ }),
    {
        self.vram.clear();
        Ok(Signal::Proceed)
    }

    /// Continues at `addr`.
    fn jump(&mut self, addr: u16) -> (result: Result<Signal, Error>)
        requires
            old(self).wf(),
        ensures
            final(self).wf(),
            result == Ok::<Signal, Error>(Signal::Proceed),
            final(self)@ == (Snapshot { pc: addr, ..old(self)@ }),
    {
        self.cpu.pc = addr;
        Ok(Signal::Proceed)
    }

    /// Puts the program counter on the call stack and continues at `addr`,
    /// unless the stack is full.
    fn call(&mut self, addr: u16) -> (result: Result<Signal, Error>)
        requires
            old(self).wf(),
        ensures
            final(self).wf(),
            (final(self)@, result) == perform_spec(old(self)@, Instruction::Call(addr), None, 0),
    {
        match self.stack.push(self.cpu.pc) {
            Ok(()) => {
                self.cpu.pc = addr;
                Ok(Signal::Proceed)
            },
            Err(e) => Err(e),
        }
    }

    /// Continues at the address on top of the call stack and takes it off,
    /// unless the stack is empty.
    fn subroutine_return(&mut self) -> (result: Result<Signal, Error>)
        requires
            old(self).wf(),
        ensures
            final(self).wf(),
            (final(self)@, result) == perform_spec(old(self)@, Instruction::Return, None, 0),
    {
        match self.stack.pop() {
            Ok(addr) => {
                self.cpu.pc = addr;
                Ok(Signal::Proceed)
            },
            Err(e) => Err(e),
        }
    }

    /// Points the index register at `addr`.
    fn set_index(&mut self, addr: u16) -> (result: Result<Signal, Error>)
        requires
            old(self).wf(),
        ensures
            final(self).wf(),
            result == Ok::<Signal, Error>(Signal::Proceed),
            final(self)@ == (Snapshot { index: addr, ..old(self)@ }),
    {
        self.cpu.i = addr;
        Ok(Signal::Proceed)
    }

    /// Sets the delay timer.
    fn set_delay(&mut self, value: u8) -> (result: Result<Signal, Error>)
        requires
            old(self).wf(),
        ensures
            final(self).wf(),
            result == Ok::<Signal, Error>(Signal::Proceed),
            final(self)@ == (Snapshot { delay_timer: value, ..old(self)@ }),
    {
        self.cpu.delay_timer = value;
        Ok(Signal::Proceed)
    }

    /// Sets the sound timer.
    fn set_sound(&mut self, value: u8) -> (result: Result<Signal, Error>)
        requires
            old(self).wf(),
        ensures
            final(self).wf(),
            result == Ok::<Signal, Error>(Signal::Proceed),
            final(self)@ == (Snapshot { sound_timer: value, ..old(self)@ }),
    {
        self.cpu.sound_timer = value;
        Ok(Signal::Proceed)
    }

    /// Adds register `x` to the index register, within 16 bits, and raises
    /// the flag where the sum left the 12 bits of an address.
    fn add_to_index(&mut self, x: u8) -> (result: Result<Signal, Error>)
        requires
            old(self).wf(),
            x < 16,
        ensures
            final(self).wf(),
            (final(self)@, result) == perform_spec(
                old(self)@,
                Instruction::AddToIndex(x),
                None,
                0,
            ),
    {
        let vx = self.cpu.registers[x as usize];
        let sum = self.cpu.i.wrapping_add(vx as u16);
        if sum > 0xFFF || sum < self.cpu.i {
            self.cpu.registers[FLAG_REG] = 1;
        }
        self.cpu.i = sum;
        assert(self@ =~= effect(old(self)@, Instruction::AddToIndex(x), None, 0));
        Ok(Signal::Proceed)
    }

    /// Executes an instruction that only moves the program counter and the
    /// call stack, or clears the screen.
    fn perform_flow(&mut self, instr: Instruction) -> (result: Result<Signal, Error>)
        requires
            old(self).wf(),
            instr.wf(),
            is_flow(instr),
        ensures
            performs(old(self)@, final(self)@, result, instr, None, 0),
    {
        match instr {
            Instruction::ClearScreen => self.clear_screen(),
            Instruction::Return => self.subroutine_return(),
            Instruction::Jump(addr) => self.jump(addr),
            Instruction::Call(addr) => self.call(addr),
            Instruction::JumpOffset(addr) => {
                let v0 = self.cpu.registers[0];
                self.jump(addr + v0 as u16)
            },
            _ => unreached(),
        }
    }

    /// Executes an instruction that puts a value into one register and
    /// leaves the flag register alone, unless that is the register.
    fn perform_assignment(&mut self, instr: Instruction, random: u8) -> (result: Result<
        Signal,
        Error,
    >)
        requires
            old(self).wf(),
            instr.wf(),
            is_assignment(instr),
        ensures
            performs(old(self)@, final(self)@, result, instr, None, random),
    {
        match instr {
            Instruction::LoadImmediate(x, nn) => self.set_register(x, nn),
            Instruction::AddImmediate(x, nn) => {
                let vx = self.cpu.registers[x as usize];
                self.set_register(x, vx.wrapping_add(nn))
            },
            Instruction::Move(x, y) => {
                let vy = self.cpu.registers[y as usize];
                self.set_register(x, vy)
            },
            Instruction::Or(x, y) => {
                let vx = self.cpu.registers[x as usize];
                let vy = self.cpu.registers[y as usize];
                self.set_register(x, vx | vy)
            },
            Instruction::And(x, y) => {
                let vx = self.cpu.registers[x as usize];
                let vy = self.cpu.registers[y as usize];
                self.set_register(x, vx & vy)
            },
            Instruction::Xor(x, y) => {
                let vx = self.cpu.registers[x as usize];
                let vy = self.cpu.registers[y as usize];
                self.set_register(x, vx ^ vy)
            },
            Instruction::Random(x, nn) => self.set_register(x, nn & random),
            Instruction::ReadDelay(x) => {
                let timer = self.cpu.delay_timer;
                self.set_register(x, timer)
            },
            _ => unreached(),
        }
    }

    /// Executes an instruction that puts a flag into the flag register and
    /// then a value into the target register.
    fn perform_arithmetic(&mut self, instr: Instruction) -> (result: Result<Signal, Error>)
        requires
            old(self).wf(),
            instr.wf(),
            is_arithmetic(instr),
        ensures
            performs(old(self)@, final(self)@, result, instr, None, 0),
    {
        match instr {
            Instruction::AddRegister(x, y) => {
                let vx = self.cpu.registers[x as usize];
                let vy = self.cpu.registers[y as usize];
                let (flag, value) = add_with_carry(vx, vy);
                self.set_flag_and_register(flag, x, value)
            },
            Instruction::Subtract(x, y) => {
                let vx = self.cpu.registers[x as usize];
                let vy = self.cpu.registers[y as usize];
                let (flag, value) = subtract_with_flag(vx, vy);
                self.set_flag_and_register(flag, x, value)
            },
            Instruction::ShiftRight(x, y) => {
                let vy = self.cpu.registers[y as usize];
                let (flag, value) = shift_right(vy);
                self.set_flag_and_register(flag, x, value)
            },
            Instruction::SubtractReversed(x, y) => {
                let vx = self.cpu.registers[x as usize];
                let vy = self.cpu.registers[y as usize];
                let (flag, value) = subtract_with_flag(vy, vx);
                self.set_flag_and_register(flag, x, value)
            },
            Instruction::ShiftLeft(x, y) => {
                let vy = self.cpu.registers[y as usize];
                let (flag, value) = shift_left(vy);
                self.set_flag_and_register(flag, x, value)
            },
            _ => unreached(),
        }
    }

    /// Executes an instruction on the index register or the timers, or the
    /// wait for a key.
    fn perform_index_or_timer(&mut self, instr: Instruction) -> (result: Result<Signal, Error>)
        requires
            old(self).wf(),
            instr.wf(),
            is_index_or_timer(instr),
        ensures
            performs(old(self)@, final(self)@, result, instr, None, 0),
    {
        match instr {
            Instruction::LoadIndex(addr) => self.set_index(addr),
            Instruction::WaitForKey(x) => Ok(Signal::WaitForKey(x)),
            Instruction::SetDelay(x) => {
                let vx = self.cpu.registers[x as usize];
                self.set_delay(vx)
            },
            Instruction::SetSound(x) => {
                let vx = self.cpu.registers[x as usize];
                self.set_sound(vx)
            },
            Instruction::AddToIndex(x) => self.add_to_index(x),
            Instruction::LoadGlyph(x) => {
                let vx = self.cpu.registers[x as usize];
                assert(vx & 0xF == vx % 16) by (bit_vector);
                self.set_index(FONT_MEM_OFFSET as u16 + GLYPH_SIZE as u16 * ((vx & 0xF) as u16))
            },
            _ => unreached(),
        }
    }

    /// Executes `instr` by the operation that implements it.
    fn dispatch(&mut self, instr: Instruction, key: Option<u8>, random: u8) -> (result: Result<
        Signal,
        Error,
    >)
        requires
            old(self).wf(),
            instr.wf(),
        ensures
            performs(old(self)@, final(self)@, result, instr, key, random),
    {
        match instr {
            Instruction::ClearScreen
            | Instruction::Return
            | Instruction::Jump(..)
            | Instruction::Call(..)
            | Instruction::JumpOffset(..) => self.perform_flow(instr),
            Instruction::SkipIfEqual(..)
            | Instruction::SkipIfNotEqual(..)
            | Instruction::SkipIfRegistersEqual(..)
            | Instruction::SkipIfRegistersNotEqual(..)
            | Instruction::SkipIfKey(..)
            | Instruction::SkipIfNotKey(..) => {
                let taken = self.taken(instr, key);
                self.skip_if(taken)
            },
            Instruction::LoadImmediate(..)
            | Instruction::AddImmediate(..)
            | Instruction::Move(..)
            | Instruction::Or(..)
            | Instruction::And(..)
            | Instruction::Xor(..)
            | Instruction::Random(..)
            | Instruction::ReadDelay(..) => self.perform_assignment(instr, random),
            Instruction::AddRegister(..)
            | Instruction::Subtract(..)
            | Instruction::ShiftRight(..)
            | Instruction::SubtractReversed(..)
            | Instruction::ShiftLeft(..) => self.perform_arithmetic(instr),
            Instruction::LoadIndex(..)
            | Instruction::WaitForKey(..)
            | Instruction::SetDelay(..)
            | Instruction::SetSound(..)
            | Instruction::AddToIndex(..)
            | Instruction::LoadGlyph(..) => self.perform_index_or_timer(instr),
            Instruction::Draw(x, y, rows) => self.draw_sprite(x, y, rows),
            Instruction::StoreRegisters(x) => self.store_registers(x),
            Instruction::LoadRegisters(x) => self.load_registers(x),
        }
    }

    /// Executes the decoded instruction `instr`, with `key` being the key
    /// that is held down, if any, and `random` the byte that the random
    /// instruction, if this is one, combines with its mask. An instruction
    /// that fails leaves the machine as it was.
    pub fn perform(&mut self, instr: Instruction, key: Option<u8>, random: u8) -> (result: Result<
        Signal,
        Error,
    >)
        requires
            old(self).wf(),
            instr.wf(),
        ensures
            final(self).wf(),
            (final(self)@, result) == perform_spec(old(self)@, instr, key, random),
    {
        let result = self.dispatch(instr, key, random);
        proof {
            lemma_perform_keeps_wf(old(self)@, instr, key, random);
        }
        result
    }

    /// Executes the instruction word `word`, with `key` being the key that
    /// is held down, if any, and `random` the byte that the random
    /// instruction, if this is one, combines with its mask. A word that is
    /// no instruction, or an instruction that fails, leaves the machine as
    /// it was.
    pub fn execute_with(&mut self, word: u16, key: Option<u8>, random: u8) -> (result: Result<
        Signal,
        Error,
    >)
        requires
            old(self).wf(),
        ensures
            final(self).wf(),
            (final(self)@, result) == execute_spec(old(self)@, word, key, random),
    {
        match decode(word) {
            Ok(instr) => self.perform(instr, key, random),
            Err(e) => Err(e),
        }
    }

    /// Executes the instruction word `word`, with `key` being the key that
    /// is held down, if any. The random instruction draws its byte from
    /// the thread's random number generator, below its mask; apart from
    /// that byte the outcome is that of `execute_with`.
    pub fn execute(&mut self, word: u16, key: Option<u8>) -> (result: Result<Signal, Error>)
        requires
            old(self).wf(),
        ensures
            final(self).wf(),
            exists|random: u8|
                random_fits(word, random) && #[trigger] execute_spec(old(self)@, word, key, random)
                    == (final(self)@, result),
    {
        let random = random_for(word);
        self.execute_with(word, key, random)
    }

    /// The byte for the next cycle: drawn below the mask where the cycle
    /// fetches the random instruction with a mask above zero, and 0 where
    /// the cycle draws none.
    pub fn next_random(&self) -> (random: u8)
        requires
            self.wf(),
        ensures
            step_random_fits(self@, random),
            !step_draws(self@) ==> random == 0,
    {
        match self.state {
            State::Running => match self.ram.read_word(self.cpu.pc as usize) {
                Ok(word) => random_for(word),
                Err(_) => 0,
            },
            _ => 0,
        }
    }

    /// Whether a cycle would change nothing: the machine is halted, or it
    /// waits for a key and there is none.
    pub fn is_idle(&self, key: Option<u8>) -> (result: bool)
        ensures
            result == idle(self@, key),
    {
        match self.state {
            State::Running => false,
            State::WaitingForKey(_) => key.is_none(),
            State::Halted(_) => true,
        }
    }

    /// Runs one machine cycle, with `key` being the key that is held down,
    /// if any, and `random` the byte that the random instruction, if one is
    /// fetched, combines with its mask. Returns whether the display is to
    /// be shown.
    pub fn step_with(&mut self, key: Option<u8>, random: u8) -> (redraw: bool)
        requires
            old(self).wf(),
        ensures
            final(self).wf(),
            (final(self)@, redraw) == step_spec(old(self)@, key, random),
    {
        proof {
            lemma_step_keeps_wf(self@, key, random);
        }
        match self.state {
            State::Halted(_) => false,
            State::WaitingForKey(x) => match key {
                Some(k) => {
                    self.cpu.registers[x as usize] = k;
                    self.state = State::Running;
                    assert(self@ =~= step_spec(old(self)@, key, random).0);
                    false
                },
                None => false,
            },
            State::Running => match self.fetch() {
                Err(e) => {
                    self.state = State::Halted(e);
                    false
                },
                Ok(word) => match self.execute_with(word, key, random) {
                    Ok(Signal::Proceed) => false,
                    Ok(Signal::Redraw) => true,
                    Ok(Signal::WaitForKey(x)) => {
                        self.state = State::WaitingForKey(x);
                        false
                    },
                    Err(e) => {
                        self.state = State::Halted(e);
                        false
                    },
                },
            },
        }
    }

    /// Runs one machine cycle, with `key` being the key that is held down,
    /// if any. Apart from the byte that the random instruction draws, the
    /// outcome is that of `step_with`.
    pub fn step(&mut self, key: Option<u8>) -> (redraw: bool)
        requires
            old(self).wf(),
        ensures
            final(self).wf(),
            exists|random: u8|
                step_random_fits(old(self)@, random) && #[trigger] step_spec(
                    old(self)@,
                    key,
                    random,
                ) == (final(self)@, redraw),
    {
        let random = self.next_random();
        self.step_with(key, random)
    }

    /// Runs machine cycles, with `key` held down throughout, until a cycle
    /// would change nothing or `max_steps` cycles have run, and returns the
    /// number of cycles that ran.
    pub fn run(&mut self, key: Option<u8>, max_steps: u64) -> (steps: u64)
        requires
            old(self).wf(),
        ensures
            final(self).wf(),
            steps <= max_steps,
            steps < max_steps ==> idle(final(self)@, key),
            exists|randoms: Seq<u8>|
                randoms.len() == steps && run_valid(old(self)@, key, randoms) && #[trigger] run_spec(
                    old(self)@,
                    key,
                    randoms,
                ) == final(self)@,
    {
        let ghost mut randoms: Seq<u8> = Seq::empty();
        let mut steps: u64 = 0;
        while steps < max_steps && !self.is_idle(key)
            invariant
                self.wf(),
                steps <= max_steps,
                randoms.len() == steps,
                run_valid(old(self)@, key, randoms),
                run_spec(old(self)@, key, randoms) == self@,
            decreases max_steps - steps,
        {
            let random = self.next_random();
            proof {
                assert(randoms.push(random).drop_last() =~= randoms);
                randoms = randoms.push(random);
            }
            self.step_with(key, random);
            steps += 1;
        }
        steps
    }
}

/// The byte that the instruction word `word` combines with its mask if it
/// is the random instruction, drawn below the mask; 0 for any other word,
/// and for a mask of 0, below which there is nothing to draw.
fn random_for(word: u16) -> (random: u8)
    ensures
        random_fits(word, random),
        !draws(word) ==> random == 0,
{
    match decode(word) {
        Ok(Instruction::Random(_, nn)) => if nn > 0 {
            random_below(nn)
        } else {
            0
        },
        _ => 0,
    }
}

} // verus!
