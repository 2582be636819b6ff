//! The machine as a mathematical value, and what each instruction and each
//! machine cycle makes of it. The executable machine is specified against
//! these functions.

use vstd::prelude::*;
use crate::cpu::{FLAG_REG, NUM_REG};
use crate::display::{blank, collides, drawn, is_grid};
use crate::error::Error;
use crate::font::glyph_address;
use crate::memory::{loaded, word_at};
use crate::opcode::{decode_spec, Instruction};
use crate::{RAM_SIZE, STACK_SIZE};

verus! {

/// Where the machine stands in its life.
#[derive(Clone, Copy, Debug, PartialEq, Eq, Structural)]
pub enum State {
    /// The next cycle fetches and executes an instruction.
    Running,
    /// Execution is paused until a key is seen; the key then goes into the
    /// register with the given number.
    WaitingForKey(u8),
    /// A fatal condition stopped the machine for good.
    Halted(Error),
}

/// What an executed instruction asks of the code that drives the machine.
#[derive(Clone, Copy, Debug, PartialEq, Eq, Structural)]
pub enum Signal {
    /// Nothing: go on with the next instruction.
    Proceed,
    /// The display buffer was drawn to and should be shown.
    Redraw,
    /// Pause until a key is seen, then put it into the given register.
    WaitForKey(u8),
}

/// The whole machine as a value.
#[verifier::ext_equal]
pub struct Snapshot {
    pub pc: u16,
    pub index: u16,
    pub registers: Seq<u8>,
    pub delay_timer: u8,
    pub sound_timer: u8,
    pub stack: Seq<u16>,
    pub memory: Seq<u8>,
    pub pixels: Seq<u8>,
    pub drew: bool,
    pub state: State,
}

/// A key is a hex digit, or there is none.
pub open spec fn key_valid(key: Option<u8>) -> bool {
    key matches Some(k) ==> k < 16
}

impl Snapshot {
    /// Sixteen registers, a call stack within its capacity, memory and the
    /// pixel grid at their fixed sizes, and a register that exists to wait
    /// for a key into.
    pub open spec fn wf(self) -> bool {
        &&& self.registers.len() == NUM_REG
        &&& self.stack.len() <= STACK_SIZE
        &&& self.memory.len() == RAM_SIZE
        &&& is_grid(self.pixels)
        &&& (self.state matches State::WaitingForKey(x) ==> x < NUM_REG)
    }

    /// The value of register `x`.
    pub open spec fn v(self, x: u8) -> u8 {
        self.registers[x as int]
    }

    /// The machine with register `x` set to `value`.
    pub open spec fn with_register(self, x: u8, value: u8) -> Snapshot {
        Snapshot { registers: self.registers.update(x as int, value), ..self }
    }

    /// The machine after an arithmetic instruction: the flag register takes
    /// `flag`, then register `x` takes `value`. Where `x` is the flag
    /// register itself, `value` is what stays in it.
    pub open spec fn with_flag_and_register(self, flag: u8, x: u8, value: u8) -> Snapshot {
        Snapshot {
            registers: self.registers.update(FLAG_REG as int, flag).update(x as int, value),
            ..self
        }
    }

    /// The machine with the program counter moved past one instruction if
    /// `taken`, and unchanged otherwise.
    pub open spec fn skip_if(self, taken: bool) -> Snapshot {
        if taken {
            Snapshot { pc: (self.pc + 2) as u16, ..self }
        } else {
            self
        }
    }

    /// The sprite of `rows` rows that the index register points at.
    pub open spec fn sprite(self, rows: u8) -> Seq<u8> {
        Seq::new(rows as nat, |r: int| self.memory[self.index + r])
    }
}

/// 1 for true, 0 for false.
pub open spec fn bit(b: bool) -> u8 {
    if b {
        1
    } else {
        0
    }
}

/// Whether a skip instruction skips, in state `s` with `key` held down.
/// False of every other instruction.
pub open spec fn skips(s: Snapshot, instr: Instruction, key: Option<u8>) -> bool {
    match instr {
        Instruction::SkipIfEqual(x, nn) => s.v(x) == nn,
        Instruction::SkipIfNotEqual(x, nn) => s.v(x) != nn,
        Instruction::SkipIfRegistersEqual(x, y) => s.v(x) == s.v(y),
        Instruction::SkipIfRegistersNotEqual(x, y) => s.v(x) != s.v(y),
        Instruction::SkipIfKey(x) => key == Some(s.v(x)),
        Instruction::SkipIfNotKey(x) => key != Some(s.v(x)),
        _ => false,
    }
}

/// The fatal condition, if any, that `instr` runs into in state `s`.
/// An instruction that runs into one changes nothing.
pub open spec fn fault(s: Snapshot, instr: Instruction, key: Option<u8>) -> Option<Error> {
    match instr {
        Instruction::Return => if s.stack.len() == 0 {
            Some(Error::StackUnderflow)
        } else {
            None
        },
        Instruction::Call(_) => if s.stack.len() >= STACK_SIZE {
            Some(Error::StackOverflow)
        } else {
            None
        },
        Instruction::Draw(_, _, rows) => if rows > 0 && s.index + rows > RAM_SIZE {
            Some(Error::OutOfBounds)
        } else {
            None
        },
        Instruction::StoreRegisters(x) | Instruction::LoadRegisters(x) => if s.index + x
            >= RAM_SIZE {
            Some(Error::OutOfBounds)
        } else {
            None
        },
        _ => if skips(s, instr, key) && s.pc + 2 > u16::MAX {
            Some(Error::OutOfBounds)
        } else {
            None
        },
    }
}

/// The state that `instr` leaves behind when it runs into no fatal
/// condition in state `s`, with `key` held down and `random` drawn.
pub open spec fn effect(s: Snapshot, instr: Instruction, key: Option<u8>, random: u8) -> Snapshot {
    match instr {
        Instruction::ClearScreen => Snapshot { pixels: blank(), ..s },
        Instruction::Return => Snapshot { pc: s.stack.last(), stack: s.stack.drop_last(), ..s },
        Instruction::Jump(addr) => Snapshot { pc: addr, ..s },
        Instruction::Call(addr) => Snapshot { pc: addr, stack: s.stack.push(s.pc), ..s },
        Instruction::SkipIfEqual(..)
        | Instruction::SkipIfNotEqual(..)
        | Instruction::SkipIfRegistersEqual(..)
        | Instruction::SkipIfRegistersNotEqual(..)
        | Instruction::SkipIfKey(..)
        | Instruction::SkipIfNotKey(..) => s.skip_if(skips(s, instr, key)),
        Instruction::LoadImmediate(x, nn) => s.with_register(x, nn),
        Instruction::AddImmediate(x, nn) => s.with_register(x, ((s.v(x) + nn) % 256) as u8),
        Instruction::Move(x, y) => s.with_register(x, s.v(y)),
        Instruction::Or(x, y) => s.with_register(x, s.v(x) | s.v(y)),
        Instruction::And(x, y) => s.with_register(x, s.v(x) & s.v(y)),
        Instruction::Xor(x, y) => s.with_register(x, s.v(x) ^ s.v(y)),
        Instruction::AddRegister(x, y) => s.with_flag_and_register(
            bit(s.v(x) + s.v(y) >= 256),
            x,
            ((s.v(x) + s.v(y)) % 256) as u8,
        ),
        Instruction::Subtract(x, y) => s.with_flag_and_register(
            bit(s.v(x) > s.v(y)),
            x,
            ((s.v(x) - s.v(y)) % 256) as u8,
        ),
        Instruction::ShiftRight(x, y) => s.with_flag_and_register(s.v(y) % 2, x, s.v(y) / 2),
        Instruction::SubtractReversed(x, y) => s.with_flag_and_register(
            bit(s.v(y) > s.v(x)),
            x,
            ((s.v(y) - s.v(x)) % 256) as u8,
        ),
        Instruction::ShiftLeft(x, y) => s.with_flag_and_register(
            s.v(y) / 128,
            x,
            ((s.v(y) * 2) % 256) as u8,
        ),
        Instruction::LoadIndex(addr) => Snapshot { index: addr, ..s },
        Instruction::JumpOffset(addr) => Snapshot { pc: (addr + s.v(0)) as u16, ..s },
        Instruction::Random(x, nn) => s.with_register(x, nn & random),
        Instruction::Draw(x, y, rows) => Snapshot {
            pixels: drawn(s.pixels, s.sprite(rows), s.v(x) as int, s.v(y) as int),
            registers: s.registers.update(
                FLAG_REG as int,
                bit(collides(s.pixels, s.sprite(rows), s.v(x) as int, s.v(y) as int)),
            ),
            drew: true,
            ..s
        },
        Instruction::ReadDelay(x) => s.with_register(x, s.delay_timer),
        Instruction::WaitForKey(_) => s,
        Instruction::SetDelay(x) => Snapshot { delay_timer: s.v(x), ..s },
        Instruction::SetSound(x) => Snapshot { sound_timer: s.v(x), ..s },
        Instruction::AddToIndex(x) => Snapshot {
            index: ((s.index + s.v(x)) % 0x10000) as u16,
            registers: if s.index + s.v(x) > 0xFFF {
                s.registers.update(FLAG_REG as int, 1)
            } else {
                s.registers
            },
            ..s
        },
        Instruction::LoadGlyph(x) => Snapshot { index: glyph_address(s.v(x) as int % 16) as u16, ..s },
        Instruction::StoreRegisters(x) => Snapshot {
            memory: loaded(s.memory, s.registers.subrange(0, x + 1), s.index as int),
            ..s
        },
        Instruction::LoadRegisters(x) => Snapshot {
            registers: loaded(s.registers, s.memory.subrange(s.index as int, s.index + x + 1), 0),
            ..s
        },
    }
}

/// What `instr` asks of the driving code once it has run.
pub open spec fn signal(instr: Instruction) -> Signal {
    match instr {
        Instruction::Draw(..) => Signal::Redraw,
        Instruction::WaitForKey(x) => Signal::WaitForKey(x),
        _ => Signal::Proceed,
    }
}

/// The state after `instr` and what its execution returns.
pub open spec fn perform_spec(
    s: Snapshot,
    instr: Instruction,
    key: Option<u8>,
    random: u8,
) -> (Snapshot, Result<Signal, Error>) {
    match fault(s, instr, key) {
        Some(e) => (s, Err(e)),
        None => (effect(s, instr, key, random), Ok(signal(instr))),
    }
}

/// An instruction with operands in range leaves a well-formed machine
/// well-formed, whether it succeeds or fails.
pub proof fn lemma_perform_keeps_wf(s: Snapshot, instr: Instruction, key: Option<u8>, random: u8)
    requires
        s.wf(),
        instr.wf(),
    ensures
        perform_spec(s, instr, key, random).0.wf(),
{
}

/// The state after the instruction word `word` and what its execution
/// returns. A word that is no instruction changes nothing.
pub open spec fn execute_spec(s: Snapshot, word: u16, key: Option<u8>, random: u8) -> (
    Snapshot,
    Result<Signal, Error>,
) {
    match decode_spec(word) {
        Ok(instr) => perform_spec(s, instr, key, random),
        Err(e) => (s, Err(e)),
    }
}

/// Whether executing the instruction word `word` draws a random byte: it
/// is the random instruction and its mask is above zero, so that there is
/// a byte below the mask to draw.
pub open spec fn draws(word: u16) -> bool {
    decode_spec(word) matches Ok(Instruction::Random(_, nn)) && nn > 0
}

/// Whether `random` may be drawn for the instruction word `word`: for the
/// random instruction with a mask above zero it lies below the mask.
pub open spec fn random_fits(word: u16, random: u8) -> bool {
    decode_spec(word) matches Ok(Instruction::Random(_, nn)) ==> nn == 0 || random < nn
}

/// The machine stopped for good by `reason`.
pub open spec fn halted(s: Snapshot, reason: Error) -> Snapshot {
    Snapshot { state: State::Halted(reason), ..s }
}

/// The state after one machine cycle, and whether the cycle asks for the
/// display to be shown. A running machine fetches the word at the program
/// counter, moves the program counter past it and executes the word; any
/// fatal condition halts it. A machine that waits for a key takes `key`
/// into the awaited register and runs again, or goes on waiting where
/// there is none. A halted machine stays as it is.
pub open spec fn step_spec(s: Snapshot, key: Option<u8>, random: u8) -> (Snapshot, bool) {
    match s.state {
        State::Halted(_) => (s, false),
        State::WaitingForKey(x) => match key {
            Some(k) => (Snapshot { state: State::Running, ..s.with_register(x, k) }, false),
            None => (s, false),
        },
        State::Running => if s.pc + 1 >= RAM_SIZE {
            (halted(s, Error::OutOfBounds), false)
        } else {
            let word = fetched_word(s);
            let (t, result) = execute_spec(
                Snapshot { pc: (s.pc + 2) as u16, ..s },
                word,
                key,
                random,
            );
            match result {
                Ok(Signal::Proceed) => (t, false),
                Ok(Signal::Redraw) => (t, true),
                Ok(Signal::WaitForKey(x)) => (Snapshot { state: State::WaitingForKey(x), ..t }, false),
                Err(e) => (halted(t, e), false),
            }
        },
    }
}

/// The instruction word at the program counter.
pub open spec fn fetched_word(s: Snapshot) -> u16 {
    word_at(s.memory, s.pc as int) as u16
}

/// Whether the cycle that starts in state `s` draws a random byte: the
/// machine runs, and the instruction word it fetches draws one.
pub open spec fn step_draws(s: Snapshot) -> bool {
    s.state is Running && s.pc + 1 < RAM_SIZE && draws(fetched_word(s))
}

/// Whether `random` may be drawn for the cycle that starts in state `s`:
/// it fits the instruction word that the cycle fetches, if it fetches one.
pub open spec fn step_random_fits(s: Snapshot, random: u8) -> bool {
    s.state is Running && s.pc + 1 < RAM_SIZE ==> random_fits(fetched_word(s), random)
}

/// Whether a cycle changes nothing: the machine is halted, or it waits for
/// a key and there is none.
pub open spec fn idle(s: Snapshot, key: Option<u8>) -> bool {
    s.state is Halted || (s.state is WaitingForKey && key.is_none())
}

/// The state after one cycle for each byte of `randoms`, the cycles drawing
/// these bytes in turn, with `key` held down throughout.
pub open spec fn run_spec(s: Snapshot, key: Option<u8>, randoms: Seq<u8>) -> Snapshot
    decreases randoms.len(),
{
    if randoms.len() == 0 {
        s
    } else {
        step_spec(run_spec(s, key, randoms.drop_last()), key, randoms.last()).0
    }
}

/// Whether the cycles of `run_spec` are such as a run makes them: each
/// starts in a state that is not idle and draws a byte that fits.
pub open spec fn run_valid(s: Snapshot, key: Option<u8>, randoms: Seq<u8>) -> bool
    decreases randoms.len(),
{
    randoms.len() == 0 || {
        let before = run_spec(s, key, randoms.drop_last());
        &&& run_valid(s, key, randoms.drop_last())
        &&& !idle(before, key)
        &&& step_random_fits(before, randoms.last())
    }
}

/// A cycle leaves a well-formed machine well-formed.
pub proof fn lemma_step_keeps_wf(s: Snapshot, key: Option<u8>, random: u8)
    requires
        s.wf(),
    ensures
        step_spec(s, key, random).0.wf(),
{
    if s.state is Running && s.pc + 1 < RAM_SIZE {
        let word = fetched_word(s);
        let fetched = Snapshot { pc: (s.pc + 2) as u16, ..s };
        crate::opcode::lemma_decoded_wf(word);
        match decode_spec(word) {
            Ok(instr) => {
                lemma_perform_keeps_wf(fetched, instr, key, random);
            },
            Err(_) => {},
        }
    }
}

/// The state after `ticks` ticks of the 60 Hz clock: each timer has gone
/// down by one per tick and stops at zero.
pub open spec fn ticked(s: Snapshot, ticks: nat) -> Snapshot {
    Snapshot {
        delay_timer: if s.delay_timer >= ticks {
            (s.delay_timer - ticks) as u8
        } else {
            0
        },
        sound_timer: if s.sound_timer >= ticks {
            (s.sound_timer - ticks) as u8
        } else {
            0
        },
        ..s
    }
}

/// The state of a machine that was just switched on.
pub open spec fn initial() -> Snapshot {
    Snapshot {
        pc: crate::cpu::GAME_MEM_OFFSET as u16,
        index: 0,
        registers: Seq::new(NUM_REG as nat, |r: int| 0u8),
        delay_timer: 0,
        sound_timer: 0,
        stack: Seq::empty(),
        memory: crate::memory::initial_memory(),
        pixels: blank(),
        drew: false,
        state: State::Running,
    }
}

} // verus!
