use vstd::prelude::*;
use crate::cpu::GAME_MEM_OFFSET;
use crate::error::Error;
use crate::machine::Chip8;
use crate::memory::loaded;
use crate::model::{initial, key_valid, step_random_fits, step_spec, ticked, Snapshot};
use crate::timer::{Timer, TICK_NANOS};
use crate::{DISPLAY_HEIGHT, DISPLAY_WIDTH, RAM_SIZE};

verus! {

/// What the host is to do after one cycle of the game loop.
#[derive(Clone, Copy, Debug, PartialEq, Eq, Structural)]
pub struct Frame {
    /// The display buffer was drawn to: show it.
    pub redraw: bool,
    /// The 60 Hz clock ticked while the sound timer was running: sound the
    /// tone.
    pub tone: bool,
}

/// The key that a terminal key code stands for. The keys `1234`, `qwer`,
/// `asdf` and `zxcv` are the sixteen keys of the machine, row by row; the
/// code counts by its low byte. Any other code leaves the key `held` in
/// place.
pub open spec fn key_for_code_spec(code: i32, held: Option<u8>) -> Option<u8> {
    let c = code & 0xFF;
    if c == 0x31 {
        Some(0x0u8)
    } else if c == 0x32 {
        Some(0x1u8)
    } else if c == 0x33 {
        Some(0x2u8)
    } else if c == 0x34 {
        Some(0x3u8)
    } else if c == 0x71 {
        Some(0x4u8)
    } else if c == 0x77 {
        Some(0x5u8)
    } else if c == 0x65 {
        Some(0x6u8)
    } else if c == 0x72 {
        Some(0x7u8)
    } else if c == 0x61 {
        Some(0x8u8)
    } else if c == 0x73 {
        Some(0x9u8)
    } else if c == 0x64 {
        Some(0xAu8)
    } else if c == 0x66 {
        Some(0xBu8)
    } else if c == 0x7A {
        Some(0xCu8)
    } else if c == 0x78 {
        Some(0xDu8)
    } else if c == 0x63 {
        Some(0xEu8)
    } else if c == 0x76 {
        Some(0xFu8)
    } else {
        held
    }
}

/// The key that is held down once the terminal has reported the key code
/// `code`, `held` being the key held down before.
pub fn key_for_code(code: i32, held: Option<u8>) -> (key: Option<u8>)
    ensures
        key == key_for_code_spec(code, held),
        key_valid(held) ==> key_valid(key),
{
    match code & 0xFF {
        0x31 => Some(0x0),
        0x32 => Some(0x1),
        0x33 => Some(0x2),
        0x34 => Some(0x3),
        0x71 => Some(0x4),
        0x77 => Some(0x5),
        0x65 => Some(0x6),
        0x72 => Some(0x7),
        0x61 => Some(0x8),
        0x73 => Some(0x9),
        0x64 => Some(0xA),
        0x66 => Some(0xB),
        0x7A => Some(0xC),
        0x78 => Some(0xD),
        0x63 => Some(0xE),
        0x76 => Some(0xF),
        _ => held,
    }
}

/// The offset at which a window of `size` cells stands centred among
/// `available` cells: half of the cells left over, and 0 where none are.
pub fn centered(available: i32, size: usize) -> (origin: i32)
    ensures
        available > size ==> origin == (available - size) / 2,
        available <= size ==> origin == 0,
{
    if available <= 0 {
        return 0;
    }
    let room = available as usize;
    if room > size {
        ((room - size) / 2) as i32
    } else {
        0
    }
}

/// The machine after one cycle of the game loop, the time left pending in
/// the timer driver, and what the host is to do: the machine runs one
/// cycle, then the 60 Hz clock is given the `elapsed` nanoseconds that
/// passed and both timers count down by its ticks. The drawn-to flag is
/// handed to the host and lowered.
pub open spec fn cycle_spec(
    s: Snapshot,
    pending: nat,
    key: Option<u8>,
    elapsed: nat,
    random: u8,
) -> (Snapshot, nat, Frame) {
    let stepped = step_spec(s, key, random).0;
    let ticks = (pending + elapsed) / (TICK_NANOS as nat);
    (
        Snapshot { drew: false, ..ticked(stepped, ticks) },
        (pending + elapsed) % (TICK_NANOS as nat),
        Frame { redraw: stepped.drew, tone: ticks > 0 && stepped.sound_timer > 0 },
    )
}

/// A machine together with what a host needs to run a game on it: the size
/// of the screen and the timer driver.
pub struct Game {
    pub ch8: Chip8,
    pub timer: Timer,
    pub width: usize,
    pub height: usize,
}

impl Game {
    /// The machine and the timer driver are well-formed and the screen has
    /// the size of the display buffer.
    pub open spec fn wf(&self) -> bool {
        &&& self.ch8.wf()
        &&& self.timer.wf()
        &&& self.width == DISPLAY_WIDTH
        &&& self.height == DISPLAY_HEIGHT
    }

    /// A game on a machine that was just switched on.
    pub fn new() -> (game: Game)
        ensures
            game.wf(),
            game.ch8@ == initial(),
            game.timer@ == 0,
    {
        Game { ch8: Chip8::new(), timer: Timer::new(), width: DISPLAY_WIDTH, height: DISPLAY_HEIGHT }
    }

    /// Loads the program image `bin` at the start of the program area. An
    /// image too large for the memory behind that address is rejected
    /// whole.
    pub fn load_game(&mut self, bin: Vec<u8>) -> (result: Result<(), Error>)
        requires
            old(self).wf(),
        ensures
            final(self).wf(),
            final(self).timer@ == old(self).timer@,
            GAME_MEM_OFFSET + bin.len() <= RAM_SIZE ==> result == Ok::<(), Error>(()) && final(self).ch8@ == (Snapshot {
                memory: loaded(old(self).ch8@.memory, bin@, GAME_MEM_OFFSET as int),
                ..old(self).ch8@
            }),
            GAME_MEM_OFFSET + bin.len() > RAM_SIZE ==> result == Err::<(), Error>(
                Error::LoadTooLarge,
            ) && final(self).ch8@ == old(self).ch8@,
    {
        self.ch8.load_binary(bin, GAME_MEM_OFFSET)
    }

    /// The width of the screen in pixels.
    pub fn width(&self) -> (width: usize)
        ensures
            width == self.width,
    {
        self.width
    }

    /// The height of the screen in pixels.
    pub fn height(&self) -> (height: usize)
        ensures
            height == self.height,
    {
        self.height
    }

    /// Whether the pixel in column `x` of row `y` is on. No pixel outside
    /// the screen is.
    pub fn lit(&self, x: usize, y: usize) -> (lit: bool)
        requires
            self.wf(),
        ensures
            lit == (x < DISPLAY_WIDTH && y < DISPLAY_HEIGHT && self.ch8@.pixels[y * DISPLAY_WIDTH
                + x] == 1),
    {
        match self.ch8.pixel(x, y) {
            Some(pixel) => pixel == 1,
            None => false,
        }
    }

    /// Runs one cycle of the game loop: `key` is the key held down, if any,
    /// `elapsed_nanos` the nanoseconds that passed since the cycle before,
    /// `random` the byte for the random instruction, if one is fetched.
    pub fn cycle_with(&mut self, key: Option<u8>, elapsed_nanos: u64, random: u8) -> (frame: Frame)
        requires
            old(self).wf(),
        ensures
            final(self).wf(),
            (final(self).ch8@, final(self).timer@, frame) == cycle_spec(
                old(self).ch8@,
                old(self).timer@,
                key,
                elapsed_nanos as nat,
                random,
            ),
    {
        self.ch8.step_with(key, random);
        let ticks = self.timer.advance(elapsed_nanos);
        let tone = self.ch8.tick(ticks);
        let redraw = self.ch8.take_drew();
        Frame { redraw, tone }
    }

    /// Runs one cycle of the game loop: `key` is the key held down, if any,
    /// `elapsed_nanos` the nanoseconds that passed since the cycle before.
    /// Apart from the byte that the random instruction draws, the outcome
    /// is that of `cycle_with`.
    pub fn cycle(&mut self, key: Option<u8>, elapsed_nanos: u64) -> (frame: Frame)
        requires
            old(self).wf(),
        ensures
            final(self).wf(),
            exists|random: u8|
                step_random_fits(old(self).ch8@, random) && #[trigger] cycle_spec(
                    old(self).ch8@,
                    old(self).timer@,
                    key,
                    elapsed_nanos as nat,
                    random,
                ) == (final(self).ch8@, final(self).timer@, frame),
    {
        let random = self.ch8.next_random();
        self.cycle_with(key, elapsed_nanos, random)
    }
}

} // verus!
