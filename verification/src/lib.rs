//! A CHIP-8 virtual machine: memory, registers, call stack, display buffer,
//! timers and the fetch-decode-execute cycle, with every operation specified
//! over a mathematical model of the machine and proved against it.

use vstd::prelude::*;

pub mod alu;
pub mod cpu;
pub mod display;
pub mod error;
pub mod font;
pub mod game;
pub mod machine;
pub mod memory;
pub mod model;
pub mod opcode;
mod rng;
pub mod stack;
pub mod theorems;
pub mod timer;

verus! {

/// Width of the display in pixels.
pub const DISPLAY_WIDTH: usize = 64;

/// Height of the display in pixels.
pub const DISPLAY_HEIGHT: usize = 32;

/// Number of addressable bytes of memory.
pub const RAM_SIZE: usize = 0x1000;

/// Number of return addresses the call stack can hold.
pub const STACK_SIZE: usize = 0x10;

/// Number of pixels in the display buffer.
pub const VRAM_SIZE: usize = DISPLAY_HEIGHT * DISPLAY_WIDTH;

} // verus!
