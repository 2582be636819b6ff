use vstd::prelude::*;
use crate::error::Error;

verus! {

/// A decoded instruction word. Register operands are register numbers,
/// named `x` and `y` below after their place in the word.
#[derive(Clone, Copy, Debug, PartialEq, Eq, Structural)]
pub enum Instruction {
    /// `00E0`: turn every pixel off.
    ClearScreen,
    /// `00EE`: return from a subroutine.
    Return,
    /// `1nnn`: continue at `nnn`.
    Jump(u16),
    /// `2nnn`: call the subroutine at `nnn`.
    Call(u16),
    /// `3xnn`: skip the next instruction if `Vx == nn`.
    SkipIfEqual(u8, u8),
    /// `4xnn`: skip the next instruction if `Vx != nn`.
    SkipIfNotEqual(u8, u8),
    /// `5xy_`: skip the next instruction if `Vx == Vy`.
    SkipIfRegistersEqual(u8, u8),
    /// `9xy_`: skip the next instruction if `Vx != Vy`.
    SkipIfRegistersNotEqual(u8, u8),
    /// `6xnn`: `Vx = nn`.
    LoadImmediate(u8, u8),
    /// `7xnn`: `Vx = Vx + nn`, wrapping, flag untouched.
    AddImmediate(u8, u8),
    /// `8xy0`: `Vx = Vy`.
    Move(u8, u8),
    /// `8xy1`: `Vx = Vx | Vy`.
    Or(u8, u8),
    /// `8xy2`: `Vx = Vx & Vy`.
    And(u8, u8),
    /// `8xy3`: `Vx = Vx ^ Vy`.
    Xor(u8, u8),
    /// `8xy4`: `Vx = Vx + Vy`, wrapping, with carry flag.
    AddRegister(u8, u8),
    /// `8xy5`: `Vx = Vx - Vy`, wrapping, with flag.
    Subtract(u8, u8),
    /// `8xy6`: `Vx = Vy >> 1`, flag from the bit shifted out.
    ShiftRight(u8, u8),
    /// `8xy7`: `Vx = Vy - Vx`, wrapping, with flag.
    SubtractReversed(u8, u8),
    /// `8xyE`: `Vx = Vy << 1`, flag from the bit shifted out.
    ShiftLeft(u8, u8),
    /// `Annn`: `I = nnn`.
    LoadIndex(u16),
    /// `Bnnn`: continue at `nnn + V0`.
    JumpOffset(u16),
    /// `Cxnn`: `Vx = nn & random`.
    Random(u8, u8),
    /// `Dxyn`: draw the `n`-row sprite at `I` to (`Vx`, `Vy`).
    Draw(u8, u8, u8),
    /// `Ex9E`: skip the next instruction if key `Vx` is pressed.
    SkipIfKey(u8),
    /// `ExA1`: skip the next instruction if key `Vx` is not pressed.
    SkipIfNotKey(u8),
    /// `Fx07`: `Vx = delay timer`.
    ReadDelay(u8),
    /// `Fx0A`: wait for a key and put it into `Vx`.
    WaitForKey(u8),
    /// `Fx15`: `delay timer = Vx`.
    SetDelay(u8),
    /// `Fx18`: `sound timer = Vx`.
    SetSound(u8),
    /// `Fx1E`: `I = I + Vx`.
    AddToIndex(u8),
    /// `Fx29`: `I = address of the glyph for the low digit of Vx`.
    LoadGlyph(u8),
    /// `Fx55`: store `V0..=Vx` to memory at `I`.
    StoreRegisters(u8),
    /// `Fx65`: load `V0..=Vx` from memory at `I`.
    LoadRegisters(u8),
}

impl Instruction {
    /// Register numbers and row counts fit a nibble, addresses twelve bits.
    pub open spec fn wf(self) -> bool {
        match self {
            Instruction::ClearScreen | Instruction::Return => true,
            Instruction::Jump(addr)
            | Instruction::Call(addr)
            | Instruction::LoadIndex(addr)
            | Instruction::JumpOffset(addr) => addr < 0x1000,
            Instruction::SkipIfEqual(x, _)
            | Instruction::SkipIfNotEqual(x, _)
            | Instruction::LoadImmediate(x, _)
            | Instruction::AddImmediate(x, _)
            | Instruction::Random(x, _) => x < 16,
            Instruction::SkipIfRegistersEqual(x, y)
            | Instruction::SkipIfRegistersNotEqual(x, y)
            | Instruction::Move(x, y)
            | Instruction::Or(x, y)
            | Instruction::And(x, y)
            | Instruction::Xor(x, y)
            | Instruction::AddRegister(x, y)
            | Instruction::Subtract(x, y)
            | Instruction::ShiftRight(x, y)
            | Instruction::SubtractReversed(x, y)
            | Instruction::ShiftLeft(x, y) => x < 16 && y < 16,
            Instruction::Draw(x, y, rows) => x < 16 && y < 16 && rows < 16,
            Instruction::SkipIfKey(x)
            | Instruction::SkipIfNotKey(x)
            | Instruction::ReadDelay(x)
            | Instruction::WaitForKey(x)
            | Instruction::SetDelay(x)
            | Instruction::SetSound(x)
            | Instruction::AddToIndex(x)
            | Instruction::LoadGlyph(x)
            | Instruction::StoreRegisters(x)
            | Instruction::LoadRegisters(x) => x < 16,
        }
    }
}

/// Bits 15 to 12 of the word: the instruction family.
pub open spec fn op_of(word: u16) -> int {
    word as int / 0x1000
}

/// Bits 11 to 8 of the word.
pub open spec fn x_of(word: u16) -> u8 {
    ((word as int / 0x100) % 0x10) as u8
}

/// Bits 7 to 4 of the word.
pub open spec fn y_of(word: u16) -> u8 {
    ((word as int / 0x10) % 0x10) as u8
}

/// Bits 3 to 0 of the word.
pub open spec fn n_of(word: u16) -> u8 {
    (word as int % 0x10) as u8
}

/// Bits 7 to 0 of the word.
pub open spec fn nn_of(word: u16) -> u8 {
    (word as int % 0x100) as u8
}

/// Bits 11 to 0 of the word.
pub open spec fn nnn_of(word: u16) -> u16 {
    (word as int % 0x1000) as u16
}

/// The instruction a word stands for, or `UnknownOpcode` with the word.
/// The family selects the instruction; the families 0, E and F select
/// further by the low byte, the family 8 by the low nibble.
pub open spec fn decode_spec(word: u16) -> Result<Instruction, Error> {
    let op = op_of(word);
    let x = x_of(word);
    let y = y_of(word);
    let n = n_of(word);
    let nn = nn_of(word);
    let nnn = nnn_of(word);
    if op == 0x0 {
        if nn == 0xE0 {
            Ok(Instruction::ClearScreen)
        } else if nn == 0xEE {
            Ok(Instruction::Return)
        } else {
            Err(Error::UnknownOpcode(word))
        }
    } else if op == 0x1 {
        Ok(Instruction::Jump(nnn))
    } else if op == 0x2 {
        Ok(Instruction::Call(nnn))
    } else if op == 0x3 {
        Ok(Instruction::SkipIfEqual(x, nn))
    } else if op == 0x4 {
        Ok(Instruction::SkipIfNotEqual(x, nn))
    } else if op == 0x5 {
        Ok(Instruction::SkipIfRegistersEqual(x, y))
    } else if op == 0x6 {
        Ok(Instruction::LoadImmediate(x, nn))
    } else if op == 0x7 {
        Ok(Instruction::AddImmediate(x, nn))
    } else if op == 0x8 {
        if n == 0x0 {
            Ok(Instruction::Move(x, y))
        } else if n == 0x1 {
            Ok(Instruction::Or(x, y))
        } else if n == 0x2 {
            Ok(Instruction::And(x, y))
        } else if n == 0x3 {
            Ok(Instruction::Xor(x, y))
        } else if n == 0x4 {
            Ok(Instruction::AddRegister(x, y))
        } else if n == 0x5 {
            Ok(Instruction::Subtract(x, y))
        } else if n == 0x6 {
            Ok(Instruction::ShiftRight(x, y))
        } else if n == 0x7 {
            Ok(Instruction::SubtractReversed(x, y))
        } else if n == 0xE {
            Ok(Instruction::ShiftLeft(x, y))
        } else {
            Err(Error::UnknownOpcode(word))
        }
    } else if op == 0x9 {
        Ok(Instruction::SkipIfRegistersNotEqual(x, y))
    } else if op == 0xA {
        Ok(Instruction::LoadIndex(nnn))
    } else if op == 0xB {
        Ok(Instruction::JumpOffset(nnn))
    } else if op == 0xC {
        Ok(Instruction::Random(x, nn))
    } else if op == 0xD {
        Ok(Instruction::Draw(x, y, n))
    } else if op == 0xE {
        if nn == 0x9E {
            Ok(Instruction::SkipIfKey(x))
        } else if nn == 0xA1 {
            Ok(Instruction::SkipIfNotKey(x))
        } else {
            Err(Error::UnknownOpcode(word))
        }
    } else {
        if nn == 0x07 {
            Ok(Instruction::ReadDelay(x))
        } else if nn == 0x0A {
            Ok(Instruction::WaitForKey(x))
        } else if nn == 0x15 {
            Ok(Instruction::SetDelay(x))
        } else if nn == 0x18 {
            Ok(Instruction::SetSound(x))
        } else if nn == 0x1E {
            Ok(Instruction::AddToIndex(x))
        } else if nn == 0x29 {
            Ok(Instruction::LoadGlyph(x))
        } else if nn == 0x55 {
            Ok(Instruction::StoreRegisters(x))
        } else if nn == 0x65 {
            Ok(Instruction::LoadRegisters(x))
        } else {
            Err(Error::UnknownOpcode(word))
        }
    }
}

/// Every decoded instruction has operands in range.
pub proof fn lemma_decoded_wf(word: u16)
    ensures
        decode_spec(word) matches Ok(instr) ==> instr.wf(),
{
}

/// Decodes an instruction word.
pub fn decode(word: u16) -> (result: Result<Instruction, Error>)
    ensures
        result == decode_spec(word),
        result matches Ok(instr) ==> instr.wf(),
{
    let op: u8 = (word >> 12) as u8;
    let x: u8 = ((word >> 8) & 0xF) as u8;
    let y: u8 = ((word >> 4) & 0xF) as u8;
    let n: u8 = (word & 0xF) as u8;
    let nn: u8 = (word & 0xFF) as u8;
    let nnn: u16 = word & 0xFFF;
    proof {
        assert(word >> 12 == word / 0x1000 && (word >> 8) & 0xF == (word / 0x100) % 0x10 && (word
            >> 4) & 0xF == (word / 0x10) % 0x10 && word & 0xF == word % 0x10 && word & 0xFF == word
            % 0x100 && word & 0xFFF == word % 0x1000) by (bit_vector);
        lemma_decoded_wf(word);
    }
    match op {
        0x0 => match nn {
            0xE0 => Ok(Instruction::ClearScreen),
            0xEE => Ok(Instruction::Return),
            _ => Err(Error::UnknownOpcode(word)),
        },
        0x1 => Ok(Instruction::Jump(nnn)),
        0x2 => Ok(Instruction::Call(nnn)),
        0x3 => Ok(Instruction::SkipIfEqual(x, nn)),
        0x4 => Ok(Instruction::SkipIfNotEqual(x, nn)),
        0x5 => Ok(Instruction::SkipIfRegistersEqual(x, y)),
        0x6 => Ok(Instruction::LoadImmediate(x, nn)),
        0x7 => Ok(Instruction::AddImmediate(x, nn)),
        0x8 => match n {
            0x0 => Ok(Instruction::Move(x, y)),
            0x1 => Ok(Instruction::Or(x, y)),
            0x2 => Ok(Instruction::And(x, y)),
            0x3 => Ok(Instruction::Xor(x, y)),
            0x4 => Ok(Instruction::AddRegister(x, y)),
            0x5 => Ok(Instruction::Subtract(x, y)),
            0x6 => Ok(Instruction::ShiftRight(x, y)),
            0x7 => Ok(Instruction::SubtractReversed(x, y)),
            0xE => Ok(Instruction::ShiftLeft(x, y)),
            _ => Err(Error::UnknownOpcode(word)),
        },
        0x9 => Ok(Instruction::SkipIfRegistersNotEqual(x, y)),
        0xA => Ok(Instruction::LoadIndex(nnn)),
        0xB => Ok(Instruction::JumpOffset(nnn)),
        0xC => Ok(Instruction::Random(x, nn)),
        0xD => Ok(Instruction::Draw(x, y, n)),
        0xE => match nn {
            0x9E => Ok(Instruction::SkipIfKey(x)),
            0xA1 => Ok(Instruction::SkipIfNotKey(x)),
            _ => Err(Error::UnknownOpcode(word)),
        },
        _ => match nn {
            0x07 => Ok(Instruction::ReadDelay(x)),
            0x0A => Ok(Instruction::WaitForKey(x)),
            0x15 => Ok(Instruction::SetDelay(x)),
            0x18 => Ok(Instruction::SetSound(x)),
            0x1E => Ok(Instruction::AddToIndex(x)),
            0x29 => Ok(Instruction::LoadGlyph(x)),
            0x55 => Ok(Instruction::StoreRegisters(x)),
            0x65 => Ok(Instruction::LoadRegisters(x)),
            _ => Err(Error::UnknownOpcode(word)),
        },
    }
}

} // verus!
