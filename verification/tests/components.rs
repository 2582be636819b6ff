use chip8::alu::{add_with_carry, shift_left, shift_right, subtract_with_flag};
use chip8::cpu::{Cpu, GAME_MEM_OFFSET, NUM_REG};
use chip8::display::Display;
use chip8::error::Error;
use chip8::font::{FONT_MEM_OFFSET, FONT_SET};
use chip8::memory::Memory;
use chip8::opcode::{decode, Instruction};
use chip8::stack::Stack;
use chip8::{DISPLAY_HEIGHT, DISPLAY_WIDTH, RAM_SIZE, STACK_SIZE, VRAM_SIZE};

#[test]
fn constants_have_their_sizes() {
    assert_eq!(DISPLAY_WIDTH, 64);
    assert_eq!(DISPLAY_HEIGHT, 32);
    assert_eq!(RAM_SIZE, 4096);
    assert_eq!(STACK_SIZE, 16);
    assert_eq!(VRAM_SIZE, 2048);
    assert_eq!(NUM_REG, 16);
    assert_eq!(GAME_MEM_OFFSET, 0x200);
    assert_eq!(FONT_SET.len(), 80);
}

#[test]
fn memory_starts_with_the_font_only() {
    let memory = Memory::new();
    for addr in 0..RAM_SIZE {
        let expected = if (FONT_MEM_OFFSET..FONT_MEM_OFFSET + 80).contains(&addr) {
            FONT_SET[addr - FONT_MEM_OFFSET]
        } else {
            0
        };
        assert_eq!(memory.read_byte(addr), Ok(expected));
    }
}

#[test]
fn memory_load_copies_and_rejects() {
    let mut memory = Memory::new();
    assert_eq!(memory.load(&vec![1, 2, 3], 0x200), Ok(()));
    assert_eq!(memory.read_byte(0x1FF), Ok(0));
    assert_eq!(memory.read_byte(0x200), Ok(1));
    assert_eq!(memory.read_byte(0x202), Ok(3));
    assert_eq!(memory.read_byte(0x203), Ok(0));
    assert_eq!(memory.load(&vec![9, 9], 0xFFF), Err(Error::OutOfBounds));
    assert_eq!(memory.read_byte(0xFFF), Ok(0));
    assert_eq!(memory.load(&vec![9, 9], 0xFFE), Ok(()));
    assert_eq!(memory.read_byte(0xFFF), Ok(9));
    assert_eq!(memory.load(&vec![7], usize::MAX), Err(Error::OutOfBounds));
}

#[test]
fn memory_words_are_big_endian() {
    let mut memory = Memory::new();
    assert_eq!(memory.write_byte(0x300, 0x12), Ok(()));
    assert_eq!(memory.write_byte(0x301, 0x34), Ok(()));
    assert_eq!(memory.read_word(0x300), Ok(0x1234));
    assert_eq!(memory.read_word(0x301), Ok(0x3400));
    assert_eq!(memory.read_word(0xFFE), Ok(0));
    assert_eq!(memory.read_word(0xFFF), Err(Error::OutOfBounds));
    assert_eq!(memory.read_word(0x1000), Err(Error::OutOfBounds));
    assert_eq!(memory.read_word(usize::MAX), Err(Error::OutOfBounds));
}

#[test]
fn memory_bytes_are_bounds_checked() {
    let mut memory = Memory::new();
    assert_eq!(memory.write_byte(0xFFF, 5), Ok(()));
    assert_eq!(memory.read_byte(0xFFF), Ok(5));
    assert_eq!(memory.write_byte(0x1000, 5), Err(Error::OutOfBounds));
    assert_eq!(memory.read_byte(0x1000), Err(Error::OutOfBounds));
}

#[test]
fn memory_ranges_are_copied_out() {
    let memory = Memory::new();
    assert_eq!(memory.read_range(0x050, 5), Ok(vec![0xF0, 0x90, 0x90, 0x90, 0xF0]));
    assert_eq!(memory.read_range(0xFFF, 1), Ok(vec![0]));
    assert_eq!(memory.read_range(0x1000, 0), Ok(vec![]));
    assert_eq!(memory.read_range(0xFFF, 2), Err(Error::OutOfBounds));
    assert_eq!(memory.read_range(usize::MAX, 2), Err(Error::OutOfBounds));
}

#[test]
fn cpu_default_is_power_on_state() {
    let cpu = Cpu::default();
    assert_eq!(cpu.pc, 0x200);
    assert_eq!(cpu.i, 0);
    assert_eq!(cpu.registers, [0u8; 16]);
    assert_eq!(cpu.delay_timer, 0);
    assert_eq!(cpu.sound_timer, 0);
}

#[test]
fn cpu_fetch_advances_or_fails() {
    let mut memory = Memory::new();
    assert_eq!(memory.load(&vec![0xDE, 0xAD], 0x200), Ok(()));
    let mut cpu = Cpu::default();
    assert_eq!(cpu.fetch(&memory), Ok(0xDEAD));
    assert_eq!(cpu.pc, 0x202);
    cpu.pc = 0xFFE;
    assert_eq!(cpu.fetch(&memory), Ok(0));
    assert_eq!(cpu.pc, 0x1000);
    assert_eq!(cpu.fetch(&memory), Err(Error::OutOfBounds));
    assert_eq!(cpu.pc, 0x1000);
    cpu.pc = 0xFFF;
    assert_eq!(cpu.fetch(&memory), Err(Error::OutOfBounds));
    cpu.pc = 0xFFFF;
    assert_eq!(cpu.fetch(&memory), Err(Error::OutOfBounds));
    assert_eq!(cpu.pc, 0xFFFF);
}

#[test]
fn stack_is_last_in_first_out() {
    let mut stack = Stack::new();
    assert_eq!(stack.depth(), 0);
    assert_eq!(stack.pop(), Err(Error::StackUnderflow));
    assert_eq!(stack.push(0x111), Ok(()));
    assert_eq!(stack.push(0x222), Ok(()));
    assert_eq!(stack.depth(), 2);
    assert_eq!(stack.pop(), Ok(0x222));
    assert_eq!(stack.pop(), Ok(0x111));
    assert_eq!(stack.pop(), Err(Error::StackUnderflow));
    assert_eq!(stack.depth(), 0);
}

#[test]
fn stack_holds_sixteen_addresses() {
    let mut stack = Stack::new();
    for k in 0..16u16 {
        assert_eq!(stack.push(k), Ok(()));
    }
    assert_eq!(stack.push(16), Err(Error::StackOverflow));
    assert_eq!(stack.depth(), 16);
    assert_eq!(stack.pop(), Ok(15));
    assert_eq!(stack.push(99), Ok(()));
    assert_eq!(stack.push(100), Err(Error::StackOverflow));
}

#[test]
fn display_draw_xors_and_reports_collision() {
    let mut display = Display::new();
    assert!(!display.draw(&vec![0b1010_0000, 0b0000_0001], 3, 2));
    assert_eq!(display.pixel(3, 2), Some(1));
    assert_eq!(display.pixel(4, 2), Some(0));
    assert_eq!(display.pixel(5, 2), Some(1));
    assert_eq!(display.pixel(10, 3), Some(1));
    assert_eq!(display.pixels().iter().map(|&p| p as usize).sum::<usize>(), 3);
    // overlap in one pixel: that one goes off, the other comes on
    assert!(display.draw(&vec![0b1100_0000], 5, 2));
    assert_eq!(display.pixel(5, 2), Some(0));
    assert_eq!(display.pixel(6, 2), Some(1));
    // no overlap: no collision
    assert!(!display.draw(&vec![0xFF], 0, 10));
    display.clear();
    assert!(display.pixels().iter().all(|&p| p == 0));
    assert_eq!(display.pixels().len(), VRAM_SIZE);
}

#[test]
fn display_draw_twice_is_identity() {
    let mut display = Display::new();
    display.draw(&vec![0x3C, 0x42, 0x81, 0x42, 0x3C], 20, 11);
    let base: Vec<u8> = display.pixels().clone();
    let sprite = vec![0xFF, 0x81, 0xFF];
    let first = display.draw(&sprite, 22, 12);
    assert!(first);
    assert_ne!(display.pixels(), &base);
    let second = display.draw(&sprite, 22, 12);
    assert!(second);
    assert_eq!(display.pixels(), &base);
}

#[test]
fn display_clips_and_never_wraps() {
    let mut display = Display::new();
    assert!(!display.draw(&vec![0xFF, 0xFF, 0xFF], 60, 30));
    for y in 0..32 {
        for x in 0..64 {
            let expected = if x >= 60 && y >= 30 { 1 } else { 0 };
            assert_eq!(display.pixel(x, y), Some(expected));
        }
    }
    assert!(!display.draw(&vec![0xFF], 255, 255));
    assert!(!display.draw(&vec![0xFF; 40], 64, 0));
    assert_eq!(display.pixels().iter().map(|&p| p as usize).sum::<usize>(), 8);
    assert_eq!(display.pixel(64, 0), None);
    assert_eq!(display.pixel(0, 32), None);
}

#[test]
fn display_draws_long_sprites_down_to_the_last_row() {
    let mut display = Display::new();
    assert!(!display.draw(&vec![0x80; 40], 0, 0));
    for y in 0..32 {
        assert_eq!(display.pixel(0, y), Some(1));
        assert_eq!(display.pixel(1, y), Some(0));
    }
}

#[test]
fn alu_operations_give_flag_and_value() {
    assert_eq!(add_with_carry(200, 100), (1, 44));
    assert_eq!(add_with_carry(200, 55), (0, 255));
    assert_eq!(add_with_carry(255, 1), (1, 0));
    assert_eq!(add_with_carry(0, 0), (0, 0));
    assert_eq!(subtract_with_flag(10, 3), (1, 7));
    assert_eq!(subtract_with_flag(3, 10), (0, 249));
    assert_eq!(subtract_with_flag(5, 5), (0, 0));
    assert_eq!(shift_right(5), (1, 2));
    assert_eq!(shift_right(4), (0, 2));
    assert_eq!(shift_left(0x81), (1, 0x02));
    assert_eq!(shift_left(0x41), (0, 0x82));
}

#[test]
fn decode_splits_the_word_into_fields() {
    assert_eq!(decode(0x00E0), Ok(Instruction::ClearScreen));
    assert_eq!(decode(0x00EE), Ok(Instruction::Return));
    assert_eq!(decode(0x1ABC), Ok(Instruction::Jump(0xABC)));
    assert_eq!(decode(0x2ABC), Ok(Instruction::Call(0xABC)));
    assert_eq!(decode(0x3A12), Ok(Instruction::SkipIfEqual(0xA, 0x12)));
    assert_eq!(decode(0x4A12), Ok(Instruction::SkipIfNotEqual(0xA, 0x12)));
    assert_eq!(decode(0x5AB0), Ok(Instruction::SkipIfRegistersEqual(0xA, 0xB)));
    assert_eq!(decode(0x5555), Ok(Instruction::SkipIfRegistersEqual(5, 5)));
    assert_eq!(decode(0x6A12), Ok(Instruction::LoadImmediate(0xA, 0x12)));
    assert_eq!(decode(0x7A12), Ok(Instruction::AddImmediate(0xA, 0x12)));
    assert_eq!(decode(0x8AB0), Ok(Instruction::Move(0xA, 0xB)));
    assert_eq!(decode(0x8AB1), Ok(Instruction::Or(0xA, 0xB)));
    assert_eq!(decode(0x8AB2), Ok(Instruction::And(0xA, 0xB)));
    assert_eq!(decode(0x8AB3), Ok(Instruction::Xor(0xA, 0xB)));
    assert_eq!(decode(0x8AB4), Ok(Instruction::AddRegister(0xA, 0xB)));
    assert_eq!(decode(0x8AB5), Ok(Instruction::Subtract(0xA, 0xB)));
    assert_eq!(decode(0x8AB6), Ok(Instruction::ShiftRight(0xA, 0xB)));
    assert_eq!(decode(0x8AB7), Ok(Instruction::SubtractReversed(0xA, 0xB)));
    assert_eq!(decode(0x8ABE), Ok(Instruction::ShiftLeft(0xA, 0xB)));
    assert_eq!(decode(0x9AB0), Ok(Instruction::SkipIfRegistersNotEqual(0xA, 0xB)));
    assert_eq!(decode(0xAABC), Ok(Instruction::LoadIndex(0xABC)));
    assert_eq!(decode(0xBABC), Ok(Instruction::JumpOffset(0xABC)));
    assert_eq!(decode(0xCA12), Ok(Instruction::Random(0xA, 0x12)));
    assert_eq!(decode(0xDAB5), Ok(Instruction::Draw(0xA, 0xB, 5)));
    assert_eq!(decode(0xEA9E), Ok(Instruction::SkipIfKey(0xA)));
    assert_eq!(decode(0xEAA1), Ok(Instruction::SkipIfNotKey(0xA)));
    assert_eq!(decode(0xFA07), Ok(Instruction::ReadDelay(0xA)));
    assert_eq!(decode(0xFA0A), Ok(Instruction::WaitForKey(0xA)));
    assert_eq!(decode(0xFA15), Ok(Instruction::SetDelay(0xA)));
    assert_eq!(decode(0xFA18), Ok(Instruction::SetSound(0xA)));
    assert_eq!(decode(0xFA1E), Ok(Instruction::AddToIndex(0xA)));
    assert_eq!(decode(0xFA29), Ok(Instruction::LoadGlyph(0xA)));
    assert_eq!(decode(0xFA55), Ok(Instruction::StoreRegisters(0xA)));
    assert_eq!(decode(0xFA65), Ok(Instruction::LoadRegisters(0xA)));
}

#[test]
fn decode_rejects_what_is_no_instruction() {
    for word in [0x0000u16, 0x00E1, 0x0FFF, 0x8008, 0x8AB9, 0x8ABF, 0xE000, 0xE19F, 0xF000, 0xF133, 0xFFFF] {
        assert_eq!(decode(word), Err(Error::UnknownOpcode(word)));
    }
}

#[test]
fn decode_knows_every_word_or_names_it() {
    for word in 0..=u16::MAX {
        match decode(word) {
            Ok(_) => {}
            Err(e) => assert_eq!(e, Error::UnknownOpcode(word)),
        }
    }
}
