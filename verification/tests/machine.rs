use chip8::error::Error;
use chip8::machine::Chip8;
use chip8::model::{Signal, State};

fn machine_with(program: &[u8]) -> Chip8 {
    let mut machine = Chip8::new();
    assert_eq!(machine.load_binary(program.to_vec(), 0x200), Ok(()));
    machine
}

fn run_words(machine: &mut Chip8, words: &[u16]) {
    for &word in words {
        assert!(machine.execute_with(word, None, 0).is_ok());
    }
}

#[test]
fn new_machine_starts_at_program_area() {
    let machine = Chip8::new();
    assert_eq!(machine.pc(), 0x200);
    assert_eq!(machine.index(), 0);
    assert_eq!(machine.registers(), [0u8; 16]);
    assert_eq!(machine.delay_timer(), 0);
    assert_eq!(machine.sound_timer(), 0);
    assert_eq!(machine.stack_depth(), 0);
    assert_eq!(machine.state(), State::Running);
    assert!(!machine.drew());
    assert!(machine.pixels().iter().all(|&p| p == 0));
}

#[test]
fn new_machine_holds_the_font() {
    let machine = Chip8::new();
    assert_eq!(machine.read_byte(0x04F), Ok(0x00));
    assert_eq!(machine.read_byte(0x050), Ok(0xF0));
    assert_eq!(machine.read_byte(0x051), Ok(0x90));
    assert_eq!(machine.read_byte(0x055), Ok(0x20));
    assert_eq!(machine.read_byte(0x09F), Ok(0x80));
    assert_eq!(machine.read_byte(0x0A0), Ok(0x00));
    assert_eq!(machine.read_byte(0x200), Ok(0x00));
}

#[test]
fn load_then_add_immediate_in_two_steps() {
    let mut machine = machine_with(&[0x60, 0x05, 0x70, 0x03]);
    machine.step(None);
    machine.step(None);
    assert_eq!(machine.registers()[0], 8);
    assert_eq!(machine.pc(), 0x204);
    assert_eq!(machine.state(), State::Running);
}

#[test]
fn return_on_empty_stack_halts_with_underflow() {
    let mut machine = machine_with(&[0x00, 0xEE]);
    machine.step(None);
    assert_eq!(machine.state(), State::Halted(Error::StackUnderflow));
}

#[test]
fn return_on_empty_stack_fails_and_changes_nothing() {
    let mut machine = Chip8::new();
    assert_eq!(machine.execute(0x00EE, None), Err(Error::StackUnderflow));
    assert_eq!(machine.pc(), 0x200);
    assert_eq!(machine.stack_depth(), 0);
}

#[test]
fn unknown_opcode_halts_and_reports_the_word() {
    let mut machine = machine_with(&[0xE0, 0x00]);
    machine.step(None);
    assert_eq!(machine.state(), State::Halted(Error::UnknownOpcode(0xE000)));
}

#[test]
fn unknown_opcodes_are_not_silent() {
    let mut machine = Chip8::new();
    assert_eq!(machine.execute(0x0000, None), Err(Error::UnknownOpcode(0x0000)));
    assert_eq!(machine.execute(0x8008, None), Err(Error::UnknownOpcode(0x8008)));
    assert_eq!(machine.execute(0xF033, None), Err(Error::UnknownOpcode(0xF033)));
    assert_eq!(machine.execute(0xF0FF, None), Err(Error::UnknownOpcode(0xF0FF)));
    assert_eq!(machine.execute(0xE000, None), Err(Error::UnknownOpcode(0xE000)));
}

#[test]
fn skip_equal_family_ignores_the_low_nibble() {
    let mut machine = Chip8::new();
    assert_eq!(machine.execute(0x5555, None), Ok(Signal::Proceed));
    assert_eq!(machine.pc(), 0x202);
}

#[test]
fn halted_machine_stays_halted() {
    let mut machine = machine_with(&[0x00, 0xEE, 0x60, 0x05]);
    machine.step(None);
    let pc = machine.pc();
    machine.step(None);
    machine.step(Some(3));
    assert_eq!(machine.state(), State::Halted(Error::StackUnderflow));
    assert_eq!(machine.pc(), pc);
    assert_eq!(machine.registers()[0], 0);
}

#[test]
fn fetch_past_the_end_of_memory_halts_out_of_bounds() {
    let mut machine = machine_with(&[0x1F, 0xFF]);
    machine.step(None);
    assert_eq!(machine.pc(), 0xFFF);
    machine.step(None);
    assert_eq!(machine.state(), State::Halted(Error::OutOfBounds));
    assert_eq!(machine.pc(), 0xFFF);
}

#[test]
fn fetch_reads_big_endian_and_advances() {
    let mut machine = machine_with(&[0xAB, 0xCD]);
    assert_eq!(machine.fetch(), Ok(0xABCD));
    assert_eq!(machine.pc(), 0x202);
}

#[test]
fn add_immediate_wraps_and_keeps_the_flag() {
    let mut machine = Chip8::new();
    run_words(&mut machine, &[0x6FAA, 0x63FE, 0x7303]);
    assert_eq!(machine.registers()[3], 1);
    assert_eq!(machine.registers()[0xF], 0xAA);
}

#[test]
fn add_register_sets_carry() {
    let mut machine = Chip8::new();
    run_words(&mut machine, &[0x61C8, 0x6264, 0x8124]);
    assert_eq!(machine.registers()[1], 44);
    assert_eq!(machine.registers()[0xF], 1);
    run_words(&mut machine, &[0x6101, 0x6202, 0x8124]);
    assert_eq!(machine.registers()[1], 3);
    assert_eq!(machine.registers()[0xF], 0);
    run_words(&mut machine, &[0x61FF, 0x6201, 0x8124]);
    assert_eq!(machine.registers()[1], 0);
    assert_eq!(machine.registers()[0xF], 1);
}

#[test]
fn add_register_into_the_flag_register_keeps_the_sum() {
    let mut machine = Chip8::new();
    run_words(&mut machine, &[0x6F01, 0x6200, 0x8F24]);
    assert_eq!(machine.registers()[0xF], 1);
    run_words(&mut machine, &[0x6FC8, 0x6264, 0x8F24]);
    assert_eq!(machine.registers()[0xF], 44);
}

#[test]
fn subtract_sets_flag_from_operands_before() {
    let mut machine = Chip8::new();
    run_words(&mut machine, &[0x610A, 0x6203, 0x8125]);
    assert_eq!(machine.registers()[1], 7);
    assert_eq!(machine.registers()[0xF], 1);
    run_words(&mut machine, &[0x6103, 0x620A, 0x8125]);
    assert_eq!(machine.registers()[1], 249);
    assert_eq!(machine.registers()[0xF], 0);
    run_words(&mut machine, &[0x6105, 0x6205, 0x8125]);
    assert_eq!(machine.registers()[1], 0);
    assert_eq!(machine.registers()[0xF], 0);
}

#[test]
fn subtract_reversed_sets_flag() {
    let mut machine = Chip8::new();
    run_words(&mut machine, &[0x6103, 0x620A, 0x8127]);
    assert_eq!(machine.registers()[1], 7);
    assert_eq!(machine.registers()[0xF], 1);
    run_words(&mut machine, &[0x610A, 0x6203, 0x8127]);
    assert_eq!(machine.registers()[1], 249);
    assert_eq!(machine.registers()[0xF], 0);
}

#[test]
fn shifts_take_their_source_from_vy() {
    let mut machine = Chip8::new();
    run_words(&mut machine, &[0x61FF, 0x6205, 0x8126]);
    assert_eq!(machine.registers()[1], 2);
    assert_eq!(machine.registers()[2], 5);
    assert_eq!(machine.registers()[0xF], 1);
    run_words(&mut machine, &[0x6204, 0x8126]);
    assert_eq!(machine.registers()[1], 2);
    assert_eq!(machine.registers()[0xF], 0);
    run_words(&mut machine, &[0x6281, 0x812E]);
    assert_eq!(machine.registers()[1], 2);
    assert_eq!(machine.registers()[0xF], 1);
    run_words(&mut machine, &[0x6241, 0x812E]);
    assert_eq!(machine.registers()[1], 0x82);
    assert_eq!(machine.registers()[0xF], 0);
}

#[test]
fn move_and_logic_operations() {
    let mut machine = Chip8::new();
    run_words(&mut machine, &[0x61CC, 0x62AA, 0x8320]);
    assert_eq!(machine.registers()[3], 0xAA);
    run_words(&mut machine, &[0x8121]);
    assert_eq!(machine.registers()[1], 0xEE);
    run_words(&mut machine, &[0x61CC, 0x8122]);
    assert_eq!(machine.registers()[1], 0x88);
    run_words(&mut machine, &[0x61CC, 0x8123]);
    assert_eq!(machine.registers()[1], 0x66);
    assert_eq!(machine.registers()[0xF], 0);
}

#[test]
fn skips_move_the_program_counter_by_two() {
    let mut machine = Chip8::new();
    run_words(&mut machine, &[0x6105, 0x6205, 0x6306]);
    run_words(&mut machine, &[0x3105]);
    assert_eq!(machine.pc(), 0x202);
    run_words(&mut machine, &[0x3106]);
    assert_eq!(machine.pc(), 0x202);
    run_words(&mut machine, &[0x4106]);
    assert_eq!(machine.pc(), 0x204);
    run_words(&mut machine, &[0x4105]);
    assert_eq!(machine.pc(), 0x204);
    run_words(&mut machine, &[0x5120]);
    assert_eq!(machine.pc(), 0x206);
    run_words(&mut machine, &[0x5130]);
    assert_eq!(machine.pc(), 0x206);
    run_words(&mut machine, &[0x9130]);
    assert_eq!(machine.pc(), 0x208);
    run_words(&mut machine, &[0x9120]);
    assert_eq!(machine.pc(), 0x208);
}

#[test]
fn key_skips_follow_the_held_key() {
    let mut machine = Chip8::new();
    run_words(&mut machine, &[0x6107]);
    assert_eq!(machine.execute_with(0xE19E, Some(7), 0), Ok(Signal::Proceed));
    assert_eq!(machine.pc(), 0x202);
    assert_eq!(machine.execute_with(0xE19E, Some(8), 0), Ok(Signal::Proceed));
    assert_eq!(machine.execute_with(0xE19E, None, 0), Ok(Signal::Proceed));
    assert_eq!(machine.pc(), 0x202);
    assert_eq!(machine.execute_with(0xE1A1, Some(7), 0), Ok(Signal::Proceed));
    assert_eq!(machine.pc(), 0x202);
    assert_eq!(machine.execute_with(0xE1A1, Some(8), 0), Ok(Signal::Proceed));
    assert_eq!(machine.pc(), 0x204);
    assert_eq!(machine.execute_with(0xE1A1, None, 0), Ok(Signal::Proceed));
    assert_eq!(machine.pc(), 0x206);
}

#[test]
fn skip_past_the_last_address_is_out_of_bounds() {
    let mut machine = Chip8::new();
    // V0 is 0, so this skip is taken every time
    while machine.pc() < 0xFFFE {
        assert_eq!(machine.execute_with(0x3000, None, 0), Ok(Signal::Proceed));
    }
    assert_eq!(machine.pc(), 0xFFFE);
    assert_eq!(machine.execute_with(0x3000, None, 0), Err(Error::OutOfBounds));
    assert_eq!(machine.pc(), 0xFFFE);
    // a skip that is not taken moves nothing and cannot fail
    assert_eq!(machine.execute_with(0x4000, None, 0), Ok(Signal::Proceed));
    assert_eq!(machine.pc(), 0xFFFE);
}

#[test]
fn jump_and_jump_with_offset() {
    let mut machine = Chip8::new();
    run_words(&mut machine, &[0x1ABC]);
    assert_eq!(machine.pc(), 0xABC);
    run_words(&mut machine, &[0x60FF, 0xBFFF]);
    assert_eq!(machine.pc(), 0x10FE);
    run_words(&mut machine, &[0x6004, 0xB300]);
    assert_eq!(machine.pc(), 0x304);
}

#[test]
fn call_then_return_restores_pc_and_depth() {
    let mut machine = machine_with(&[0x23, 0x00]);
    assert_eq!(machine.load_binary(vec![0x00, 0xEE], 0x300), Ok(()));
    machine.step(None);
    assert_eq!(machine.pc(), 0x300);
    assert_eq!(machine.stack_depth(), 1);
    machine.step(None);
    assert_eq!(machine.pc(), 0x202);
    assert_eq!(machine.stack_depth(), 0);
    assert_eq!(machine.state(), State::Running);
}

#[test]
fn nested_calls_return_in_reverse_order() {
    let mut machine = Chip8::new();
    run_words(&mut machine, &[0x2300]);
    run_words(&mut machine, &[0x2400]);
    assert_eq!(machine.stack_depth(), 2);
    run_words(&mut machine, &[0x00EE]);
    assert_eq!(machine.pc(), 0x300);
    run_words(&mut machine, &[0x00EE]);
    assert_eq!(machine.pc(), 0x200);
    assert_eq!(machine.stack_depth(), 0);
}

#[test]
fn seventeenth_call_overflows_the_stack() {
    let mut machine = Chip8::new();
    for depth in 0..16 {
        assert_eq!(machine.stack_depth(), depth);
        assert_eq!(machine.execute(0x2300, None), Ok(Signal::Proceed));
    }
    assert_eq!(machine.stack_depth(), 16);
    assert_eq!(machine.execute(0x2400, None), Err(Error::StackOverflow));
    assert_eq!(machine.stack_depth(), 16);
    assert_eq!(machine.pc(), 0x300);
}

#[test]
fn seventeen_calls_in_a_program_halt_with_overflow() {
    // 0x200: call 0x200, again and again
    let mut machine = machine_with(&[0x22, 0x00]);
    let steps = machine.run(None, 100);
    assert_eq!(steps, 17);
    assert_eq!(machine.state(), State::Halted(Error::StackOverflow));
    assert_eq!(machine.stack_depth(), 16);
}

#[test]
fn run_stops_at_the_step_limit() {
    // 0x200: jump 0x200
    let mut machine = machine_with(&[0x12, 0x00]);
    assert_eq!(machine.run(None, 25), 25);
    assert_eq!(machine.state(), State::Running);
    assert_eq!(machine.pc(), 0x200);
    assert_eq!(machine.run(None, 0), 0);
}

#[test]
fn run_stops_when_waiting_for_a_key() {
    let mut machine = machine_with(&[0x60, 0x01, 0xF3, 0x0A, 0x61, 0x02]);
    assert_eq!(machine.run(None, 10), 2);
    assert_eq!(machine.state(), State::WaitingForKey(3));
    assert!(machine.is_idle(None));
    assert!(!machine.is_idle(Some(1)));
    assert_eq!(machine.run(None, 10), 0);
}

#[test]
fn wait_for_key_pauses_until_a_key_is_seen() {
    let mut machine = machine_with(&[0xF3, 0x0A, 0x61, 0x02]);
    machine.step(None);
    assert_eq!(machine.state(), State::WaitingForKey(3));
    assert_eq!(machine.pc(), 0x202);
    machine.step(None);
    assert_eq!(machine.state(), State::WaitingForKey(3));
    assert_eq!(machine.pc(), 0x202);
    machine.step(Some(0xB));
    assert_eq!(machine.state(), State::Running);
    assert_eq!(machine.registers()[3], 0xB);
    assert_eq!(machine.pc(), 0x202);
    machine.step(None);
    assert_eq!(machine.registers()[1], 2);
    assert_eq!(machine.pc(), 0x204);
}

#[test]
fn wait_for_key_instruction_signals_the_register() {
    let mut machine = Chip8::new();
    assert_eq!(machine.execute(0xF50A, Some(2)), Ok(Signal::WaitForKey(5)));
    assert_eq!(machine.registers()[5], 0);
    assert_eq!(machine.state(), State::Running);
}

#[test]
fn index_and_timer_instructions() {
    let mut machine = Chip8::new();
    run_words(&mut machine, &[0xA123]);
    assert_eq!(machine.index(), 0x123);
    run_words(&mut machine, &[0x6142, 0xF115, 0xF118]);
    assert_eq!(machine.delay_timer(), 0x42);
    assert_eq!(machine.sound_timer(), 0x42);
    run_words(&mut machine, &[0xF207]);
    assert_eq!(machine.registers()[2], 0x42);
}

#[test]
fn add_to_index_flags_overflow_of_twelve_bits() {
    let mut machine = Chip8::new();
    run_words(&mut machine, &[0xA100, 0x6110, 0xF11E]);
    assert_eq!(machine.index(), 0x110);
    assert_eq!(machine.registers()[0xF], 0);
    run_words(&mut machine, &[0xAFFF, 0x6101, 0xF11E]);
    assert_eq!(machine.index(), 0x1000);
    assert_eq!(machine.registers()[0xF], 1);
    // the flag is raised on overflow, not lowered without
    run_words(&mut machine, &[0xA100, 0xF11E]);
    assert_eq!(machine.index(), 0x101);
    assert_eq!(machine.registers()[0xF], 1);
}

#[test]
fn load_glyph_points_at_the_font() {
    let mut machine = Chip8::new();
    run_words(&mut machine, &[0x6100, 0xF129]);
    assert_eq!(machine.index(), 0x050);
    run_words(&mut machine, &[0x6107, 0xF129]);
    assert_eq!(machine.index(), 0x050 + 35);
    run_words(&mut machine, &[0x61FA, 0xF129]);
    assert_eq!(machine.index(), 0x050 + 50);
}

#[test]
fn store_then_load_registers_round_trips() {
    let mut machine = Chip8::new();
    run_words(&mut machine, &[0x6011, 0x6122, 0x6233, 0x6344, 0xA400, 0xF255]);
    assert_eq!(machine.read_byte(0x400), Ok(0x11));
    assert_eq!(machine.read_byte(0x401), Ok(0x22));
    assert_eq!(machine.read_byte(0x402), Ok(0x33));
    assert_eq!(machine.read_byte(0x403), Ok(0x00));
    assert_eq!(machine.index(), 0x400);
    run_words(&mut machine, &[0x6000, 0x6100, 0x6200, 0x6300, 0xF265]);
    let registers = machine.registers();
    assert_eq!(registers[0], 0x11);
    assert_eq!(registers[1], 0x22);
    assert_eq!(registers[2], 0x33);
    assert_eq!(registers[3], 0x00);
}

#[test]
fn store_and_load_outside_memory_fail_whole() {
    let mut machine = Chip8::new();
    run_words(&mut machine, &[0x6011, 0x6122, 0xAFFF]);
    assert_eq!(machine.execute(0xF155, None), Err(Error::OutOfBounds));
    assert_eq!(machine.read_byte(0xFFF), Ok(0));
    assert_eq!(machine.execute(0xF165, None), Err(Error::OutOfBounds));
    assert_eq!(machine.registers()[0], 0x11);
    assert_eq!(machine.execute(0xF055, None), Ok(Signal::Proceed));
    assert_eq!(machine.read_byte(0xFFF), Ok(0x11));
}

#[test]
fn clear_screen_turns_every_pixel_off() {
    let mut machine = Chip8::new();
    run_words(&mut machine, &[0x6000, 0xF029, 0xD005]);
    assert!(machine.pixels().iter().any(|&p| p == 1));
    run_words(&mut machine, &[0x00E0]);
    assert!(machine.pixels().iter().all(|&p| p == 0));
    for y in 0..32 {
        for x in 0..64 {
            assert_eq!(machine.pixel(x, y), Some(0));
        }
    }
}

#[test]
fn draw_glyph_zero_at_origin() {
    let mut machine = Chip8::new();
    run_words(&mut machine, &[0x6000, 0xF029]);
    assert_eq!(machine.execute(0xD005, None), Ok(Signal::Redraw));
    assert!(machine.drew());
    let rows: [[u8; 4]; 5] = [[1, 1, 1, 1], [1, 0, 0, 1], [1, 0, 0, 1], [1, 0, 0, 1], [1, 1, 1, 1]];
    for y in 0..5 {
        for x in 0..8 {
            let expected = if x < 4 { rows[y][x] } else { 0 };
            assert_eq!(machine.pixel(x, y), Some(expected));
        }
    }
    assert_eq!(machine.pixel(0, 5), Some(0));
    assert_eq!(machine.registers()[0xF], 0);
}

#[test]
fn draw_twice_restores_the_buffer_and_flags_collision() {
    let mut machine = Chip8::new();
    run_words(&mut machine, &[0x610A, 0x6207, 0x630B, 0xF329, 0xD125]);
    let once: Vec<u8> = machine.pixels().clone();
    assert!(once.iter().any(|&p| p == 1));
    assert_eq!(machine.registers()[0xF], 0);
    run_words(&mut machine, &[0xD125]);
    assert!(machine.pixels().iter().all(|&p| p == 0));
    assert_eq!(machine.registers()[0xF], 1);
    run_words(&mut machine, &[0xD125]);
    assert_eq!(machine.pixels(), &once);
    assert_eq!(machine.registers()[0xF], 0);
}

#[test]
fn draw_clips_at_the_edges() {
    let mut machine = Chip8::new();
    // glyph 0 at column 62, row 30: two columns and two rows stay visible
    run_words(&mut machine, &[0x613E, 0x621E, 0x6300, 0xF329, 0xD125]);
    assert_eq!(machine.pixel(62, 30), Some(1));
    assert_eq!(machine.pixel(63, 30), Some(1));
    assert_eq!(machine.pixel(62, 31), Some(1));
    assert_eq!(machine.pixel(63, 31), Some(0));
    let lit: usize = machine.pixels().iter().map(|&p| p as usize).sum();
    assert_eq!(lit, 3);
    // nothing wrapped to the left edge or the top
    assert_eq!(machine.pixel(0, 30), Some(0));
    assert_eq!(machine.pixel(0, 31), Some(0));
    assert_eq!(machine.pixel(62, 0), Some(0));
    assert_eq!(machine.pixel(0, 0), Some(0));
}

#[test]
fn draw_off_screen_changes_nothing() {
    let mut machine = Chip8::new();
    run_words(&mut machine, &[0x6140, 0x6200, 0x6300, 0xF329, 0xD125]);
    assert!(machine.pixels().iter().all(|&p| p == 0));
    assert_eq!(machine.registers()[0xF], 0);
    assert!(machine.drew());
}

#[test]
fn draw_outside_memory_fails_whole() {
    let mut machine = Chip8::new();
    run_words(&mut machine, &[0xAFFE, 0x6F07]);
    assert_eq!(machine.execute(0xD003, None), Err(Error::OutOfBounds));
    assert_eq!(machine.registers()[0xF], 7);
    assert!(!machine.drew());
    assert_eq!(machine.execute(0xD002, None), Ok(Signal::Redraw));
    assert_eq!(machine.registers()[0xF], 0);
}

#[test]
fn draw_of_no_rows_only_lowers_the_flag() {
    let mut machine = Chip8::new();
    run_words(&mut machine, &[0x6F07, 0xAFFF, 0x60FF, 0xF01E, 0xF01E]);
    assert!(machine.index() as usize > 0x1000);
    assert_eq!(machine.execute(0xD000, None), Ok(Signal::Redraw));
    assert_eq!(machine.registers()[0xF], 0);
    assert!(machine.pixels().iter().all(|&p| p == 0));
}

#[test]
fn take_drew_reads_and_lowers_the_flag() {
    let mut machine = Chip8::new();
    assert!(!machine.take_drew());
    run_words(&mut machine, &[0xD001]);
    assert!(machine.drew());
    assert!(machine.take_drew());
    assert!(!machine.drew());
    assert!(!machine.take_drew());
}

#[test]
fn step_reports_redraw() {
    let mut machine = machine_with(&[0x60, 0x00, 0xD0, 0x01]);
    assert!(!machine.step(None));
    assert!(machine.step(None));
}

#[test]
fn random_takes_the_given_byte_under_the_mask() {
    let mut machine = Chip8::new();
    assert_eq!(machine.execute_with(0xC10F, None, 0xA5), Ok(Signal::Proceed));
    assert_eq!(machine.registers()[1], 0x05);
    assert_eq!(machine.execute_with(0xC1F0, None, 0xA5), Ok(Signal::Proceed));
    assert_eq!(machine.registers()[1], 0xA0);
    assert_eq!(machine.step_with(None, 0), false);
}

#[test]
fn random_draws_below_the_mask() {
    for _ in 0..200 {
        let mut machine = Chip8::new();
        // below 1 there is only 0
        assert_eq!(machine.execute(0xC101, None), Ok(Signal::Proceed));
        assert_eq!(machine.registers()[1], 0);
        // a byte below 0x10 has no bit in common with 0x10
        assert_eq!(machine.execute(0xC210, None), Ok(Signal::Proceed));
        assert_eq!(machine.registers()[2], 0);
        // a byte below 0xFF under the mask 0xFF is that byte
        assert_eq!(machine.execute(0xC3FF, None), Ok(Signal::Proceed));
        assert!(machine.registers()[3] < 0xFF);
        // with a mask of 0 nothing is drawn
        assert_eq!(machine.execute(0xC400, None), Ok(Signal::Proceed));
        assert_eq!(machine.registers()[4], 0);
    }
}

#[test]
fn next_random_fits_the_fetched_instruction() {
    let machine = machine_with(&[0xC1, 0x01]);
    for _ in 0..50 {
        assert_eq!(machine.next_random(), 0);
    }
    let machine = machine_with(&[0xC1, 0x08]);
    for _ in 0..50 {
        assert!(machine.next_random() < 8);
    }
    let machine = machine_with(&[0x61, 0x08]);
    assert_eq!(machine.next_random(), 0);
}

#[test]
fn random_step_stays_below_the_mask() {
    for _ in 0..50 {
        let mut machine = machine_with(&[0xC1, 0x04]);
        machine.step(None);
        assert_eq!(machine.registers()[1], 0);
        assert_eq!(machine.pc(), 0x202);
    }
}

#[test]
fn load_binary_rejects_what_does_not_fit() {
    let mut machine = Chip8::new();
    assert_eq!(machine.load_binary(vec![0xAA; 0xE00], 0x200), Ok(()));
    assert_eq!(machine.read_byte(0xFFF), Ok(0xAA));
    let mut machine = Chip8::new();
    assert_eq!(machine.load_binary(vec![0xAA; 0xE01], 0x200), Err(Error::LoadTooLarge));
    assert_eq!(machine.read_byte(0x200), Ok(0x00));
    assert_eq!(machine.read_byte(0xFFF), Ok(0x00));
    assert_eq!(machine.load_binary(vec![1], 0x1000), Err(Error::LoadTooLarge));
    assert_eq!(machine.load_binary(vec![], 0x1000), Ok(()));
    assert_eq!(machine.load_binary(vec![], 0x1001), Err(Error::LoadTooLarge));
    assert_eq!(machine.load_binary(vec![1], usize::MAX), Err(Error::LoadTooLarge));
}

#[test]
fn read_byte_outside_memory_is_out_of_bounds() {
    let machine = Chip8::new();
    assert_eq!(machine.read_byte(0x1000), Err(Error::OutOfBounds));
    assert_eq!(machine.pixel(64, 0), None);
    assert_eq!(machine.pixel(0, 32), None);
}

#[test]
fn tick_counts_both_timers_down_to_zero() {
    let mut machine = Chip8::new();
    run_words(&mut machine, &[0x610A, 0xF115, 0x6102, 0xF118]);
    assert!(!machine.tick(0));
    assert_eq!(machine.delay_timer(), 10);
    assert!(machine.tick(1));
    assert_eq!(machine.delay_timer(), 9);
    assert_eq!(machine.sound_timer(), 1);
    assert!(machine.tick(5));
    assert_eq!(machine.delay_timer(), 4);
    assert_eq!(machine.sound_timer(), 0);
    assert!(!machine.tick(1));
    assert!(!machine.tick(u64::MAX));
    assert_eq!(machine.delay_timer(), 0);
    assert_eq!(machine.sound_timer(), 0);
}

#[test]
fn next_random_is_zero_where_nothing_is_drawn() {
    // no instruction in memory draws
    assert_eq!(Chip8::new().next_random(), 0);
    // the random instruction with a mask of 0
    let machine = machine_with(&[0xC1, 0x00]);
    for _ in 0..50 {
        assert_eq!(machine.next_random(), 0);
    }
    // a machine that waits for a key, though a random instruction follows
    let mut machine = machine_with(&[0xF0, 0x0A, 0xC1, 0xFF]);
    machine.step(None);
    assert_eq!(machine.state(), State::WaitingForKey(0));
    for _ in 0..50 {
        assert_eq!(machine.next_random(), 0);
    }
    // a halted machine
    let mut machine = machine_with(&[0x00, 0xEE]);
    machine.step(None);
    assert_eq!(machine.next_random(), 0);
    // a program counter at the last byte of memory
    let mut machine = machine_with(&[0x1F, 0xFF]);
    machine.step(None);
    assert_eq!(machine.next_random(), 0);
}
