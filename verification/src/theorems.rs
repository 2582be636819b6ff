//! What holds of the machine whatever program it runs, proved from the
//! model of its instructions and cycles.

use vstd::prelude::*;
use crate::display::{blank, collides, covers, drawn, hits, is_grid};
use crate::error::Error;
use crate::memory::word_at;
use crate::model::{
    execute_spec, idle, run_spec, step_spec, ticked, Signal, Snapshot, State,
};
use crate::opcode::{n_of, nn_of, nnn_of, op_of, x_of, y_of};
use crate::{RAM_SIZE, STACK_SIZE, VRAM_SIZE};

verus! {

/// Adding an immediate (`7xnn`) leaves the sum modulo 256 in the target
/// register and touches nothing else; in particular the flag register keeps
/// its value unless it is the target.
pub proof fn add_immediate_wraps(s: Snapshot, word: u16, key: Option<u8>, random: u8)
    requires
        s.wf(),
        op_of(word) == 0x7,
    ensures
        ({
            let x = x_of(word);
            let nn = nn_of(word);
            let (t, result) = execute_spec(s, word, key, random);
            &&& result == Ok::<Signal, Error>(Signal::Proceed)
            &&& t.v(x) == (s.v(x) + nn) % 256
            &&& x != 0xF ==> t.v(0xF) == s.v(0xF)
            &&& t == s.with_register(x, t.v(x))
        }),
{
}

/// Adding a register (`8xy4`) leaves the sum modulo 256 in the target
/// register. Unless the flag register is the target, it holds 1 if the sum
/// did not fit into 8 bits and 0 if it did.
pub proof fn add_register_carries(s: Snapshot, word: u16, key: Option<u8>, random: u8)
    requires
        s.wf(),
        op_of(word) == 0x8,
        n_of(word) == 0x4,
    ensures
        ({
            let x = x_of(word);
            let y = y_of(word);
            let (t, result) = execute_spec(s, word, key, random);
            &&& result == Ok::<Signal, Error>(Signal::Proceed)
            &&& t.v(x) == (s.v(x) + s.v(y)) % 256
            &&& x != 0xF ==> (t.v(0xF) == 1 <==> s.v(x) + s.v(y) >= 256)
            &&& x != 0xF ==> (t.v(0xF) == 0 <==> s.v(x) + s.v(y) < 256)
        }),
{
}

/// Subtracting a register (`8xy5`) leaves the difference modulo 256 in the
/// target register. Unless the flag register is the target, it holds 1 if
/// the target was above the subtrahend before the subtraction and 0 if not.
pub proof fn subtract_register_flags(s: Snapshot, word: u16, key: Option<u8>, random: u8)
    requires
        s.wf(),
        op_of(word) == 0x8,
        n_of(word) == 0x5,
    ensures
        ({
            let x = x_of(word);
            let y = y_of(word);
            let (t, result) = execute_spec(s, word, key, random);
            &&& result == Ok::<Signal, Error>(Signal::Proceed)
            &&& t.v(x) == (s.v(x) - s.v(y)) % 256
            &&& x != 0xF ==> (t.v(0xF) == 1 <==> s.v(x) > s.v(y))
            &&& x != 0xF ==> (t.v(0xF) == 0 <==> s.v(x) <= s.v(y))
        }),
{
}

/// After clearing the screen (`00E0`) every pixel is off.
pub proof fn clear_screen_blanks(s: Snapshot, word: u16, key: Option<u8>, random: u8)
    requires
        s.wf(),
        op_of(word) == 0x0,
        nn_of(word) == 0xE0,
    ensures
        ({
            let (t, result) = execute_spec(s, word, key, random);
            &&& result == Ok::<Signal, Error>(Signal::Proceed)
            &&& t.pixels == blank()
            &&& forall|k: int| 0 <= k < VRAM_SIZE ==> t.pixels[k] == 0
        }),
{
}

/// A call (`2nnn`) followed by a return (`00EE`) leaves the machine as it
/// was before the call: the program counter is back at the instruction
/// after the call and the stack has its depth and contents of before.
pub proof fn call_then_return_restores(
    s: Snapshot,
    call: u16,
    ret: u16,
    key: Option<u8>,
    random: u8,
)
    requires
        s.wf(),
        s.stack.len() < STACK_SIZE,
        op_of(call) == 0x2,
        op_of(ret) == 0x0,
        nn_of(ret) == 0xEE,
    ensures
        ({
            let (t, called) = execute_spec(s, call, key, random);
            let (u, returned) = execute_spec(t, ret, key, random);
            &&& called == Ok::<Signal, Error>(Signal::Proceed)
            &&& t.pc == nnn_of(call)
            &&& t.stack.len() == s.stack.len() + 1
            &&& returned == Ok::<Signal, Error>(Signal::Proceed)
            &&& u.pc == s.pc
            &&& u.stack == s.stack
            &&& u == s
        }),
{
    let (t, called) = execute_spec(s, call, key, random);
    let (u, returned) = execute_spec(t, ret, key, random);
    assert(t.stack.drop_last() =~= s.stack);
    assert(u =~= s);
}

/// The same, told of two machine cycles: where a running machine fetches a
/// call to a subroutine that starts with a return, two cycles later it
/// stands at the instruction after the call, its stack as before.
pub proof fn call_and_return_cycles(s: Snapshot, key: Option<u8>, r1: u8, r2: u8)
    requires
        s.wf(),
        s.state is Running,
        s.stack.len() < STACK_SIZE,
        s.pc + 1 < RAM_SIZE,
        op_of(word_at(s.memory, s.pc as int) as u16) == 0x2,
        nnn_of(word_at(s.memory, s.pc as int) as u16) + 1 < RAM_SIZE,
        word_at(s.memory, nnn_of(word_at(s.memory, s.pc as int) as u16) as int) == 0x00EE,
    ensures
        ({
            let t = step_spec(s, key, r1).0;
            let u = step_spec(t, key, r2).0;
            &&& t.pc == nnn_of(word_at(s.memory, s.pc as int) as u16)
            &&& t.stack.len() == s.stack.len() + 1
            &&& u.pc == s.pc + 2
            &&& u.stack == s.stack
            &&& u.state is Running
        }),
{
    let t = step_spec(s, key, r1).0;
    let u = step_spec(t, key, r2).0;
    assert(t.stack.drop_last() =~= s.stack);
}

/// A call succeeds exactly if the stack holds fewer than its capacity of
/// addresses, and then adds one. On a full stack it fails with
/// `StackOverflow` and changes nothing.
pub proof fn call_overflows_when_full(s: Snapshot, word: u16, key: Option<u8>, random: u8)
    requires
        s.wf(),
        op_of(word) == 0x2,
    ensures
        ({
            let (t, result) = execute_spec(s, word, key, random);
            &&& s.stack.len() < STACK_SIZE ==> result is Ok && t.stack.len() == s.stack.len() + 1
            &&& s.stack.len() == STACK_SIZE ==> result == Err::<Signal, Error>(
                Error::StackOverflow,
            ) && t == s
        }),
{
}

/// The state after the calls `calls`, one after the other, for as long as
/// they succeed.
pub open spec fn after_calls(s: Snapshot, calls: Seq<u16>) -> Snapshot
    decreases calls.len(),
{
    if calls.len() == 0 {
        s
    } else {
        execute_spec(after_calls(s, calls.drop_last()), calls.last(), None, 0).0
    }
}

/// Calls without a return in between fill the stack one by one: after `n`
/// calls on an empty stack, `n` up to its capacity, the stack holds `n`
/// addresses.
pub proof fn calls_fill_the_stack(s: Snapshot, calls: Seq<u16>)
    requires
        s.wf(),
        s.stack.len() == 0,
        calls.len() <= STACK_SIZE,
        forall|k: int| 0 <= k < calls.len() ==> op_of(#[trigger] calls[k]) == 0x2,
    ensures
        after_calls(s, calls).wf(),
        after_calls(s, calls).stack.len() == calls.len(),
    decreases calls.len(),
{
    if calls.len() > 0 {
        calls_fill_the_stack(s, calls.drop_last());
        call_overflows_when_full(after_calls(s, calls.drop_last()), calls.last(), None, 0);
    }
}

/// Of seventeen calls without a return, made on an empty stack, the first
/// sixteen succeed and the seventeenth fails with `StackOverflow`.
pub proof fn seventeenth_call_overflows(s: Snapshot, calls: Seq<u16>)
    requires
        s.wf(),
        s.stack.len() == 0,
        calls.len() == STACK_SIZE + 1,
        forall|k: int| 0 <= k < calls.len() ==> op_of(#[trigger] calls[k]) == 0x2,
    ensures
        forall|k: int|
            0 <= k < STACK_SIZE ==> (#[trigger] execute_spec(
                after_calls(s, calls.take(k)),
                calls[k],
                None,
                0,
            )).1 is Ok,
        execute_spec(after_calls(s, calls.take(STACK_SIZE as int)), calls[STACK_SIZE as int], None, 0).1
            == Err::<Signal, Error>(Error::StackOverflow),
{
    assert forall|k: int| 0 <= k <= STACK_SIZE implies (#[trigger] after_calls(
        s,
        calls.take(k),
    )).wf() && after_calls(s, calls.take(k)).stack.len() == k by {
        calls_fill_the_stack(s, calls.take(k));
    }
    assert forall|k: int| 0 <= k < STACK_SIZE implies (#[trigger] execute_spec(
        after_calls(s, calls.take(k)),
        calls[k],
        None,
        0,
    )).1 is Ok by {
        assert(after_calls(s, calls.take(k)).wf());
        call_overflows_when_full(after_calls(s, calls.take(k)), calls[k], None, 0);
    }
    assert(after_calls(s, calls.take(STACK_SIZE as int)).wf());
    call_overflows_when_full(
        after_calls(s, calls.take(STACK_SIZE as int)),
        calls[STACK_SIZE as int],
        None,
        0,
    );
}

/// Drawing a sprite twice at the same place gives back the buffer of
/// before: XOR undoes itself.
pub proof fn draw_twice_restores(pixels: Seq<u8>, sprite: Seq<u8>, x0: int, y0: int)
    requires
        is_grid(pixels),
    ensures
        is_grid(drawn(pixels, sprite, x0, y0)),
        drawn(drawn(pixels, sprite, x0, y0), sprite, x0, y0) == pixels,
{
    assert(drawn(drawn(pixels, sprite, x0, y0), sprite, x0, y0) =~= pixels);
}

/// Whether a draw reports a collision depends on nothing but the pixels
/// that were on before it: the second of two draws of one sprite at one
/// place collides exactly if the sprite covers a pixel that was off before
/// the first.
pub proof fn second_draw_collides_on_unlit(pixels: Seq<u8>, sprite: Seq<u8>, x0: int, y0: int)
    requires
        is_grid(pixels),
    ensures
        collides(drawn(pixels, sprite, x0, y0), sprite, x0, y0) <==> exists|k: int|
            0 <= k < pixels.len() && #[trigger] covers(sprite, x0, y0, k) && pixels[k] == 0,
{
    let once = drawn(pixels, sprite, x0, y0);
    if collides(once, sprite, x0, y0) {
        let k = choose|k: int| 0 <= k < once.len() && #[trigger] hits(once, sprite, x0, y0, k);
        assert(covers(sprite, x0, y0, k) && pixels[k] == 0);
    }
    if exists|k: int| 0 <= k < pixels.len() && #[trigger] covers(sprite, x0, y0, k) && pixels[k] == 0 {
        let k = choose|k: int|
            0 <= k < pixels.len() && #[trigger] covers(sprite, x0, y0, k) && pixels[k] == 0;
        assert(hits(once, sprite, x0, y0, k));
    }
}

/// The draw instruction (`Dxyn`) executed twice, with neither coordinate
/// taken from the flag register, gives back the display buffer of before.
/// After each of the two the flag register holds 1 if the draw turned a
/// pixel off that was on just before it, and 0 if not.
pub proof fn draw_instruction_twice_restores(
    s: Snapshot,
    word: u16,
    key: Option<u8>,
    r1: u8,
    r2: u8,
)
    requires
        s.wf(),
        op_of(word) == 0xD,
        x_of(word) != 0xF,
        y_of(word) != 0xF,
        n_of(word) == 0 || s.index + n_of(word) <= RAM_SIZE,
    ensures
        ({
            let x = x_of(word);
            let y = y_of(word);
            let sprite = s.sprite(n_of(word));
            let (t, first) = execute_spec(s, word, key, r1);
            let (u, second) = execute_spec(t, word, key, r2);
            &&& first == Ok::<Signal, Error>(Signal::Redraw)
            &&& second == Ok::<Signal, Error>(Signal::Redraw)
            &&& t.v(0xF) == 1 <==> collides(s.pixels, sprite, s.v(x) as int, s.v(y) as int)
            &&& t.v(0xF) == 0 <==> !collides(s.pixels, sprite, s.v(x) as int, s.v(y) as int)
            &&& u.v(0xF) == 1 <==> collides(t.pixels, sprite, s.v(x) as int, s.v(y) as int)
            &&& u.pixels == s.pixels
        }),
{
    let x = x_of(word);
    let y = y_of(word);
    let sprite = s.sprite(n_of(word));
    let (t, first) = execute_spec(s, word, key, r1);
    assert(t.sprite(n_of(word)) =~= sprite);
    draw_twice_restores(s.pixels, sprite, s.v(x) as int, s.v(y) as int);
}

/// Storing the registers `V0..=Vx` (`Fx55`) and loading them back
/// (`Fx65`) gives every one of them its value of before, whatever the
/// registers held in between.
pub proof fn store_then_load_round_trips(
    s: Snapshot,
    store: u16,
    load: u16,
    cleared: Seq<u8>,
    key: Option<u8>,
    random: u8,
)
    requires
        s.wf(),
        cleared.len() == s.registers.len(),
        op_of(store) == 0xF,
        nn_of(store) == 0x55,
        op_of(load) == 0xF,
        nn_of(load) == 0x65,
        x_of(load) == x_of(store),
        s.index + x_of(store) < RAM_SIZE,
    ensures
        ({
            let (t, stored) = execute_spec(s, store, key, random);
            let (u, loaded) = execute_spec(Snapshot { registers: cleared, ..t }, load, key, random);
            &&& stored == Ok::<Signal, Error>(Signal::Proceed)
            &&& loaded == Ok::<Signal, Error>(Signal::Proceed)
            &&& forall|r: int| 0 <= r <= x_of(store) ==> u.registers[r] == s.registers[r]
            &&& forall|r: int| x_of(store) < r < 16 ==> u.registers[r] == cleared[r]
        }),
{
}

/// A halted machine stays as it is, whatever key is held down.
pub proof fn halted_is_terminal(s: Snapshot, key: Option<u8>, random: u8)
    requires
        s.state is Halted,
    ensures
        step_spec(s, key, random) == (s, false),
{
}

/// A cycle of an idle machine changes nothing, and so does any run of
/// cycles.
pub proof fn idle_stays(s: Snapshot, key: Option<u8>, randoms: Seq<u8>)
    requires
        idle(s, key),
    ensures
        run_spec(s, key, randoms) == s,
    decreases randoms.len(),
{
    if randoms.len() > 0 {
        idle_stays(s, key, randoms.drop_last());
    }
}

/// The timers count down by one per tick and stop at zero; ticks do not
/// add up to anything else than their number.
pub proof fn ticks_add_up(s: Snapshot, a: nat, b: nat)
    ensures
        ticked(ticked(s, a), b) == ticked(s, a + b),
        ticked(s, 0) == s,
        ticked(s, a).delay_timer <= s.delay_timer,
        ticked(s, a).sound_timer <= s.sound_timer,
{
}

} // verus!
