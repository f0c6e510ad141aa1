use vstd::prelude::*;
use crate::decode::{decoded, Instruction};
use crate::fault::Fault;
use crate::font::{glyph_table, GLYPH_BYTES};
use crate::keypad::{latched, Input};
use crate::machine::{
    bcd_stored, booted, collides, draws_random, drawn, recognized, sprite_hits, step_result,
    ticked, transferred, word_at, Machine, STACK_DEPTH,
};

verus! {

/// The word that a step from `m` fetches.
pub open spec fn fetched(m: Machine) -> u16 {
    word_at(m.mem, m.pc as int)
}

/// Whether a step from `m` can fetch: the program counter and the byte after
/// it are inside memory.
pub open spec fn fetches(m: Machine) -> bool {
    m.pc + 1 < m.mem.len()
}

/// A step that succeeds leaves a state that the machine can be in.
pub proof fn lemma_step_keeps_wf(m: Machine, random: u8)
    requires
        m.wf(),
        step_result(m, random) is Ok,
    ensures
        step_result(m, random)->Ok_0.wf(),
{
}

/// A word that matches no defined pattern is a fault that carries the word:
/// it is never skipped. And no other word is reported so.
pub proof fn lemma_invalid_opcode(m: Machine, random: u8)
    requires
        fetches(m),
    ensures
        !recognized(decoded(fetched(m))) ==> step_result(m, random) == Err::<Machine, Fault>(
            Fault::InvalidOpcode(fetched(m)),
        ),
        forall|word: u16|
            step_result(m, random) == Err::<Machine, Fault>(Fault::InvalidOpcode(word)) ==> word
                == fetched(m) && !recognized(decoded(word)),
{
}

/// A call saves the address of the instruction after it, and a return from
/// any later state `later` in which that address is again on top of the stack
/// comes back to it, with the stack as deep as it was before the call. A
/// return that follows the call at once is the case `later == called`.
pub proof fn lemma_call_then_return(m: Machine, later: Machine, first: u8, second: u8)
    requires
        m.wf(),
        fetches(m),
        decoded(fetched(m)).class == 0x2,
        m.sp < STACK_DEPTH,
        later.wf(),
        fetches(later),
        decoded(fetched(later)).class == 0x0,
        decoded(fetched(later)).n != 0,
        later.sp == m.sp + 1,
        later.stack[m.sp as int] == m.pc + 2,
    ensures
        step_result(m, first) is Ok,
        step_result(later, second) is Ok,
        ({
            let called = step_result(m, first)->Ok_0;
            let back = step_result(later, second)->Ok_0;
            &&& called.pc == decoded(fetched(m)).nnn
            &&& called.sp == m.sp + 1
            &&& called.stack == m.stack.update(m.sp as int, (m.pc + 2) as u16)
            &&& called.regs == m.regs && called.mem == m.mem && called.gfx == m.gfx
            &&& back.pc == m.pc + 2
            &&& back.sp == m.sp
            &&& back.regs == later.regs && back.mem == later.mem && back.gfx == later.gfx
        }),
{
}

/// A call with sixteen return addresses on the stack is a stack overflow, and
/// a return with none is a stack underflow.
pub proof fn lemma_stack_bounds(m: Machine, random: u8)
    requires
        m.wf(),
        fetches(m),
    ensures
        decoded(fetched(m)).class == 0x2 && m.sp == STACK_DEPTH ==> step_result(m, random) == Err::<
            Machine,
            Fault,
        >(Fault::StackOverflow),
        decoded(fetched(m)).class == 0x0 && decoded(fetched(m)).n != 0 && m.sp == 0
            ==> step_result(m, random) == Err::<Machine, Fault>(Fault::StackUnderflow),
{
}

/// Only the random instruction reads the random byte: a step from any other
/// instruction is the same whatever the byte.
pub proof fn lemma_random_read_by_one_instruction(m: Machine, a: u8, b: u8)
    requires
        !draws_random(m),
    ensures
        step_result(m, a) == step_result(m, b),
{
}

/// A step does not tick: the timers change only where the instruction sets
/// one from a register, and after the step the tone flag says whether the
/// sound timer is above zero.
pub proof fn lemma_step_does_not_tick(m: Machine, random: u8)
    requires
        step_result(m, random) is Ok,
    ensures
        ({
            let ins = decoded(fetched(m));
            let after = step_result(m, random)->Ok_0;
            &&& !(ins.class == 0xF && ins.nn == 0x15) ==> after.delay == m.delay
            &&& !(ins.class == 0xF && ins.nn == 0x18) ==> after.sound == m.sound
            &&& after.should_beep == (after.sound > 0)
        }),
{
}

/// The redraw flag is set by the two instructions that change the display,
/// clearing and drawing, and by no other; and no other changes the display.
pub proof fn lemma_redraw_flag(m: Machine, random: u8)
    requires
        step_result(m, random) is Ok,
    ensures
        ({
            let ins = decoded(fetched(m));
            let after = step_result(m, random)->Ok_0;
            let draws = (ins.class == 0x0 && ins.n == 0) || ins.class == 0xD;
            &&& after.should_draw == draws
            &&& !draws ==> after.gfx == m.gfx
        }),
{
}

/// The program counter moves in one of four ways: to the next instruction,
/// past the next instruction, to an address in the instruction (with V0
/// added, for the jump with offset), or to the address on top of the stack.
pub proof fn lemma_pc_transitions(m: Machine, random: u8)
    requires
        m.wf(),
        step_result(m, random) is Ok,
    ensures
        ({
            let ins = decoded(fetched(m));
            let after = step_result(m, random)->Ok_0;
            ||| after.pc == m.pc + 2
            ||| after.pc == m.pc + 4
            ||| after.pc == ins.nnn
            ||| after.pc == ins.nnn + m.regs[0]
            ||| m.sp > 0 && after.pc == m.stack[m.sp - 1]
        }),
{
}

/// One cell, flipped twice, is as it was; and a cell that is 0 or 1 stays so
/// when it is flipped.
proof fn lemma_flip(cell: u8)
    by (bit_vector)
    ensures
        (cell ^ 1u8) ^ 1u8 == cell,
        cell == 0 ==> cell ^ 1u8 == 1,
        cell == 1 ==> cell ^ 1u8 == 0,
        cell ^ 1u8 == 1 ==> cell == 0,
{
}

/// Drawing a sprite twice at one place gives back the display as it was, and
/// the second drawing collides exactly where the first one lit a dark cell.
pub proof fn lemma_draw_twice(gfx: Seq<u8>, mem: Seq<u8>, i: u16, n: u8, vx: u8, vy: u8)
    ensures
        drawn(drawn(gfx, mem, i, n, vx, vy), mem, i, n, vx, vy) == gfx,
        collides(drawn(gfx, mem, i, n, vx, vy), mem, i, n, vx, vy) <==> exists|k: int|
            0 <= k < gfx.len() && sprite_hits(mem, i, n, vx, vy, k) && gfx[k] == 0,
{
    let once = drawn(gfx, mem, i, n, vx, vy);
    let twice = drawn(once, mem, i, n, vx, vy);
    assert forall|k: int| 0 <= k < gfx.len() implies twice[k] == gfx[k] by {
        lemma_flip(gfx[k]);
    }
    assert(twice =~= gfx);
    if collides(once, mem, i, n, vx, vy) {
        let k = choose|k: int|
            0 <= k < once.len() && sprite_hits(mem, i, n, vx, vy, k) && once[k] == 1;
        lemma_flip(gfx[k]);
        assert(0 <= k < gfx.len() && sprite_hits(mem, i, n, vx, vy, k) && gfx[k] == 0);
    }
    if exists|k: int| 0 <= k < gfx.len() && sprite_hits(mem, i, n, vx, vy, k) && gfx[k] == 0 {
        let k = choose|k: int|
            0 <= k < gfx.len() && sprite_hits(mem, i, n, vx, vy, k) && gfx[k] == 0;
        lemma_flip(gfx[k]);
        assert(0 <= k < once.len() && sprite_hits(mem, i, n, vx, vy, k) && once[k] == 1);
    }
}

/// A display whose cells are all 0 or 1 is still one after a step.
pub proof fn lemma_step_keeps_display_binary(m: Machine, random: u8)
    requires
        m.display_is_binary(),
        step_result(m, random) is Ok,
    ensures
        step_result(m, random)->Ok_0.display_is_binary(),
{
    let after = step_result(m, random)->Ok_0;
    assert forall|k: int| 0 <= k < after.gfx.len() implies after.gfx[k] == 0 || after.gfx[k]
        == 1 by {
        if k < m.gfx.len() {
            lemma_flip(m.gfx[k]);
        }
    }
}

/// The key latch holds a key of the keypad or none: no input puts anything
/// else into it.
pub proof fn lemma_latch_holds_a_hex_digit(held: Option<u8>, input: Input)
    requires
        held matches Some(key) ==> key <= 0xF,
    ensures
        latched(held, input) matches Some(key) ==> key <= 0xF,
{
}

/// Pointing the index register at the glyph for a hex digit finds, in a
/// machine whose low memory is as it was at power-on, the five bytes of that
/// digit's glyph.
pub proof fn lemma_glyph_address(m: Machine, ins: Instruction, row: int)
    requires
        m.wf(),
        ins.wf(),
        ins.class == 0xF,
        ins.nn == 0x29,
        m.regs[ins.x as int] <= 0xF,
        0 <= row < GLYPH_BYTES,
        forall|k: int| 0 <= k < glyph_table().len() ==> m.mem[k] == booted().mem[k],
    ensures
        transferred(m, ins).i == m.regs[ins.x as int] * GLYPH_BYTES,
        transferred(m, ins).mem[transferred(m, ins).i + row] == glyph_table()[m.regs[ins.x as int]
            * GLYPH_BYTES + row],
{
}

/// The three digits that are stored for a byte are decimal digits, and they
/// spell the byte.
pub proof fn lemma_bcd_digits(mem: Seq<u8>, i: int, value: u8)
    requires
        0 <= i,
        i + 2 < mem.len(),
    ensures
        ({
            let stored = bcd_stored(mem, i, value);
            &&& stored[i] < 10 && stored[i + 1] < 10 && stored[i + 2] < 10
            &&& stored[i] * 100 + stored[i + 1] * 10 + stored[i + 2] == value
            &&& stored.len() == mem.len()
            &&& forall|k: int| 0 <= k < mem.len() && !(i <= k <= i + 2) ==> stored[k] == mem[k]
        }),
{
}

/// The state after `n` timer ticks.
pub open spec fn ticked_times(m: Machine, n: nat) -> Machine
    decreases n,
{
    if n == 0 {
        m
    } else {
        ticked(ticked_times(m, (n - 1) as nat))
    }
}

/// After `n` ticks each timer has gone down by `n`, or to zero where it held
/// less: a timer never goes below zero. Nothing but the timers and the tone
/// flag is touched.
pub proof fn lemma_ticks(m: Machine, n: nat)
    requires
        n > 0,
    ensures
        ticked_times(m, n) == (Machine {
            delay: if m.delay >= n { (m.delay - n) as u8 } else { 0u8 },
            sound: if m.sound >= n { (m.sound - n) as u8 } else { 0u8 },
            should_beep: m.sound > n,
            ..m
        }),
    decreases n,
{
    reveal_with_fuel(ticked_times, 2);
    if n > 1 {
        lemma_ticks(m, (n - 1) as nat);
    }
}

} // verus!
