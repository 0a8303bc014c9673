//! Properties of the machine that relate several operations or hold
//! of every state, stated over the specification functions of
//! [`crate::machine`] and [`crate::screen`] and proved for all
//! inputs.

use crate::machine::{
    op_hi, op_nn, op_nnn, op_x, op_y, spec_execute, spec_fatal, spec_tick, FatalError,
    MachineV,
};
use crate::screen::{
    blank_screen, col_off, draw_row_screen, lemma_col_off, row_bit, spec_draw,
};
use vstd::arithmetic::div_mod::{
    lemma_fundamental_div_mod_converse, lemma_mod_bound, lemma_small_mod,
};
use vstd::prelude::*;
use vstd::wrapping::u16_specs;

verus! {

/// Loading an immediate stores exactly that byte: after any opcode of
/// the load-immediate family runs, the named register holds the
/// immediate unmodified — no sign extension, no masking — and the
/// program counter moved one instruction width.
pub proof fn lemma_load_immediate(m: MachineV, op: u16, rnd: u8)
    requires
        m.wf(),
        op_hi(op) == 6,
    ensures
        spec_execute(m, op, rnd).v[op_x(op)] == op_nn(op),
        spec_execute(m, op, rnd).pc == u16_specs::wrapping_add(m.pc, 2),
{
}

/// Which opcodes are conditional skips.
pub open spec fn is_skip(op: u16) -> bool {
    ||| op_hi(op) == 3
    ||| op_hi(op) == 4
    ||| op_hi(op) == 5
    ||| op_hi(op) == 9
    ||| op_hi(op) == 0xE && (op_nn(op) == 0x9E || op_nn(op) == 0xA1)
}

/// The condition a conditional-skip opcode tests on state `m`.
pub open spec fn skip_cond(m: MachineV, op: u16) -> bool {
    if op_hi(op) == 3 {
        m.v[op_x(op)] == op_nn(op)
    } else if op_hi(op) == 4 {
        m.v[op_x(op)] != op_nn(op)
    } else if op_hi(op) == 5 {
        m.v[op_x(op)] == m.v[op_y(op)]
    } else if op_hi(op) == 9 {
        m.v[op_x(op)] != m.v[op_y(op)]
    } else if op_nn(op) == 0x9E {
        m.keys[m.v[op_x(op)] as int % 16]
    } else {
        !m.keys[m.v[op_x(op)] as int % 16]
    }
}

/// A conditional skip advances the program counter by exactly one
/// extra instruction width when its condition holds, by the normal
/// single width otherwise, and changes nothing else.
pub proof fn lemma_skip_advance(m: MachineV, op: u16, rnd: u8)
    requires
        m.wf(),
        is_skip(op),
    ensures
        spec_execute(m, op, rnd).pc == u16_specs::wrapping_add(
            m.pc,
            if skip_cond(m, op) {
                4
            } else {
                2
            },
        ),
        spec_execute(m, op, rnd) == (MachineV { pc: spec_execute(m, op, rnd).pc, ..m }),
{
}

/// A call pushes the address of the instruction after the call site
/// and a return pops it: calling from `pc = P` and then returning
/// leaves the counter at `P` plus one instruction width, with stack
/// pointer, registers, memory, screen, timers and keys as before the
/// call.
pub proof fn lemma_call_return(m: MachineV, op: u16, rnd1: u8, rnd2: u8)
    requires
        m.wf(),
        op_hi(op) == 2,
        m.sp < 16,
    ensures
        ({
            let called = spec_execute(m, op, rnd1);
            let returned = spec_execute(called, 0x00EE, rnd2);
            &&& called.pc == op_nnn(op)
            &&& called.sp == m.sp + 1
            &&& returned.pc == u16_specs::wrapping_add(m.pc, 2)
            &&& returned.sp == m.sp
            &&& returned.v == m.v
            &&& returned.memory == m.memory
            &&& returned.screen == m.screen
            &&& returned.delay == m.delay
            &&& returned.sound == m.sound
            &&& returned.keys == m.keys
        }),
{
}

/// The stack faults are fatal exactly as documented: a return on an
/// empty stack surfaces stack underflow, a call on a full stack
/// surfaces stack overflow, and nothing else is fatal at the
/// decode-execute stage. (That a fatal step leaves every part of the
/// state untouched is the error clause of [`crate::machine::Chip8::step`].)
pub proof fn lemma_stack_faults(m: MachineV, op: u16)
    requires
        m.wf(),
    ensures
        spec_fatal(m, op) == Some(FatalError::StackUnderflow) <==> (op_hi(op) == 0 && op_nn(op)
            == 0xEE && m.sp == 0),
        spec_fatal(m, op) == Some(FatalError::StackOverflow) <==> (op_hi(op) == 2 && m.sp >= 16),
        spec_fatal(m, op) is Some ==> (op_hi(op) == 0 && op_nn(op) == 0xEE && m.sp == 0) || (op_hi(
            op,
        ) == 2 && m.sp >= 16),
{
}

/// Every instruction family but the random mask is deterministic:
/// the byte drawn from the random source does not influence the
/// resulting state, so the existential in the step contracts
/// collapses to a single outcome for those opcodes.
pub proof fn lemma_execute_ignores_random(m: MachineV, op: u16, rnd1: u8, rnd2: u8)
    requires
        m.wf(),
        op_hi(op) != 0xC,
    ensures
        spec_execute(m, op, rnd1) == spec_execute(m, op, rnd2),
{
}

/// Timer decay: one tick decrements each positive timer by one,
/// leaves a zero timer at zero, and never moves a timer upward — so
/// repeated ticks never go below zero and never wrap.
pub proof fn lemma_tick_decay(m: MachineV)
    ensures
        m.delay > 0 ==> spec_tick(m).delay == m.delay - 1,
        m.delay == 0 ==> spec_tick(m).delay == 0,
        m.sound > 0 ==> spec_tick(m).sound == m.sound - 1,
        m.sound == 0 ==> spec_tick(m).sound == 0,
        spec_tick(m).delay <= m.delay,
        spec_tick(m).sound <= m.sound,
{
}

/// Drawing a one-row, all-bits-set sprite on a blank screen lights
/// its eight wrapped pixels and reports no collision; drawing the
/// same sprite again at the same coordinates erases the screen back
/// to blank and reports the collision.
pub proof fn lemma_draw_twice_cancels(memory: Seq<u8>, index: int, x0: int, y0: int)
    requires
        memory.len() == 4096,
        0 <= index,
        0 <= x0 < 64,
        0 <= y0 < 32,
        memory[index % 4096] == 0xFF,
    ensures
        ({
            let first = spec_draw(blank_screen(), memory, index, x0, y0, 1);
            let second = spec_draw(first.0, memory, index, x0, y0, 1);
            &&& !first.1
            &&& forall|j: int| 0 <= j < 8 ==> first.0[y0 * 64 + #[trigger] ((x0 + j) % 64)]
            &&& second.1
            &&& second.0 == blank_screen()
        }),
{
    reveal_with_fuel(spec_draw, 2);
    lemma_small_mod(y0 as nat, 32);
    let b = memory[index % 4096];
    assert forall|j: int| 0 <= j < 8 implies row_bit(b, j) by {
        let s = (7 - j) as u8;
        assert((0xFFu8 >> s) & 1 == 1) by (bit_vector)
            requires
                s < 8,
        ;
    }
    let first = spec_draw(blank_screen(), memory, index, x0, y0, 1);
    assert(first.0 == draw_row_screen(blank_screen(), b, x0, y0));
    assert(!first.1) by {
        assert forall|j: int| 0 <= j < 8 implies !blank_screen()[y0 * 64 + #[trigger] ((x0 + j)
            % 64)] by {
            lemma_mod_bound(x0 + j, 64);
        }
    }
    assert forall|j: int| 0 <= j < 8 implies first.0[y0 * 64 + #[trigger] ((x0 + j) % 64)] by {
        lemma_col_off(x0, j);
        let c = (x0 + j) % 64;
        let p = y0 * 64 + c;
        lemma_fundamental_div_mod_converse(p, 64, y0, c);
        assert(first.0[p] == blank_screen()[p] ^ row_bit(b, j));
    }
    let second = spec_draw(first.0, memory, index, x0, y0, 1);
    assert(second.1) by {
        lemma_col_off(x0, 0);
        assert(row_bit(b, 0) && first.0[y0 * 64 + (x0 + 0) % 64]);
    }
    assert(second.0 =~= blank_screen()) by {
        assert forall|p: int| 0 <= p < 2048 implies second.0[p] == blank_screen()[p] by {
            if p / 64 == y0 && col_off(x0, p % 64) < 8 {
                assert(second.0[p] == first.0[p] ^ row_bit(b, col_off(x0, p % 64)));
                assert(first.0[p] == blank_screen()[p] ^ row_bit(b, col_off(x0, p % 64)));
            }
        }
    }
}

/// Per-pixel wraparound at the right edge: a sprite row drawn at the
/// last column puts its second pixel in column zero of the same row.
pub proof fn lemma_draw_wraps_column(screen: Seq<bool>, b: u8, py: int)
    requires
        screen.len() == 2048,
        0 <= py < 32,
    ensures
        draw_row_screen(screen, b, 63, py)[py * 64] == screen[py * 64] ^ row_bit(b, 1),
{
    let p = py * 64;
    lemma_fundamental_div_mod_converse(p, 64, py, 0);
    lemma_small_mod(1, 64);
    assert(col_off(63, 0) == 1);
}

} // verus!

