//! The display compositor: a 64x32 monochrome framebuffer stored
//! row-major as 2048 pixel states, and the exclusive-or sprite
//! blending that the draw instruction performs.

use vstd::arithmetic::div_mod::{
    lemma_fundamental_div_mod, lemma_fundamental_div_mod_converse, lemma_mod_multiples_vanish,
    lemma_small_mod,
};
use vstd::pervasive::VecAdditionalExecFns;
use vstd::prelude::*;

verus! {

/// Number of pixel columns of the display.
pub const SCREEN_WIDTH: usize = 64;

/// Number of pixel rows of the display.
pub const SCREEN_HEIGHT: usize = 32;

/// Total number of pixels; the framebuffer is row-major, so the pixel
/// at column `x` and row `y` sits at index `y * 64 + x`.
pub const SCREEN_PIXELS: usize = 2048;

/// The all-unlit framebuffer.
pub open spec fn blank_screen() -> Seq<bool> {
    Seq::new(2048, |p: int| false)
}

/// Bit `j` of a sprite row byte, counted from the most significant
/// bit: bit 0 is the leftmost pixel of the row.
pub open spec fn row_bit(b: u8, j: int) -> bool {
    (b >> ((7 - j) as u8)) & 1 == 1
}

/// The wrapped horizontal distance from start column `x0` to column
/// `c`: column `c` shows sprite bit `col_off(x0, c)` when that offset
/// is below 8.
pub open spec fn col_off(x0: int, c: int) -> int {
    (c - x0 + 64) % 64
}

/// The framebuffer after one 8-pixel sprite row is blended in at
/// column `x0` of row `py` with exclusive-or; columns wrap modulo the
/// screen width, each pixel independently.
pub open spec fn draw_row_screen(screen: Seq<bool>, b: u8, x0: int, py: int) -> Seq<bool> {
    Seq::new(2048, |p: int|
        if p / 64 == py && col_off(x0, p % 64) < 8 {
            screen[p] ^ row_bit(b, col_off(x0, p % 64))
        } else {
            screen[p]
        })
}

/// Whether blending one sprite row at column `x0` of row `py` turns a
/// lit pixel off: some set sprite bit lands on an already-lit pixel.
pub open spec fn draw_row_collision(screen: Seq<bool>, b: u8, x0: int, py: int) -> bool {
    exists|j: int| 0 <= j < 8 && row_bit(b, j) && screen[py * 64 + (x0 + j) % 64]
}

/// The framebuffer and collision flag after the first `r` rows of a
/// sprite are blended onto `screen`: row `k` is the byte at
/// `memory[(index + k) % 4096]` and lands on display row
/// `(y0 + k) % 32`; the flag is raised if any row collides.
pub open spec fn spec_draw(
    screen: Seq<bool>,
    memory: Seq<u8>,
    index: int,
    x0: int,
    y0: int,
    r: int,
) -> (Seq<bool>, bool)
    decreases r,
{
    if r <= 0 {
        (screen, false)
    } else {
        let prev = spec_draw(screen, memory, index, x0, y0, r - 1);
        let b = memory[(index + (r - 1)) % 4096];
        let py = (y0 + (r - 1)) % 32;
        (draw_row_screen(prev.0, b, x0, py), prev.1 || draw_row_collision(prev.0, b, x0, py))
    }
}

/// Each of the 8 bits of a sprite row lands on its own column: offset
/// `j` targets column `(x0 + j) % 64`, and no other column of the row
/// has that offset.
pub proof fn lemma_col_off(x0: int, j: int)
    requires
        0 <= x0 < 64,
        0 <= j < 64,
    ensures
        0 <= (x0 + j) % 64 < 64,
        col_off(x0, (x0 + j) % 64) == j,
        forall|c: int| 0 <= c < 64 && col_off(x0, c) == j ==> c == (x0 + j) % 64,
{
    if x0 + j < 64 {
        lemma_small_mod((x0 + j) as nat, 64);
        assert((x0 + j) % 64 == x0 + j);
    } else {
        lemma_mod_multiples_vanish(1, x0 + j - 64, 64);
        lemma_small_mod((x0 + j - 64) as nat, 64);
        assert((x0 + j) % 64 == x0 + j - 64);
    }
    lemma_mod_multiples_vanish(1, j, 64);
    lemma_small_mod(j as nat, 64);
    assert(col_off(x0, (x0 + j) % 64) == j);
    assert forall|c: int| 0 <= c < 64 && col_off(x0, c) == j implies c == (x0 + j) % 64 by {
        if c - x0 + 64 < 64 {
            lemma_small_mod((c - x0 + 64) as nat, 64);
        } else {
            lemma_mod_multiples_vanish(1, c - x0, 64);
            lemma_small_mod((c - x0) as nat, 64);
        }
    }
}

/// Blend one sprite row byte into the framebuffer at column `x0` of
/// row `py`, reporting whether a lit pixel was turned off.
pub fn xor_row(screen: &mut Vec<bool>, b: u8, x0: usize, py: usize) -> (col: bool)
    requires
        old(screen).len() == 2048,
        x0 < 64,
        py < 32,
    ensures
        final(screen)@ == draw_row_screen(old(screen)@, b, x0 as int, py as int),
        col == draw_row_collision(old(screen)@, b, x0 as int, py as int),
{
    let ghost s0 = screen@;
    let mut col = false;
    let mut j: usize = 0;
    while j < 8
        invariant
            screen.len() == 2048,
            x0 < 64,
            py < 32,
            j <= 8,
            forall|p: int| 0 <= p < 2048 ==> screen@[p] == (if p / 64 == py
                && col_off(x0 as int, p % 64) < j {
                s0[p] ^ row_bit(b, col_off(x0 as int, p % 64))
            } else {
                s0[p]
            }),
            col == exists|jj: int| 0 <= jj < j && row_bit(b, jj) && s0[py * 64 + (x0 + jj) % 64],
        decreases 8 - j,
    {
        let c: usize = (x0 + j) % 64;
        let idx: usize = py * 64 + c;
        proof {
            lemma_col_off(x0 as int, j as int);
            lemma_fundamental_div_mod_converse(idx as int, 64, py as int, c as int);
        }
        let bit: bool = ((b >> ((7 - j) as u8)) & 1) == 1;
        let prev: bool = screen[idx];
        assert(prev == s0[idx as int]);
        if bit && prev {
            col = true;
            assert(row_bit(b, j as int) && s0[py * 64 + (x0 + j as int) % 64]);
        }
        screen.set(idx, prev ^ bit);
        proof {
            let jn = j + 1;
            assert forall|p: int| 0 <= p < 2048 implies screen@[p] == (if p / 64 == py
                && col_off(x0 as int, p % 64) < jn {
                s0[p] ^ row_bit(b, col_off(x0 as int, p % 64))
            } else {
                s0[p]
            }) by {
                lemma_fundamental_div_mod(p, 64);
                if p != idx && p / 64 == py && col_off(x0 as int, p % 64) == j {
                    assert(p % 64 == c);
                    assert(p == idx);
                }
            }
            assert(col == exists|jj: int|
                0 <= jj < jn && row_bit(b, jj) && s0[py * 64 + (x0 + jj) % 64]) by {
                if col {
                } else {
                    assert forall|jj: int| 0 <= jj < jn implies !(row_bit(b, jj) && s0[py * 64 + (
                    x0 + jj) % 64]) by {}
                }
            }
        }
        j = j + 1;
    }
    proof {
        assert(screen@ =~= draw_row_screen(s0, b, x0 as int, py as int));
    }
    col
}

} // verus!
