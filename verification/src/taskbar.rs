//! Where minimized windows go: a grid of fixed-size chips that fills rows
//! from the bottom-left corner of the screen, left to right, then upwards.
//!
//! Every screen has a taskbar: one that is too narrow for a single chip
//! with its margins still takes one chip per row.

use vstd::prelude::*;
use crate::geometry::{max_int, Vec2, PIXEL_LIMIT};
use crate::metrics::{TASKBAR_CHIP_HEIGHT, TASKBAR_CHIP_WIDTH, TASKBAR_MARGIN};

verus! {

/// How many chips go side by side on a screen of the given width: as
/// many as fit with their margins, and one at least.
pub open spec fn chips_per_row(screen_width: int) -> int {
    max_int(1, (screen_width - TASKBAR_MARGIN) / (TASKBAR_CHIP_WIDTH + TASKBAR_MARGIN))
}

/// Row of a slot, counted from the bottom.
pub open spec fn slot_row(slot: int, screen_width: int) -> int {
    slot / chips_per_row(screen_width)
}

/// Column of a slot, counted from the left.
pub open spec fn slot_column(slot: int, screen_width: int) -> int {
    slot % chips_per_row(screen_width)
}

/// Left edge of the chip in `slot`.
pub open spec fn slot_x(slot: int, screen_width: int) -> int {
    TASKBAR_MARGIN + slot_column(slot, screen_width) * (TASKBAR_CHIP_WIDTH + TASKBAR_MARGIN)
}

/// Top edge of the chip in `slot`.
pub open spec fn slot_y(slot: int, screen: Vec2) -> int {
    screen.y - TASKBAR_CHIP_HEIGHT - TASKBAR_MARGIN - slot_row(slot, screen.x as int) * (
    TASKBAR_CHIP_HEIGHT + TASKBAR_MARGIN)
}

/// The chip in `slot` lies at a place that a stored coordinate can name.
pub open spec fn chip_in_range(slot: int, screen: Vec2) -> bool {
    &&& slot_x(slot, screen.x as int) <= PIXEL_LIMIT
    &&& -PIXEL_LIMIT <= slot_y(slot, screen) <= PIXEL_LIMIT
}

/// Top-left corner of the chip in `slot`, if it can be named.
pub open spec fn chip_position(slot: int, screen: Vec2) -> Option<Vec2> {
    if chip_in_range(slot, screen) {
        Some(Vec2 { x: slot_x(slot, screen.x as int) as i32, y: slot_y(slot, screen) as i32 })
    } else {
        None
    }
}

/// Top-left corner of the chip in `slot` on a screen of the given size;
/// nothing where that corner lies outside the range of stored
/// coordinates, as it does for a slot millions of rows up.
pub fn calculate_minimize_position(slot: usize, screen_width: i32, screen_height: i32) -> (p:
    Option<Vec2>)
    ensures
        p == chip_position(slot as int, Vec2 { x: screen_width, y: screen_height }),
{
    let room: i64 = screen_width as i64 - TASKBAR_MARGIN as i64;
    let step: i64 = TASKBAR_CHIP_WIDTH as i64 + TASKBAR_MARGIN as i64;
    let per_row: i64 = if room >= step {
        room / step
    } else {
        1
    };
    proof {
        lemma_chips_per_row(screen_width as int);
    }
    let per_row_u: usize = per_row as usize;
    let row: usize = slot / per_row_u;
    let col: usize = slot % per_row_u;
    assert(chips_per_row(screen_width as int) == per_row);
    assert(slot_row(slot as int, screen_width as int) == row);
    assert(slot_column(slot as int, screen_width as int) == col);
    assert(slot_y(slot as int, Vec2 { x: screen_width, y: screen_height }) == screen_height - 35
        - row * 35);
    assert(slot_x(slot as int, screen_width as int) == 5 + col * 205);
    if row > 134_217_728 {
        return None;
    }
    let x: i64 = TASKBAR_MARGIN as i64 + col as i64 * step;
    let y: i64 = screen_height as i64 - (TASKBAR_CHIP_HEIGHT as i64 + TASKBAR_MARGIN as i64)
        - row as i64 * (TASKBAR_CHIP_HEIGHT as i64 + TASKBAR_MARGIN as i64);
    if x > PIXEL_LIMIT as i64 || y < -(PIXEL_LIMIT as i64) || y > PIXEL_LIMIT as i64 {
        return None;
    }
    Some(Vec2 { x: x as i32, y: y as i32 })
}

/// At least one chip goes in a row, never more than the width has room
/// for, and on a screen that has room for one chip exactly as many as
/// fit.
pub proof fn lemma_chips_per_row(screen_width: int)
    ensures
        chips_per_row(screen_width) >= 1,
        screen_width - 5 >= 205 ==> chips_per_row(screen_width) == (screen_width - 5) / 205
            && chips_per_row(screen_width) * 205 <= screen_width - 5,
        screen_width - 5 < 205 ==> chips_per_row(screen_width) == 1,
{
    let n = screen_width - 5;
    vstd::arithmetic::div_mod::lemma_fundamental_div_mod(n, 205);
    vstd::arithmetic::div_mod::lemma_mod_bound(n, 205);
    if n >= 205 {
        assert(n / 205 >= 1) by (nonlinear_arith)
            requires
                n == 205 * (n / 205) + n % 205,
                0 <= n % 205 < 205,
                n >= 205,
        ;
    } else {
        assert(n / 205 <= 0) by (nonlinear_arith)
            requires
                n == 205 * (n / 205) + n % 205,
                0 <= n % 205 < 205,
                n < 205,
        ;
    }
}

/// On a screen with room for one chip, every chip lies within the width
/// of the screen, a margin away from both sides.
pub proof fn lemma_chip_within_row(slot: int, screen_width: int)
    requires
        0 <= slot,
        screen_width >= TASKBAR_CHIP_WIDTH + 2 * TASKBAR_MARGIN,
    ensures
        TASKBAR_MARGIN <= slot_x(slot, screen_width),
        slot_x(slot, screen_width) + TASKBAR_CHIP_WIDTH + TASKBAR_MARGIN <= screen_width,
{
    lemma_chips_per_row(screen_width);
    let n = chips_per_row(screen_width);
    let col = slot % n;
    vstd::arithmetic::div_mod::lemma_mod_bound(slot, n);
    assert(0 <= col * 205 <= (n - 1) * 205) by (nonlinear_arith)
        requires
            0 <= col < n,
    ;
}

/// The chips of low slots can always be named: on a screen of supported
/// size, every slot whose row lies within the pixel range has a position.
pub proof fn lemma_low_slots_in_range(slot: int, screen: Vec2)
    requires
        screen.is_extent(),
        0 <= slot,
        slot * 35 <= PIXEL_LIMIT - 35,
    ensures
        chip_in_range(slot, screen),
{
    lemma_chips_per_row(screen.x as int);
    let n = chips_per_row(screen.x as int);
    vstd::arithmetic::div_mod::lemma_fundamental_div_mod(slot, n);
    vstd::arithmetic::div_mod::lemma_mod_bound(slot, n);
    let row = slot / n;
    let col = slot % n;
    assert(0 <= row <= slot) by (nonlinear_arith)
        requires
            slot == n * row + col,
            0 <= col < n,
            n >= 1,
            slot >= 0,
    ;
    if screen.x - 5 >= 205 {
        lemma_chip_within_row(slot, screen.x as int);
    }
}

/// The chips of distinct slots never overlap: they lie a whole chip and
/// margin apart, either side by side or one above the other.
pub proof fn lemma_slots_apart(a: int, b: int, screen: Vec2)
    requires
        0 <= a,
        0 <= b,
        a != b,
    ensures
        slot_x(a, screen.x as int) - slot_x(b, screen.x as int) >= TASKBAR_CHIP_WIDTH
            + TASKBAR_MARGIN || slot_x(b, screen.x as int) - slot_x(a, screen.x as int)
            >= TASKBAR_CHIP_WIDTH + TASKBAR_MARGIN || slot_y(a, screen) - slot_y(b, screen)
            >= TASKBAR_CHIP_HEIGHT + TASKBAR_MARGIN || slot_y(b, screen) - slot_y(a, screen)
            >= TASKBAR_CHIP_HEIGHT + TASKBAR_MARGIN,
{
    lemma_chips_per_row(screen.x as int);
    let n = chips_per_row(screen.x as int);
    vstd::arithmetic::div_mod::lemma_fundamental_div_mod(a, n);
    vstd::arithmetic::div_mod::lemma_fundamental_div_mod(b, n);
    let (ca, cb, ra, rb) = (a % n, b % n, a / n, b / n);
    if ca != cb {
        assert(ca * 205 - cb * 205 >= 205 || cb * 205 - ca * 205 >= 205) by (nonlinear_arith)
            requires
                ca != cb,
        ;
    } else {
        assert(ra != rb) by (nonlinear_arith)
            requires
                a == n * ra + ca,
                b == n * rb + cb,
                ca == cb,
                a != b,
        ;
        assert(ra * 35 - rb * 35 >= 35 || rb * 35 - ra * 35 >= 35) by (nonlinear_arith)
            requires
                ra != rb,
        ;
    }
}

} // verus!
