//! The board/screen coordinate mapper.
//!
//! Maps between board coordinates (file and rank, each `0..8`, rank 0 at
//! white's edge) and screen pixels, accounting for board orientation.  The
//! screen's y axis grows downward, so with the usual orientation rank 7 is
//! drawn at the top; flipping the board swaps which colour sits at the
//! bottom.  Screen coordinates are whole pixels.

use vstd::prelude::*;

use vstd::arithmetic::div_mod::lemma_fundamental_div_mod_converse;

verus! {

/// The column (or row) a file (or rank) is drawn at when the axis is
/// mirrored or not.
pub open spec fn flip7(mirrored: bool, c: int) -> int {
    if mirrored {
        7 - c
    } else {
        c
    }
}

/// The grid index of a pixel offset `d` within tiles of side `ts`: the
/// tile number `d / ts`, clamped onto the board (offsets left of the board
/// give 0, offsets beyond it give 7).
pub open spec fn grid_of(d: int, ts: int) -> int
    recommends
        ts >= 1,
{
    if d < 0 {
        0
    } else if d / ts > 7 {
        7
    } else {
        d / ts
    }
}

/// Where tile `(x, y)` is drawn: the top-left pixel of its screen region,
/// given the board's top-left `(ox, oy)` and the tile side `ts`.
pub open spec fn tile_origin(x: int, y: int, ox: int, oy: int, ts: int, flipped: bool) -> (
    int,
    int,
) {
    (ox + flip7(flipped, x) * ts, oy + flip7(!flipped, y) * ts)
}

/// Which tile the pixel `(px, py)` falls on, clamped to the board bounds.
pub open spec fn point_tile(px: int, py: int, ox: int, oy: int, ts: int, flipped: bool) -> (
    int,
    int,
) {
    (flip7(flipped, grid_of(px - ox, ts)), flip7(!flipped, grid_of(py - oy, ts)))
}

/// The screen region of a board tile: its top-left pixel and its side
/// length, `board_size / 8`.
pub fn tile_to_screen(x: u8, y: u8, ox: i64, oy: i64, board_size: u32, flipped: bool) -> (r: (
    i64,
    i64,
    u32,
))
    requires
        x < 8,
        y < 8,
        -0x8000_0000 <= ox <= 0x8000_0000,
        -0x8000_0000 <= oy <= 0x8000_0000,
        board_size >= 8,
    ensures
        (r.0 as int, r.1 as int) == tile_origin(
            x as int,
            y as int,
            ox as int,
            oy as int,
            (board_size / 8) as int,
            flipped,
        ),
        r.2 == board_size / 8,
{
    let ts = board_size / 8;
    let fx: u8 = if flipped {
        7 - x
    } else {
        x
    };
    let fy: u8 = if flipped {
        y
    } else {
        7 - y
    };
    proof {
        assert((fx as int) * (ts as int) <= 7 * 0x2000_0000) by (nonlinear_arith)
            requires
                fx <= 7,
                0 <= ts <= 0x2000_0000,
        ;
        assert((fy as int) * (ts as int) <= 7 * 0x2000_0000) by (nonlinear_arith)
            requires
                fy <= 7,
                0 <= ts <= 0x2000_0000,
        ;
        assert((fx as int) * (ts as int) >= 0) by (nonlinear_arith)
            requires
                fx >= 0,
                ts >= 0,
        ;
        assert((fy as int) * (ts as int) >= 0) by (nonlinear_arith)
            requires
                fy >= 0,
                ts >= 0,
        ;
    }
    let rx = ox + (fx as i64) * (ts as i64);
    let ry = oy + (fy as i64) * (ts as i64);
    (rx, ry, ts)
}

/// The board tile under a pointer position, clamped to the board bounds.
pub fn screen_to_tile(px: i64, py: i64, ox: i64, oy: i64, board_size: u32, flipped: bool) -> (r: (
    u8,
    u8,
))
    requires
        -0x8000_0000 <= px <= 0x8000_0000,
        -0x8000_0000 <= py <= 0x8000_0000,
        -0x8000_0000 <= ox <= 0x8000_0000,
        -0x8000_0000 <= oy <= 0x8000_0000,
        board_size >= 8,
    ensures
        (r.0 as int, r.1 as int) == point_tile(
            px as int,
            py as int,
            ox as int,
            oy as int,
            (board_size / 8) as int,
            flipped,
        ),
        r.0 < 8,
        r.1 < 8,
{
    let ts = board_size / 8;
    let col = grid_index(px - ox, ts);
    let row = grid_index(py - oy, ts);
    let tx: u8 = if flipped {
        7 - col
    } else {
        col
    };
    let ty: u8 = if flipped {
        row
    } else {
        7 - row
    };
    (tx, ty)
}

/// The clamped grid index of a pixel offset.
fn grid_index(d: i64, ts: u32) -> (r: u8)
    requires
        ts >= 1,
    ensures
        r as int == grid_of(d as int, ts as int),
        r < 8,
{
    if d < 0 {
        0
    } else {
        let q = (d as u64) / (ts as u64);
        if q > 7 {
            7
        } else {
            q as u8
        }
    }
}

/// The mapping round-trips: every pixel inside the screen region that
/// `tile_origin` assigns to a tile is mapped back to that same tile by
/// `point_tile`, in either orientation.
pub proof fn lemma_tile_round_trip(
    x: int,
    y: int,
    ox: int,
    oy: int,
    ts: int,
    dx: int,
    dy: int,
    flipped: bool,
)
    requires
        0 <= x < 8,
        0 <= y < 8,
        ts >= 1,
        0 <= dx < ts,
        0 <= dy < ts,
    ensures
        ({
            let o = tile_origin(x, y, ox, oy, ts, flipped);
            point_tile(o.0 + dx, o.1 + dy, ox, oy, ts, flipped) == (x, y)
        }),
{
    let fx = flip7(flipped, x);
    let fy = flip7(!flipped, y);
    lemma_fundamental_div_mod_converse(fx * ts + dx, ts, fx, dx);
    lemma_fundamental_div_mod_converse(fy * ts + dy, ts, fy, dy);
    assert((fx * ts + dx) / ts == fx);
    assert((fy * ts + dy) / ts == fy);
}

} // verus!
