//! Integer coordinate arithmetic and axis-aligned rectangles.
//!
//! Positions and sizes are measured in subpixel units (1 pixel = 1000
//! subpixels) and kept inside a fixed range, so that every position update
//! can be computed exactly in wide arithmetic and clamped back without
//! overflow.

use vstd::prelude::*;

verus! {

/// Saturating bound for all spatial coordinates, in subpixel units.
/// Every coordinate the simulation stores lies in
/// `[-COORD_LIMIT, COORD_LIMIT]`.
pub const COORD_LIMIT: i64 = 1_000_000_000_000_000;

/// Bound on sprite sizes, in subpixels: small enough that a handful of
/// stacked sprites still fits in the coordinate range.
pub const MAX_SPRITE_SIZE: i64 = 125_000_000_000_000;

/// A coordinate value the simulation may store.
pub open spec fn in_range(v: int) -> bool {
    -(COORD_LIMIT as int) <= v <= COORD_LIMIT as int
}

/// Clamp a mathematical integer into the coordinate range.
pub open spec fn clip(v: int) -> int {
    if v < -(COORD_LIMIT as int) {
        -(COORD_LIMIT as int)
    } else if v > COORD_LIMIT as int {
        COORD_LIMIT as int
    } else {
        v
    }
}

/// Clamp a non-negative integer into the `u32` range.
pub open spec fn sat_u32(v: int) -> int {
    if v > u32::MAX as int {
        u32::MAX as int
    } else {
        v
    }
}

/// Add two coordinates, clamping the result into the coordinate range.
pub fn clip_add(a: i64, b: i64) -> (r: i64)
    ensures
        r == clip(a + b),
{
    let s: i128 = a as i128 + b as i128;
    if s < -(COORD_LIMIT as i128) {
        -COORD_LIMIT
    } else if s > COORD_LIMIT as i128 {
        COORD_LIMIT
    } else {
        s as i64
    }
}

/// Multiply two coordinates, clamping the result into the coordinate range.
pub fn clip_mul(a: i64, b: i64) -> (r: i64)
    ensures
        r == clip(a * b),
{
    proof {
        assert(-0x8000_0000_0000_0000_0000_0000_0000_0000 <= (a as int) * (b as int)
            < 0x8000_0000_0000_0000_0000_0000_0000_0000) by (nonlinear_arith)
            requires
                -0x8000_0000_0000_0000 <= a < 0x8000_0000_0000_0000,
                -0x8000_0000_0000_0000 <= b < 0x8000_0000_0000_0000,
        ;
    }
    let p: i128 = a as i128 * b as i128;
    if p < -(COORD_LIMIT as i128) {
        -COORD_LIMIT
    } else if p > COORD_LIMIT as i128 {
        COORD_LIMIT
    } else {
        p as i64
    }
}

/// Add two scores, saturating at the `u32` range.
pub fn sat_add_u32(a: u32, b: u32) -> (r: u32)
    ensures
        r == sat_u32(a + b),
{
    let s: u64 = a as u64 + b as u64;
    if s > u32::MAX as u64 {
        u32::MAX
    } else {
        s as u32
    }
}

/// Multiply two scores, saturating at the `u32` range.
pub fn sat_mul_u32(a: u32, b: u32) -> (r: u32)
    ensures
        r == sat_u32(a * b),
{
    proof {
        assert(0 <= (a as int) * (b as int) < 0x1_0000_0000_0000_0000) by (nonlinear_arith)
            requires
                0 <= a < 0x1_0000_0000,
                0 <= b < 0x1_0000_0000,
        ;
    }
    let p: u64 = a as u64 * b as u64;
    if p > u32::MAX as u64 {
        u32::MAX
    } else {
        p as u32
    }
}

/// An axis-aligned rectangle: top-left corner, width and height, in
/// subpixel units.
#[derive(Clone, Copy, PartialEq, Eq, Structural, Debug)]
pub struct Rect {
    pub x: i64,
    pub y: i64,
    pub w: i64,
    pub h: i64,
}

/// Bounds under which rectangle arithmetic cannot overflow: the corner may
/// stray up to one half-size outside the coordinate range, sizes are
/// non-negative and bounded.
pub open spec fn rect_wf(r: Rect) -> bool {
    &&& -2 * (COORD_LIMIT as int) <= r.x <= 2 * (COORD_LIMIT as int)
    &&& -2 * (COORD_LIMIT as int) <= r.y <= 2 * (COORD_LIMIT as int)
    &&& 0 <= r.w <= COORD_LIMIT as int
    &&& 0 <= r.h <= COORD_LIMIT as int
}

/// The rectangle of the given size whose centre is `(cx, cy)`.
pub fn rect_from_centre(cx: i64, cy: i64, w: i64, h: i64) -> (r: Rect)
    requires
        in_range(cx as int),
        in_range(cy as int),
        0 <= w <= COORD_LIMIT,
        0 <= h <= COORD_LIMIT,
    ensures
        r.x == cx - w / 2,
        r.y == cy - h / 2,
        r.w == w,
        r.h == h,
        rect_wf(r),
{
    Rect { x: cx - w / 2, y: cy - h / 2, w, h }
}

/// Two rectangles overlap when their intersection has positive area; a
/// rectangle with zero width or height overlaps nothing.
pub open spec fn rects_overlap(a: Rect, b: Rect) -> bool {
    &&& a.w > 0
    &&& a.h > 0
    &&& b.w > 0
    &&& b.h > 0
    &&& a.x < b.x + b.w
    &&& b.x < a.x + a.w
    &&& a.y < b.y + b.h
    &&& b.y < a.y + a.h
}

pub fn overlaps(a: &Rect, b: &Rect) -> (r: bool)
    requires
        rect_wf(*a),
        rect_wf(*b),
    ensures
        r == rects_overlap(*a, *b),
{
    a.w > 0 && a.h > 0 && b.w > 0 && b.h > 0 && a.x < b.x + b.w && b.x < a.x + a.w && a.y < b.y
        + b.h && b.y < a.y + a.h
}

/// A point lies in a rectangle when it is within the left and top edges
/// inclusive and the right and bottom edges exclusive.
pub open spec fn rect_contains_point(r: Rect, px: int, py: int) -> bool {
    &&& r.x <= px < r.x + r.w
    &&& r.y <= py < r.y + r.h
}

pub fn contains_point(r: &Rect, px: i64, py: i64) -> (b: bool)
    requires
        rect_wf(*r),
        in_range(px as int),
        in_range(py as int),
    ensures
        b == rect_contains_point(*r, px as int, py as int),
{
    r.x <= px && px < r.x + r.w && r.y <= py && py < r.y + r.h
}

/// Overlap of two rectangles given by centre and size, as the simulation
/// stores its entities.
pub open spec fn centred_boxes_overlap(
    ax: int,
    ay: int,
    aw: int,
    ah: int,
    bx: int,
    by: int,
    bw: int,
    bh: int,
) -> bool {
    &&& aw > 0
    &&& ah > 0
    &&& bw > 0
    &&& bh > 0
    &&& ax - aw / 2 < (bx - bw / 2) + bw
    &&& bx - bw / 2 < (ax - aw / 2) + aw
    &&& ay - ah / 2 < (by - bh / 2) + bh
    &&& by - bh / 2 < (ay - ah / 2) + ah
}

/// Overlap of a centre-and-size box with a corner-based rectangle.
pub open spec fn centred_box_overlaps_rect(cx: int, cy: int, w: int, h: int, r: Rect) -> bool {
    &&& w > 0
    &&& h > 0
    &&& r.w > 0
    &&& r.h > 0
    &&& cx - w / 2 < r.x + r.w
    &&& r.x < (cx - w / 2) + w
    &&& cy - h / 2 < r.y + r.h
    &&& r.y < (cy - h / 2) + h
}

/// Saturating accumulation can be done step by step: clamping an
/// intermediate sum does not change the clamped total.
pub proof fn lemma_sat_u32_chain(x: int, y: int)
    requires
        0 <= x,
        0 <= y,
    ensures
        sat_u32(sat_u32(x) + y) == sat_u32(x + y),
{
}

/// A colour with 8-bit red, green and blue channels.
#[derive(Clone, Copy, PartialEq, Eq, Structural, Debug)]
pub struct Colour {
    pub red: u8,
    pub green: u8,
    pub blue: u8,
}

pub fn rgb(red: u8, green: u8, blue: u8) -> (c: Colour)
    ensures
        c == (Colour { red, green, blue }),
{
    Colour { red, green, blue }
}

} // verus!
