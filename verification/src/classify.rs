//! Pixel-color classification of an item's lock state.
//!
//! Two classifiers exist, one per tool variant: a nearest-palette-entry
//! classifier for a single sampled pixel, and a neighborhood scanner that
//! looks for the lock-marker color around an expected point of a captured
//! cell, tolerating sub-pixel rendering drift.

use crate::picture::{capture_height, capture_pixels, capture_width, Capture};
use vstd::prelude::*;

verus! {

/// Reference color of the lock-state pixel of a locked item.
pub const LOCKED_COLOR: (u8, u8, u8) = (18, 18, 18);

/// Reference color of the lock-state pixel of an unlocked item.
pub const UNLOCKED_COLOR: (u8, u8, u8) = (249, 249, 249);

/// Reference color of the lock-state pixel of an item marked for discard.
pub const DISCARD_COLOR: (u8, u8, u8) = (116, 108, 99);

/// Mark color looked for around the expected lock-marker point of a captured
/// artifact cell.
pub const LOCK_MARK_COLOR: (u8, u8, u8) = (255, 138, 117);

/// Largest squared color distance at which a sample still counts as the lock
/// marker.
pub const LOCK_MARK_MAX_DIST_SQ: u32 = 900;

/// Squared Euclidean distance between two colors: the sum of the squared
/// channel differences.
pub open spec fn spec_color_distance(a: (u8, u8, u8), b: (u8, u8, u8)) -> int {
    (a.0 - b.0) * (a.0 - b.0) + (a.1 - b.1) * (a.1 - b.1) + (a.2 - b.2) * (a.2 - b.2)
}

pub fn color_distance(a: (u8, u8, u8), b: (u8, u8, u8)) -> (r: u32)
    ensures
        r == spec_color_distance(a, b),
{
    let d0: i32 = a.0 as i32 - b.0 as i32;
    let d1: i32 = a.1 as i32 - b.1 as i32;
    let d2: i32 = a.2 as i32 - b.2 as i32;
    proof {
        assert(0 <= d0 * d0 <= 65025) by (nonlinear_arith)
            requires -255 <= d0 <= 255;
        assert(0 <= d1 * d1 <= 65025) by (nonlinear_arith)
            requires -255 <= d1 <= 255;
        assert(0 <= d2 * d2 <= 65025) by (nonlinear_arith)
            requires -255 <= d2 <= 255;
    }
    (d0 * d0 + d1 * d1 + d2 * d2) as u32
}

/// Discrete state read off the lock-state pixel.
#[derive(Clone, Copy, PartialEq, Eq, Structural, Debug)]
pub enum LockClass {
    Locked,
    Unlocked,
    Discard,
}

/// Nearest reference-palette entry to the sampled color, ties broken by
/// palette order: locked, then unlocked, then discard.
pub open spec fn spec_classify(c: (u8, u8, u8)) -> LockClass {
    let dl = spec_color_distance(c, LOCKED_COLOR);
    let du = spec_color_distance(c, UNLOCKED_COLOR);
    let dd = spec_color_distance(c, DISCARD_COLOR);
    if dl <= du && dl <= dd {
        LockClass::Locked
    } else if du <= dd {
        LockClass::Unlocked
    } else {
        LockClass::Discard
    }
}

pub fn classify_color(c: (u8, u8, u8)) -> (r: LockClass)
    ensures
        r == spec_classify(c),
{
    let dl = color_distance(c, LOCKED_COLOR);
    let du = color_distance(c, UNLOCKED_COLOR);
    let dd = color_distance(c, DISCARD_COLOR);
    if dl <= du && dl <= dd {
        LockClass::Locked
    } else if du <= dd {
        LockClass::Unlocked
    } else {
        LockClass::Discard
    }
}

/// The lock flag the orchestrator reads from a single sampled pixel.
pub fn is_locked_color(c: (u8, u8, u8)) -> (r: bool)
    ensures
        r == (spec_classify(c) == LockClass::Locked),
{
    match classify_color(c) {
        LockClass::Locked => true,
        _ => false,
    }
}

/// An in-bounds sample at offset `(dx, dy)` from the expected marker point
/// that lies within the marker threshold.
pub open spec fn spec_mark_hit(img: Capture, px: int, py: int, dx: int, dy: int) -> bool {
    &&& 0 <= px + dx < capture_width(img)
    &&& 0 <= py + dy < capture_height(img)
    &&& spec_color_distance(
        capture_pixels(img)[(px + dx, py + dy)],
        LOCK_MARK_COLOR,
    ) < LOCK_MARK_MAX_DIST_SQ
}

/// Whether the neighborhood around the expected marker point of a captured
/// cell holds a sample close enough to the lock-marker color.
pub open spec fn spec_region_locked(img: Capture, px: int, py: int) -> bool {
    exists|dx: int, dy: int|
        -1 <= dx < 1 && -10 <= dy < 10 && #[trigger] spec_mark_hit(img, px, py, dx, dy)
}

/// Scans the bounded offset window around the expected lock-marker point of
/// a captured cell; reports locked exactly when some in-bounds sample lies
/// within the marker threshold.
pub fn region_locked(img: &Capture, px: u32, py: u32) -> (r: bool)
    ensures
        r == spec_region_locked(*img, px as int, py as int),
{
    let w = img.width();
    let h = img.height();
    let mut i: u32 = 0;
    while i < 2
        invariant
            0 <= i <= 2,
            w == capture_width(*img),
            h == capture_height(*img),
            forall|dx: int, dy: int|
                -1 <= dx < i - 1 && -10 <= dy < 10 ==> !#[trigger] spec_mark_hit(
                    *img,
                    px as int,
                    py as int,
                    dx,
                    dy,
                ),
        decreases 2 - i,
    {
        let mut j: u32 = 0;
        while j < 20
            invariant
                0 <= i < 2,
                0 <= j <= 20,
                w == capture_width(*img),
                h == capture_height(*img),
                forall|dx: int, dy: int|
                    -1 <= dx < i - 1 && -10 <= dy < 10 ==> !#[trigger] spec_mark_hit(
                        *img,
                        px as int,
                        py as int,
                        dx,
                        dy,
                    ),
                forall|dy: int|
                    -10 <= dy < j - 10 ==> !#[trigger] spec_mark_hit(
                        *img,
                        px as int,
                        py as int,
                        i - 1,
                        dy,
                    ),
            decreases 20 - j,
        {
            let x: i64 = px as i64 + i as i64 - 1;
            let y: i64 = py as i64 + j as i64 - 10;
            if 0 <= x && x < w as i64 && 0 <= y && y < h as i64 {
                let c = img.pixel(x as u32, y as u32);
                if color_distance(c, LOCK_MARK_COLOR) < LOCK_MARK_MAX_DIST_SQ {
                    assert(spec_mark_hit(*img, px as int, py as int, i - 1, j - 10));
                    return true;
                }
                assert(!spec_mark_hit(*img, px as int, py as int, i - 1, j - 10));
            } else {
                assert(!spec_mark_hit(*img, px as int, py as int, i - 1, j - 10));
            }
            j += 1;
        }
        i += 1;
    }
    assert forall|dx: int, dy: int| -1 <= dx < 1 && -10 <= dy < 10 implies !spec_mark_hit(
        *img,
        px as int,
        py as int,
        dx,
        dy,
    ) by {}
    false
}

} // verus!
