//! From a landing point to polar coordinates on the board: the normalised
//! distance from the centre and the calibrated board angle.
use vstd::prelude::*;

use crate::board::{BoardLayout, Point, FULL_CIRCLE, MAX_SQ_DIST};
use crate::score::{is_shot_result, lemma_unique_owner, owner, resolve_score, ShotResult};

verus! {

/// Squared Euclidean distance between `p` and `c`.
pub open spec fn sq_dist(p: Point, c: Point) -> int {
    (c.x - p.x) * (c.x - p.x) + (c.y - p.y) * (c.y - p.y)
}

/// `n` is `100 * sqrt(sq) / radius` rounded to the nearest integer, halves
/// rounded up: `n - 1/2 <= 100 * sqrt(sq) / radius < n + 1/2`, squared.
pub open spec fn is_rounded_hundredths(n: int, sq: int, radius: int) -> bool {
    &&& n >= 0
    &&& (n == 0 || (2 * n - 1) * (2 * n - 1) * (radius * radius) <= 40000 * sq)
    &&& 40000 * sq < (2 * n + 1) * (2 * n + 1) * (radius * radius)
}

/// The calibrated board angle: the raw angle plus the offset, reduced to
/// `[0, FULL_CIRCLE)`.
pub open spec fn calibrated_spec(raw: int, offset: int) -> int {
    (raw + offset) % (FULL_CIRCLE as int)
}

/// A whole number of turns (59653), added to a raw angle to make it
/// non-negative.
const TURNS_SHIFT: i64 = 2_147_508_000;

/// No distance rounds to this many hundredths of a radius of at least one.
const N_BOUND: u64 = 0x100_0000_0000;

/// Whether `n - 1/2 <= 100 * sqrt(t / 40000) / radius`, i.e. whether the
/// rounded value is at least `n`.
fn rounds_at_least(n: u64, radius: u32, t: u128) -> (r: bool)
    requires
        1 <= n <= N_BOUND,
        t <= 40000 * MAX_SQ_DIST,
    ensures
        r == ((2 * n - 1) * (2 * n - 1) * (radius * radius) <= t),
{
    let k: u128 = 2 * n as u128 - 1;
    let rr: u128 = radius as u128;
    assert(k * rr < 0x2_0000_0000_0000_0000_0000) by (nonlinear_arith)
        requires
            k < 0x200_0000_0000,
            rr < 0x1_0000_0000,
    ;
    let x: u128 = k * rr;
    assert(k * k * (rr * rr) == x * x) by (nonlinear_arith)
        requires
            x == k * rr,
    ;
    if x > 0x200_0000_0000 {
        assert(x * x > t) by (nonlinear_arith)
            requires
                x > 0x200_0000_0000,
                t <= 40000 * MAX_SQ_DIST,
        ;
        false
    } else {
        assert(x * x <= 0x200_0000_0000 * 0x200_0000_0000) by (nonlinear_arith)
            requires
                x <= 0x200_0000_0000,
        ;
        x * x <= t
    }
}

/// The squared distance between `point` and `center`.
pub fn sq_distance(point: Point, center: Point) -> (s: u128)
    ensures
        s == sq_dist(point, center),
        s <= MAX_SQ_DIST,
{
    let dx: i64 = center.x as i64 - point.x as i64;
    let dy: i64 = center.y as i64 - point.y as i64;
    let ax: u128 = if dx < 0 {
        (-dx) as u128
    } else {
        dx as u128
    };
    let ay: u128 = if dy < 0 {
        (-dy) as u128
    } else {
        dy as u128
    };
    assert(ax * ax + ay * ay <= MAX_SQ_DIST) by (nonlinear_arith)
        requires
            ax <= 0xffff_ffff,
            ay <= 0xffff_ffff,
    ;
    let sq: u128 = ax * ax + ay * ay;
    assert(sq == sq_dist(point, center)) by (nonlinear_arith)
        requires
            ax == dx || ax == -dx,
            ay == dy || ay == -dy,
            dx == center.x - point.x,
            dy == center.y - point.y,
            sq == ax * ax + ay * ay,
    ;
    sq
}

/// The distance whose square is `sq`, divided by `radius`, in hundredths,
/// rounded to the nearest hundredth (halves up).
pub fn rounded_hundredths(sq: u128, radius: u32) -> (n: u64)
    requires
        radius > 0,
        sq <= MAX_SQ_DIST,
    ensures
        is_rounded_hundredths(n as int, sq as int, radius as int),
{
    let t: u128 = 40000 * sq;
    let ghost r2 = radius as int * radius as int;
    assert(r2 >= 1) by (nonlinear_arith)
        requires
            radius >= 1,
            r2 == radius * radius,
    ;
    assert((2 * N_BOUND - 1) * (2 * N_BOUND - 1) * r2 > t) by (nonlinear_arith)
        requires
            r2 >= 1,
            t <= 40000 * MAX_SQ_DIST,
            2 * N_BOUND - 1 >= 0x1ff_ffff_ffff,
    ;
    let mut lo: u64 = 0;
    let mut hi: u64 = N_BOUND;
    while hi - lo > 1
        invariant
            lo < hi <= N_BOUND,
            t == 40000 * sq,
            t <= 40000 * MAX_SQ_DIST,
            r2 == radius * radius,
            lo == 0 || (2 * lo - 1) * (2 * lo - 1) * r2 <= t,
            (2 * hi - 1) * (2 * hi - 1) * r2 > t,
        decreases hi - lo,
    {
        let mid: u64 = lo + (hi - lo) / 2;
        if rounds_at_least(mid, radius, t) {
            lo = mid;
        } else {
            hi = mid;
        }
    }
    assert(2 * hi - 1 == 2 * lo + 1);
    lo
}

/// Distance from the board centre divided by the radius, in hundredths,
/// rounded to the nearest hundredth (halves up). Values above 100 lie
/// outside the board. This is a figure to report; scoring uses the exact
/// distance.
pub fn normalized_distance(point: Point, layout: &BoardLayout) -> (n: u64)
    requires
        layout.radius > 0,
    ensures
        is_rounded_hundredths(n as int, sq_dist(point, layout.center), layout.radius as int),
{
    let sq = sq_distance(point, layout.center);
    rounded_hundredths(sq, layout.radius)
}

/// The calibrated board angle of a raw angle (both in hundredths of a
/// degree): `(raw + offset)` reduced to `[0, FULL_CIRCLE)`.
pub fn calibrated_angle(raw: i32, offset: u32) -> (a: u32)
    ensures
        a == calibrated_spec(raw as int, offset as int),
        a < FULL_CIRCLE,
{
    // shift by a whole number of turns so that the sum is never negative
    let shifted: i64 = raw as i64 + offset as i64 + TURNS_SHIFT;
    let sum: u64 = shifted as u64;
    let a: u64 = sum % (FULL_CIRCLE as u64);
    proof {
        assert(TURNS_SHIFT == 36000 * 59653);
        vstd::arithmetic::div_mod::lemma_mod_multiples_vanish(
            59653,
            raw + offset,
            FULL_CIRCLE as int,
        );
    }
    a as u32
}

/// Resolves a dart that landed at `point`, where `raw_angle` is the angle of
/// the vector from `point` to the board centre (hundredths of a degree, as
/// `atan2` gives it): polar coordinates on the board, then the score.
pub fn resolve_shot(point: Point, raw_angle: i32, layout: &BoardLayout) -> (r: ShotResult)
    requires
        layout.wf(),
    ensures
        is_shot_result(
            r,
            sq_dist(point, layout.center),
            calibrated_spec(raw_angle as int, layout.angle_offset as int) as u32,
            *layout,
        ),
        r.angle_degrees == calibrated_spec(raw_angle as int, layout.angle_offset as int),
{
    let sq = sq_distance(point, layout.center);
    let a = calibrated_angle(raw_angle, layout.angle_offset);
    resolve_score(sq, a, layout)
}

/// A dart whose calibrated angle falls exactly on the wire that opens
/// section `i` belongs to section `i` alone: not to the section before it,
/// whose end that wire is, nor to any other (at the wrap-around point this
/// is the first section, not the last).
pub proof fn lemma_boundary_owned(layout: BoardLayout, i: int, raw: i32)
    requires
        layout.wf(),
        0 <= i < layout.sections.0@.len(),
        calibrated_spec(raw as int, layout.angle_offset as int) == layout.sections.0@[i].start,
    ensures
        ({
            let s = layout.sections.0@;
            let a = calibrated_spec(raw as int, layout.angle_offset as int);
            let before = if i == 0 { s.len() - 1 } else { i - 1 };
            &&& owner(s, a) == i
            &&& s[i].contains(a)
            &&& !s[before].contains(a)
            &&& forall|j: int| 0 <= j < s.len() && j != i ==> !(#[trigger] s[j].contains(a))
        }),
{
    let s = layout.sections.0@;
    let a = calibrated_spec(raw as int, layout.angle_offset as int);
    assert(s[i].start < s[i].end);
    lemma_unique_owner(s, a);
    if i > 0 {
        assert(s[i - 1].end == s[i].start);
    }
}

} // verus!
