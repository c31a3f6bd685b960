//! Turning a distance from the board centre and a board angle into a hit
//! and a score.
//!
//! Distances are handled through their squares, so that the ring bands are
//! decided exactly: a distance `d` is at most `t` hundredths of the radius
//! `R` when `10000 * d * d <= t * t * R * R`.
use vstd::prelude::*;

use crate::board::{is_partition, BoardLayout, RingThresholds, Section, FULL_CIRCLE, MAX_SQ_DIST};
use crate::geometry::{is_rounded_hundredths, rounded_hundredths};

verus! {

/// What a dart hit. The number carried by `Single`, `Double` and `Treble` is
/// the base score of the section.
#[derive(Clone, Copy, Debug, PartialEq, Eq, Structural)]
pub enum HitOutcome {
    Miss,
    Bullseye,
    HalfBullseye,
    Single(i32),
    Double(i32),
    Treble(i32),
}

/// The result of one shot.
#[derive(Clone, Copy, Debug, PartialEq, Eq, Structural)]
pub struct ShotResult {
    /// Distance from the centre in hundredths of the board radius, rounded
    /// to the nearest hundredth. It is reported only: the outcome is decided
    /// on the exact distance.
    pub normalized_distance: u64,
    /// Board angle, in hundredths of a degree, in `[0, FULL_CIRCLE)`.
    pub angle_degrees: u32,
    pub outcome: HitOutcome,
    /// Points to add to the shooter's total (never positive).
    pub score_delta: i32,
}

/// Points awarded for the bullseye, subtracted from the total.
pub const BULLSEYE_POINTS: i32 = 50;

/// Points awarded for the half-bullseye, subtracted from the total.
pub const HALF_BULLSEYE_POINTS: i32 = 25;

/// The distance whose square is `sq` is at most `t` hundredths of `radius`.
pub open spec fn within(sq: int, radius: int, t: int) -> bool {
    10000 * sq <= t * t * (radius * radius)
}

/// The distance whose square is `sq` is at least `t` hundredths of `radius`.
pub open spec fn reaches(sq: int, radius: int, t: int) -> bool {
    t * t * (radius * radius) <= 10000 * sq
}

/// The multiplier of the ring band at the distance whose square is `sq`:
/// three in the treble band, two in the double band, one elsewhere (both
/// bounds of a band included).
pub open spec fn multiplier_spec(sq: int, radius: int, rings: RingThresholds) -> int {
    if reaches(sq, radius, rings.treble_near as int) && within(sq, radius, rings.treble_far as int) {
        3
    } else if reaches(sq, radius, rings.double_near as int) && within(sq, radius, rings.double_far as int) {
        2
    } else {
        1
    }
}

/// The section of `s` that owns `angle`.
pub open spec fn owner(s: Seq<Section>, angle: int) -> int {
    choose|i: int| 0 <= i < s.len() && s[i].contains(angle)
}

/// The outcome of a dart at the distance whose square is `sq` and at board
/// angle `angle` on `layout`.
pub open spec fn outcome_spec(sq: int, angle: int, layout: BoardLayout) -> HitOutcome {
    let rings = layout.rings;
    let r = layout.radius as int;
    if within(sq, r, rings.bullseye as int) {
        HitOutcome::Bullseye
    } else if within(sq, r, rings.half_bullseye as int) {
        HitOutcome::HalfBullseye
    } else if within(sq, r, rings.double_far as int) {
        let score = layout.sections.0@[owner(layout.sections.0@, angle)].score;
        let m = multiplier_spec(sq, r, rings);
        if m == 3 {
            HitOutcome::Treble(score)
        } else if m == 2 {
            HitOutcome::Double(score)
        } else {
            HitOutcome::Single(score)
        }
    } else {
        HitOutcome::Miss
    }
}

/// The change to the shooter's total that an outcome brings.
pub open spec fn delta_spec(o: HitOutcome) -> int {
    match o {
        HitOutcome::Miss => 0,
        HitOutcome::Bullseye => -BULLSEYE_POINTS,
        HitOutcome::HalfBullseye => -HALF_BULLSEYE_POINTS,
        HitOutcome::Single(s) => -s,
        HitOutcome::Double(s) => -2 * s,
        HitOutcome::Treble(s) => -3 * s,
    }
}

/// `r` is the result of a dart at the distance whose square is `sq` and at
/// board angle `angle` on `layout`.
pub open spec fn is_shot_result(r: ShotResult, sq: int, angle: u32, layout: BoardLayout) -> bool {
    &&& is_rounded_hundredths(r.normalized_distance as int, sq, layout.radius as int)
    &&& r.angle_degrees == angle
    &&& r.outcome == outcome_spec(sq, angle as int, layout)
    &&& r.score_delta == delta_spec(r.outcome)
}

/// Section starts grow along the sequence.
proof fn lemma_sections_ordered(s: Seq<Section>, i: int, j: int)
    requires
        is_partition(s),
        0 <= i < j < s.len(),
    ensures
        s[i].end <= s[j].start,
    decreases j - i,
{
    if j > i + 1 {
        lemma_sections_ordered(s, i, j - 1);
        assert(s[j - 1].end == s[j].start);
    } else {
        assert(s[i].end == s[i + 1].start);
    }
}

/// Each angle of the circle lies in exactly one section.
pub proof fn lemma_unique_owner(s: Seq<Section>, angle: int)
    requires
        is_partition(s),
        0 <= angle < FULL_CIRCLE,
    ensures
        0 <= owner(s, angle) < s.len(),
        s[owner(s, angle)].contains(angle),
        forall|i: int| 0 <= i < s.len() && #[trigger] s[i].contains(angle) ==> i == owner(s, angle),
{
    lemma_some_owner(s, angle, s.len() - 1);
    assert forall|i: int| 0 <= i < s.len() && #[trigger] s[i].contains(angle) implies i == owner(
        s,
        angle,
    ) by {
        let o = owner(s, angle);
        if i < o {
            lemma_sections_ordered(s, i, o);
        } else if o < i {
            lemma_sections_ordered(s, o, i);
        }
    }
}

/// An angle below the end of section `k` lies in one of the sections `0..=k`.
proof fn lemma_some_owner(s: Seq<Section>, angle: int, k: int)
    requires
        is_partition(s),
        0 <= angle < s[k].end,
        0 <= k < s.len(),
    ensures
        exists|i: int| 0 <= i <= k && #[trigger] s[i].contains(angle),
    decreases k,
{
    if angle >= s[k].start {
        assert(s[k].contains(angle));
    } else {
        assert(s[k - 1].end == s[k].start);
        lemma_some_owner(s, angle, k - 1);
    }
}

/// The index of the section that holds `angle`, if any.
pub fn find_section(sections: &Vec<Section>, angle: u32) -> (r: Option<usize>)
    ensures
        r matches Some(i) ==> i < sections@.len() && sections@[i as int].contains(angle as int),
        r is None ==> forall|i: int| 0 <= i < sections@.len() ==> !#[trigger] sections@[i].contains(angle as int),
{
    let mut i: usize = 0;
    while i < sections.len()
        invariant
            i <= sections@.len(),
            forall|k: int| 0 <= k < i ==> !#[trigger] sections@[k].contains(angle as int),
        decreases sections.len() - i,
    {
        if sections[i].contains_angle(angle) {
            return Some(i);
        }
        i += 1;
    }
    None
}


/// Whether the distance whose square is `sq` is at most `t` hundredths of
/// `radius`.
pub fn is_within(sq: u128, radius: u32, t: u64) -> (b: bool)
    requires
        sq <= MAX_SQ_DIST,
        t <= 100,
    ensures
        b == within(sq as int, radius as int, t as int),
{
    let (lhs, rhs) = scaled_squares(sq, radius, t);
    lhs <= rhs
}

/// Whether the distance whose square is `sq` is at least `t` hundredths of
/// `radius`.
pub fn is_reaching(sq: u128, radius: u32, t: u64) -> (b: bool)
    requires
        sq <= MAX_SQ_DIST,
        t <= 100,
    ensures
        b == reaches(sq as int, radius as int, t as int),
{
    let (lhs, rhs) = scaled_squares(sq, radius, t);
    rhs <= lhs
}

/// `10000 * sq` and `t * t * radius * radius`.
fn scaled_squares(sq: u128, radius: u32, t: u64) -> (r: (u128, u128))
    requires
        sq <= MAX_SQ_DIST,
        t <= 100,
    ensures
        r.0 == 10000 * sq,
        r.1 == t * t * (radius * radius),
{
    assert(t * t <= 10000 && radius * radius < 0x1_0000_0000_0000_0000) by (nonlinear_arith)
        requires
            t <= 100,
            radius < 0x1_0000_0000,
    ;
    let tt: u128 = t as u128 * t as u128;
    let rr: u128 = radius as u128 * radius as u128;
    assert(tt * rr <= 10000 * 0x1_0000_0000_0000_0000) by (nonlinear_arith)
        requires
            tt <= 10000,
            rr < 0x1_0000_0000_0000_0000,
    ;
    (10000 * sq, tt * rr)
}

/// The multiplier of the ring band at the distance whose square is `sq`.
pub fn multiplier(sq: u128, radius: u32, rings: &RingThresholds) -> (r: i32)
    requires
        sq <= MAX_SQ_DIST,
        rings.valid(),
    ensures
        r == multiplier_spec(sq as int, radius as int, *rings),
{
    if is_reaching(sq, radius, rings.treble_near) && is_within(sq, radius, rings.treble_far) {
        3
    } else if is_reaching(sq, radius, rings.double_near) && is_within(sq, radius, rings.double_far) {
        2
    } else {
        1
    }
}

/// Scores a dart whose squared distance from the board centre is `sq_dist`
/// (in the layout's world units) and whose board angle is `angle_degrees`:
/// bullseye, half-bullseye, a section hit scaled by its ring band, or a miss
/// beyond the double ring. Every ring bound is inclusive and decided on the
/// exact distance.
pub fn resolve_score(sq_dist: u128, angle_degrees: u32, layout: &BoardLayout) -> (r: ShotResult)
    requires
        layout.wf(),
        angle_degrees < FULL_CIRCLE,
        sq_dist <= MAX_SQ_DIST,
    ensures
        is_shot_result(r, sq_dist as int, angle_degrees, *layout),
{
    let sq = sq_dist;
    let radius = layout.radius;
    let rings = &layout.rings;
    let (outcome, score_delta) = if is_within(sq, radius, rings.bullseye) {
        (HitOutcome::Bullseye, -BULLSEYE_POINTS)
    } else if is_within(sq, radius, rings.half_bullseye) {
        (HitOutcome::HalfBullseye, -HALF_BULLSEYE_POINTS)
    } else if is_within(sq, radius, rings.double_far) {
        let sections = &layout.sections.0;
        proof {
            lemma_unique_owner(sections@, angle_degrees as int);
        }
        match find_section(sections, angle_degrees) {
            Some(i) => {
                let score = sections[i].score;
                let m = multiplier(sq, radius, rings);
                assert(1 <= score <= 20) by {
                    assert(crate::board::section_scores(sections@)[i as int] == score);
                }
                if m == 3 {
                    (HitOutcome::Treble(score), -(score * 3))
                } else if m == 2 {
                    (HitOutcome::Double(score), -(score * 2))
                } else {
                    (HitOutcome::Single(score), -score)
                }
            },
            None => {
                proof {
                    // the sections cover the circle
                    assert(false);
                }
                (HitOutcome::Miss, 0)
            },
        }
    } else {
        (HitOutcome::Miss, 0)
    };
    let normalized_distance = rounded_hundredths(sq, radius);
    ShotResult { normalized_distance, angle_degrees, outcome, score_delta }
}

/// Beyond the outer double wire every dart is a miss worth nothing.
pub proof fn lemma_beyond_board_is_miss(sq: int, angle: int, layout: BoardLayout)
    requires
        layout.wf(),
        !within(sq, layout.radius as int, layout.rings.double_far as int),
    ensures
        outcome_spec(sq, angle, layout) == HitOutcome::Miss,
        delta_spec(outcome_spec(sq, angle, layout)) == 0,
{
    lemma_within_monotone(sq, layout.radius as int, layout.rings.bullseye as int, layout.rings.double_far as int);
    lemma_within_monotone(sq, layout.radius as int, layout.rings.half_bullseye as int, layout.rings.double_far as int);
}

/// Within a smaller threshold is within a larger one.
proof fn lemma_within_monotone(sq: int, radius: int, t1: int, t2: int)
    requires
        0 <= t1 <= t2,
    ensures
        within(sq, radius, t1) ==> within(sq, radius, t2),
{
    assert(t1 * t1 * (radius * radius) <= t2 * t2 * (radius * radius)) by (nonlinear_arith)
        requires
            0 <= t1 <= t2,
    ;
}

/// Inside the bullseye every dart is a bullseye worth fifty, whatever its
/// angle.
pub proof fn lemma_bullseye_any_angle(sq: int, angle: int, layout: BoardLayout)
    requires
        layout.wf(),
        within(sq, layout.radius as int, layout.rings.bullseye as int),
    ensures
        outcome_spec(sq, angle, layout) == HitOutcome::Bullseye,
        delta_spec(outcome_spec(sq, angle, layout)) == -BULLSEYE_POINTS,
{
}

/// Between the half-bullseye and the outer double wire, a dart scores the
/// base score of the section that owns its angle times the multiplier of
/// its ring band: three in the treble band, two in the double band, one
/// elsewhere; the outcome names the same section and multiplier.
pub proof fn lemma_section_hit_delta(sq: int, angle: int, layout: BoardLayout)
    requires
        layout.wf(),
        !within(sq, layout.radius as int, layout.rings.half_bullseye as int),
        within(sq, layout.radius as int, layout.rings.double_far as int),
        0 <= angle < FULL_CIRCLE,
    ensures
        ({
            let s = layout.sections.0@;
            let score = s[owner(s, angle)].score;
            let rings = layout.rings;
            let r = layout.radius as int;
            let m = multiplier_spec(sq, r, rings);
            let o = outcome_spec(sq, angle, layout);
            &&& 0 <= owner(s, angle) < s.len()
            &&& s[owner(s, angle)].contains(angle)
            &&& 1 <= score <= 20
            &&& (m == 3 <==> (reaches(sq, r, rings.treble_near as int) && within(sq, r, rings.treble_far as int)))
            &&& (m == 2 <==> (!(reaches(sq, r, rings.treble_near as int) && within(sq, r, rings.treble_far as int))
                && reaches(sq, r, rings.double_near as int)))
            &&& (m == 1 || m == 2 || m == 3)
            &&& delta_spec(o) == -(score * m)
            &&& (m == 1 ==> o == HitOutcome::Single(score))
            &&& (m == 2 ==> o == HitOutcome::Double(score))
            &&& (m == 3 ==> o == HitOutcome::Treble(score))
        }),
{
    let s = layout.sections.0@;
    lemma_unique_owner(s, angle);
    lemma_within_monotone(sq, layout.radius as int, layout.rings.bullseye as int, layout.rings.half_bullseye as int);
    assert(crate::board::section_scores(s)[owner(s, angle)] == s[owner(s, angle)].score);
}

/// No shot takes more than sixty points off a total, nor adds any.
pub(crate) proof fn lemma_delta_range(sq: int, angle: int, layout: BoardLayout)
    requires
        layout.wf(),
        0 <= angle < FULL_CIRCLE,
    ensures
        -60 <= delta_spec(outcome_spec(sq, angle, layout)) <= 0,
{
    let r = layout.radius as int;
    if !within(sq, r, layout.rings.half_bullseye as int) && within(sq, r, layout.rings.double_far as int) {
        lemma_section_hit_delta(sq, angle, layout);
    }
}

} // verus!
