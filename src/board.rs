//! The static board layout: ring thresholds, the twenty angular sections and
//! the calibration used to turn a raw angle into a board angle.
//!
//! Units: distances normalised by the board radius are counted in hundredths
//! (`100` is the outer edge of the board); angles are counted in hundredths of
//! a degree (`36000` is the full circle); world coordinates are integers in a
//! fixed unit chosen by the caller (the application uses hundredths of a world
//! unit).
use vstd::prelude::*;

verus! {

/// Number of angular sections on the board.
pub const SECTION_COUNT: usize = 20;

/// One full turn, in hundredths of a degree.
pub const FULL_CIRCLE: u32 = 36000;

/// Width of one section, in hundredths of a degree (360 / 20 degrees).
pub const SECTION_ARC: u32 = 1800;

/// Calibration added to the raw angle so that angle zero lies on the wire
/// that closes the last section and opens the first one (459 degrees).
pub const ANGLE_OFFSET: u32 = 45900;

/// Centre of the board in world coordinates (hundredths of a world unit).
pub const BOARD_CENTER_X: i32 = -2500;

/// Centre of the board in world coordinates (hundredths of a world unit).
pub const BOARD_CENTER_Y: i32 = 0;

/// Radius of the board in world units (hundredths of a world unit).
pub const BOARD_RADIUS: u32 = 30000;

/// The largest squared distance between two points of `i32` coordinates,
/// `2 * (2^32 - 1)^2`.
pub const MAX_SQ_DIST: u128 = 0x1_FFFF_FFFC_0000_0002;

/// Normalised ring radii, in hundredths of the board radius.
pub const R_BULEYE: u64 = 1;

/// Upper bound of the half-bullseye ring.
pub const R_HALBEY: u64 = 2;

/// Inner bound of the treble ring.
pub const R_TRINEA: u64 = 10;

/// Outer bound of the treble ring.
pub const R_TRIFAR: u64 = 11;

/// Inner bound of the double ring.
pub const R_DOBNEA: u64 = 17;

/// Outer bound of the double ring: anything beyond is off the board.
pub const R_DOBFAR: u64 = 18;

/// The board's base scores in clockwise order from angle zero.
pub open spec fn canonical_scores() -> Seq<i32> {
    seq![20i32, 5, 12, 9, 14, 11, 8, 16, 7, 19, 3, 17, 2, 15, 10, 6, 13, 4, 18, 1]
}

/// A point in world coordinates.
#[derive(Clone, Copy, Debug, PartialEq, Eq, Structural)]
pub struct Point {
    pub x: i32,
    pub y: i32,
}

/// One angular wedge of the board: it owns the angles in `[start, end)`.
#[derive(Clone, Copy, Debug, PartialEq, Eq, Structural)]
pub struct Section {
    pub start: u32,
    pub end: u32,
    pub score: i32,
}

impl Section {
    pub open spec fn contains(self, angle: int) -> bool {
        self.start <= angle < self.end
    }

    /// Whether `angle` lies in this section (start inclusive, end exclusive).
    pub fn contains_angle(&self, angle: u32) -> (r: bool)
        ensures
            r == self.contains(angle as int),
    {
        self.start <= angle && angle < self.end
    }
}

/// The sections of a board, in clockwise order from angle zero.
#[derive(Debug)]
pub struct Sections(pub Vec<Section>);

/// Every base score from 1 to 20 appears exactly once in `s`.
pub open spec fn is_score_permutation(s: Seq<i32>) -> bool {
    &&& s.len() == SECTION_COUNT
    &&& forall|i: int| 0 <= i < s.len() ==> 1 <= #[trigger] s[i] <= 20
    &&& forall|i: int, j: int| 0 <= i < j < s.len() ==> s[i] != s[j]
}

pub open spec fn section_scores(s: Seq<Section>) -> Seq<i32> {
    s.map_values(|sec: Section| sec.score)
}

/// The sections cover `[0, FULL_CIRCLE)` once, in order, without gap or
/// overlap, and carry each base score exactly once.
pub open spec fn is_partition(s: Seq<Section>) -> bool {
    &&& s.len() == SECTION_COUNT
    &&& s[0].start == 0
    &&& s[s.len() - 1].end == FULL_CIRCLE
    &&& forall|i: int| 0 <= i < s.len() ==> (#[trigger] s[i]).start < s[i].end
    &&& forall|i: int| 0 <= i < s.len() - 1 ==> (#[trigger] s[i]).end == s[i + 1].start
    &&& is_score_permutation(section_scores(s))
}

/// The equal-width sections of the board, section `i` spanning
/// `[i * SECTION_ARC, (i + 1) * SECTION_ARC)` and scoring `scores[i]`.
pub open spec fn equal_sections(s: Seq<Section>, scores: Seq<i32>) -> bool {
    &&& s.len() == scores.len()
    &&& forall|i: int|
        0 <= i < s.len() ==> (#[trigger] s[i]).start == i * SECTION_ARC && s[i].end == (i + 1)
            * SECTION_ARC && s[i].score == scores[i]
}

/// The six ascending ring boundaries, in hundredths of the board radius.
#[derive(Clone, Copy, Debug, PartialEq, Eq, Structural)]
pub struct RingThresholds {
    pub bullseye: u64,
    pub half_bullseye: u64,
    pub treble_near: u64,
    pub treble_far: u64,
    pub double_near: u64,
    pub double_far: u64,
}

impl RingThresholds {
    /// Strictly increasing and all within `(0, 100]`.
    pub open spec fn valid(self) -> bool {
        0 < self.bullseye < self.half_bullseye < self.treble_near < self.treble_far
            < self.double_near < self.double_far <= 100
    }

    /// The thresholds of a standard board.
    pub fn standard() -> (r: RingThresholds)
        ensures
            r.valid(),
            r == (RingThresholds {
                bullseye: R_BULEYE,
                half_bullseye: R_HALBEY,
                treble_near: R_TRINEA,
                treble_far: R_TRIFAR,
                double_near: R_DOBNEA,
                double_far: R_DOBFAR,
            }),
    {
        RingThresholds {
            bullseye: R_BULEYE,
            half_bullseye: R_HALBEY,
            treble_near: R_TRINEA,
            treble_far: R_TRIFAR,
            double_near: R_DOBNEA,
            double_far: R_DOBFAR,
        }
    }

    pub fn is_valid(&self) -> (r: bool)
        ensures
            r == self.valid(),
    {
        0 < self.bullseye && self.bullseye < self.half_bullseye && self.half_bullseye
            < self.treble_near && self.treble_near < self.treble_far && self.treble_far
            < self.double_near && self.double_near < self.double_far && self.double_far <= 100
    }
}

/// Why a layout could not be built.
#[derive(Clone, Copy, Debug, PartialEq, Eq, Structural)]
pub enum LayoutError {
    /// The radius is zero.
    ZeroRadius,
    /// The ring thresholds are not strictly increasing within `(0, 100]`.
    InvalidRings,
    /// The base scores are not the numbers 1 to 20, each once.
    InvalidScores,
}

/// The board: where it is, how large, its rings, its sections and the
/// calibration of its angles. Built once and read-only afterwards.
#[derive(Debug)]
pub struct BoardLayout {
    pub center: Point,
    pub radius: u32,
    pub rings: RingThresholds,
    pub sections: Sections,
    pub angle_offset: u32,
}

impl BoardLayout {
    pub open spec fn wf(&self) -> bool {
        &&& self.radius > 0
        &&& self.rings.valid()
        &&& is_partition(self.sections.0@)
    }

    /// Builds a layout with equal-width sections carrying `scores` in order,
    /// after checking the radius, the rings and the scores.
    pub fn new(center: Point, radius: u32, rings: RingThresholds, scores: &Vec<i32>, angle_offset: u32) -> (r: Result<BoardLayout, LayoutError>)
        ensures
            radius == 0 <==> r == Err::<BoardLayout, LayoutError>(LayoutError::ZeroRadius),
            (radius > 0 && !rings.valid()) <==> r == Err::<BoardLayout, LayoutError>(LayoutError::InvalidRings),
            (radius > 0 && rings.valid() && !is_score_permutation(scores@)) <==> r == Err::<
                BoardLayout,
                LayoutError,
            >(LayoutError::InvalidScores),
            r is Ok ==> {
                let l = r->Ok_0;
                &&& l.wf()
                &&& l.center == center
                &&& l.radius == radius
                &&& l.rings == rings
                &&& l.angle_offset == angle_offset
                &&& equal_sections(l.sections.0@, scores@)
            },
    {
        if radius == 0 {
            return Err(LayoutError::ZeroRadius);
        }
        if !rings.is_valid() {
            return Err(LayoutError::InvalidRings);
        }
        if !scores_are_permutation(scores) {
            return Err(LayoutError::InvalidScores);
        }
        let sections = build_sections(scores);
        Ok(BoardLayout { center, radius, rings, sections, angle_offset })
    }

    /// The standard board: centre, radius, rings, score order and
    /// calibration of the game.
    pub fn standard() -> (r: BoardLayout)
        ensures
            r.wf(),
            r.center == (Point { x: BOARD_CENTER_X, y: BOARD_CENTER_Y }),
            r.radius == BOARD_RADIUS,
            r.rings.bullseye == R_BULEYE,
            r.rings.half_bullseye == R_HALBEY,
            r.rings.treble_near == R_TRINEA,
            r.rings.treble_far == R_TRIFAR,
            r.rings.double_near == R_DOBNEA,
            r.rings.double_far == R_DOBFAR,
            r.angle_offset == ANGLE_OFFSET,
            equal_sections(r.sections.0@, canonical_scores()),
    {
        BoardLayout {
            center: Point { x: BOARD_CENTER_X, y: BOARD_CENTER_Y },
            radius: BOARD_RADIUS,
            rings: RingThresholds::standard(),
            sections: setup_board_sections(),
            angle_offset: ANGLE_OFFSET,
        }
    }
}

/// Whether `scores` holds each of the numbers 1 to 20 exactly once.
pub fn scores_are_permutation(scores: &Vec<i32>) -> (r: bool)
    ensures
        r == is_score_permutation(scores@),
{
    if scores.len() != SECTION_COUNT {
        return false;
    }
    let mut i: usize = 0;
    while i < scores.len()
        invariant
            scores@.len() == SECTION_COUNT,
            i <= scores@.len(),
            forall|k: int| 0 <= k < i ==> 1 <= #[trigger] scores@[k] <= 20,
            forall|k: int, m: int| 0 <= k < m < i ==> scores@[k] != scores@[m],
        decreases scores.len() - i,
    {
        let v = scores[i];
        if v < 1 || v > 20 {
            return false;
        }
        let mut j: usize = 0;
        while j < i
            invariant
                i < scores@.len(),
                j <= i,
                v == scores@[i as int],
                forall|k: int| 0 <= k < j ==> scores@[k] != v,
            decreases i - j,
        {
            if scores[j] == v {
                return false;
            }
            j += 1;
        }
        i += 1;
    }
    true
}

proof fn lemma_equal_sections_partition(s: Seq<Section>, scores: Seq<i32>)
    requires
        equal_sections(s, scores),
        is_score_permutation(scores),
    ensures
        is_partition(s),
{
    assert(s[0].start == 0);
    assert(s[s.len() - 1].end == FULL_CIRCLE);
    assert forall|i: int| 0 <= i < s.len() - 1 implies (#[trigger] s[i]).end == s[i + 1].start by {
        assert(s[i + 1].start == (i + 1) * SECTION_ARC);
    }
    assert(section_scores(s) =~= scores);
}

/// Builds equal-width sections carrying `scores` in order.
fn build_sections(scores: &Vec<i32>) -> (r: Sections)
    requires
        is_score_permutation(scores@),
    ensures
        equal_sections(r.0@, scores@),
        is_partition(r.0@),
{
    let mut sections: Vec<Section> = Vec::new();
    let mut num: usize = 0;
    while num < SECTION_COUNT
        invariant
            num <= SECTION_COUNT,
            scores@.len() == SECTION_COUNT,
            sections@.len() == num,
            forall|i: int|
                0 <= i < num ==> (#[trigger] sections@[i]).start == i * SECTION_ARC
                    && sections@[i].end == (i + 1) * SECTION_ARC && sections@[i].score
                    == scores@[i],
        decreases SECTION_COUNT - num,
    {
        let start_angle: u32 = num as u32 * SECTION_ARC;
        let end_angle: u32 = start_angle + SECTION_ARC;
        sections.push(Section { start: start_angle, end: end_angle, score: scores[num] });
        num += 1;
    }
    proof {
        lemma_equal_sections_partition(sections@, scores@);
    }
    Sections(sections)
}

/// The sections of the standard board: twenty equal wedges carrying the
/// standard score order clockwise from angle zero.
pub fn setup_board_sections() -> (r: Sections)
    ensures
        equal_sections(r.0@, canonical_scores()),
        is_partition(r.0@),
{
    let scores: Vec<i32> = vec![20, 5, 12, 9, 14, 11, 8, 16, 7, 19, 3, 17, 2, 15, 10, 6, 13, 4, 18, 1];
    assert(scores@ =~= canonical_scores());
    let ok = scores_are_permutation(&scores);
    assert(ok);
    build_sections(&scores)
}

} // verus!
