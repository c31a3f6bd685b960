use mini_darts::board::{
    scores_are_permutation, setup_board_sections, BoardLayout, LayoutError, Point, RingThresholds,
    ANGLE_OFFSET, FULL_CIRCLE, MAX_SQ_DIST, SECTION_ARC,
};
use mini_darts::geometry::{
    calibrated_angle, normalized_distance, resolve_shot, rounded_hundredths, sq_distance,
};
use mini_darts::score::{find_section, is_reaching, is_within, multiplier, resolve_score, HitOutcome};

/// The squared distance of `n` hundredths of the radius on a board of
/// radius 300.
fn sq_at(n: u64) -> u128 {
    let d = 3 * n as u128;
    d * d
}

fn canonical_scores() -> Vec<i32> {
    vec![20, 5, 12, 9, 14, 11, 8, 16, 7, 19, 3, 17, 2, 15, 10, 6, 13, 4, 18, 1]
}

/// The board of the examples: centre (0, 0), radius 300, standard rings and
/// calibration.
fn example_board() -> BoardLayout {
    BoardLayout::new(
        Point { x: 0, y: 0 },
        300,
        RingThresholds::standard(),
        &canonical_scores(),
        ANGLE_OFFSET,
    )
    .unwrap()
}

/// The raw angle of the vector from `p` to the centre, in hundredths of a
/// degree, as the application measures it.
fn raw_angle(p: Point, center: Point) -> i32 {
    let vx = (center.x - p.x) as f64;
    let vy = (center.y - p.y) as f64;
    (vy.atan2(vx).to_degrees() * 100.0).floor() as i32
}

#[test]
fn centre_is_bullseye() {
    let board = example_board();
    let p = Point { x: 0, y: 0 };
    let r = resolve_shot(p, raw_angle(p, board.center), &board);
    assert_eq!(r.normalized_distance, 0);
    assert_eq!(r.outcome, HitOutcome::Bullseye);
    assert_eq!(r.score_delta, -50);
}

#[test]
fn single_band_in_twenty_is_single() {
    let board = example_board();
    // straight above the centre, between the half-bullseye and the treble
    // band: raw angle -90 degrees, board angle 9 degrees
    let p = Point { x: 0, y: 15 };
    let raw = raw_angle(p, board.center);
    assert_eq!(raw, -9000);
    let r = resolve_shot(p, raw, &board);
    assert_eq!(r.normalized_distance, 5);
    assert_eq!(r.angle_degrees, 900);
    assert_eq!(r.outcome, HitOutcome::Single(20));
    assert_eq!(r.score_delta, -20);
}

#[test]
fn treble_band_in_nineteen() {
    let board = example_board();
    let p = Point { x: -10, y: -30 };
    let r = resolve_shot(p, raw_angle(p, board.center), &board);
    assert_eq!(r.normalized_distance, 11);
    assert!(r.angle_degrees >= 16200 && r.angle_degrees < 18000);
    assert_eq!(r.outcome, HitOutcome::Treble(19));
    assert_eq!(r.score_delta, -57);
}

#[test]
fn half_radius_is_beyond_the_double_ring() {
    // the standard double ring ends at 0.18 of the radius
    let board = example_board();
    let p = Point { x: 0, y: 150 };
    let r = resolve_shot(p, raw_angle(p, board.center), &board);
    assert_eq!(r.normalized_distance, 50);
    assert_eq!(r.outcome, HitOutcome::Miss);
    assert_eq!(r.score_delta, 0);
}

#[test]
fn beyond_board_is_miss() {
    let board = example_board();
    let p = Point { x: 450, y: 0 };
    let r = resolve_shot(p, raw_angle(p, board.center), &board);
    assert_eq!(r.normalized_distance, 150);
    assert_eq!(r.outcome, HitOutcome::Miss);
    assert_eq!(r.score_delta, 0);
}

#[test]
fn shared_boundary_goes_to_the_later_section() {
    let board = example_board();
    // the wire between the twenty and the five
    let on_wire = resolve_score(sq_at(5), SECTION_ARC, &board);
    let just_before = resolve_score(sq_at(5), SECTION_ARC - 1, &board);
    assert_eq!(on_wire.outcome, HitOutcome::Single(5));
    assert_eq!(just_before.outcome, HitOutcome::Single(20));
    // the wrap-around wire between the one and the twenty
    let at_zero = resolve_score(sq_at(5), 0, &board);
    let last = resolve_score(sq_at(5), FULL_CIRCLE - 1, &board);
    assert_eq!(at_zero.outcome, HitOutcome::Single(20));
    assert_eq!(last.outcome, HitOutcome::Single(1));
}

#[test]
fn boundary_from_a_raw_angle() {
    let board = example_board();
    // raw -81 degrees calibrates to exactly 18 degrees
    let a = calibrated_angle(-8100, board.angle_offset);
    assert_eq!(a, 1800);
    assert_eq!(resolve_score(sq_at(5), a, &board).outcome, HitOutcome::Single(5));
    // raw -99 degrees calibrates to exactly 0 degrees
    let z = calibrated_angle(-9900, board.angle_offset);
    assert_eq!(z, 0);
    assert_eq!(resolve_score(sq_at(5), z, &board).outcome, HitOutcome::Single(20));
}

#[test]
fn every_angle_has_exactly_one_section() {
    let board = example_board();
    let sections = &board.sections.0;
    for angle in 0..FULL_CIRCLE {
        let owners = sections.iter().filter(|s| s.contains_angle(angle)).count();
        assert_eq!(owners, 1, "angle {}", angle);
        let i = find_section(sections, angle).unwrap();
        assert!(sections[i].contains_angle(angle));
    }
    assert_eq!(find_section(sections, FULL_CIRCLE), None);
}

#[test]
fn bullseye_at_every_angle() {
    let board = example_board();
    for angle in (0..FULL_CIRCLE).step_by(7) {
        for n in 0..=1 {
            let r = resolve_score(sq_at(n), angle, &board);
            assert_eq!(r.outcome, HitOutcome::Bullseye);
            assert_eq!(r.score_delta, -50);
        }
    }
}

#[test]
fn miss_beyond_double_at_every_angle() {
    let board = example_board();
    for angle in (0..FULL_CIRCLE).step_by(11) {
        for sq in [sq_at(18) + 1, sq_at(19), sq_at(20), sq_at(100), sq_at(101), sq_at(150), MAX_SQ_DIST] {
            let r = resolve_score(sq, angle, &board);
            assert_eq!(r.outcome, HitOutcome::Miss);
            assert_eq!(r.score_delta, 0);
        }
    }
}

#[test]
fn ring_bands_and_multipliers() {
    let board = example_board();
    let rings = board.rings;
    // section 0 scores 20
    let cases = [
        (2, HitOutcome::HalfBullseye, -25),
        (3, HitOutcome::Single(20), -20),
        (9, HitOutcome::Single(20), -20),
        (10, HitOutcome::Treble(20), -60),
        (11, HitOutcome::Treble(20), -60),
        (12, HitOutcome::Single(20), -20),
        (16, HitOutcome::Single(20), -20),
        (17, HitOutcome::Double(20), -40),
        (18, HitOutcome::Double(20), -40),
        (19, HitOutcome::Miss, 0),
    ];
    for (n, outcome, delta) in cases {
        let r = resolve_score(sq_at(n), 100, &board);
        assert_eq!(r.outcome, outcome, "n {}", n);
        assert_eq!(r.score_delta, delta, "n {}", n);
    }
    assert_eq!(multiplier(sq_at(10), 300, &rings), 3);
    assert_eq!(multiplier(sq_at(17), 300, &rings), 2);
    assert_eq!(multiplier(sq_at(5), 300, &rings), 1);
    assert_eq!(multiplier(sq_at(10) - 1, 300, &rings), 1);
    assert_eq!(multiplier(sq_at(11) + 1, 300, &rings), 1);
}

#[test]
fn delta_is_base_times_multiplier_in_every_section() {
    let board = example_board();
    let scores = canonical_scores();
    for (i, score) in scores.iter().enumerate() {
        let angle = i as u32 * SECTION_ARC + SECTION_ARC / 2;
        assert_eq!(resolve_score(sq_at(5), angle, &board).score_delta, -score);
        assert_eq!(resolve_score(sq_at(5), angle, &board).outcome, HitOutcome::Single(*score));
        assert_eq!(resolve_score(sq_at(10), angle, &board).score_delta, -3 * score);
        assert_eq!(resolve_score(sq_at(18), angle, &board).score_delta, -2 * score);
        assert_eq!(resolve_score(sq_at(18), angle, &board).outcome, HitOutcome::Double(*score));
    }
}

#[test]
fn distance_rounds_to_nearest_hundredth() {
    let board = example_board();
    // 3-4-5 triangle: 5 / 300 = 0.0166.. rounds to 2 hundredths
    assert_eq!(normalized_distance(Point { x: 3, y: 4 }, &board), 2);
    let small = BoardLayout::new(Point { x: 0, y: 0 }, 8, RingThresholds::standard(), &canonical_scores(), 0).unwrap();
    // 1 / 8 = 0.125: the half rounds up
    assert_eq!(normalized_distance(Point { x: 0, y: 1 }, &small), 13);
    // 3 / 8 = 0.375
    assert_eq!(normalized_distance(Point { x: 0, y: -3 }, &small), 38);
    let unit = BoardLayout::new(Point { x: 0, y: 0 }, 1, RingThresholds::standard(), &canonical_scores(), 0).unwrap();
    assert_eq!(normalized_distance(Point { x: 3, y: 4 }, &unit), 500);
    // sqrt(2) = 1.41421..
    assert_eq!(normalized_distance(Point { x: 1, y: 1 }, &unit), 141);
    let far = normalized_distance(Point { x: i32::MIN, y: i32::MIN }, &BoardLayout::new(
        Point { x: i32::MAX, y: i32::MAX },
        1,
        RingThresholds::standard(),
        &canonical_scores(),
        0,
    )
    .unwrap());
    // (2^32 - 1) * sqrt(2) * 100
    assert_eq!(far, 607_400_099_854);
}

#[test]
fn calibration_wraps_into_the_circle() {
    assert_eq!(calibrated_angle(0, ANGLE_OFFSET), 9900);
    assert_eq!(calibrated_angle(18000, ANGLE_OFFSET), 27900);
    assert_eq!(calibrated_angle(-18000, ANGLE_OFFSET), 27900);
    assert_eq!(calibrated_angle(-9900, ANGLE_OFFSET), 0);
    assert_eq!(calibrated_angle(i32::MIN, 0), (((i32::MIN as i64) % 36000 + 36000) % 36000) as u32);
    assert_eq!(calibrated_angle(i32::MAX, u32::MAX), ((i32::MAX as i64 + u32::MAX as i64) % 36000) as u32);
}

#[test]
fn standard_board_sections() {
    let s = setup_board_sections();
    assert_eq!(s.0.len(), 20);
    let scores = canonical_scores();
    for (i, sec) in s.0.iter().enumerate() {
        assert_eq!(sec.start, i as u32 * 1800);
        assert_eq!(sec.end, (i as u32 + 1) * 1800);
        assert_eq!(sec.score, scores[i]);
    }
    let board = BoardLayout::standard();
    assert_eq!(board.center, Point { x: -2500, y: 0 });
    assert_eq!(board.radius, 30000);
    assert_eq!(board.angle_offset, 45900);
    assert_eq!(board.rings, RingThresholds::standard());
}

#[test]
fn layout_errors() {
    let rings = RingThresholds::standard();
    let c = Point { x: 0, y: 0 };
    assert_eq!(BoardLayout::new(c, 0, rings, &canonical_scores(), 0).unwrap_err(), LayoutError::ZeroRadius);
    let mut bad_rings = rings;
    bad_rings.treble_far = bad_rings.treble_near;
    assert_eq!(BoardLayout::new(c, 300, bad_rings, &canonical_scores(), 0).unwrap_err(), LayoutError::InvalidRings);
    let mut too_wide = rings;
    too_wide.double_far = 101;
    assert_eq!(BoardLayout::new(c, 300, too_wide, &canonical_scores(), 0).unwrap_err(), LayoutError::InvalidRings);
    let mut zero_bull = rings;
    zero_bull.bullseye = 0;
    assert!(!zero_bull.is_valid());
    let mut repeated = canonical_scores();
    repeated[3] = 20;
    assert_eq!(BoardLayout::new(c, 300, rings, &repeated, 0).unwrap_err(), LayoutError::InvalidScores);
    let short: Vec<i32> = (1..20).collect();
    assert_eq!(BoardLayout::new(c, 300, rings, &short, 0).unwrap_err(), LayoutError::InvalidScores);
    let out_of_range: Vec<i32> = (0..20).collect();
    assert_eq!(BoardLayout::new(c, 300, rings, &out_of_range, 0).unwrap_err(), LayoutError::InvalidScores);
    // a zero radius is reported before bad rings
    assert_eq!(BoardLayout::new(c, 0, bad_rings, &repeated, 0).unwrap_err(), LayoutError::ZeroRadius);
}

#[test]
fn score_permutations() {
    assert!(scores_are_permutation(&canonical_scores()));
    let natural: Vec<i32> = (1..=20).collect();
    assert!(scores_are_permutation(&natural));
    let mut swapped = canonical_scores();
    swapped.swap(0, 19);
    assert!(scores_are_permutation(&swapped));
    assert!(!scores_are_permutation(&vec![]));
    let mut dup = natural.clone();
    dup[19] = 1;
    assert!(!scores_are_permutation(&dup));
    let mut big = natural;
    big[0] = 21;
    assert!(!scores_are_permutation(&big));
}

#[test]
fn bands_are_decided_on_the_exact_distance() {
    let board = example_board();
    // exactly 0.18 of the radius: the outer double wire is inside
    let on_wire = resolve_score(54 * 54, 900, &board);
    assert_eq!(on_wire.outcome, HitOutcome::Double(20));
    assert_eq!(on_wire.normalized_distance, 18);
    // 0.184 of the radius rounds to 18 hundredths but lies beyond the wire
    let p = Point { x: 0, y: 552 };
    let std_board = BoardLayout::standard();
    let beyond = resolve_shot(
        Point { x: -2500, y: 5520 },
        raw_angle(Point { x: -2500, y: 5520 }, std_board.center),
        &std_board,
    );
    assert_eq!(beyond.normalized_distance, 18);
    assert_eq!(beyond.outcome, HitOutcome::Miss);
    assert_eq!(beyond.score_delta, 0);
    assert_eq!(sq_distance(p, Point { x: 0, y: 0 }), 552 * 552);
    // one unit squared past the treble wire is a single
    let past_treble = resolve_score(33 * 33 + 1, 900, &board);
    assert_eq!(past_treble.outcome, HitOutcome::Single(20));
    assert_eq!(past_treble.normalized_distance, 11);
    // the bullseye wire at 0.01 of the radius
    assert_eq!(resolve_score(9, 900, &board).outcome, HitOutcome::Bullseye);
    assert_eq!(resolve_score(10, 900, &board).outcome, HitOutcome::HalfBullseye);
}

#[test]
fn band_comparisons() {
    assert!(is_within(9, 300, 1));
    assert!(!is_within(10, 300, 1));
    assert!(is_reaching(9, 300, 1));
    assert!(!is_reaching(8, 300, 1));
    assert!(is_within(MAX_SQ_DIST, u32::MAX, 100) == (10000 * MAX_SQ_DIST <= 10000 * (u32::MAX as u128) * (u32::MAX as u128)));
    assert!(!is_within(MAX_SQ_DIST, 1, 100));
    assert_eq!(rounded_hundredths(0, 1), 0);
    assert_eq!(rounded_hundredths(25, 1), 500);
    assert_eq!(sq_distance(Point { x: i32::MIN, y: i32::MIN }, Point { x: i32::MAX, y: i32::MAX }), MAX_SQ_DIST);
}
