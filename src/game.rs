//! Match state: the players' totals, the darts left in a turn and whose turn
//! it is, and how a shot changes them.
use vstd::prelude::*;

use crate::board::{BoardLayout, Point, BOARD_CENTER_X, BOARD_CENTER_Y, FULL_CIRCLE, MAX_SQ_DIST};
use crate::geometry::{calibrated_spec, resolve_shot, sq_dist};
use crate::score::{is_shot_result, resolve_score, ShotResult};

verus! {

/// Total each player starts from; shots count it down.
pub const STARTING_TOTAL: i32 = 301;

/// Darts a player throws in one turn.
pub const DARTS_PER_TURN: i8 = 3;

/// The largest number of points a single dart can take off a total.
pub const MAX_SHOT_POINTS: i32 = 60;

/// The running totals of both players.
#[derive(Clone, Copy, Debug, PartialEq, Eq, Structural)]
pub struct ScoreBoard {
    pub player: i32,
    pub opponent: i32,
}

/// Darts left to the player in the current turn.
#[derive(Clone, Copy, Debug, PartialEq, Eq, Structural)]
pub struct DartsLeft(pub i8);

impl DartsLeft {
    /// A fresh turn's worth of darts.
    pub fn reset(&mut self)
        ensures
            final(self).0 == DARTS_PER_TURN,
    {
        self.0 = DARTS_PER_TURN;
    }

    /// One dart fewer.
    pub fn decrease(&mut self)
        requires
            old(self).0 > i8::MIN,
        ensures
            final(self).0 == old(self).0 - 1,
    {
        self.0 = self.0 - 1;
    }
}

/// Whose turn it is.
#[derive(Clone, Copy, Debug, PartialEq, Eq, Structural, Hash)]
pub enum CurrentTurn {
    Player,
    Opponent,
}

/// Whether the mouse cursor is inside the window.
#[derive(Clone, Copy, Debug, PartialEq, Eq, Structural)]
pub struct MouseOnScreen(pub bool);

/// Last known mouse position in world coordinates.
#[derive(Clone, Copy, Debug, PartialEq, Eq, Structural)]
pub struct MousePosition(pub Point);

/// Whether the player is holding the aim steady.
#[derive(Clone, Copy, Debug, PartialEq, Eq, Structural)]
pub struct AimIsFocused(pub bool);

/// Everything a match keeps between shots.
#[derive(Clone, Copy, Debug, PartialEq, Eq, Structural)]
pub struct MatchState {
    pub scoreboard: ScoreBoard,
    pub darts_left: DartsLeft,
    pub turn: CurrentTurn,
    pub mouse_on_screen: MouseOnScreen,
    pub mouse_position: MousePosition,
    pub aim_focused: AimIsFocused,
}

/// The state a match starts in: both totals at the starting total, a full
/// turn of darts, the player to throw, the mouse on screen over the board
/// centre and the aim not focused.
pub fn setup_logic() -> (r: MatchState)
    ensures
        r.scoreboard == (ScoreBoard { player: STARTING_TOTAL, opponent: STARTING_TOTAL }),
        r.darts_left == DartsLeft(DARTS_PER_TURN),
        r.turn == CurrentTurn::Player,
        r.mouse_on_screen == MouseOnScreen(true),
        r.mouse_position == MousePosition(Point { x: BOARD_CENTER_X, y: BOARD_CENTER_Y }),
        r.aim_focused == AimIsFocused(false),
{
    MatchState {
        scoreboard: ScoreBoard { player: STARTING_TOTAL, opponent: STARTING_TOTAL },
        darts_left: DartsLeft(DARTS_PER_TURN),
        turn: CurrentTurn::Player,
        mouse_on_screen: MouseOnScreen(true),
        mouse_position: MousePosition(Point { x: BOARD_CENTER_X, y: BOARD_CENTER_Y }),
        aim_focused: AimIsFocused(false),
    }
}

/// Whether it is the player's turn.
pub fn is_player_turn(turn: &CurrentTurn) -> (r: bool)
    ensures
        r == (*turn == CurrentTurn::Player),
{
    *turn == CurrentTurn::Player
}

/// Hands the turn to the opponent once the player has no darts left, and
/// refills the darts; otherwise changes nothing.
pub fn check_turn(turn: &mut CurrentTurn, darts: &mut DartsLeft)
    ensures
        (*old(turn) == CurrentTurn::Player && old(darts).0 <= 0) ==> (*final(turn)
            == CurrentTurn::Opponent && final(darts).0 == DARTS_PER_TURN),
        !(*old(turn) == CurrentTurn::Player && old(darts).0 <= 0) ==> (*final(turn) == *old(turn)
            && *final(darts) == *old(darts)),
{
    let player_turn = is_player_turn(turn);
    let no_darts_left = darts.0 <= 0;
    if player_turn && no_darts_left {
        *turn = CurrentTurn::Opponent;
        darts.reset();
    }
}

/// Scores a dart whose squared distance from the board centre is
/// `sq_dist` and whose board angle is `degrees`, and applies it to the
/// player's total; the opponent's total is kept.
pub fn update_scoreboard(sq_dist: u128, degrees: u32, scoreboard: &mut ScoreBoard, layout: &BoardLayout) -> (r: ShotResult)
    requires
        layout.wf(),
        degrees < FULL_CIRCLE,
        sq_dist <= MAX_SQ_DIST,
        old(scoreboard).player >= i32::MIN + MAX_SHOT_POINTS,
    ensures
        is_shot_result(r, sq_dist as int, degrees, *layout),
        final(scoreboard).player == old(scoreboard).player + r.score_delta,
        final(scoreboard).opponent == old(scoreboard).opponent,
{
    let r = resolve_score(sq_dist, degrees, layout);
    proof {
        crate::score::lemma_delta_range(sq_dist as int, degrees as int, *layout);
    }
    apply_shot(scoreboard, &r);
    r
}

/// Adds a shot's delta to the player's total.
fn apply_shot(scoreboard: &mut ScoreBoard, r: &ShotResult)
    requires
        old(scoreboard).player >= i32::MIN + MAX_SHOT_POINTS,
        -MAX_SHOT_POINTS <= r.score_delta <= 0,
    ensures
        final(scoreboard).player == old(scoreboard).player + r.score_delta,
        final(scoreboard).opponent == old(scoreboard).opponent,
{
    scoreboard.player = scoreboard.player + r.score_delta;
}

/// A shot lands at `point`, whose vector to the board centre has the raw
/// angle `raw_angle` (hundredths of a degree): the player has one dart
/// fewer and the shot's delta is applied to the player's total.
pub fn shoot_dart(state: &mut MatchState, point: Point, raw_angle: i32, layout: &BoardLayout) -> (r: ShotResult)
    requires
        layout.wf(),
        old(state).darts_left.0 > i8::MIN,
        old(state).scoreboard.player >= i32::MIN + MAX_SHOT_POINTS,
    ensures
        is_shot_result(
            r,
            sq_dist(point, layout.center),
            calibrated_spec(raw_angle as int, layout.angle_offset as int) as u32,
            *layout,
        ),
        r.angle_degrees == calibrated_spec(raw_angle as int, layout.angle_offset as int),
        final(state).darts_left.0 == old(state).darts_left.0 - 1,
        final(state).scoreboard.player == old(state).scoreboard.player + r.score_delta,
        final(state).scoreboard.opponent == old(state).scoreboard.opponent,
        final(state).turn == old(state).turn,
        final(state).mouse_on_screen == old(state).mouse_on_screen,
        final(state).mouse_position == old(state).mouse_position,
        final(state).aim_focused == old(state).aim_focused,
{
    state.darts_left.decrease();
    let r = resolve_shot(point, raw_angle, layout);
    proof {
        crate::score::lemma_delta_range(sq_dist(point, layout.center), r.angle_degrees as int, *layout);
    }
    apply_shot(&mut state.scoreboard, &r);
    r
}

} // verus!
