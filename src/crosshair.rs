//! The crosshair: how mouse motion moves it, how it shakes while aiming,
//! how the aim is focused and how it is kept inside the window.
use rand::Rng;
use vstd::prelude::*;

use crate::board::Point;
use crate::game::{AimIsFocused, MouseOnScreen};

verus! {

/// Shake amplitude per axis while the aim is focused (hundredths of a
/// world unit).
pub const SHAKE_FOC: i32 = 20;

/// Shake amplitude per axis while the aim is not focused (hundredths of a
/// world unit).
pub const SHAKE_UFOC: i32 = 150;

/// Mouse motion is taken modulo this much per axis and event (hundredths
/// of a world unit).
pub const MOTION_STEP: i32 = 500;

/// The crosshair and what was last measured of its aim.
#[derive(Clone, Copy, Debug, PartialEq, Eq, Structural)]
pub struct Crosshair {
    pub position: Point,
    /// Normalised distance from the board centre, in hundredths.
    pub n_dist: u64,
    /// Board angle, in hundredths of a degree.
    pub degrees: u32,
}

impl Crosshair {
    /// A crosshair at `position` with nothing measured yet.
    pub fn new(position: Point) -> (r: Crosshair)
        ensures
            r.position == position,
            r.n_dist == 0,
            r.degrees == 0,
    {
        Crosshair { position, n_dist: 0, degrees: 0 }
    }
}

/// The remainder of `a` divided by `b`, with the sign of `a`.
pub open spec fn trunc_rem(a: int, b: int) -> int {
    if a >= 0 {
        a % b
    } else {
        -((-a) % b)
    }
}

/// How far one motion event moves the crosshair; screen `y` grows
/// downwards, world `y` upwards.
pub open spec fn motion_step(d: Point) -> (int, int) {
    (trunc_rem(d.x as int, MOTION_STEP as int), -trunc_rem(d.y as int, MOTION_STEP as int))
}

/// Where motion events `m` take a crosshair that starts at `(x, y)`.
pub open spec fn moved(x: int, y: int, m: Seq<Point>) -> (int, int)
    decreases m.len(),
{
    if m.len() == 0 {
        (x, y)
    } else {
        let (px, py) = moved(x, y, m.drop_last());
        (px + motion_step(m.last()).0, py + motion_step(m.last()).1)
    }
}

/// Where the crosshair starts before the motion events: it jumps to the
/// cursor when the cursor comes back on screen.
pub open spec fn motion_start(pos: Point, on_screen: bool, cursor: Option<Point>) -> Point {
    match cursor {
        Some(c) => if on_screen {
            pos
        } else {
            c
        },
        None => pos,
    }
}

fn rem_toward_zero(a: i32, b: i32) -> (r: i32)
    requires
        b > 0,
    ensures
        r == trunc_rem(a as int, b as int),
        -b < r < b,
{
    if a >= 0 {
        a % b
    } else {
        let na: i64 = -(a as i64);
        let m: i64 = na % (b as i64);
        -(m as i32)
    }
}

/// Applies the mouse to the crosshair. With the cursor outside the window
/// (`cursor` is `None`) only that is recorded. Otherwise a cursor coming back
/// on screen moves the crosshair to it, and then each motion event moves it
/// by its delta taken modulo `MOTION_STEP` per axis.
pub fn move_crosshair(pos: &mut Point, on_screen: &mut MouseOnScreen, cursor: Option<Point>, motions: &Vec<Point>)
    requires
        ({
            let s = motion_start(*old(pos), old(on_screen).0, cursor);
            let room = MOTION_STEP * motions@.len();
            &&& i32::MIN + room <= s.x <= i32::MAX - room
            &&& i32::MIN + room <= s.y <= i32::MAX - room
        }),
    ensures
        cursor is None ==> *final(pos) == *old(pos) && final(on_screen).0 == false,
        cursor is Some ==> final(on_screen).0 == true && ({
            let s = motion_start(*old(pos), old(on_screen).0, cursor);
            moved(s.x as int, s.y as int, motions@) == (final(pos).x as int, final(pos).y as int)
        }),
{
    match cursor {
        Some(mouse_pos) => {
            if !on_screen.0 {
                *pos = mouse_pos;
                on_screen.0 = true;
            }
            let ghost s = *pos;
            let mut i: usize = 0;
            while i < motions.len()
                invariant
                    i <= motions@.len(),
                    i32::MIN + MOTION_STEP * motions@.len() <= s.x <= i32::MAX - MOTION_STEP * motions@.len(),
                    i32::MIN + MOTION_STEP * motions@.len() <= s.y <= i32::MAX - MOTION_STEP * motions@.len(),
                    s.x - MOTION_STEP * i <= pos.x <= s.x + MOTION_STEP * i,
                    s.y - MOTION_STEP * i <= pos.y <= s.y + MOTION_STEP * i,
                    moved(s.x as int, s.y as int, motions@.take(i as int)) == (pos.x as int, pos.y as int),
                decreases motions.len() - i,
            {
                let d = motions[i];
                let sx = rem_toward_zero(d.x, MOTION_STEP);
                let sy = rem_toward_zero(d.y, MOTION_STEP);
                pos.x = pos.x + sx;
                pos.y = pos.y - sy;
                proof {
                    assert(motions@.take(i + 1).drop_last() =~= motions@.take(i as int));
                }
                i += 1;
            }
            assert(motions@.take(motions@.len() as int) =~= motions@);
        },
        None => {
            on_screen.0 = false;
        },
    }
}

/// Relies on `rand::thread_rng` and `rand::Rng::gen_range`: a value drawn
/// from `low..high`, which must not be empty.
#[verifier::external_body]
fn random_in(low: i32, high: i32) -> (r: i32)
    requires
        low < high,
    ensures
        low <= r < high,
{
    rand::thread_rng().gen_range(low..high)
}

/// The shake amplitude per axis for a focused or unfocused aim.
pub open spec fn shake_amplitude(focused: bool) -> int {
    if focused {
        SHAKE_FOC as int
    } else {
        SHAKE_UFOC as int
    }
}

/// Moves the crosshair by a drawn shake offset `(dx, dy)`.
pub fn apply_shake(pos: &mut Point, dx: i32, dy: i32)
    requires
        i32::MIN + SHAKE_UFOC <= old(pos).x <= i32::MAX - SHAKE_UFOC,
        i32::MIN + SHAKE_UFOC <= old(pos).y <= i32::MAX - SHAKE_UFOC,
        -SHAKE_UFOC <= dx < SHAKE_UFOC,
        -SHAKE_UFOC <= dy < SHAKE_UFOC,
    ensures
        final(pos).x == old(pos).x + dx,
        final(pos).y == old(pos).y + dy,
{
    pos.x = pos.x + dx;
    pos.y = pos.y + dy;
}

/// Shakes the crosshair once: draws an offset per axis from `[-a, a)`,
/// where `a` is the amplitude of the aim, moves the crosshair by it and
/// returns it.
pub fn shake_crosshair(pos: &mut Point, focused: bool) -> (offset: (i32, i32))
    requires
        i32::MIN + SHAKE_UFOC <= old(pos).x <= i32::MAX - SHAKE_UFOC,
        i32::MIN + SHAKE_UFOC <= old(pos).y <= i32::MAX - SHAKE_UFOC,
    ensures
        -shake_amplitude(focused) <= offset.0 < shake_amplitude(focused),
        -shake_amplitude(focused) <= offset.1 < shake_amplitude(focused),
        final(pos).x == old(pos).x + offset.0,
        final(pos).y == old(pos).y + offset.1,
{
    let amp: i32 = if focused {
        SHAKE_FOC
    } else {
        SHAKE_UFOC
    };
    let dx = random_in(-amp, amp);
    let dy = random_in(-amp, amp);
    apply_shake(pos, dx, dy);
    (dx, dy)
}

/// Holding space focuses the aim and releasing it unfocuses it. Returns
/// whether the crosshair should now show its focused image, or `None`
/// where nothing changed.
pub fn focus_aim(space_pressed: bool, space_just_released: bool, focused: &mut AimIsFocused) -> (r: Option<bool>)
    ensures
        space_pressed ==> final(focused).0 == true && r == Some(true),
        !space_pressed && space_just_released ==> final(focused).0 == false && r == Some(false),
        !space_pressed && !space_just_released ==> *final(focused) == *old(focused) && r is None,
{
    if space_pressed {
        focused.0 = true;
        Some(true)
    } else if space_just_released {
        focused.0 = false;
        Some(false)
    } else {
        None
    }
}

/// The half extent of a window of size `size`.
pub open spec fn half_extent(size: u32) -> int {
    size as int / 2
}

/// The nearest value to `v` within `[-h, h]`.
pub open spec fn clamp_spec(v: int, h: int) -> int {
    if v > h {
        h
    } else if v < -h {
        -h
    } else {
        v
    }
}

/// Keeps the crosshair inside a window of `width` by `height` centred on
/// the origin.
pub fn bound_crosshair(pos: &mut Point, width: u32, height: u32)
    ensures
        final(pos).x == clamp_spec(old(pos).x as int, half_extent(width)),
        final(pos).y == clamp_spec(old(pos).y as int, half_extent(height)),
{
    let half_width: i32 = (width / 2) as i32;
    let half_height: i32 = (height / 2) as i32;
    if pos.x > half_width {
        pos.x = half_width;
    }
    if pos.x < -half_width {
        pos.x = -half_width;
    }
    if pos.y > half_height {
        pos.y = half_height;
    }
    if pos.y < -half_height {
        pos.y = -half_height;
    }
}

} // verus!
