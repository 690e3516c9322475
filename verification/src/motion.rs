//! How the primitives move.
//!
//! Each primitive drifts on three waves, one along each axis, and turns and
//! tilts at a steady rate. Primitives differ by their index: it shifts the
//! phase of each wave and raises the rates of turn and tilt. This module
//! holds the angles, which are whole-number arithmetic, and puts a pose
//! together from the cosines and sines of those angles, which it leaves to
//! the caller.
//!
//! Time is in milliseconds, the pace of the motion in thousandths, angles in
//! millionths of a radian.

use vstd::prelude::*;
use crate::field::{in_unit, Placement, Point, Pose, Position, Rotation, Turn, UNIT};
use crate::fixed::floor_div;
use crate::scene::{clamped_count, effective_cube_count};

verus! {

/// How far a primitive drifts from the origin along x, at most.
pub const DRIFT_X: i64 = 3_500_000;

/// How far a primitive drifts from the origin along y, at most.
pub const DRIFT_Y: i64 = 2_000_000;

/// How far a primitive drifts from the origin along z, at most.
pub const DRIFT_Z: i64 = 1_500_000;

/// Rate of the wave along x, in thousandths of a radian a second.
pub const PACE_X: i64 = 500;

/// Rate of the wave along y, in thousandths of a radian a second.
pub const PACE_Y: i64 = 700;

/// Rate of the wave along z, in thousandths of a radian a second.
pub const PACE_Z: i64 = 300;

/// Phase that the wave along x gains from one primitive to the next.
pub const PHASE_X: i64 = 1_047_000;

/// Phase that the wave along y gains from one primitive to the next.
pub const PHASE_Y: i64 = 800_000;

/// Phase that the wave along z gains from one primitive to the next.
pub const PHASE_Z: i64 = 2_100_000;

/// Rate of turn of the first primitive, in thousandths of a radian a second.
pub const SPIN_PACE: i64 = 200;

/// Rate of turn that each primitive has over the one before it.
pub const SPIN_GAIN: i64 = 100;

/// Rate of tilt of the first primitive, in thousandths of a radian a second.
pub const TILT_PACE: i64 = 150;

/// Rate of tilt that each primitive has over the one before it.
pub const TILT_GAIN: i64 = 50;

/// The five angles that place a primitive.
#[derive(Clone, Copy, Debug, PartialEq, Eq)]
pub struct Angles {
    /// Angle of the wave along x; the primitive stands at its sine.
    pub drift_x: i128,
    /// Angle of the wave along y; the primitive stands at its cosine.
    pub drift_y: i128,
    /// Angle of the wave along z; the primitive stands at its sine.
    pub drift_z: i128,
    /// Angle of the turn in the plane of x and z.
    pub spin: i128,
    /// Angle of the tilt in the plane of y and z.
    pub tilt: i128,
}

/// An angle that grows with time at `pace` thousandths of a radian a second
/// for a motion of unit pace, rounded down, from a start of `phase`.
pub open spec fn angle_at(time: int, speed: int, pace: int, phase: int) -> int {
    time * speed * pace / 1000 + phase
}

/// The angles of primitive `index` at `time` milliseconds, for a motion of
/// `speed` thousandths of the unit pace.
pub open spec fn angles_at(index: int, time: int, speed: int) -> Angles {
    Angles {
        drift_x: angle_at(time, speed, PACE_X as int, index * PHASE_X) as i128,
        drift_y: angle_at(time, speed, PACE_Y as int, index * PHASE_Y) as i128,
        drift_z: angle_at(time, speed, PACE_Z as int, index * PHASE_Z) as i128,
        spin: angle_at(time, speed, SPIN_PACE + index * SPIN_GAIN, 0) as i128,
        tilt: angle_at(time, speed, TILT_PACE + index * TILT_GAIN, 0) as i128,
    }
}

/// The placement of a primitive whose five angles have the given cosines and
/// sines: it stands at the sine of the first angle along x, at the cosine of
/// the second along y and at the sine of the third along z, each stretched to
/// the reach of its drift and rounded down; the fourth angle is its turn and
/// the fifth its tilt.
pub open spec fn posed(
    drift_x: Rotation,
    drift_y: Rotation,
    drift_z: Rotation,
    spin: Rotation,
    tilt: Rotation,
) -> Placement {
    Placement {
        offset: Position {
            x: drift_x.sin * DRIFT_X / (UNIT as int),
            y: drift_y.cos * DRIFT_Y / (UNIT as int),
            z: drift_z.sin * DRIFT_Z / (UNIT as int),
        },
        spin,
        tilt,
    }
}

/// What primitive `index` has over the first when each primitive gains
/// `step` on the one before it.
fn gained(index: u32, step: i64) -> (gain: i128)
    requires
        0 <= step <= 4_000_000,
    ensures
        gain == index * step,
        0 <= gain <= 0x8000_0000_0000_0000,
{
    assert(0 <= index * step <= 0xffff_ffff * 4_000_000) by (nonlinear_arith)
        requires
            0 <= index <= 0xffff_ffff,
            0 <= step <= 4_000_000,
    ;
    (index as i128) * (step as i128)
}

/// An angle that grows with time.
fn angle(time: u32, speed: i32, pace: i128, phase: i128) -> (angle: i128)
    requires
        0 <= pace <= 0x1_0000_0000_0000,
        0 <= phase <= 0x1_0000_0000_0000_0000,
    ensures
        angle == angle_at(time as int, speed as int, pace as int, phase as int),
        -0x1_0000_0000_0000_0000_0000_0000_0000 <= angle <= 0x1_0000_0000_0000_0000_0000_0000_0000,
{
    assert(-0x8000_0000_0000_0000 <= time * speed <= 0x8000_0000_0000_0000) by (nonlinear_arith)
        requires
            0 <= time <= 0xffff_ffff,
            -0x8000_0000 <= speed <= 0x7fff_ffff,
    ;
    let swept: i128 = (time as i128) * (speed as i128);
    assert(-0x8000_0000_0000_0000_0000_0000_0000 <= swept * pace
        <= 0x8000_0000_0000_0000_0000_0000_0000) by (nonlinear_arith)
        requires
            -0x8000_0000_0000_0000 <= swept <= 0x8000_0000_0000_0000,
            0 <= pace <= 0x1_0000_0000_0000,
    ;
    floor_div(swept * pace, 1000) + phase
}

/// The angles of primitive `index` at `time` milliseconds, for a motion of
/// `speed` thousandths of the unit pace.
pub fn angles(index: u32, time: u32, speed: i32) -> (angles: Angles)
    ensures
        angles == angles_at(index as int, time as int, speed as int),
{
    Angles {
        drift_x: angle(time, speed, PACE_X as i128, gained(index, PHASE_X)),
        drift_y: angle(time, speed, PACE_Y as i128, gained(index, PHASE_Y)),
        drift_z: angle(time, speed, PACE_Z as i128, gained(index, PHASE_Z)),
        spin: angle(time, speed, SPIN_PACE as i128 + gained(index, SPIN_GAIN), 0),
        tilt: angle(time, speed, TILT_PACE as i128 + gained(index, TILT_GAIN), 0),
    }
}

/// One coordinate of the place of a primitive: a cosine or sine stretched to
/// the reach of the drift.
fn stretched(wave: i64, reach: i64) -> (at: i64)
    requires
        in_unit(wave as int),
        0 <= reach <= 4_000_000,
    ensures
        at == wave * reach / (UNIT as int),
        -reach <= at <= reach,
{
    assert(-UNIT * reach <= wave * reach <= UNIT * reach) by (nonlinear_arith)
        requires
            -UNIT <= wave <= UNIT,
            0 <= reach,
    ;
    let product: i128 = (wave as i128) * (reach as i128);
    let at: i128 = floor_div(product, UNIT as i128);
    assert(-reach <= at <= reach) by (nonlinear_arith)
        requires
            at == (product as int) / (UNIT as int),
            -UNIT * reach <= product <= UNIT * reach,
            UNIT > 0,
    ;
    at as i64
}

/// The pose of a primitive whose five angles have the given cosines and
/// sines.
pub fn pose(drift_x: Turn, drift_y: Turn, drift_z: Turn, spin: Turn, tilt: Turn) -> (pose: Pose)
    ensures
        pose@ == posed(drift_x@, drift_y@, drift_z@, spin@, tilt@),
{
    let x: i64 = stretched(drift_x.sine(), DRIFT_X);
    let y: i64 = stretched(drift_y.cosine(), DRIFT_Y);
    let z: i64 = stretched(drift_z.sine(), DRIFT_Z);
    let offset: Option<Point> = Point::new(x, y, z);
    Pose { offset: offset.unwrap(), spin, tilt }
}

/// The pose of primitive `index` at `time` milliseconds, for a motion of
/// `speed` thousandths of the unit pace. `turn_of` gives the cosine and sine
/// of an angle; it is asked for each of the five angles of the primitive in
/// turn.
pub fn pose_at<F: Fn(i128) -> Turn>(index: u32, time: u32, speed: i32, turn_of: F) -> (pose: Pose)
    requires
        forall|angle: i128| call_requires(turn_of, (angle,)),
    ensures
        is_pose_at(pose, index as int, time as int, speed as int, turn_of),
{
    let angles: Angles = angles(index, time, speed);
    let drift_x: Turn = turn_of(angles.drift_x);
    let drift_y: Turn = turn_of(angles.drift_y);
    let drift_z: Turn = turn_of(angles.drift_z);
    let spin: Turn = turn_of(angles.spin);
    let tilt: Turn = turn_of(angles.tilt);
    let pose: Pose = pose(drift_x, drift_y, drift_z, spin, tilt);
    assert(pose@ == posed(drift_x@, drift_y@, drift_z@, spin@, tilt@));
    pose
}

/// Whether `pose` is a pose of primitive `index` at `time`: the pose that the
/// cosines and sines make which `turn_of` gives for the five angles of the
/// primitive.
pub open spec fn is_pose_at<F: Fn(i128) -> Turn>(
    pose: Pose,
    index: int,
    time: int,
    speed: int,
    turn_of: F,
) -> bool {
    exists|drift_x: Turn, drift_y: Turn, drift_z: Turn, spin: Turn, tilt: Turn|
        #![trigger posed(drift_x@, drift_y@, drift_z@, spin@, tilt@)]
        {
            let angles = angles_at(index, time, speed);
            &&& call_ensures(turn_of, (angles.drift_x,), drift_x)
            &&& call_ensures(turn_of, (angles.drift_y,), drift_y)
            &&& call_ensures(turn_of, (angles.drift_z,), drift_z)
            &&& call_ensures(turn_of, (angles.spin,), spin)
            &&& call_ensures(turn_of, (angles.tilt,), tilt)
            &&& pose@ == posed(drift_x@, drift_y@, drift_z@, spin@, tilt@)
        }
}

/// The poses of the primitives of a scene at `time` milliseconds, in the
/// order of their indices. A scene that asks for more primitives than the
/// limit has as many as the limit.
pub fn poses_at<F: Fn(i128) -> Turn>(count: u32, time: u32, speed: i32, turn_of: F) -> (poses: Vec<
    Pose,
>)
    requires
        forall|angle: i128| call_requires(turn_of, (angle,)),
    ensures
        poses.len() == clamped_count(count),
        forall|i: int|
            0 <= i < poses.len() ==> is_pose_at(
                #[trigger] poses[i],
                i,
                time as int,
                speed as int,
                turn_of,
            ),
{
    let primitives: u32 = effective_cube_count(count);
    let mut poses: Vec<Pose> = Vec::new();
    let mut index: u32 = 0;
    while index < primitives
        invariant
            index <= primitives,
            poses.len() == index,
            forall|angle: i128| call_requires(turn_of, (angle,)),
            forall|i: int|
                0 <= i < poses.len() ==> is_pose_at(
                    #[trigger] poses[i],
                    i,
                    time as int,
                    speed as int,
                    turn_of,
                ),
        decreases primitives - index,
    {
        let pose: Pose = pose_at(index, time, speed, &turn_of);
        poses.push(pose);
        index = index + 1;
    }
    poses
}

/// At time zero nothing has turned yet, and the first primitive has no phase
/// either: all its angles are zero. With the cosine one and the sine zero it
/// stands two units up the axis of y, upright.
pub proof fn lemma_rest(speed: int)
    ensures
        angles_at(0, 0, speed) == (Angles { drift_x: 0, drift_y: 0, drift_z: 0, spin: 0, tilt: 0 }),
        posed(
            Rotation { cos: UNIT as int, sin: 0 },
            Rotation { cos: UNIT as int, sin: 0 },
            Rotation { cos: UNIT as int, sin: 0 },
            Rotation { cos: UNIT as int, sin: 0 },
            Rotation { cos: UNIT as int, sin: 0 },
        ) == (Placement {
            offset: Position { x: 0, y: DRIFT_Y as int, z: 0 },
            spin: Rotation { cos: UNIT as int, sin: 0 },
            tilt: Rotation { cos: UNIT as int, sin: 0 },
        }),
{
    assert(0 * speed == 0) by (nonlinear_arith);
    assert(UNIT * DRIFT_Y / (UNIT as int) == DRIFT_Y);
}

} // verus!
