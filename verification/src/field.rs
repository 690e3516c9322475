//! The distance field of the scene, the rays that are marched through it and
//! the light on the surfaces they meet, in fixed point.
//!
//! Lengths are millionths of a world unit. A primitive is a cube with a ball
//! cut out of its middle; it stands where its pose puts it. The field of the
//! scene at a point is the distance to the nearest primitive.
//!
//! The distance to a cube is taken along the axis on which the point lies
//! furthest out, and the distance to a ball is its true distance rounded;
//! neither exceeds the true distance. The distance to a cube with its middle
//! cut out does: it is the larger of the distance to the cube and the
//! distance to the outside of the ball, and near the cut that can be too
//! large, so a march that steps by it may step over a thin shell. The field
//! is kept as it is all the same, and no step is damped on that account.

use vstd::prelude::*;
use crate::fixed::{floor_div, floor_root, integer_root};
use crate::march::{
    advanced, bounded, started, March, MarchState, Status, FAR_DISTANCE, MAX_STEPS,
};
use crate::scene::MAX_CUBES;

verus! {

/// Millionths in one world unit. Also the scale of the cosine and sine of a
/// turn.
pub const UNIT: i64 = 1_000_000;

/// Largest coordinate of a point, either way.
pub const REACH: i64 = 1_000_000_000_000;

/// The distance read where the scene has no primitive at all.
pub const VOID: i64 = 10_000_000_000_000_000;

/// Radius of the cut, in tenths of the half extent of the cube.
pub const CUT_TENTHS: i64 = 14;

/// How far from a point the field is read to either side for its slope.
pub const PROBE: i64 = 5_000;

/// The least light on a surface, in millionths of the full light.
pub const AMBIENT: i64 = 200_000;

/// A point in space.
pub struct Position {
    pub x: int,
    pub y: int,
    pub z: int,
}

/// A turn in a plane, given by its cosine and sine.
pub struct Rotation {
    pub cos: int,
    pub sin: int,
}

/// Where a primitive stands: the place of its middle, its turn about the
/// upright axis and its tilt after that.
pub struct Placement {
    pub offset: Position,
    pub spin: Rotation,
    pub tilt: Rotation,
}

/// A number without its sign.
pub open spec fn magnitude(a: int) -> int {
    if a < 0 {
        -a
    } else {
        a
    }
}

/// The larger of two numbers.
pub open spec fn larger(a: int, b: int) -> int {
    if a >= b {
        a
    } else {
        b
    }
}

/// The smaller of two numbers.
pub open spec fn smaller(a: int, b: int) -> int {
    if a <= b {
        a
    } else {
        b
    }
}

/// The pair `(a, b)` turned in its plane, each coordinate rounded down.
pub open spec fn turned(turn: Rotation, a: int, b: int) -> (int, int) {
    ((turn.cos * a - turn.sin * b) / (UNIT as int), (turn.sin * a + turn.cos * b) / (UNIT as int))
}

/// A point of the scene as a primitive sees it: moved so that the middle of
/// the primitive is the origin, then turned in the plane of x and z, then
/// tilted in the plane of y and z.
pub open spec fn local_point(placement: Placement, point: Position) -> Position {
    let x = point.x - placement.offset.x;
    let y = point.y - placement.offset.y;
    let z = point.z - placement.offset.z;
    let spun = turned(placement.spin, x, z);
    let tilted = turned(placement.tilt, y, spun.1);
    Position { x: spun.0, y: tilted.0, z: tilted.1 }
}

/// Distance from a point to the cube of the given half extent around the
/// origin; negative inside the cube.
pub open spec fn cube_distance(point: Position, half_extent: int) -> int {
    larger(magnitude(point.x), larger(magnitude(point.y), magnitude(point.z))) - half_extent
}

/// Distance from a point to the origin, rounded down.
pub open spec fn length(point: Position) -> int {
    floor_root(point.x * point.x + point.y * point.y + point.z * point.z)
}

/// Radius of the ball that is cut out of a cube of the given half extent.
pub open spec fn cut_radius(half_extent: int) -> int {
    half_extent * CUT_TENTHS / 10
}

/// Distance from a point to a cube with its middle cut out: the larger of the
/// distance to the cube and the distance to the outside of the ball.
pub open spec fn carved_distance(point: Position, half_extent: int) -> int {
    larger(cut_radius(half_extent) - length(point), cube_distance(point, half_extent))
}

/// Distance from a point of the scene to one primitive.
pub open spec fn primitive_distance(placement: Placement, point: Position, half_extent: int) -> int {
    carved_distance(local_point(placement, point), half_extent)
}

/// Distance from a point to the nearest of some primitives, and [`VOID`]
/// where there is none.
pub open spec fn nearest(placements: Seq<Placement>, point: Position, half_extent: int) -> int
    decreases placements.len(),
{
    if placements.len() == 0 {
        VOID as int
    } else {
        smaller(
            nearest(placements.drop_last(), point, half_extent),
            primitive_distance(placements.last(), point, half_extent),
        )
    }
}

/// A point moved by the given steps.
pub open spec fn moved(point: Position, dx: int, dy: int, dz: int) -> Position {
    Position { x: point.x + dx, y: point.y + dy, z: point.z + dz }
}

/// The slope of the field at a point: along each axis, the field a little
/// ahead of the point less the field as far behind it. It points away from
/// the surface.
pub open spec fn slope(placements: Seq<Placement>, point: Position, half_extent: int) -> Position {
    Position {
        x: scene_distance(placements, moved(point, PROBE as int, 0, 0), half_extent)
            - scene_distance(placements, moved(point, -PROBE, 0, 0), half_extent),
        y: scene_distance(placements, moved(point, 0, PROBE as int, 0), half_extent)
            - scene_distance(placements, moved(point, 0, -PROBE, 0), half_extent),
        z: scene_distance(placements, moved(point, 0, 0, PROBE as int), half_extent)
            - scene_distance(placements, moved(point, 0, 0, -PROBE), half_extent),
    }
}

/// The light on a surface that faces along `facing`, in millionths: the
/// cosine of the angle between `facing` and the way (1, 2, 1) to the lamp,
/// with the product of their lengths rounded up to the next whole number and
/// the quotient rounded down, but at least [`AMBIENT`].
pub open spec fn light_of(facing: Position) -> int {
    let toward = facing.x + 2 * facing.y + facing.z;
    let over = floor_root(
        6 * (facing.x * facing.x + facing.y * facing.y + facing.z * facing.z),
    ) + 1;
    larger(AMBIENT as int, toward * UNIT / over)
}

/// The light on the surface at a point of the scene.
pub open spec fn light_at(placements: Seq<Placement>, point: Position, half_extent: int) -> int {
    light_of(slope(placements, point, half_extent))
}

/// The primitives that count: the first [`MAX_CUBES`] of those given.
pub open spec fn counted(placements: Seq<Placement>) -> Seq<Placement> {
    if placements.len() > MAX_CUBES {
        placements.take(MAX_CUBES as int)
    } else {
        placements
    }
}

/// The field of the scene at a point.
pub open spec fn scene_distance(placements: Seq<Placement>, point: Position, half_extent: int) -> int {
    nearest(counted(placements), point, half_extent)
}

/// A point no further than [`REACH`] from the origin along any axis.
#[derive(Clone, Copy, Debug, PartialEq, Eq)]
pub struct Point {
    x: i64,
    y: i64,
    z: i64,
}

impl View for Point {
    type V = Position;

    closed spec fn view(&self) -> Position {
        Position { x: self.x as int, y: self.y as int, z: self.z as int }
    }
}

/// Whether a coordinate lies within [`REACH`].
pub open spec fn in_reach(a: int) -> bool {
    -REACH <= a <= REACH
}

impl Point {
    #[verifier::type_invariant]
    spec fn well_formed(self) -> bool {
        in_reach(self.x as int) && in_reach(self.y as int) && in_reach(self.z as int)
    }

    /// The point with the given coordinates, if each lies within [`REACH`].
    pub fn new(x: i64, y: i64, z: i64) -> (point: Option<Point>)
        ensures
            point.is_some() <==> in_reach(x as int) && in_reach(y as int) && in_reach(z as int),
            point.is_some() ==> point.unwrap()@ == (Position {
                x: x as int,
                y: y as int,
                z: z as int,
            }),
    {
        if -REACH <= x && x <= REACH && -REACH <= y && y <= REACH && -REACH <= z && z <= REACH {
            Some(Point { x, y, z })
        } else {
            None
        }
    }

    /// The coordinates of the point.
    pub fn coordinates(&self) -> (at: (i64, i64, i64))
        ensures
            at.0 == self@.x,
            at.1 == self@.y,
            at.2 == self@.z,
            in_reach(at.0 as int) && in_reach(at.1 as int) && in_reach(at.2 as int),
    {
        proof {
            use_type_invariant(self);
        }
        (self.x, self.y, self.z)
    }
}

/// A turn whose cosine and sine are at most one in size.
#[derive(Clone, Copy, Debug, PartialEq, Eq)]
pub struct Turn {
    cos: i64,
    sin: i64,
}

impl View for Turn {
    type V = Rotation;

    closed spec fn view(&self) -> Rotation {
        Rotation { cos: self.cos as int, sin: self.sin as int }
    }
}

/// Whether a cosine or sine is at most one in size.
pub open spec fn in_unit(a: int) -> bool {
    -UNIT <= a <= UNIT
}

impl Turn {
    #[verifier::type_invariant]
    spec fn well_formed(self) -> bool {
        in_unit(self.cos as int) && in_unit(self.sin as int)
    }

    /// The turn with the given cosine and sine, in millionths, if each is at
    /// most one in size.
    pub fn new(cos: i64, sin: i64) -> (turn: Option<Turn>)
        ensures
            turn.is_some() <==> in_unit(cos as int) && in_unit(sin as int),
            turn.is_some() ==> turn.unwrap()@ == (Rotation { cos: cos as int, sin: sin as int }),
    {
        if -UNIT <= cos && cos <= UNIT && -UNIT <= sin && sin <= UNIT {
            Some(Turn { cos, sin })
        } else {
            None
        }
    }

    /// The turn that leaves everything where it is.
    pub fn none() -> (turn: Turn)
        ensures
            turn@ == (Rotation { cos: UNIT as int, sin: 0 }),
    {
        Turn { cos: UNIT, sin: 0 }
    }

    /// The cosine of the turn, in millionths.
    pub fn cosine(&self) -> (cos: i64)
        ensures
            cos == self@.cos,
            in_unit(cos as int),
    {
        proof {
            use_type_invariant(self);
        }
        self.cos
    }

    /// The sine of the turn, in millionths.
    pub fn sine(&self) -> (sin: i64)
        ensures
            sin == self@.sin,
            in_unit(sin as int),
    {
        proof {
            use_type_invariant(self);
        }
        self.sin
    }

    /// The pair `(a, b)` turned in its plane.
    fn apply(&self, a: i128, b: i128) -> (pair: (i128, i128))
        requires
            magnitude(a as int) <= 6 * REACH,
            magnitude(b as int) <= 6 * REACH,
        ensures
            (pair.0 as int, pair.1 as int) == turned(self@, a as int, b as int),
            magnitude(pair.0 as int) <= magnitude(a as int) + magnitude(b as int),
            magnitude(pair.1 as int) <= magnitude(a as int) + magnitude(b as int),
    {
        proof {
            use_type_invariant(self);
        }
        let c: i128 = self.cos as i128;
        let s: i128 = self.sin as i128;
        let ghost bound = magnitude(a as int) + magnitude(b as int);
        assert(-UNIT * magnitude(a as int) <= c * a <= UNIT * magnitude(a as int)
            && -UNIT * magnitude(a as int) <= s * a <= UNIT * magnitude(a as int)) by (nonlinear_arith)
            requires
                -UNIT <= c <= UNIT,
                -UNIT <= s <= UNIT,
        ;
        assert(-UNIT * magnitude(b as int) <= c * b <= UNIT * magnitude(b as int)
            && -UNIT * magnitude(b as int) <= s * b <= UNIT * magnitude(b as int)) by (nonlinear_arith)
            requires
                -UNIT <= c <= UNIT,
                -UNIT <= s <= UNIT,
        ;
        let first: i128 = c * a - s * b;
        let second: i128 = s * a + c * b;
        let across: i128 = floor_div(first, UNIT as i128);
        let along: i128 = floor_div(second, UNIT as i128);
        assert(-bound <= across <= bound) by (nonlinear_arith)
            requires
                across == (first as int) / (UNIT as int),
                -UNIT * bound <= first <= UNIT * bound,
                UNIT > 0,
        ;
        assert(-bound <= along <= bound) by (nonlinear_arith)
            requires
                along == (second as int) / (UNIT as int),
                -UNIT * bound <= second <= UNIT * bound,
                UNIT > 0,
        ;
        (across, along)
    }
}

/// Where a primitive stands.
#[derive(Clone, Copy, Debug, PartialEq, Eq)]
pub struct Pose {
    /// The place of its middle.
    pub offset: Point,
    /// Its turn in the plane of x and z.
    pub spin: Turn,
    /// Its tilt in the plane of y and z, after the turn.
    pub tilt: Turn,
}

impl View for Pose {
    type V = Placement;

    open spec fn view(&self) -> Placement {
        Placement { offset: self.offset@, spin: self.spin@, tilt: self.tilt@ }
    }
}

impl Pose {
    /// A point of the scene as the primitive sees it.
    fn localize(&self, x: i128, y: i128, z: i128) -> (local: (i128, i128, i128))
        requires
            magnitude(x as int) <= 2 * REACH,
            magnitude(y as int) <= 2 * REACH,
            magnitude(z as int) <= 2 * REACH,
        ensures
            (Position { x: local.0 as int, y: local.1 as int, z: local.2 as int }) == local_point(
                self@,
                Position { x: x as int, y: y as int, z: z as int },
            ),
            magnitude(local.0 as int) <= 9 * REACH,
            magnitude(local.1 as int) <= 9 * REACH,
            magnitude(local.2 as int) <= 9 * REACH,
    {
        let middle: (i64, i64, i64) = self.offset.coordinates();
        let spun: (i128, i128) = self.spin.apply(x - middle.0 as i128, z - middle.2 as i128);
        let tilted: (i128, i128) = self.tilt.apply(y - middle.1 as i128, spun.1);
        (spun.0, tilted.0, tilted.1)
    }

    /// Distance from a point of the scene to the primitive.
    pub fn distance_to(&self, point: &Point, half_extent: u32) -> (distance: i64)
        ensures
            distance == primitive_distance(self@, point@, half_extent as int),
    {
        let at: (i64, i64, i64) = point.coordinates();
        let local: (i128, i128, i128) = self.localize(at.0 as i128, at.1 as i128, at.2 as i128);
        carve(local, half_extent)
    }
}

/// A number without its sign.
fn unsigned(a: i128) -> (size: i128)
    requires
        a > i128::MIN,
    ensures
        size == magnitude(a as int),
{
    if a < 0 {
        -a
    } else {
        a
    }
}

/// Distance from a point, as a primitive sees it, to the primitive.
fn carve(local: (i128, i128, i128), half_extent: u32) -> (distance: i64)
    requires
        magnitude(local.0 as int) <= 9 * REACH,
        magnitude(local.1 as int) <= 9 * REACH,
        magnitude(local.2 as int) <= 9 * REACH,
    ensures
        distance == carved_distance(
            Position { x: local.0 as int, y: local.1 as int, z: local.2 as int },
            half_extent as int,
        ),
        -0x1_0000_0000 <= distance <= 9 * REACH,
{
    let x: i128 = unsigned(local.0);
    let y: i128 = unsigned(local.1);
    let z: i128 = unsigned(local.2);
    let widest: i128 = if x >= y && x >= z {
        x
    } else if y >= z {
        y
    } else {
        z
    };
    let cube: i128 = widest - half_extent as i128;
    assert(x * x <= 81 * REACH * REACH && x * x == local.0 * local.0) by (nonlinear_arith)
        requires
            0 <= x <= 9 * REACH,
            x == local.0 || x == -local.0,
    ;
    assert(y * y <= 81 * REACH * REACH && y * y == local.1 * local.1) by (nonlinear_arith)
        requires
            0 <= y <= 9 * REACH,
            y == local.1 || y == -local.1,
    ;
    assert(z * z <= 81 * REACH * REACH && z * z == local.2 * local.2) by (nonlinear_arith)
        requires
            0 <= z <= 9 * REACH,
            z == local.2 || z == -local.2,
    ;
    assert(81 * REACH * REACH == 81_000_000_000_000_000_000_000_000int) by (nonlinear_arith);
    let squares: u128 = (x * x + y * y + z * z) as u128;
    let far: u64 = integer_root(squares);
    assert(far <= 16_000_000_000_000u64) by (nonlinear_arith)
        requires
            far * far <= squares,
            squares <= 243_000_000_000_000_000_000_000_000u128,
    ;
    let radius: i128 = (half_extent as i128) * (CUT_TENTHS as i128) / 10;
    let cut: i128 = radius - far as i128;
    if cut >= cube {
        cut as i64
    } else {
        cube as i64
    }
}

/// The field of the scene at the point `(x, y, z)`.
fn distance_at(poses: &Vec<Pose>, x: i128, y: i128, z: i128, half_extent: u32) -> (distance: i64)
    requires
        magnitude(x as int) <= 2 * REACH,
        magnitude(y as int) <= 2 * REACH,
        magnitude(z as int) <= 2 * REACH,
    ensures
        distance == scene_distance(
            placements(poses@),
            Position { x: x as int, y: y as int, z: z as int },
            half_extent as int,
        ),
        -0x1_0000_0000 <= distance <= VOID,
{
    let count: usize = if poses.len() > MAX_CUBES as usize {
        MAX_CUBES as usize
    } else {
        poses.len()
    };
    let ghost all = counted(placements(poses@));
    let ghost point = Position { x: x as int, y: y as int, z: z as int };
    let mut nearest_so_far: i64 = VOID;
    let mut i: usize = 0;
    assert(all.take(0) =~= Seq::<Placement>::empty());
    while i < count
        invariant
            i <= count <= poses.len(),
            all == counted(placements(poses@)),
            all.len() == count,
            point == (Position { x: x as int, y: y as int, z: z as int }),
            magnitude(x as int) <= 2 * REACH,
            magnitude(y as int) <= 2 * REACH,
            magnitude(z as int) <= 2 * REACH,
            nearest_so_far == nearest(all.take(i as int), point, half_extent as int),
            -0x1_0000_0000 <= nearest_so_far <= VOID,
        decreases count - i,
    {
        let local: (i128, i128, i128) = poses[i].localize(x, y, z);
        let one: i64 = carve(local, half_extent);
        proof {
            let grown = all.take(i as int + 1);
            assert(grown.drop_last() =~= all.take(i as int));
            assert(grown.last() == poses@[i as int]@);
        }
        if one < nearest_so_far {
            nearest_so_far = one;
        }
        i = i + 1;
    }
    assert(all.take(count as int) =~= all);
    nearest_so_far
}

/// The field of the scene at a point: the distance to the nearest of the
/// primitives that `poses` places, of which only the first [`MAX_CUBES`]
/// count, and [`VOID`] where there is none.
pub fn distance(poses: &Vec<Pose>, point: &Point, half_extent: u32) -> (distance: i64)
    ensures
        distance == scene_distance(placements(poses@), point@, half_extent as int),
{
    let at: (i64, i64, i64) = point.coordinates();
    distance_at(poses, at.0 as i128, at.1 as i128, at.2 as i128, half_extent)
}

/// The light on the surface at a point: a lamp shines along the way (1, 2, 1),
/// the surface faces along the slope of the field, and the light is the
/// cosine of the angle between the two, but at least [`AMBIENT`].
pub fn light(poses: &Vec<Pose>, point: &Point, half_extent: u32) -> (light: i64)
    ensures
        light == light_at(placements(poses@), point@, half_extent as int),
        AMBIENT <= light <= UNIT,
{
    let at: (i64, i64, i64) = point.coordinates();
    let x: i128 = at.0 as i128;
    let y: i128 = at.1 as i128;
    let z: i128 = at.2 as i128;
    let p: i128 = PROBE as i128;
    let right: i64 = distance_at(poses, x + p, y, z, half_extent);
    let left: i64 = distance_at(poses, x - p, y, z, half_extent);
    let above: i64 = distance_at(poses, x, y + p, z, half_extent);
    let below: i64 = distance_at(poses, x, y - p, z, half_extent);
    let front: i64 = distance_at(poses, x, y, z + p, half_extent);
    let back: i64 = distance_at(poses, x, y, z - p, half_extent);
    let a: i128 = right as i128 - left as i128;
    let b: i128 = above as i128 - below as i128;
    let c: i128 = front as i128 - back as i128;
    let ghost bound: int = VOID + 0x1_0000_0000;
    assert(0 <= a * a <= bound * bound && 0 <= b * b <= bound * bound && 0 <= c * c <= bound
        * bound) by (nonlinear_arith)
        requires
            -bound <= a <= bound,
            -bound <= b <= bound,
            -bound <= c <= bound,
    ;
    assert(bound * bound <= 0x1_0000_0000_0000_0000_0000_0000_0000int) by (nonlinear_arith)
        requires
            bound == 10_000_004_294_967_296int,
    ;
    let squares: u128 = (6 * (a * a + b * b + c * c)) as u128;
    let root: u64 = integer_root(squares);
    let over: i128 = root as i128 + 1;
    let toward: i128 = a + 2 * b + c;
    proof {
        // Six times the squares exceed the square of the sum by a sum of
        // squares.
        assert(6 * (a * a + b * b + c * c) - toward * toward == (2 * a - b) * (2 * a - b) + (a
            - c) * (a - c) + (b - 2 * c) * (b - 2 * c)) by (nonlinear_arith)
            requires
                toward == a + 2 * b + c,
        ;
        assert((2 * a - b) * (2 * a - b) >= 0 && (a - c) * (a - c) >= 0 && (b - 2 * c) * (b - 2
            * c) >= 0) by (nonlinear_arith);
        assert(toward < over) by (nonlinear_arith)
            requires
                toward * toward <= squares,
                squares < over * over,
                over > 0,
        ;
    }
    if toward <= 0 {
        assert(toward * UNIT / (over as int) <= 0) by (nonlinear_arith)
            requires
                toward <= 0,
                over > 0,
                UNIT > 0,
        ;
        return AMBIENT;
    }
    assert(0 <= toward * UNIT / (over as int) <= UNIT && toward * UNIT <= over * UNIT)
        by (nonlinear_arith)
        requires
            0 < toward < over,
            UNIT > 0,
    ;
    let cosine: i128 = toward * (UNIT as i128) / over;
    if cosine > AMBIENT as i128 {
        cosine as i64
    } else {
        AMBIENT
    }
}

/// The placements of a run of poses.
pub open spec fn placements(poses: Seq<Pose>) -> Seq<Placement> {
    Seq::new(poses.len(), |i: int| poses[i]@)
}

/// A ray: where it starts and where it heads.
pub struct Beam {
    pub origin: Position,
    pub heading: Position,
}

/// The point that lies `along` down a ray, each coordinate rounded down.
pub open spec fn beam_point(beam: Beam, along: int) -> Position {
    Position {
        x: beam.origin.x + beam.heading.x * along / (UNIT as int),
        y: beam.origin.y + beam.heading.y * along / (UNIT as int),
        z: beam.origin.z + beam.heading.z * along / (UNIT as int),
    }
}

/// Whether a ray can be marched: its origin lies so far within [`REACH`]
/// that no march leaves it, and its heading is at most one long, so that no
/// step goes further than the distance it was read for.
pub open spec fn marchable(beam: Beam) -> bool {
    &&& in_reach(beam.origin.x - FAR_DISTANCE) && in_reach(beam.origin.x + FAR_DISTANCE)
    &&& in_reach(beam.origin.y - FAR_DISTANCE) && in_reach(beam.origin.y + FAR_DISTANCE)
    &&& in_reach(beam.origin.z - FAR_DISTANCE) && in_reach(beam.origin.z + FAR_DISTANCE)
    &&& in_unit(beam.heading.x) && in_unit(beam.heading.y) && in_unit(beam.heading.z)
    &&& beam.heading.x * beam.heading.x + beam.heading.y * beam.heading.y + beam.heading.z
        * beam.heading.z <= UNIT * UNIT
}

/// The state a march ends in when it goes on from `state` for at most
/// `readings` readings of the field of the scene.
pub open spec fn traced_from(
    state: MarchState,
    beam: Beam,
    placements: Seq<Placement>,
    half_extent: int,
    readings: nat,
) -> MarchState
    decreases readings,
{
    if readings == 0 || state.status != Status::Marching {
        state
    } else {
        let reading = scene_distance(placements, beam_point(beam, state.travelled), half_extent);
        traced_from(
            advanced(state, reading as i64),
            beam,
            placements,
            half_extent,
            (readings - 1) as nat,
        )
    }
}

/// The state in which the march of a ray through the scene ends.
pub open spec fn traced(beam: Beam, placements: Seq<Placement>, half_extent: int) -> MarchState {
    traced_from(started(), beam, placements, half_extent, MAX_STEPS as nat)
}

/// How far in front of the origin the eye stands, on the axis of z.
pub const EYE_DISTANCE: i64 = 10_000_000;

/// How far in front of the eye the screen stands: the larger, the narrower the
/// view.
pub const SCREEN_DISTANCE: i64 = 1_800_000;

/// Width of the screen in thousandths of its height.
pub const ASPECT: i64 = 1770;

/// `a / d` rounded towards zero.
pub open spec fn toward_zero(a: int, d: int) -> int {
    if a >= 0 {
        a / d
    } else {
        -((-a) / d)
    }
}

/// The way from the eye to a point of the screen. The point is given from
/// the middle of the screen, `x` in thousandths of half its width to the
/// right and `y` in thousandths of half its height upwards.
pub open spec fn pixel_aim(screen_x: int, screen_y: int) -> Position {
    Position { x: screen_x * ASPECT, y: screen_y * 1000, z: -(SCREEN_DISTANCE as int) }
}

/// A way cut down to a length of at most one: each coordinate is divided by
/// a whole number just above the length of the way and rounded towards zero.
pub open spec fn shortened(way: Position) -> Position {
    let over = length(way) + 1;
    Position {
        x: toward_zero(way.x * UNIT, over),
        y: toward_zero(way.y * UNIT, over),
        z: toward_zero(way.z * UNIT, over),
    }
}

/// The ray from the eye through a point of the screen.
pub open spec fn pixel_beam(screen_x: int, screen_y: int) -> Beam {
    Beam {
        origin: Position { x: 0, y: 0, z: EYE_DISTANCE as int },
        heading: shortened(pixel_aim(screen_x, screen_y)),
    }
}

/// A ray that can be marched.
#[derive(Clone, Copy, Debug, PartialEq, Eq)]
pub struct Ray {
    origin: (i64, i64, i64),
    heading: (i64, i64, i64),
}

impl View for Ray {
    type V = Beam;

    closed spec fn view(&self) -> Beam {
        Beam {
            origin: Position {
                x: self.origin.0 as int,
                y: self.origin.1 as int,
                z: self.origin.2 as int,
            },
            heading: Position {
                x: self.heading.0 as int,
                y: self.heading.1 as int,
                z: self.heading.2 as int,
            },
        }
    }
}

/// Whether a coordinate lies within [`UNIT`], told at run time.
fn within_unit(a: i64) -> (within: bool)
    ensures
        within == in_unit(a as int),
{
    -UNIT <= a && a <= UNIT
}

/// Whether a march from a coordinate stays within [`REACH`], told at run
/// time.
fn within_margin(a: i64) -> (within: bool)
    ensures
        within == (in_reach(a - FAR_DISTANCE) && in_reach(a + FAR_DISTANCE)),
{
    FAR_DISTANCE - REACH <= a && a <= REACH - FAR_DISTANCE
}

impl Ray {
    #[verifier::type_invariant]
    spec fn well_formed(self) -> bool {
        marchable(self@)
    }

    /// The ray from `origin` that heads along `heading`, if it can be
    /// marched.
    pub fn new(origin: (i64, i64, i64), heading: (i64, i64, i64)) -> (ray: Option<Ray>)
        ensures
            ray.is_some() <==> marchable(
                Beam {
                    origin: Position { x: origin.0 as int, y: origin.1 as int, z: origin.2 as int },
                    heading: Position {
                        x: heading.0 as int,
                        y: heading.1 as int,
                        z: heading.2 as int,
                    },
                },
            ),
            ray.is_some() ==> ray.unwrap()@ == (Beam {
                origin: Position { x: origin.0 as int, y: origin.1 as int, z: origin.2 as int },
                heading: Position {
                    x: heading.0 as int,
                    y: heading.1 as int,
                    z: heading.2 as int,
                },
            }),
    {
        if !(within_margin(origin.0) && within_margin(origin.1) && within_margin(origin.2)) {
            return None;
        }
        if !(within_unit(heading.0) && within_unit(heading.1) && within_unit(heading.2)) {
            return None;
        }
        let x: i128 = heading.0 as i128;
        let y: i128 = heading.1 as i128;
        let z: i128 = heading.2 as i128;
        assert(0 <= x * x <= UNIT * UNIT && 0 <= y * y <= UNIT * UNIT && 0 <= z * z <= UNIT * UNIT)
            by (nonlinear_arith)
            requires
                -UNIT <= x <= UNIT,
                -UNIT <= y <= UNIT,
                -UNIT <= z <= UNIT,
        ;
        assert(UNIT * UNIT == 1_000_000_000_000int) by (nonlinear_arith);
        if x * x + y * y + z * z > (UNIT as i128) * (UNIT as i128) {
            return None;
        }
        Some(Ray { origin, heading })
    }

    /// The ray from the eye through a point of the screen.
    pub fn through_pixel(screen_x: i32, screen_y: i32) -> (ray: Ray)
        ensures
            ray@ == pixel_beam(screen_x as int, screen_y as int),
    {
        let x: i128 = (screen_x as i128) * (ASPECT as i128);
        let y: i128 = (screen_y as i128) * 1000;
        let z: i128 = -(SCREEN_DISTANCE as i128);
        assert(0 <= x * x <= 0x100_0000_0000_0000_0000_0000 && 0 <= y * y
            <= 0x100_0000_0000_0000_0000_0000) by (nonlinear_arith)
            requires
                -0x1000_0000_0000 <= x <= 0x1000_0000_0000,
                -0x1000_0000_0000 <= y <= 0x1000_0000_0000,
        ;
        assert(z * z == 3_240_000_000_000int) by (nonlinear_arith)
            requires
                z == -1_800_000,
        ;
        let squares: u128 = (x * x + y * y + z * z) as u128;
        let root: u64 = integer_root(squares);
        assert(root <= 0x2000_0000_0000u64) by (nonlinear_arith)
            requires
                root * root <= squares,
                squares <= 0x400_0000_0000_0000_0000_0000u128,
        ;
        let over: i128 = root as i128 + 1;
        assert(-over < x < over && -over < y < over && -over < z < over) by (nonlinear_arith)
            requires
                x * x + y * y + z * z < over * over,
                over > 0,
        ;
        let a: i64 = cut_down(x, over);
        let b: i64 = cut_down(y, over);
        let c: i64 = cut_down(z, over);
        proof {
            let total = a * a + b * b + c * c;
            assert(total * (over * over) <= squares * (UNIT * UNIT)) by (nonlinear_arith)
                requires
                    (a * a) * (over * over) <= (x * x) * (UNIT * UNIT),
                    (b * b) * (over * over) <= (y * y) * (UNIT * UNIT),
                    (c * c) * (over * over) <= (z * z) * (UNIT * UNIT),
                    total == a * a + b * b + c * c,
                    squares == x * x + y * y + z * z,
            ;
            assert(total <= UNIT * UNIT) by (nonlinear_arith)
                requires
                    total * (over * over) <= squares * (UNIT * UNIT),
                    squares < over * over,
                    over > 0,
                    UNIT > 0,
            ;
        }
        Ray { origin: (0, 0, EYE_DISTANCE), heading: (a, b, c) }
    }

    /// The point that lies `along` down the ray, for a distance that a march
    /// can have travelled.
    pub fn point_at(&self, along: i64) -> (point: Option<Point>)
        ensures
            point.is_some() <==> 0 <= along <= FAR_DISTANCE,
            point.is_some() ==> point.unwrap()@ == beam_point(self@, along as int),
    {
        if along < 0 || along > FAR_DISTANCE {
            return None;
        }
        proof {
            use_type_invariant(self);
        }
        let x: i64 = offset_along(self.origin.0, self.heading.0, along);
        let y: i64 = offset_along(self.origin.1, self.heading.1, along);
        let z: i64 = offset_along(self.origin.2, self.heading.2, along);
        Point::new(x, y, z)
    }
}

/// One coordinate of a way, cut down by a whole number above the length of
/// the way.
fn cut_down(coordinate: i128, over: i128) -> (cut: i64)
    requires
        -0x1000_0000_0000 <= coordinate <= 0x1000_0000_0000,
        magnitude(coordinate as int) < over <= 0x2000_0000_0001,
    ensures
        cut == toward_zero(coordinate * UNIT, over as int),
        in_unit(cut as int),
        (cut * cut) * (over * over) <= (coordinate * coordinate) * (UNIT * UNIT),
{
    let size: i128 = unsigned(coordinate);
    assert(0 <= size * UNIT <= 0x1000_0000_0000 * UNIT) by (nonlinear_arith)
        requires
            0 <= size <= 0x1000_0000_0000,
            UNIT == 1_000_000,
    ;
    let scaled: i128 = size * (UNIT as i128);
    let part: i128 = scaled / over;
    assert(0 <= part <= UNIT && part * over <= size * UNIT) by (nonlinear_arith)
        requires
            part == scaled / over,
            scaled == size * UNIT,
            0 <= size < over,
            UNIT > 0,
    ;
    assert((part * part) * (over * over) <= (size * size) * (UNIT * UNIT)) by (nonlinear_arith)
        requires
            0 <= part * over <= size * UNIT,
    ;
    assert(size * size == coordinate * coordinate) by (nonlinear_arith)
        requires
            size == coordinate || size == -coordinate,
    ;
    if coordinate >= 0 {
        part as i64
    } else {
        assert((-part) * (-part) == part * part) by (nonlinear_arith);
        assert((-coordinate) * UNIT == -(coordinate * UNIT)) by (nonlinear_arith);
        (-part) as i64
    }
}

/// One coordinate of the point that lies `along` down a ray.
fn offset_along(origin: i64, heading: i64, along: i64) -> (at: i64)
    requires
        in_reach(origin - FAR_DISTANCE) && in_reach(origin + FAR_DISTANCE),
        in_unit(heading as int),
        0 <= along <= FAR_DISTANCE,
    ensures
        at == origin + heading * along / (UNIT as int),
        in_reach(at as int),
{
    assert(-UNIT * FAR_DISTANCE <= heading * along <= UNIT * FAR_DISTANCE) by (nonlinear_arith)
        requires
            -UNIT <= heading <= UNIT,
            0 <= along <= FAR_DISTANCE,
    ;
    let product: i128 = (heading as i128) * (along as i128);
    let step: i128 = floor_div(product, UNIT as i128);
    assert(-FAR_DISTANCE <= step <= FAR_DISTANCE) by (nonlinear_arith)
        requires
            step == (product as int) / (UNIT as int),
            -UNIT * FAR_DISTANCE <= product <= UNIT * FAR_DISTANCE,
            UNIT > 0,
    ;
    (origin as i128 + step) as i64
}

/// Marches a ray through the scene: each reading is the field of the scene
/// at the point the march has reached.
pub fn trace_scene(ray: &Ray, poses: &Vec<Pose>, half_extent: u32) -> (end: March)
    ensures
        end@ == traced(ray@, placements(poses@), half_extent as int),
        end@.status != Status::Marching,
{
    let mut march: March = March::start();
    while march.is_marching()
        invariant
            march@.steps <= MAX_STEPS,
            traced_from(
                march@,
                ray@,
                placements(poses@),
                half_extent as int,
                (MAX_STEPS - march@.steps) as nat,
            ) == traced(ray@, placements(poses@), half_extent as int),
        decreases MAX_STEPS - march@.steps,
    {
        let along: i64 = march.travelled();
        let point: Option<Point> = ray.point_at(along);
        let reading: i64 = distance(poses, &point.unwrap(), half_extent);
        march = march.advance(reading);
    }
    march
}

/// The field has no memory: it depends on nothing but the primitives, the
/// point and the half extent, and read again for the same it is the same.
pub proof fn lemma_same_reading(
    placements: Seq<Placement>,
    point: Position,
    half_extent: int,
    placements_again: Seq<Placement>,
    point_again: Position,
    half_extent_again: int,
)
    requires
        placements =~= placements_again,
        point == point_again,
        half_extent == half_extent_again,
    ensures
        scene_distance(placements, point, half_extent) == scene_distance(
            placements_again,
            point_again,
            half_extent_again,
        ),
{
}

/// The nearest of some primitives is no further than any one of them, and no
/// further than [`VOID`].
pub proof fn lemma_nearest_is_least(
    placements: Seq<Placement>,
    point: Position,
    half_extent: int,
    i: int,
)
    requires
        0 <= i < placements.len(),
    ensures
        nearest(placements, point, half_extent) <= primitive_distance(
            placements[i],
            point,
            half_extent,
        ),
        nearest(placements, point, half_extent) <= VOID,
    decreases placements.len(),
{
    if i < placements.len() - 1 {
        lemma_nearest_is_least(placements.drop_last(), point, half_extent, i);
    } else if placements.len() > 1 {
        lemma_nearest_is_least(placements.drop_last(), point, half_extent, 0);
    }
}

/// The distance to the nearest of some primitives is the distance to one of
/// them, or [`VOID`].
pub proof fn lemma_nearest_is_reached(placements: Seq<Placement>, point: Position, half_extent: int)
    ensures
        nearest(placements, point, half_extent) == VOID || exists|i: int|
            0 <= i < placements.len() && nearest(placements, point, half_extent)
                == primitive_distance(#[trigger] placements[i], point, half_extent),
    decreases placements.len(),
{
    if placements.len() > 0 {
        let rest = placements.drop_last();
        lemma_nearest_is_reached(rest, point, half_extent);
        let all = nearest(placements, point, half_extent);
        if all == primitive_distance(placements.last(), point, half_extent) {
            assert(placements[placements.len() - 1] == placements.last());
        } else if all != VOID {
            let i = choose|i: int|
                0 <= i < rest.len() && nearest(rest, point, half_extent) == primitive_distance(
                    #[trigger] rest[i],
                    point,
                    half_extent,
                );
            assert(placements[i] == rest[i]);
        }
    }
}

/// Primitives beyond the first [`MAX_CUBES`] are not part of the scene: the
/// field is the same without them.
pub proof fn lemma_count_is_clamped(placements: Seq<Placement>, point: Position, half_extent: int)
    requires
        placements.len() > MAX_CUBES,
    ensures
        counted(placements).len() == MAX_CUBES,
        scene_distance(placements, point, half_extent) == scene_distance(
            placements.take(MAX_CUBES as int),
            point,
            half_extent,
        ),
{
}

/// Cutting the middle out of a cube brings no point nearer to it.
pub proof fn lemma_cut_is_not_nearer(point: Position, half_extent: int)
    ensures
        carved_distance(point, half_extent) >= cube_distance(point, half_extent),
{
}

/// A march through the scene goes on from a bounded state to a bounded state,
/// and with readings left for every step it can still take it comes to an
/// end.
pub proof fn lemma_traced_from_ends(
    state: MarchState,
    beam: Beam,
    placements: Seq<Placement>,
    half_extent: int,
    readings: nat,
)
    requires
        bounded(state),
        state.steps + readings >= MAX_STEPS,
    ensures
        bounded(traced_from(state, beam, placements, half_extent, readings)),
        traced_from(state, beam, placements, half_extent, readings).status != Status::Marching,
    decreases readings,
{
    if readings > 0 && state.status == Status::Marching {
        let reading = scene_distance(placements, beam_point(beam, state.travelled), half_extent);
        lemma_traced_from_ends(
            advanced(state, reading as i64),
            beam,
            placements,
            half_extent,
            (readings - 1) as nat,
        );
    }
}

/// Every march through the scene ends in a hit or a miss, after at least one
/// reading and at most [`MAX_STEPS`], none of them taken beyond
/// [`FAR_DISTANCE`].
pub proof fn lemma_traced_ends(beam: Beam, placements: Seq<Placement>, half_extent: int)
    ensures
        bounded(traced(beam, placements, half_extent)),
        traced(beam, placements, half_extent).status != Status::Marching,
{
    lemma_traced_from_ends(started(), beam, placements, half_extent, MAX_STEPS as nat);
}

} // verus!
