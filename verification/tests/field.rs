use cubefield::field::{
    distance, light, trace_scene, Point, Pose, Ray, Turn, AMBIENT, REACH, UNIT, VOID,
};
use cubefield::fixed::integer_root;
use cubefield::march::Status;
use cubefield::motion::{pose_at, poses_at};

fn millionths(value: f64) -> i64 {
    (value * 1e6).round() as i64
}

fn point(x: f64, y: f64, z: f64) -> Point {
    Point::new(millionths(x), millionths(y), millionths(z)).unwrap()
}

fn turn(angle: f64) -> Turn {
    Turn::new(millionths(angle.cos()), millionths(angle.sin())).unwrap()
}

/// A primitive that stands upright at the given place.
fn upright(x: f64, y: f64, z: f64) -> Pose {
    Pose { offset: point(x, y, z), spin: Turn::none(), tilt: Turn::none() }
}

/// The cosine and sine of an angle given in millionths of a radian.
fn turn_of(angle: i128) -> Turn {
    turn(angle as f64 / 1e6)
}

const HALF: u32 = 500_000;

#[test]
fn roots_are_rounded_down() {
    assert_eq!(integer_root(0), 0);
    assert_eq!(integer_root(1), 1);
    assert_eq!(integer_root(3), 1);
    assert_eq!(integer_root(4), 2);
    assert_eq!(integer_root(99), 9);
    assert_eq!(integer_root(100), 10);
    assert_eq!(integer_root(1_000_000_000_000), 1_000_000);
    assert_eq!(integer_root(999_999_999_999), 999_999);
    assert_eq!(integer_root(u128::MAX), u64::MAX);
    assert_eq!(integer_root((u64::MAX as u128) * (u64::MAX as u128)), u64::MAX);
    assert_eq!(integer_root((u64::MAX as u128) * (u64::MAX as u128) - 1), u64::MAX - 1);
}

#[test]
fn points_lie_within_reach() {
    assert!(Point::new(REACH, -REACH, 0).is_some());
    assert!(Point::new(REACH + 1, 0, 0).is_none());
    assert!(Point::new(0, -REACH - 1, 0).is_none());
    assert!(Point::new(0, 0, i64::MAX).is_none());
    assert_eq!(Point::new(1, -2, 3).unwrap().coordinates(), (1, -2, 3));
}

#[test]
fn turns_have_a_cosine_and_sine_of_at_most_one() {
    assert!(Turn::new(UNIT, -UNIT).is_some());
    assert!(Turn::new(UNIT + 1, 0).is_none());
    assert!(Turn::new(0, -UNIT - 1).is_none());
    assert_eq!(Turn::none(), Turn::new(UNIT, 0).unwrap());
}

#[test]
fn an_empty_scene_reads_the_void() {
    assert_eq!(distance(&Vec::new(), &point(0.0, 0.0, 0.0), HALF), VOID);
    assert_eq!(distance(&Vec::new(), &point(1.0, 2.0, 3.0), 0), 10_000_000_000_000_000);
}

#[test]
fn far_from_a_primitive_the_cube_decides() {
    let scene = vec![upright(0.0, 0.0, 0.0)];
    assert_eq!(distance(&scene, &point(0.0, 0.0, 10.0), HALF), 9_500_000);
    assert_eq!(distance(&scene, &point(-3.0, 1.0, 2.0), HALF), 2_500_000);
    // The distance to a cube is measured along the axis that leads furthest.
    assert_eq!(distance(&scene, &point(2.0, 2.0, 2.0), HALF), 1_500_000);
}

#[test]
fn in_the_middle_of_a_primitive_the_cut_decides() {
    let scene = vec![upright(0.0, 0.0, 0.0)];
    // The cut has 1.4 times the half extent for its radius.
    assert_eq!(distance(&scene, &point(0.0, 0.0, 0.0), HALF), 700_000);
    assert_eq!(distance(&scene, &point(0.0, 0.0, 0.3), HALF), 400_000);
    // On a face of the cube the cut is still 0.2 away.
    assert_eq!(distance(&scene, &point(0.0, 0.0, 0.5), HALF), 200_000);
}

#[test]
fn the_corners_of_a_primitive_are_solid() {
    let scene = vec![upright(0.0, 0.0, 0.0)];
    // The corner lies the root of 0.75 from the middle, outside the cut.
    assert_eq!(distance(&scene, &point(0.5, 0.5, 0.5), HALF), 0);
    assert_eq!(distance(&scene, &point(0.45, 0.45, 0.45), HALF), -50_000);
    assert_eq!(distance(&scene, &point(0.45, 0.45, 0.5), HALF), 0);
}

#[test]
fn lengths_are_rounded_down() {
    let scene = vec![upright(0.0, 0.0, 0.0)];
    // The point lies 0.412310.. from the middle.
    assert_eq!(distance(&scene, &point(0.1, 0.4, 0.0), HALF), 700_000 - 412_310);
}

#[test]
fn a_primitive_is_measured_from_where_it_stands() {
    let scene = vec![upright(1.0, -2.0, 3.0)];
    assert_eq!(distance(&scene, &point(1.0, -2.0, 3.0), HALF), 700_000);
    assert_eq!(distance(&scene, &point(1.0, -2.0, 13.0), HALF), 9_500_000);
}

#[test]
fn a_primitive_turns_with_its_pose() {
    // A quarter turn in the plane of x and z takes (x, z) to (-z, x).
    let quarter = Turn::new(0, UNIT).unwrap();
    let spun = Pose { offset: point(0.0, 0.0, 0.0), spin: quarter, tilt: Turn::none() };
    let still = upright(0.0, 0.0, 0.0);
    let at = point(0.45, 0.45, -0.6);
    // Seen by the turned cube the point is (0.6, 0.45, 0.45).
    assert_eq!(distance(&vec![spun], &at, HALF), distance(&vec![still], &point(0.6, 0.45, 0.45), HALF));
    assert_eq!(distance(&vec![spun], &at, HALF), 100_000);
    // After an eighth of a turn the point (0, 0.45, 2) is seen at
    // (-1.414214, 0.45, 1.414214): cosine and sine are both 0.707107.
    let eighth = Pose { offset: point(0.0, 0.0, 0.0), spin: turn(0.785398), tilt: Turn::none() };
    assert_eq!(eighth.spin, Turn::new(707_107, 707_107).unwrap());
    assert_eq!(distance(&vec![eighth], &point(0.0, 0.45, 2.0), HALF), 914_214);
}

#[test]
fn a_tilt_comes_after_the_turn() {
    let quarter = Turn::new(0, UNIT).unwrap();
    let pose = Pose { offset: point(0.0, 0.0, 0.0), spin: quarter, tilt: quarter };
    // (1, 2, 3) is turned to (-3, 2, 1) and then tilted to (-3, -1, 2).
    assert_eq!(distance(&vec![pose], &point(1.0, 2.0, 3.0), HALF), 2_500_000);
    assert_eq!(distance(&vec![pose], &point(1.0, 5.0, 3.0), HALF), 4_500_000);
}

#[test]
fn the_scene_is_as_near_as_its_nearest_primitive() {
    let scene = vec![upright(0.0, 0.0, 0.0), upright(4.0, 0.0, 0.0), upright(0.0, -9.0, 0.0)];
    assert_eq!(distance(&scene, &point(3.0, 0.0, 0.0), HALF), 500_000);
    assert_eq!(distance(&scene, &point(0.0, -6.0, 0.0), HALF), 2_500_000);
    assert_eq!(distance(&scene, &point(1.0, 0.0, 0.0), HALF), 500_000);
}

#[test]
fn only_the_first_hundred_and_twenty_eight_primitives_count() {
    let mut scene: Vec<Pose> = (0..128).map(|_| upright(0.0, 0.0, 0.0)).collect();
    let at = point(0.0, 50.0, 0.0);
    assert_eq!(distance(&scene, &at, HALF), 49_500_000);
    // One more primitive right at the point changes nothing.
    scene.push(upright(0.0, 50.0, 0.0));
    assert_eq!(scene.len(), 129);
    assert_eq!(distance(&scene, &at, HALF), 49_500_000);
    // In the place of the last that counts it is seen.
    scene.swap(127, 128);
    assert_eq!(distance(&scene, &at, HALF), 700_000);
}

#[test]
fn the_field_reads_the_same_each_time() {
    let scene: Vec<Pose> = poses_at(6, 12_500, 1_000, turn_of);
    let at = point(0.3, -1.2, 2.5);
    let first = distance(&scene, &at, HALF);
    for _ in 0..10 {
        assert_eq!(distance(&scene, &at, HALF), first);
    }
}

#[test]
fn rays_start_well_within_reach_and_head_at_most_one_far() {
    assert!(Ray::new((0, 0, 10_000_000), (0, 0, -UNIT)).is_some());
    assert!(Ray::new((REACH - 30_000_000, 0, 0), (UNIT, 0, 0)).is_some());
    assert!(Ray::new((REACH - 29_999_999, 0, 0), (UNIT, 0, 0)).is_none());
    assert!(Ray::new((0, 0, 0), (0, 0, 0)).is_some());
    assert!(Ray::new((0, 0, 0), (600_000, 800_000, 0)).is_some());
    assert!(Ray::new((0, 0, 0), (600_000, 800_000, 1)).is_none());
    assert!(Ray::new((0, 0, 0), (0, UNIT + 1, 0)).is_none());
    assert!(Ray::new((i64::MIN, 0, 0), (0, 0, 0)).is_none());
}

#[test]
fn a_ray_is_followed_as_far_as_a_march_can_go() {
    let ray = Ray::new((1_000_000, 2_000_000, 10_000_000), (600_000, 0, -800_000)).unwrap();
    assert_eq!(ray.point_at(0).unwrap().coordinates(), (1_000_000, 2_000_000, 10_000_000));
    assert_eq!(ray.point_at(5_000_000).unwrap().coordinates(), (4_000_000, 2_000_000, 6_000_000));
    // Each coordinate is rounded down.
    assert_eq!(ray.point_at(1).unwrap().coordinates(), (1_000_000, 2_000_000, 9_999_999));
    assert!(ray.point_at(30_000_000).is_some());
    assert!(ray.point_at(30_000_001).is_none());
    assert!(ray.point_at(-1).is_none());
}

fn down_the_axis_from(x: f64, y: f64) -> Ray {
    Ray::new((millionths(x), millionths(y), 10_000_000), (0, 0, -UNIT)).unwrap()
}

#[test]
fn a_ray_at_a_corner_of_a_primitive_hits_it() {
    let end = trace_scene(&down_the_axis_from(0.45, 0.45), &vec![upright(0.0, 0.0, 0.0)], HALF);
    assert_eq!(end.status(), Status::Hit);
    assert_eq!(end.steps(), 2);
    assert_eq!(end.travelled(), 9_500_000);
}

#[test]
fn a_ray_at_the_middle_of_a_primitive_passes_through_the_cut() {
    // The cut is wider than the cube: along the axis through the middle of a
    // face the field never falls below a tenth of a unit.
    let end = trace_scene(&down_the_axis_from(0.0, 0.0), &vec![upright(0.0, 0.0, 0.0)], HALF);
    assert_eq!(end.status(), Status::Miss);
    assert_eq!(end.steps(), 11);
    assert_eq!(end.travelled(), 23_300_000);
}

#[test]
fn at_time_zero_the_first_primitive_stands_two_units_up() {
    let pose = pose_at(0, 0, 1_000, turn_of);
    assert_eq!(pose, upright(0.0, 2.0, 0.0));
    let end = trace_scene(&down_the_axis_from(0.0, 0.0), &vec![pose], HALF);
    assert_eq!(end.status(), Status::Miss);
    assert_eq!(end.steps(), 7);
    assert_eq!(end.travelled(), 26_500_000);
    // A ray two units higher meets the cube at a corner.
    let higher = trace_scene(&down_the_axis_from(0.45, 2.45), &vec![pose], HALF);
    assert_eq!(higher.status(), Status::Hit);
    assert_eq!(higher.travelled(), 9_500_000);
}

#[test]
fn a_ray_through_an_empty_scene_is_a_miss_at_once() {
    let end = trace_scene(&down_the_axis_from(0.0, 0.0), &Vec::new(), HALF);
    assert_eq!(end.status(), Status::Miss);
    assert_eq!(end.steps(), 1);
    assert_eq!(end.travelled(), 0);
}

#[test]
fn a_ray_that_stands_still_runs_out_of_steps() {
    let still = Ray::new((0, 0, 10_000_000), (0, 0, 0)).unwrap();
    let end = trace_scene(&still, &vec![upright(0.0, 0.0, 0.0)], HALF);
    assert_eq!(end.status(), Status::Miss);
    assert_eq!(end.steps(), 4);
}

#[test]
fn the_ray_through_the_middle_of_the_screen_heads_down_the_axis() {
    let ray = Ray::through_pixel(0, 0);
    // The heading is cut down by a whole number just above its length, so
    // it falls a millionth short of one.
    assert_eq!(ray, Ray::new((0, 0, 10_000_000), (0, 0, -999_999)).unwrap());
    assert_eq!(ray.point_at(0).unwrap().coordinates(), (0, 0, 10_000_000));
    assert_eq!(ray.point_at(1_000_000).unwrap().coordinates(), (0, 0, 9_000_001));
}

#[test]
fn rays_through_the_corners_of_the_screen_lean_outwards() {
    // The screen is 1.77 times as wide as high and stands 1.8 in front of the eye.
    assert_eq!(
        Ray::through_pixel(1_000, 1_000),
        Ray::new((0, 0, 10_000_000), (651_859, 368_282, -662_907)).unwrap()
    );
    assert_eq!(
        Ray::through_pixel(-1_000, -1_000),
        Ray::new((0, 0, 10_000_000), (-651_859, -368_282, -662_907)).unwrap()
    );
    // Far off the screen the ray is still one that can be marched.
    assert_eq!(
        Ray::through_pixel(i32::MAX, i32::MIN),
        Ray::new((0, 0, 10_000_000), (870_654, -491_895, 0)).unwrap()
    );
}

#[test]
fn a_face_is_lit_by_the_angle_it_makes_with_the_lamp() {
    let scene = vec![upright(0.0, 0.0, 0.0)];
    // The lamp shines along (1, 2, 1). A face that looks along z catches one
    // over the root of six of its light, a face that looks up twice as much.
    assert_eq!(light(&scene, &point(0.45, 0.45, 0.5), HALF), 408_246);
    assert_eq!(light(&scene, &point(0.5, 0.45, 0.45), HALF), 408_246);
    assert_eq!(light(&scene, &point(0.45, 0.5, 0.45), HALF), 816_493);
}

#[test]
fn a_face_turned_away_from_the_lamp_gets_the_least_light() {
    let scene = vec![upright(0.0, 0.0, 0.0)];
    assert_eq!(AMBIENT, 200_000);
    assert_eq!(light(&scene, &point(0.45, 0.45, -0.5), HALF), AMBIENT);
    assert_eq!(light(&scene, &point(-0.5, 0.45, 0.45), HALF), AMBIENT);
    assert_eq!(light(&scene, &point(0.45, -0.5, 0.45), HALF), AMBIENT);
}

#[test]
fn where_the_field_is_level_the_light_is_the_least() {
    assert_eq!(light(&Vec::new(), &point(0.0, 0.0, 0.0), HALF), AMBIENT);
    // In the middle of the cut the field falls off the same way all round.
    assert_eq!(light(&vec![upright(0.0, 0.0, 0.0)], &point(0.0, 0.0, 0.0), HALF), AMBIENT);
}

#[test]
fn a_surface_that_faces_the_lamp_is_fully_lit() {
    // An eighth of a turn and a tilt whose cosine is two over the root of six
    // make the upper face look at the lamp.
    let facing = Pose {
        offset: point(0.0, 0.0, 0.0),
        spin: turn(0.785398),
        tilt: turn(-0.615480),
    };
    // The point that the cube sees at (0.45, 0.5, 0.45), on that face.
    let at = point(0.78213, 0.14844, 0.14573);
    let lit = light(&vec![facing], &at, HALF);
    assert!(lit > 999_000 && lit <= UNIT, "lit by {lit}");
}

#[test]
fn light_is_had_at_the_edge_of_reach() {
    let corner = Point::new(REACH, -REACH, REACH).unwrap();
    assert_eq!(light(&Vec::new(), &corner, HALF), AMBIENT);
    let lit = light(&vec![upright(0.0, 0.0, 0.0)], &corner, u32::MAX);
    assert!(lit >= AMBIENT && lit <= UNIT);
}
