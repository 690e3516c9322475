//! What a point of the screen shows: the readout where it is lit, else the
//! surface that the ray through the point hits, else the backdrop.

use vstd::prelude::*;
use crate::field::{
    beam_point, light, light_at, pixel_beam, placements, trace_scene, traced, Placement, Point, Pose,
    Ray,
};
use crate::march::{March, Status};
use crate::overlay::{grid_point, readout_lit, OverlayReadings};

verus! {

/// What a point of the screen shows.
#[derive(Clone, Copy, Debug, PartialEq, Eq)]
pub enum Shown {
    /// A lit point of the readout, drawn in the highlight.
    Readout,
    /// A surface of the scene, met `along` down the ray from the eye and lit
    /// by `light` millionths of the full light. It is drawn in the base
    /// colour of the scene, dimmed to that light.
    Surface { along: i64, light: i64 },
    /// Nothing: the ray through the point missed every primitive. The
    /// backdrop fades from a darker tone at the bottom of the screen to a
    /// lighter one at its top; `upper` is the share of the lighter tone at
    /// the point, in thousandths.
    Backdrop { upper: i64 },
}

/// The share of the lighter tone of the backdrop at a height of the screen,
/// in thousandths and rounded down: none at the bottom, all at the top.
pub open spec fn upper_share(screen_y: int) -> int {
    (screen_y + 1000) / 2
}

/// What the point `(screen_x, screen_y)` of the screen shows, for a scene of
/// primitives of the given half extent and a readout of the given numbers.
/// The point is given from the middle of the screen, `screen_x` in thousandths
/// of half its width to the right and `screen_y` in thousandths of half its
/// height upwards.
pub open spec fn shown_at(
    readings: OverlayReadings,
    placements: Seq<Placement>,
    half_extent: int,
    screen_x: int,
    screen_y: int,
) -> Shown {
    let on_grid = grid_point(screen_x, screen_y);
    let beam = pixel_beam(screen_x, screen_y);
    let end = traced(beam, placements, half_extent);
    if readout_lit(readings, on_grid.0, on_grid.1) {
        Shown::Readout
    } else if end.status == Status::Hit {
        Shown::Surface {
            along: end.travelled as i64,
            light: light_at(placements, beam_point(beam, end.travelled), half_extent) as i64,
        }
    } else {
        Shown::Backdrop { upper: upper_share(screen_y) as i64 }
    }
}

/// Computes [`upper_share`].
pub fn backdrop_share(screen_y: i32) -> (upper: i64)
    ensures
        upper == upper_share(screen_y as int),
{
    let raised: i64 = screen_y as i64 + 1000;
    if raised >= 0 {
        raised / 2
    } else {
        -((1 - raised) / 2)
    }
}

/// Computes [`shown_at`].
pub fn show(
    readings: &OverlayReadings,
    poses: &Vec<Pose>,
    half_extent: u32,
    screen_x: i32,
    screen_y: i32,
) -> (shown: Shown)
    ensures
        shown == shown_at(
            *readings,
            placements(poses@),
            half_extent as int,
            screen_x as int,
            screen_y as int,
        ),
{
    if readings.lights(screen_x, screen_y) {
        return Shown::Readout;
    }
    let ray: Ray = Ray::through_pixel(screen_x, screen_y);
    let end: March = trace_scene(&ray, poses, half_extent);
    if end.is_hit() {
        let along: i64 = end.travelled();
        let met: Option<Point> = ray.point_at(along);
        Shown::Surface { along, light: light(poses, &met.unwrap(), half_extent) }
    } else {
        Shown::Backdrop { upper: backdrop_share(screen_y) }
    }
}

} // verus!
