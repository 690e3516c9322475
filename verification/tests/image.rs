use cubefield::field::{Point, Pose, Turn};
use cubefield::image::{backdrop_share, show, Shown};
use cubefield::overlay::OverlayReadings;

fn readings() -> OverlayReadings {
    OverlayReadings { current_fps: 60, max_fps: 144, min_fps: 7, one_percent_low_fps: 0, jitter: 12 }
}

fn cube_at_the_origin() -> Vec<Pose> {
    vec![Pose { offset: Point::new(0, 0, 0).unwrap(), spin: Turn::none(), tilt: Turn::none() }]
}

const HALF: u32 = 500_000;

#[test]
fn the_readout_is_shown_where_it_is_lit() {
    // Just inside the top left cell of the first label.
    assert_eq!(show(&readings(), &cube_at_the_origin(), HALF, -975, 975), Shown::Readout);
    assert_eq!(show(&readings(), &Vec::new(), HALF, -975, 975), Shown::Readout);
}

#[test]
fn the_backdrop_is_shown_where_the_ray_misses() {
    assert_eq!(show(&readings(), &Vec::new(), HALF, 0, 0), Shown::Backdrop { upper: 500 });
    assert_eq!(
        show(&readings(), &cube_at_the_origin(), HALF, 900, -900),
        Shown::Backdrop { upper: 50 }
    );
    // Left of the readout the scene shows through.
    assert_eq!(
        show(&readings(), &cube_at_the_origin(), HALF, -985, 975),
        Shown::Backdrop { upper: 987 }
    );
}

#[test]
fn the_middle_of_a_cube_is_cut_out() {
    // The ray through the middle of the screen passes through the cut.
    assert_eq!(show(&readings(), &cube_at_the_origin(), HALF, 0, 0), Shown::Backdrop { upper: 500 });
}

#[test]
fn a_corner_of_a_cube_is_a_surface() {
    // The ray through this point meets the front face near its upper right
    // corner, about 9.52 from the eye.
    match show(&readings(), &cube_at_the_origin(), HALF, 48, 85) {
        Shown::Surface { along, light } => {
            assert!(9_510_000 < along && along < 9_530_000, "met at {along}");
            // The face looks at the eye, at an angle to the lamp whose cosine
            // is one over the root of six.
            assert_eq!(light, 408_246);
        }
        other => panic!("{other:?}"),
    }
}

#[test]
fn the_readout_covers_the_scene() {
    // A cube right in front of the eye fills the screen, but not the readout.
    let poses =
        vec![Pose { offset: Point::new(0, 0, 9_000_000).unwrap(), spin: Turn::none(), tilt: Turn::none() }];
    assert_eq!(show(&readings(), &poses, 3_000_000, -975, 975), Shown::Readout);
}

#[test]
fn the_backdrop_fades_from_the_bottom_to_the_top() {
    assert_eq!(backdrop_share(-1_000), 0);
    assert_eq!(backdrop_share(0), 500);
    assert_eq!(backdrop_share(1_000), 1_000);
    // Shares are rounded down.
    assert_eq!(backdrop_share(1), 500);
    assert_eq!(backdrop_share(-1), 499);
    assert_eq!(backdrop_share(-1_001), -1);
    assert_eq!(backdrop_share(-1_002), -1);
    assert_eq!(backdrop_share(i32::MIN), -1_073_741_324);
    assert_eq!(backdrop_share(i32::MAX), 1_073_742_323);
}
