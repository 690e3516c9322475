use cubefield::overlay::{
    any_covers, cell_is_set, compose, digit_mask, glyph_covers, place_number, to_grid,
    whole_number, OverlayReadings, PlacedGlyph, CELL, GLYPH_PITCH, HIGHLIGHT, LETTER_F,
    LETTER_J, NUMBER_COLUMN, ROW_PITCH,
};
use cubefield::telemetry::TelemetrySample;

/// The rows of a glyph from the top, a cell that is set drawn as `X`.
fn picture(mask: u16) -> Vec<String> {
    (0..5)
        .map(|row| {
            (0..3).map(|col| if cell_is_set(mask, col, row) { 'X' } else { '.' }).collect()
        })
        .collect()
}

#[test]
fn draw_number_of_seven_is_the_units_glyph_alone() {
    let glyphs = place_number(7, 0, 0);
    assert_eq!(glyphs, vec![PlacedGlyph { mask: digit_mask(7), x: 2 * GLYPH_PITCH, y: 0 }]);
}

#[test]
fn draw_number_of_one_two_three_is_three_glyphs_at_their_pitch() {
    let glyphs = place_number(123, 0, 0);
    assert_eq!(
        glyphs,
        vec![
            PlacedGlyph { mask: digit_mask(3), x: 8_000, y: 0 },
            PlacedGlyph { mask: digit_mask(2), x: 4_000, y: 0 },
            PlacedGlyph { mask: digit_mask(1), x: 0, y: 0 },
        ]
    );
}

#[test]
fn draw_number_of_zero_is_a_single_zero_glyph() {
    let glyphs = place_number(0, 0, 0);
    assert_eq!(glyphs, vec![PlacedGlyph { mask: digit_mask(0), x: 8_000, y: 0 }]);
}

#[test]
fn draw_number_of_two_digits_leaves_the_hundreds_empty() {
    let glyphs = place_number(60, 14_000, 6_000);
    assert_eq!(
        glyphs,
        vec![
            PlacedGlyph { mask: digit_mask(0), x: 22_000, y: 6_000 },
            PlacedGlyph { mask: digit_mask(6), x: 18_000, y: 6_000 },
        ]
    );
}

#[test]
fn draw_number_shows_the_last_three_digits() {
    let glyphs = place_number(91_234, 0, 0);
    assert_eq!(
        glyphs,
        vec![
            PlacedGlyph { mask: digit_mask(4), x: 8_000, y: 0 },
            PlacedGlyph { mask: digit_mask(3), x: 4_000, y: 0 },
            PlacedGlyph { mask: digit_mask(2), x: 0, y: 0 },
        ]
    );
    assert_eq!(place_number(1_000, 0, 0).len(), 3);
    assert_eq!(place_number(1_000, 0, 0)[2].mask, digit_mask(0));
}

#[test]
fn digit_masks_are_the_font() {
    let masks: Vec<u16> = (0..10).map(digit_mask).collect();
    assert_eq!(
        masks,
        vec![31599, 9879, 31183, 31207, 23524, 29671, 29679, 30994, 31727, 31719]
    );
}

#[test]
fn glyphs_read_from_the_top_left() {
    assert_eq!(picture(digit_mask(1)), vec![".X.", "XX.", ".X.", ".X.", "XXX"]);
    assert_eq!(picture(digit_mask(7)), vec!["XXX", "..X", "..X", ".X.", ".X."]);
    assert_eq!(picture(digit_mask(0)), vec!["XXX", "X.X", "X.X", "X.X", "XXX"]);
    assert_eq!(picture(LETTER_F), vec!["XXX", "X..", "XX.", "X..", "X.."]);
    assert_eq!(picture(LETTER_J), vec!["XXX", "..X", "..X", "X.X", "XXX"]);
}

#[test]
fn cells_outside_the_grid_are_not_set() {
    assert!(!cell_is_set(0x7fff, 3, 0));
    assert!(!cell_is_set(0x7fff, 0, 5));
    assert!(!cell_is_set(0xffff, u32::MAX, u32::MAX));
    assert!(cell_is_set(0x7fff, 2, 4));
}

#[test]
fn a_glyph_lights_its_cells_off_their_margin() {
    // The top left cell of F is set, the cell below and right of it is not.
    assert!(glyph_covers(LETTER_F, 500, 500));
    assert!(!glyph_covers(LETTER_F, 1_500, 1_500));
    // A tenth of a cell stays dark on each side.
    assert!(!glyph_covers(LETTER_F, 100, 500));
    assert!(glyph_covers(LETTER_F, 101, 500));
    assert!(glyph_covers(LETTER_F, 899, 500));
    assert!(!glyph_covers(LETTER_F, 900, 500));
    assert!(!glyph_covers(LETTER_F, 500, 100));
    assert!(glyph_covers(LETTER_F, 500, 899));
    assert!(!glyph_covers(LETTER_F, 500, 900));
}

#[test]
fn a_glyph_lights_nothing_outside_its_box() {
    assert!(!glyph_covers(0x7fff, -1, 500));
    assert!(!glyph_covers(0x7fff, -500, 500));
    assert!(!glyph_covers(0x7fff, 3_000, 500));
    assert!(!glyph_covers(0x7fff, 500, -1));
    assert!(!glyph_covers(0x7fff, 500, 5_000));
    assert!(glyph_covers(0x7fff, 2_500, 4_500));
    assert!(!glyph_covers(0x7fff, i64::MIN, i64::MAX));
}

#[test]
fn placed_glyphs_light_where_they_stand() {
    let glyphs = vec![
        PlacedGlyph { mask: LETTER_F, x: 4 * CELL, y: 6 * CELL },
        PlacedGlyph { mask: 0x7fff, x: i64::MIN, y: i64::MAX - 5_000 },
    ];
    assert!(any_covers(&glyphs, 4_500, 6_500));
    assert!(!any_covers(&glyphs, 500, 500));
    assert!(!any_covers(&glyphs, i64::MAX, i64::MIN));
    assert!(any_covers(&glyphs, i64::MIN + 500, i64::MAX - 4_500));
    assert!(!any_covers(&glyphs, i64::MIN + 500, i64::MAX - 5_500));
    assert!(!any_covers(&Vec::new(), 500, 500));
}

fn readings() -> OverlayReadings {
    OverlayReadings { current_fps: 60, max_fps: 144, min_fps: 7, one_percent_low_fps: 0, jitter: 12 }
}

#[test]
fn the_readout_has_five_rows_of_label_and_number() {
    let glyphs = readings().glyphs();
    // Three label glyphs a row, and 2, 3, 1, 1 and 2 digits.
    assert_eq!(glyphs.len(), 15 + 9);
    assert_eq!(glyphs[0], PlacedGlyph { mask: LETTER_F, x: 0, y: 0 });
    assert_eq!(glyphs[3], PlacedGlyph { mask: digit_mask(0), x: NUMBER_COLUMN + 8_000, y: 0 });
    assert_eq!(glyphs[4], PlacedGlyph { mask: digit_mask(6), x: NUMBER_COLUMN + 4_000, y: 0 });
    // The second row shows the highest rate.
    assert_eq!(glyphs[8], PlacedGlyph { mask: digit_mask(4), x: 22_000, y: ROW_PITCH });
    assert_eq!(glyphs[9], PlacedGlyph { mask: digit_mask(4), x: 18_000, y: ROW_PITCH });
    assert_eq!(glyphs[10], PlacedGlyph { mask: digit_mask(1), x: 14_000, y: ROW_PITCH });
    // The third row shows the lowest rate.
    assert_eq!(glyphs[14], PlacedGlyph { mask: digit_mask(7), x: 22_000, y: 12_000 });
    // The last row is the jitter.
    assert_eq!(glyphs[19], PlacedGlyph { mask: LETTER_J, x: 0, y: 24_000 });
    assert_eq!(glyphs[22], PlacedGlyph { mask: digit_mask(2), x: 22_000, y: 24_000 });
    assert_eq!(glyphs[23], PlacedGlyph { mask: digit_mask(1), x: 18_000, y: 24_000 });
}

#[test]
fn the_readout_lights_its_glyphs() {
    let readout = readings();
    // Top left cell of the F.
    assert!(readout.covers(500, 500));
    // The gap between two label glyphs.
    assert!(!readout.covers(3_500, 500));
    // The hundreds of the first row are empty, the tens hold a six.
    assert!(!readout.covers(14_500, 500));
    assert!(readout.covers(18_500, 500));
    // The hundreds of the second row hold a one: its top middle cell is set.
    assert!(readout.covers(15_500, 6_500));
    assert!(!readout.covers(14_500, 6_500));
    // Between two rows and below the last.
    assert!(!readout.covers(500, 5_500));
    assert!(!readout.covers(500, 29_500));
}

#[test]
fn the_grid_is_anchored_near_the_top_left_corner() {
    assert_eq!(to_grid(-980, 980), (0, 0));
    assert_eq!(to_grid(0, 0), (107_800, 107_800));
    assert_eq!(to_grid(1_000, -1_000), (217_800, 217_800));
    assert_eq!(to_grid(-1_000, 1_000), (-2_200, -2_200));
    assert_eq!(to_grid(i32::MIN, i32::MAX), (-236_223_093_480, -236_223_093_370));
}

#[test]
fn the_readout_lights_points_of_the_screen() {
    let readout = readings();
    // Five thousandths right of and below the anchor: inside the F.
    assert!(readout.lights(-975, 975));
    // The middle of the screen is far from the readout.
    assert!(!readout.lights(0, 0));
    // Left of the anchor.
    assert!(!readout.lights(-985, 975));
}

#[test]
fn shown_numbers_drop_the_thousandths() {
    assert_eq!(whole_number(0), 0);
    assert_eq!(whole_number(999), 0);
    assert_eq!(whole_number(59_999), 59);
    assert_eq!(whole_number(60_000), 60);
    assert_eq!(whole_number(u64::MAX), 0x7fff_ffff);
    assert_eq!(whole_number(2_147_483_647_999), 0x7fff_ffff);
    assert_eq!(whole_number(2_147_483_646_999), 0x7fff_fffe);
}

#[test]
fn readings_are_taken_from_a_sample() {
    let sample = TelemetrySample {
        current_fps: 59_940,
        min_fps_ever: 30_001,
        max_fps_ever: 144_000,
        one_percent_low_fps: 9_999,
        jitter: 2_345,
        acquire_latency: 7_000,
    };
    assert_eq!(
        OverlayReadings::from_sample(&sample),
        OverlayReadings {
            current_fps: 59,
            max_fps: 144,
            min_fps: 30,
            one_percent_low_fps: 9,
            jitter: 2,
        }
    );
}

#[test]
fn a_lit_point_takes_the_highlight() {
    let scene = [0.25f32.to_bits(), 0.5f32.to_bits(), 0.75f32.to_bits()];
    assert_eq!(compose(scene, false), scene);
    assert_eq!(compose(scene, true), HIGHLIGHT);
    assert_eq!(HIGHLIGHT, [0.0f32.to_bits(), 1.0f32.to_bits(), 0.5f32.to_bits()]);
}
