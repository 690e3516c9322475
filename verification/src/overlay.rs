//! The readout drawn over the scene: five rows, each a three-letter label and
//! a number of up to three digits, in a bitmap font of 3 by 5 cells.
//!
//! Positions are thousandths of a cell. A glyph is a 15-bit mask, one bit per
//! cell: the top row holds the three highest bits, and within a row the lowest
//! bit is the leftmost cell. A lit cell is drawn a tenth of a cell smaller on
//! each side, so that neighbouring cells do not touch.

use vstd::prelude::*;
use crate::telemetry::TelemetrySample;

verus! {

/// Thousandths in one cell.
pub const CELL: i64 = 1000;

/// Margin left dark on each side of a lit cell.
pub const INSET: i64 = 100;

/// Width of a glyph.
pub const GLYPH_WIDTH: i64 = 3 * CELL;

/// Height of a glyph.
pub const GLYPH_HEIGHT: i64 = 5 * CELL;

/// Distance from one glyph of a word to the next.
pub const GLYPH_PITCH: i64 = 4 * CELL;

/// Distance from one row of the readout to the next.
pub const ROW_PITCH: i64 = 6 * CELL;

/// Where the number of a row starts.
pub const NUMBER_COLUMN: i64 = 14 * CELL;

/// Number of rows in the readout.
pub const ROWS: usize = 5;

/// Cells that half the width of the screen holds, and half its height. The
/// screen is measured in its own halves whatever its resolution, so the
/// readout keeps its share of the image.
pub const CELLS_PER_UNIT: i64 = 110;

/// Distance of the top left corner of the readout from the middle of the
/// screen each way, in thousandths of half the screen: the readout is
/// anchored near the top left corner of the screen.
pub const ANCHOR: i64 = 980;

/// Largest number a row can be asked to show.
pub const READING_MAX: u32 = 0x7fff_ffff;

/// The colour of a lit point of the readout, red first, as binary32 bit
/// patterns: no red, full green, half blue.
pub const HIGHLIGHT: [u32; 3] = [0, 0x3F80_0000, 0x3F00_0000];

/// The masks of the ten digits.
pub open spec fn digit_glyph(digit: nat) -> u16 {
    if digit == 0 {
        31599
    } else if digit == 1 {
        9879
    } else if digit == 2 {
        31183
    } else if digit == 3 {
        31207
    } else if digit == 4 {
        23524
    } else if digit == 5 {
        29671
    } else if digit == 6 {
        29679
    } else if digit == 7 {
        30994
    } else if digit == 8 {
        31727
    } else {
        31719
    }
}

/// Bit of a mask that stands for the cell in column `col` of row `row`, rows
/// counted from the top and columns from the left.
pub open spec fn cell_bit(col: int, row: int) -> int {
    (4 - row) * 3 + col
}

/// Whether the cell in column `col` of row `row` is part of the glyph.
pub open spec fn cell_set(mask: u16, col: int, row: int) -> bool {
    &&& 0 <= col < 3
    &&& 0 <= row < 5
    &&& (mask >> (cell_bit(col, row) as u16)) & 1 == 1
}

/// Whether a glyph with its top left corner at the origin lights the point
/// `(x, y)`: the point lies in a cell of the glyph, off its margin.
pub open spec fn glyph_lit(mask: u16, x: int, y: int) -> bool {
    &&& 0 <= x < GLYPH_WIDTH
    &&& 0 <= y < GLYPH_HEIGHT
    &&& cell_set(mask, x / (CELL as int), y / (CELL as int))
    &&& INSET < x % (CELL as int) < CELL - INSET
    &&& INSET < y % (CELL as int) < CELL - INSET
}

/// A glyph and the place of its top left corner.
#[derive(Clone, Copy, Debug, PartialEq, Eq)]
pub struct PlacedGlyph {
    pub mask: u16,
    pub x: i64,
    pub y: i64,
}

/// Whether a placed glyph lights the point `(x, y)`.
pub open spec fn placed_lit(glyph: PlacedGlyph, x: int, y: int) -> bool {
    glyph_lit(glyph.mask, x - glyph.x, y - glyph.y)
}

/// Whether any glyph of `glyphs` lights the point `(x, y)`.
pub open spec fn any_lit(glyphs: Seq<PlacedGlyph>, x: int, y: int) -> bool {
    exists|i: int| 0 <= i < glyphs.len() && placed_lit(#[trigger] glyphs[i], x, y)
}

/// The glyphs of a number whose field starts at `(x, y)`: the digit of the
/// hundreds in the first place, of the tens in the second, of the units in
/// the third. Only the last three digits of the number are drawn, and the
/// places above its first digit stay empty.
pub open spec fn number_glyphs(value: u32, x: int, y: int) -> Seq<PlacedGlyph> {
    let units = PlacedGlyph {
        mask: digit_glyph((value % 10) as nat),
        x: (x + 2 * GLYPH_PITCH) as i64,
        y: y as i64,
    };
    let tens = PlacedGlyph {
        mask: digit_glyph((value / 10 % 10) as nat),
        x: (x + GLYPH_PITCH) as i64,
        y: y as i64,
    };
    let hundreds = PlacedGlyph {
        mask: digit_glyph((value / 100 % 10) as nat),
        x: x as i64,
        y: y as i64,
    };
    if value >= 100 {
        seq![units, tens, hundreds]
    } else if value >= 10 {
        seq![units, tens]
    } else {
        seq![units]
    }
}

/// Mask of a digit.
pub fn digit_mask(digit: u8) -> (mask: u16)
    requires
        digit <= 9,
    ensures
        mask == digit_glyph(digit as nat),
        mask < 32768,
{
    let masks: [u16; 10] = [31599, 9879, 31183, 31207, 23524, 29671, 29679, 30994, 31727, 31719];
    masks[digit as usize]
}

/// Whether the cell in column `col` of row `row` is part of the glyph.
pub fn cell_is_set(mask: u16, col: u32, row: u32) -> (set: bool)
    ensures
        set == cell_set(mask, col as int, row as int),
{
    if col >= 3 || row >= 5 {
        return false;
    }
    let bit: u16 = ((4 - row) * 3 + col) as u16;
    (mask >> bit) & 1 == 1
}

/// Whether a glyph with its top left corner at the origin lights the point
/// `(x, y)`.
pub fn glyph_covers(mask: u16, x: i64, y: i64) -> (lit: bool)
    ensures
        lit == glyph_lit(mask, x as int, y as int),
{
    if x < 0 || x >= GLYPH_WIDTH || y < 0 || y >= GLYPH_HEIGHT {
        return false;
    }
    let col: u32 = (x as u32) / 1000;
    let row: u32 = (y as u32) / 1000;
    let across: u32 = (x as u32) % 1000;
    let down: u32 = (y as u32) % 1000;
    cell_is_set(mask, col, row) && 100 < across && across < 900 && 100 < down && down < 900
}

/// The glyphs of a number whose field starts at `(x, y)`.
pub fn place_number(value: u32, x: i32, y: i32) -> (glyphs: Vec<PlacedGlyph>)
    ensures
        glyphs@ == number_glyphs(value, x as int, y as int),
        value < 10 ==> glyphs.len() == 1,
        10 <= value < 100 ==> glyphs.len() == 2,
        value >= 100 ==> glyphs.len() == 3,
{
    let left: i64 = x as i64;
    let top: i64 = y as i64;
    let mut glyphs: Vec<PlacedGlyph> = Vec::new();
    glyphs.push(
        PlacedGlyph { mask: digit_mask((value % 10) as u8), x: left + 2 * GLYPH_PITCH, y: top },
    );
    if value >= 10 {
        glyphs.push(
            PlacedGlyph { mask: digit_mask((value / 10 % 10) as u8), x: left + GLYPH_PITCH, y: top },
        );
    }
    if value >= 100 {
        glyphs.push(PlacedGlyph { mask: digit_mask((value / 100 % 10) as u8), x: left, y: top });
    }
    assert(glyphs@ =~= number_glyphs(value, x as int, y as int));
    glyphs
}

/// Whether any glyph of `glyphs` lights the point `(x, y)`.
pub fn any_covers(glyphs: &Vec<PlacedGlyph>, x: i64, y: i64) -> (lit: bool)
    ensures
        lit == any_lit(glyphs@, x as int, y as int),
{
    let mut i: usize = 0;
    while i < glyphs.len()
        invariant
            i <= glyphs.len(),
            forall|k: int| 0 <= k < i ==> !placed_lit(#[trigger] glyphs[k], x as int, y as int),
        decreases glyphs.len() - i,
    {
        let glyph: PlacedGlyph = glyphs[i];
        let across: i128 = x as i128 - glyph.x as i128;
        let down: i128 = y as i128 - glyph.y as i128;
        if 0 <= across && across < GLYPH_WIDTH as i128 && 0 <= down && down < GLYPH_HEIGHT as i128 {
            if glyph_covers(glyph.mask, across as i64, down as i64) {
                return true;
            }
        }
        i = i + 1;
    }
    false
}

/// The whole numbers that the readout shows, one for each row.
#[derive(Clone, Copy, Debug, PartialEq, Eq)]
pub struct OverlayReadings {
    /// Frames per second of the window that closed last.
    pub current_fps: u32,
    /// Highest frames per second so far.
    pub max_fps: u32,
    /// Lowest frames per second so far.
    pub min_fps: u32,
    /// Frames per second of the slowest hundredth of the frames.
    pub one_percent_low_fps: u32,
    /// Jitter in milliseconds.
    pub jitter: u32,
}

/// Mask of the letter F.
pub const LETTER_F: u16 = 29385;

/// Mask of the letter P.
pub const LETTER_P: u16 = 31689;

/// Mask of the letter S.
pub const LETTER_S: u16 = 29671;

/// Mask of the letter M.
pub const LETTER_M: u16 = 24429;

/// Mask of the letter A.
pub const LETTER_A: u16 = 11245;

/// Mask of the letter X.
pub const LETTER_X: u16 = 23213;

/// Mask of the letter I.
pub const LETTER_I: u16 = 29847;

/// Mask of the letter N.
pub const LETTER_N: u16 = 23533;

/// Mask of the figure one as it stands in a label.
pub const FIGURE_ONE: u16 = 9879;

/// Mask of the percent sign.
pub const PERCENT_SIGN: u16 = 22669;

/// Mask of the letter L.
pub const LETTER_L: u16 = 4687;

/// Mask of the letter J.
pub const LETTER_J: u16 = 31023;

/// Mask of the letter T.
pub const LETTER_T: u16 = 29842;

/// The three glyphs of the label of a row: FPS, MAX, MIN, 1%L and JIT from
/// the top.
pub open spec fn row_label(row: int) -> Seq<u16> {
    if row == 0 {
        seq![LETTER_F, LETTER_P, LETTER_S]
    } else if row == 1 {
        seq![LETTER_M, LETTER_A, LETTER_X]
    } else if row == 2 {
        seq![LETTER_M, LETTER_I, LETTER_N]
    } else if row == 3 {
        seq![FIGURE_ONE, PERCENT_SIGN, LETTER_L]
    } else {
        seq![LETTER_J, LETTER_I, LETTER_T]
    }
}

/// The number that a row shows.
pub open spec fn row_value(readings: OverlayReadings, row: int) -> u32 {
    if row == 0 {
        readings.current_fps
    } else if row == 1 {
        readings.max_fps
    } else if row == 2 {
        readings.min_fps
    } else if row == 3 {
        readings.one_percent_low_fps
    } else {
        readings.jitter
    }
}

/// The glyphs of a row: its label at the left edge, its number in the number
/// column.
pub open spec fn row_glyphs(readings: OverlayReadings, row: int) -> Seq<PlacedGlyph> {
    let top = row * ROW_PITCH;
    let label = row_label(row);
    seq![
        PlacedGlyph { mask: label[0], x: 0, y: top as i64 },
        PlacedGlyph { mask: label[1], x: GLYPH_PITCH, y: top as i64 },
        PlacedGlyph { mask: label[2], x: (2 * GLYPH_PITCH) as i64, y: top as i64 },
    ] + number_glyphs(row_value(readings, row), NUMBER_COLUMN as int, top)
}

/// The glyphs of the first `rows` rows of the readout.
pub open spec fn rows_glyphs(readings: OverlayReadings, rows: nat) -> Seq<PlacedGlyph>
    decreases rows,
{
    if rows == 0 {
        Seq::empty()
    } else {
        rows_glyphs(readings, (rows - 1) as nat) + row_glyphs(readings, rows - 1)
    }
}

/// All glyphs of the readout.
pub open spec fn readout_glyphs(readings: OverlayReadings) -> Seq<PlacedGlyph> {
    rows_glyphs(readings, ROWS as nat)
}

/// Whether the readout lights the point `(x, y)`.
pub open spec fn readout_lit(readings: OverlayReadings, x: int, y: int) -> bool {
    any_lit(readout_glyphs(readings), x, y)
}

/// The three glyphs of the label of a row.
fn label_of(row: usize) -> (label: [u16; 3])
    requires
        row < ROWS,
    ensures
        label@ == row_label(row as int),
{
    let label: [u16; 3] = if row == 0 {
        [LETTER_F, LETTER_P, LETTER_S]
    } else if row == 1 {
        [LETTER_M, LETTER_A, LETTER_X]
    } else if row == 2 {
        [LETTER_M, LETTER_I, LETTER_N]
    } else if row == 3 {
        [FIGURE_ONE, PERCENT_SIGN, LETTER_L]
    } else {
        [LETTER_J, LETTER_I, LETTER_T]
    };
    assert(label@ =~= row_label(row as int));
    label
}

/// The whole number shown for a quantity held in thousandths: the thousandths
/// are dropped, and a number beyond [`READING_MAX`] is shown as that.
pub open spec fn shown(thousandths: u64) -> u32 {
    if thousandths / 1000 > READING_MAX {
        READING_MAX
    } else {
        (thousandths / 1000) as u32
    }
}

/// The numbers that the readout shows for a sample.
pub open spec fn readings_of(sample: TelemetrySample) -> OverlayReadings {
    OverlayReadings {
        current_fps: shown(sample.current_fps),
        max_fps: shown(sample.max_fps_ever),
        min_fps: shown(sample.min_fps_ever),
        one_percent_low_fps: shown(sample.one_percent_low_fps),
        jitter: shown(sample.jitter),
    }
}

/// The point of the readout's grid that a point of the screen falls on. The
/// screen point is given from the middle of the screen, `x` in thousandths of
/// half its width to the right and `y` in thousandths of half its height
/// upwards; the grid point is in thousandths of a cell, `y` growing downwards.
pub open spec fn grid_point(screen_x: int, screen_y: int) -> (int, int) {
    ((screen_x + ANCHOR) * CELLS_PER_UNIT, (ANCHOR - screen_y) * CELLS_PER_UNIT)
}

/// The colour of a point: the highlight where the readout is lit, the colour
/// of the scene elsewhere. There is no blending between the two.
pub open spec fn composed(scene: [u32; 3], lit: bool) -> [u32; 3] {
    if lit {
        HIGHLIGHT
    } else {
        scene
    }
}

/// Computes [`shown`].
pub fn whole_number(thousandths: u64) -> (value: u32)
    ensures
        value == shown(thousandths),
{
    let whole: u64 = thousandths / 1000;
    if whole > READING_MAX as u64 {
        READING_MAX
    } else {
        whole as u32
    }
}

/// Computes [`grid_point`].
pub fn to_grid(screen_x: i32, screen_y: i32) -> (point: (i64, i64))
    ensures
        (point.0 as int, point.1 as int) == grid_point(screen_x as int, screen_y as int),
{
    ((screen_x as i64 + ANCHOR) * CELLS_PER_UNIT, (ANCHOR - screen_y as i64) * CELLS_PER_UNIT)
}

/// Computes [`composed`].
pub fn compose(scene: [u32; 3], lit: bool) -> (color: [u32; 3])
    ensures
        color == composed(scene, lit),
{
    if lit {
        HIGHLIGHT
    } else {
        scene
    }
}

impl OverlayReadings {
    /// The numbers that the readout shows for a sample.
    pub fn from_sample(sample: &TelemetrySample) -> (readings: OverlayReadings)
        ensures
            readings == readings_of(*sample),
    {
        OverlayReadings {
            current_fps: whole_number(sample.current_fps),
            max_fps: whole_number(sample.max_fps_ever),
            min_fps: whole_number(sample.min_fps_ever),
            one_percent_low_fps: whole_number(sample.one_percent_low_fps),
            jitter: whole_number(sample.jitter),
        }
    }

    /// Whether the readout lights a point of the screen, given from the
    /// middle of the screen in thousandths of half its width and height.
    pub fn lights(&self, screen_x: i32, screen_y: i32) -> (lit: bool)
        ensures
            lit == readout_lit(
                *self,
                grid_point(screen_x as int, screen_y as int).0,
                grid_point(screen_x as int, screen_y as int).1,
            ),
    {
        let point: (i64, i64) = to_grid(screen_x, screen_y);
        self.covers(point.0, point.1)
    }

    /// The number that a row shows.
    fn value_of(&self, row: usize) -> (value: u32)
        requires
            row < ROWS,
        ensures
            value == row_value(*self, row as int),
    {
        if row == 0 {
            self.current_fps
        } else if row == 1 {
            self.max_fps
        } else if row == 2 {
            self.min_fps
        } else if row == 3 {
            self.one_percent_low_fps
        } else {
            self.jitter
        }
    }

    /// All glyphs of the readout, row by row from the top.
    pub fn glyphs(&self) -> (glyphs: Vec<PlacedGlyph>)
        ensures
            glyphs@ == readout_glyphs(*self),
    {
        let mut glyphs: Vec<PlacedGlyph> = Vec::new();
        let mut row: usize = 0;
        while row < ROWS
            invariant
                row <= ROWS,
                glyphs@ == rows_glyphs(*self, row as nat),
            decreases ROWS - row,
        {
            let top: i32 = (row as i32) * (ROW_PITCH as i32);
            let label: [u16; 3] = label_of(row);
            let ghost before = glyphs@;
            glyphs.push(PlacedGlyph { mask: label[0], x: 0, y: top as i64 });
            glyphs.push(PlacedGlyph { mask: label[1], x: GLYPH_PITCH, y: top as i64 });
            glyphs.push(PlacedGlyph { mask: label[2], x: 2 * GLYPH_PITCH, y: top as i64 });
            let mut number: Vec<PlacedGlyph> = place_number(
                self.value_of(row),
                NUMBER_COLUMN as i32,
                top,
            );
            glyphs.append(&mut number);
            assert(glyphs@ =~= before + row_glyphs(*self, row as int));
            row = row + 1;
        }
        glyphs
    }

    /// Whether the readout lights the point `(x, y)`.
    pub fn covers(&self, x: i64, y: i64) -> (lit: bool)
        ensures
            lit == readout_lit(*self, x as int, y as int),
    {
        let glyphs: Vec<PlacedGlyph> = self.glyphs();
        any_covers(&glyphs, x, y)
    }
}

} // verus!
