//! How the terminal is divided between the frame, the HUD and the field.

use vstd::prelude::*;

verus! {

/// The narrowest terminal, in columns, on which the full frame is drawn.
pub const MIN_COLUMNS: u16 = 24;

/// The shortest terminal, in rows, on which the full frame is drawn.
pub const MIN_ROWS: u16 = 8;

/// Rows taken by the frame outside the field: two borders, the HUD line
/// and the help line.
pub const RESERVED_ROWS: u16 = 4;

/// Whether a terminal of `size` (columns, rows) is large enough for the frame.
pub open spec fn spec_fits(size: (u16, u16)) -> bool {
    size.0 >= MIN_COLUMNS && size.1 >= MIN_ROWS
}

/// `value - reserved`, but never less than two cells.
pub open spec fn field_extent(value: int, reserved: int) -> int {
    if value - reserved < 2 {
        2
    } else {
        value - reserved
    }
}

/// The field's size in cells (columns, rows) for a terminal of `size`:
/// the side borders and the four reserved rows are taken off, and each
/// extent is at least two.
pub open spec fn spec_field_cells(size: (u16, u16)) -> (u16, u16) {
    (
        field_extent(size.0 as int, 2) as u16,
        field_extent(size.1 as int, RESERVED_ROWS as int) as u16,
    )
}

/// Whether a terminal of `size` is large enough for the full frame.
pub fn fits_terminal(size: (u16, u16)) -> (fits: bool)
    ensures
        fits == spec_fits(size),
{
    size.0 >= MIN_COLUMNS && size.1 >= MIN_ROWS
}

/// Subtracts `reserved` from `value`, saturating at zero, and raises the
/// result to at least two.
fn reserve(value: u16, reserved: u16) -> (extent: u16)
    ensures
        extent == field_extent(value as int, reserved as int),
{
    let rest = value.saturating_sub(reserved);
    if rest < 2 {
        2
    } else {
        rest
    }
}

/// The size in cells (columns, rows) of the simulation field for a terminal
/// of `size` (columns, rows).
pub fn field_cells(size: (u16, u16)) -> (cells: (u16, u16))
    ensures
        cells == spec_field_cells(size),
        cells.0 >= 2,
        cells.1 >= 2,
{
    (reserve(size.0, 2), reserve(size.1, RESERVED_ROWS))
}

/// The full frame is drawn exactly on terminals of at least 24 columns and
/// 8 rows.
pub proof fn minimum_terminal(size: (u16, u16))
    ensures
        spec_fits(size) <==> (size.0 >= 24 && size.1 >= 8),
{
}

/// The field is the terminal less two columns and four rows, but never
/// narrower or shorter than two cells; a larger terminal never gives a
/// smaller field.
pub proof fn field_cells_law(size: (u16, u16), larger: (u16, u16))
    ensures
        size.0 >= 4 ==> spec_field_cells(size).0 == size.0 - 2,
        size.0 < 4 ==> spec_field_cells(size).0 == 2,
        size.1 >= 6 ==> spec_field_cells(size).1 == size.1 - 4,
        size.1 < 6 ==> spec_field_cells(size).1 == 2,
        size.0 <= larger.0 ==> spec_field_cells(size).0 <= spec_field_cells(larger).0,
        size.1 <= larger.1 ==> spec_field_cells(size).1 <= spec_field_cells(larger).1,
{
}

} // verus!
