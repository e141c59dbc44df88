use crate::geometry::{ABBR_HEIGHT, ABBR_WIDTH, HEIGHT, MENU_GAP, WIDTH};
use vstd::prelude::*;

verus! {

/// A direction button.
#[derive(Clone, Copy, Debug, PartialEq, Eq, Structural)]
pub enum Direction {
    Left,
    Right,
    Up,
    Down,
}

/// Whether `i` is the lone entry of a short last row, drawn centred.
pub open spec fn is_centred_last(len: int, i: int) -> bool {
    i == len - 1 && len % 3 != 0
}

/// Where the cursor of a grid of `len` entries (three to a row) goes from
/// `cursor` on a press of `dir`. Left and right stay within the row; up and
/// down move a whole row, and down from the row above a short last row lands
/// on its last entry.
pub open spec fn moved_cursor(len: int, cursor: int, dir: Direction) -> int {
    match dir {
        Direction::Left => if cursor % 3 != 0 && cursor > 0 {
            cursor - 1
        } else {
            cursor
        },
        Direction::Right => if cursor < len - 1 && cursor % 3 != 2 {
            cursor + 1
        } else {
            cursor
        },
        Direction::Up => if cursor > 2 {
            if is_centred_last(len, cursor) {
                cursor - 2
            } else {
                cursor - 3
            }
        } else {
            cursor
        },
        Direction::Down => if cursor < len - 3 {
            cursor + 3
        } else if len % 3 != 0 {
            len - 1
        } else {
            cursor
        },
    }
}

/// Moves the cursor of a grid of `len` entries.
pub fn move_cursor(len: u8, cursor: u8, dir: Direction) -> (r: u8)
    requires
        3 <= len,
        cursor < len,
    ensures
        r == moved_cursor(len as int, cursor as int, dir),
{
    match dir {
        Direction::Left => if cursor % 3 != 0 && cursor > 0 {
            cursor - 1
        } else {
            cursor
        },
        Direction::Right => if cursor < len - 1 && cursor % 3 != 2 {
            cursor + 1
        } else {
            cursor
        },
        Direction::Up => if cursor > 2 {
            if cursor == len - 1 && len % 3 != 0 {
                cursor - 2
            } else {
                cursor - 3
            }
        } else {
            cursor
        },
        Direction::Down => if cursor < len - 3 {
            cursor + 3
        } else if len % 3 != 0 {
            len - 1
        } else {
            cursor
        },
    }
}

/// The cursor never leaves the grid, whatever the press.
pub proof fn lemma_cursor_stays_in_grid(len: int, cursor: int, dir: Direction)
    requires
        3 <= len,
        0 <= cursor < len,
    ensures
        0 <= moved_cursor(len, cursor, dir) < len,
{
}

/// Column (0 to 2) and row of entry `i` in the grid; a lone last entry sits
/// in the middle column.
pub open spec fn cell_of(len: int, i: int) -> (int, int) {
    (i % 3 + if is_centred_last(len, i) {
        1int
    } else {
        0
    }, i / 3)
}

/// Left edge of the grid's first column.
pub open spec fn grid_left() -> int {
    (WIDTH - ABBR_WIDTH) / 2 - MENU_GAP - ABBR_WIDTH
}

/// Top edge of the grid's first row, which centres the rows vertically.
pub open spec fn grid_top(len: int) -> int {
    (HEIGHT - (len + 2) / 3 * (ABBR_HEIGHT + MENU_GAP) + MENU_GAP) / 2
}

/// Top-left corner of the glyph of entry `i`, one cell being an abbreviation
/// glyph plus a gap.
pub open spec fn entry_xy(len: int, i: int) -> (int, int) {
    (
        grid_left() + cell_of(len, i).0 * (ABBR_WIDTH + MENU_GAP),
        grid_top(len) + cell_of(len, i).1 * (ABBR_HEIGHT + MENU_GAP),
    )
}

/// Where the glyph of entry `i` of a grid of `len` entries goes.
pub fn menu_entry_xy(len: u8, i: u8) -> (r: (i16, i16))
    requires
        3 <= len <= 18,
        i < len,
    ensures
        r.0 == entry_xy(len as int, i as int).0,
        r.1 == entry_xy(len as int, i as int).1,
{
    let centre: i16 = if i + 1 == len && len % 3 != 0 {
        1
    } else {
        0
    };
    let col: i16 = (i % 3) as i16 + centre;
    let row: i16 = (i / 3) as i16;
    let rows: i16 = ((len + 2) / 3) as i16;
    assert(0 <= row <= rows <= 6) by {
        vstd::arithmetic::div_mod::lemma_div_is_ordered(i as int, len as int + 2, 3);
        vstd::arithmetic::div_mod::lemma_div_is_ordered(len as int + 2, 20, 3);
    }
    assert(0 <= row * 11 <= rows * 11 <= 66 && 0 <= col * 13 <= 39) by (nonlinear_arith)
        requires
            0 <= row <= rows <= 6,
            0 <= col <= 3,
    ;
    let left: i16 = (WIDTH - ABBR_WIDTH) / 2 - MENU_GAP - ABBR_WIDTH;
    let top: i16 = (HEIGHT - rows * (ABBR_HEIGHT + MENU_GAP) + MENU_GAP) / 2;
    (left + col * (ABBR_WIDTH + MENU_GAP), top + row * (ABBR_HEIGHT + MENU_GAP))
}

/// Where the cursor arrow for entry `i` goes: just left of its glyph.
pub fn menu_cursor_xy(len: u8, i: u8) -> (r: (i16, i16))
    requires
        3 <= len <= 18,
        i < len,
    ensures
        r.0 == entry_xy(len as int, i as int).0 - 4,
        r.1 == entry_xy(len as int, i as int).1,
{
    let (x, y) = menu_entry_xy(len, i);
    (x - 4, y)
}

} // verus!
