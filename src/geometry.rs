use vstd::prelude::*;

verus! {

/// Screen size in pixels.
pub const WIDTH: i16 = 128;
pub const HEIGHT: i16 = 64;

/// Size of one text character cell.
pub const CHAR_WIDTH: i16 = 6;
pub const CHAR_HEIGHT: i16 = 8;

/// The resistor graphic spans the whole width, vertically centred:
/// `RES_Y == (HEIGHT - RES_HEIGHT) / 2`.
pub const RES_HEIGHT: i16 = 32;
pub const RES_Y: i16 = 16;

/// Band texts sit centred above the resistor: `TEXT_Y == (RES_Y - CHAR_HEIGHT) / 2`.
pub const TEXT_Y: i16 = 4;

/// Colour swatches are drawn over the resistor body.
pub const BAND_Y: i16 = RES_Y;
pub const BAND_WIDTH: i16 = 6;

/// Abbreviation glyphs, centred below the resistor:
/// `ABBR_Y == (HEIGHT + RES_Y + RES_HEIGHT) / 2 - ABBR_HEIGHT`.
pub const ABBR_WIDTH: i16 = 7;
pub const ABBR_HEIGHT: i16 = 5;
pub const ABBR_Y: i16 = 51;

/// The colour-picker window and the gap between its entries.
pub const MENU_SIZE: i16 = 56;
pub const MENU_GAP: i16 = 6;

/// The derived positions agree with the formulas in their descriptions.
pub proof fn lemma_derived_positions()
    ensures
        RES_Y == (HEIGHT - RES_HEIGHT) / 2,
        TEXT_Y == (RES_Y - CHAR_HEIGHT) / 2,
        ABBR_Y == (HEIGHT + RES_Y + RES_HEIGHT) / 2 - ABBR_HEIGHT,
{
}

} // verus!
