use crate::band::ValType;
use vstd::prelude::*;

verus! {

/// The colours that a band can take.
#[derive(Clone, Copy, Debug, PartialEq, Eq, Structural)]
pub enum Colour {
    Pink,
    Silver,
    Gold,
    Black,
    Brown,
    Red,
    Orange,
    Yellow,
    Green,
    Blue,
    Violet,
    Gray,
    White,
}

/// Fill patterns drawn on a band (monochrome stand-ins for colours).
#[derive(Clone, Copy, Debug, PartialEq, Eq, Structural)]
pub enum Pattern {
    Black,
    White,
    Gray,
    Shiny,
    ShinyRev,
    Vibrant,
    Dull,
    Orbs,
    Strips,
    Snow,
    Squared,
    Wavy,
    Striped,
}

/// How a colour is shown: LED intensities, band pattern and abbreviation glyph.
#[derive(Clone, Copy, Debug, PartialEq, Eq, Structural)]
pub struct RGB {
    pub red: u8,
    pub green: u8,
    pub blue: u8,
    pub pattern: Pattern,
    pub abbreviation: Colour,
}

/// The display entry of each colour.
pub open spec fn colour_entry(c: Colour) -> RGB {
    let (red, green, blue, pattern) = match c {
        Colour::Pink => (255u8, 32u8, 128u8, Pattern::Vibrant),
        Colour::Silver => (40, 40, 40, Pattern::ShinyRev),
        Colour::Gold => (192, 64, 0, Pattern::Shiny),
        Colour::Black => (0, 0, 0, Pattern::Black),
        Colour::Brown => (192, 32, 8, Pattern::Dull),
        Colour::Red => (255, 0, 0, Pattern::Squared),
        Colour::Orange => (255, 40, 0, Pattern::Striped),
        Colour::Yellow => (255, 128, 0, Pattern::Strips),
        Colour::Green => (0, 255, 0, Pattern::Orbs),
        Colour::Blue => (0, 0, 192, Pattern::Snow),
        Colour::Violet => (112, 0, 224, Pattern::Wavy),
        Colour::Gray => (24, 24, 24, Pattern::Gray),
        Colour::White => (255, 255, 255, Pattern::White),
    };
    RGB { red, green, blue, pattern, abbreviation: c }
}

impl Colour {
    pub fn entry(self) -> (r: RGB)
        ensures
            r == colour_entry(self),
    {
        let (red, green, blue, pattern) = match self {
            Colour::Pink => (255u8, 32u8, 128u8, Pattern::Vibrant),
            Colour::Silver => (40, 40, 40, Pattern::ShinyRev),
            Colour::Gold => (192, 64, 0, Pattern::Shiny),
            Colour::Black => (0, 0, 0, Pattern::Black),
            Colour::Brown => (192, 32, 8, Pattern::Dull),
            Colour::Red => (255, 0, 0, Pattern::Squared),
            Colour::Orange => (255, 40, 0, Pattern::Striped),
            Colour::Yellow => (255, 128, 0, Pattern::Strips),
            Colour::Green => (0, 255, 0, Pattern::Orbs),
            Colour::Blue => (0, 0, 192, Pattern::Snow),
            Colour::Violet => (112, 0, 224, Pattern::Wavy),
            Colour::Gray => (24, 24, 24, Pattern::Gray),
            Colour::White => (255, 255, 255, Pattern::White),
        };
        RGB { red, green, blue, pattern, abbreviation: self }
    }
}

/// The colour table of each band kind, in menu order.
pub open spec fn colour_table(k: ValType) -> Seq<Colour> {
    match k {
        ValType::Digit => seq![
            Colour::Black, Colour::Brown, Colour::Red, Colour::Orange, Colour::Yellow,
            Colour::Green, Colour::Blue, Colour::Violet, Colour::Gray, Colour::White,
        ],
        ValType::Multiplier => seq![
            Colour::Pink, Colour::Silver, Colour::Gold, Colour::Black, Colour::Brown,
            Colour::Red, Colour::Orange, Colour::Yellow, Colour::Green, Colour::Blue,
            Colour::Violet, Colour::Gray, Colour::White,
        ],
        ValType::Tolerance => seq![
            Colour::Gray, Colour::Yellow, Colour::Orange, Colour::Violet, Colour::Blue,
            Colour::Green, Colour::Brown, Colour::Red, Colour::Gold, Colour::Silver,
        ],
        ValType::TCR => seq![
            Colour::Gray, Colour::Violet, Colour::Blue, Colour::Orange, Colour::Green,
            Colour::Yellow, Colour::Red, Colour::Brown, Colour::Black,
        ],
    }
}

/// Number of entries in the colour table of a kind.
pub open spec fn table_len(k: ValType) -> nat {
    match k {
        ValType::Digit => 10,
        ValType::Multiplier => 13,
        ValType::Tolerance => 10,
        ValType::TCR => 9,
    }
}

/// Number of entries in the colour table of `k`.
pub fn table_size(k: ValType) -> (n: u8)
    ensures
        n == table_len(k),
{
    match k {
        ValType::Digit => 10,
        ValType::Multiplier => 13,
        ValType::Tolerance => 10,
        ValType::TCR => 9,
    }
}

/// The `i`-th colour of the table of `k`.
pub fn colour_at(k: ValType, i: u8) -> (c: Colour)
    requires
        i < table_len(k),
    ensures
        c == colour_table(k)[i as int],
{
    match k {
        ValType::Digit => match i {
            0 => Colour::Black,
            1 => Colour::Brown,
            2 => Colour::Red,
            3 => Colour::Orange,
            4 => Colour::Yellow,
            5 => Colour::Green,
            6 => Colour::Blue,
            7 => Colour::Violet,
            8 => Colour::Gray,
            _ => Colour::White,
        },
        ValType::Multiplier => match i {
            0 => Colour::Pink,
            1 => Colour::Silver,
            2 => Colour::Gold,
            3 => Colour::Black,
            4 => Colour::Brown,
            5 => Colour::Red,
            6 => Colour::Orange,
            7 => Colour::Yellow,
            8 => Colour::Green,
            9 => Colour::Blue,
            10 => Colour::Violet,
            11 => Colour::Gray,
            _ => Colour::White,
        },
        ValType::Tolerance => match i {
            0 => Colour::Gray,
            1 => Colour::Yellow,
            2 => Colour::Orange,
            3 => Colour::Violet,
            4 => Colour::Blue,
            5 => Colour::Green,
            6 => Colour::Brown,
            7 => Colour::Red,
            8 => Colour::Gold,
            _ => Colour::Silver,
        },
        ValType::TCR => match i {
            0 => Colour::Gray,
            1 => Colour::Violet,
            2 => Colour::Blue,
            3 => Colour::Orange,
            4 => Colour::Green,
            5 => Colour::Yellow,
            6 => Colour::Red,
            7 => Colour::Brown,
            _ => Colour::Black,
        },
    }
}

} // verus!
