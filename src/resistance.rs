use crate::band::{in_domain, width_of, Band, ValType};
use crate::geometry::{CHAR_WIDTH, TEXT_Y, WIDTH};
use vstd::prelude::*;

verus! {

/// Fewest and most bands a resistor can have.
pub const MIN_BANDS: u8 = 3;
pub const MAX_BANDS: u8 = 6;

/// The named places a band can occupy on the resistor.
#[derive(Clone, Copy, Debug, PartialEq, Eq, Structural)]
pub enum Slot {
    Value1,
    Value10,
    Value100,
    Multiplier,
    Tolerance,
    Tcr,
}

pub open spec fn valid_band_count(b: int) -> bool {
    MIN_BANDS <= b <= MAX_BANDS
}

/// The slot at position `p` of a resistor with `b` bands, left to right.
pub open spec fn slot_of(b: int, p: int) -> Slot {
    if p == 0 {
        Slot::Value1
    } else if p == 1 {
        Slot::Value10
    } else if b <= 4 {
        if p == 2 {
            Slot::Multiplier
        } else {
            Slot::Tolerance
        }
    } else if p == 2 {
        Slot::Value100
    } else if p == 3 {
        Slot::Multiplier
    } else if p == 4 {
        Slot::Tolerance
    } else {
        Slot::Tcr
    }
}

/// Whether slot `s` is in use on a resistor with `b` bands.
pub open spec fn addressable(b: int, s: Slot) -> bool {
    match s {
        Slot::Value100 => b >= 5,
        Slot::Tolerance => b >= 4,
        Slot::Tcr => b >= 6,
        _ => true,
    }
}

pub open spec fn slot_kind(s: Slot) -> ValType {
    match s {
        Slot::Multiplier => ValType::Multiplier,
        Slot::Tolerance => ValType::Tolerance,
        Slot::Tcr => ValType::TCR,
        _ => ValType::Digit,
    }
}

/// Fixed x-coordinate of each slot's colour swatch on the resistor graphic.
pub open spec fn swatch_x(s: Slot) -> i16 {
    match s {
        Slot::Value1 => 32,
        Slot::Value10 => 44,
        Slot::Value100 => 56,
        Slot::Multiplier => 69,
        Slot::Tolerance => 82,
        Slot::Tcr => 94,
    }
}

/// Screen width, in pixels, that the text of a kind takes in the layout: the
/// multiplier's four cells, five for a percentage, seven for a TCR.
pub open spec fn text_extent(k: ValType) -> int {
    match k {
        ValType::Digit => CHAR_WIDTH as int,
        ValType::Multiplier => 4 * CHAR_WIDTH,
        ValType::Tolerance => 5 * CHAR_WIDTH,
        ValType::TCR => 7 * CHAR_WIDTH,
    }
}

/// Width of all band texts of a resistor with `b` bands.
pub open spec fn total_text_width(b: int) -> int {
    (if b >= 5 {
        7 * CHAR_WIDTH
    } else {
        6 * CHAR_WIDTH
    }) + (if b >= 4 {
        5 * CHAR_WIDTH
    } else {
        0
    }) + (if b >= 6 {
        7 * CHAR_WIDTH
    } else {
        0
    })
}

/// Number of equal spacings: one at each screen edge, and one after the
/// multiplier and after the tolerance when another band follows.
pub open spec fn gaps(b: int) -> int {
    b - if b >= 5 {
        2int
    } else {
        1int
    }
}

/// Screen width left over for the spacings; one spacing is `spare(b) / gaps(b)`.
pub open spec fn spare(b: int) -> int {
    WIDTH - total_text_width(b)
}

/// Order of the slots from left to right.
pub open spec fn slot_rank(s: Slot) -> nat {
    match s {
        Slot::Value1 => 0,
        Slot::Value10 => 1,
        Slot::Value100 => 2,
        Slot::Multiplier => 3,
        Slot::Tolerance => 4,
        Slot::Tcr => 5,
    }
}

/// Exact left edge of each slot's text, multiplied by `gaps(b)`. The text
/// starts one spacing plus one pixel from the left edge; digits follow each
/// other directly, and a spacing follows the multiplier and the tolerance.
pub open spec fn scaled_x(b: int, s: Slot) -> int
    decreases slot_rank(s),
{
    let g = gaps(b);
    match s {
        Slot::Value1 => spare(b) + g,
        Slot::Value10 => scaled_x(b, Slot::Value1) + g * CHAR_WIDTH,
        Slot::Value100 => scaled_x(b, Slot::Value10) + if b >= 5 {
            g * CHAR_WIDTH
        } else {
            0
        },
        Slot::Multiplier => scaled_x(b, Slot::Value100) + g * CHAR_WIDTH,
        Slot::Tolerance => scaled_x(b, Slot::Multiplier) + if b >= 4 {
            g * text_extent(ValType::Multiplier) + spare(b)
        } else {
            0
        },
        Slot::Tcr => scaled_x(b, Slot::Tolerance) + if b >= 6 {
            g * text_extent(ValType::Tolerance) + spare(b)
        } else {
            0
        },
    }
}

/// Pixel column of a slot's text: the exact position rounded down.
pub open spec fn text_x(b: int, s: Slot) -> int {
    scaled_x(b, s) / gaps(b)
}

/// The band that slot `s` holds on a fresh resistor with `b` bands.
pub open spec fn layout_band(b: int, s: Slot) -> Band {
    Band {
        value: 0,
        show: addressable(b, s),
        vtype: slot_kind(s),
        x: text_x(b, s) as i16,
        y: TEXT_Y,
        width: width_of(slot_kind(s)),
        bandx: swatch_x(s),
    }
}

/// A position kept multiplied by `g`, rounded down, stays on screen.
proof fn lemma_scaled_on_screen(x: int, g: int)
    requires
        0 < g,
        0 <= x <= g * WIDTH,
    ensures
        0 <= x / g <= WIDTH,
{
    vstd::arithmetic::div_mod::lemma_div_pos_is_pos(x, g);
    vstd::arithmetic::div_mod::lemma_div_is_ordered(x, g * WIDTH, g);
    vstd::arithmetic::div_mod::lemma_div_by_multiple(WIDTH as int, g);
    vstd::arithmetic::mul::lemma_mul_is_commutative(g, WIDTH as int);
}

/// All bands of a resistor, and how many of them are in use.
pub struct Resistance {
    pub value1: Band,
    pub value10: Band,
    pub value100: Band,
    pub multiplier_pow: Band,
    pub tolerance_index: Band,
    pub tcr_index: Band,
    pub bands: u8,
}

impl Resistance {
    pub open spec fn slot(&self, s: Slot) -> Band {
        match s {
            Slot::Value1 => self.value1,
            Slot::Value10 => self.value10,
            Slot::Value100 => self.value100,
            Slot::Multiplier => self.multiplier_pow,
            Slot::Tolerance => self.tolerance_index,
            Slot::Tcr => self.tcr_index,
        }
    }

    /// The band at position `p`, counted from the left.
    pub open spec fn band_at(&self, p: int) -> Band {
        self.slot(slot_of(self.bands as int, p))
    }

    /// This resistor with slot `s` holding `band`.
    pub open spec fn with_slot(self, s: Slot, band: Band) -> Resistance {
        match s {
            Slot::Value1 => Resistance { value1: band, ..self },
            Slot::Value10 => Resistance { value10: band, ..self },
            Slot::Value100 => Resistance { value100: band, ..self },
            Slot::Multiplier => Resistance { multiplier_pow: band, ..self },
            Slot::Tolerance => Resistance { tolerance_index: band, ..self },
            Slot::Tcr => Resistance { tcr_index: band, ..self },
        }
    }

    /// Slot `s` after a rebuild with `b` bands: laid out for `b`, keeping its
    /// value only when in use both before and after.
    pub open spec fn rebuilt_slot(&self, b: int, s: Slot) -> Band {
        layout_band(b, s).with_value(
            if addressable(self.bands as int, s) && addressable(b, s) {
                self.slot(s).value as int
            } else {
                0
            },
        )
    }

    /// This resistor rebuilt with `b` bands.
    pub open spec fn rebuilt(&self, b: int) -> Resistance {
        Resistance {
            value1: self.rebuilt_slot(b, Slot::Value1),
            value10: self.rebuilt_slot(b, Slot::Value10),
            value100: self.rebuilt_slot(b, Slot::Value100),
            multiplier_pow: self.rebuilt_slot(b, Slot::Multiplier),
            tolerance_index: self.rebuilt_slot(b, Slot::Tolerance),
            tcr_index: self.rebuilt_slot(b, Slot::Tcr),
            bands: b as u8,
        }
    }

    /// A rebuild of a well-formed resistor is well formed.
    pub proof fn lemma_rebuilt_wf(&self, b: int)
        requires
            self.wf(),
            valid_band_count(b),
        ensures
            self.rebuilt(b).wf(),
    {
        let r = self.rebuilt(b);
        assert forall|s: Slot| #![trigger r.slot(s)]
            r.slot(s) == layout_band(b, s).with_value(r.slot(s).value as int)
            && in_domain(slot_kind(s), r.slot(s).value as int) by {
            assert(self.slot(s) == layout_band(self.bands as int, s).with_value(self.slot(s).value as int));
            assert(in_domain(slot_kind(s), self.slot(s).value as int));
            match s {
                Slot::Value1 => {},
                Slot::Value10 => {},
                Slot::Value100 => {},
                Slot::Multiplier => {},
                Slot::Tolerance => {},
                Slot::Tcr => {},
            }
        }
    }

    /// This resistor with the band at position `p` holding `v`.
    pub open spec fn with_value_at(self, p: int, v: int) -> Resistance {
        self.with_slot(slot_of(self.bands as int, p), self.band_at(p).with_value(v))
    }

    /// The band count is supported, and each slot is laid out for it and
    /// holds a value of its kind.
    pub open spec fn wf(&self) -> bool {
        &&& valid_band_count(self.bands as int)
        &&& forall|s: Slot|
            #![trigger self.slot(s)]
            {
                &&& self.slot(s) == layout_band(self.bands as int, s).with_value(
                    self.slot(s).value as int,
                )
                &&& in_domain(slot_kind(s), self.slot(s).value as int)
            }
    }

    /// A resistor with `bands` bands, every value zero, texts spread evenly
    /// over the screen width.
    pub fn new(bands: u8) -> (r: Resistance)
        requires
            valid_band_count(bands as int),
        ensures
            r.wf(),
            r.bands == bands,
            forall|s: Slot| #[trigger] r.slot(s) == layout_band(bands as int, s),
    {
        let b = bands;
        let total: i16 = (if b >= 5 {
            7 * CHAR_WIDTH
        } else {
            6 * CHAR_WIDTH
        }) + (if b >= 4 {
            5 * CHAR_WIDTH
        } else {
            0
        }) + (if b >= 6 {
            7 * CHAR_WIDTH
        } else {
            0
        });
        let g: i16 = b as i16 - if b >= 5 {
            2
        } else {
            1
        };
        let spare: i16 = WIDTH - total;
        // Positions are kept multiplied by `g`, so that spacings stay exact.
        let mut x: i16 = spare + g;
        let ghost at_value1 = x;
        let value1 = Band::new(true, ValType::Digit, x / g, 32);
        x = x + g * CHAR_WIDTH;
        let ghost at_value10 = x;
        let value10 = Band::new(true, ValType::Digit, x / g, 44);
        if b >= 5 {
            x = x + g * CHAR_WIDTH;
        }
        let ghost at_value100 = x;
        let value100 = Band::new(b >= 5, ValType::Digit, x / g, 56);
        x = x + g * CHAR_WIDTH;
        let ghost at_multiplier = x;
        let multiplier_pow = Band::new(true, ValType::Multiplier, x / g, 69);
        let multiplier_width: i16 = CHAR_WIDTH * Band::get_width(&ValType::Multiplier) as i16;
        let tolerance_width: i16 = CHAR_WIDTH * Band::get_width(&ValType::Tolerance) as i16;
        assert(g * multiplier_width == g * 24 && g * tolerance_width == g * 30);
        if b >= 4 {
            x = x + g * multiplier_width + spare;
        }
        let ghost at_tolerance = x;
        let tolerance_index = Band::new(b >= 4, ValType::Tolerance, x / g, 82);
        if b >= 6 {
            x = x + g * tolerance_width + spare;
        }
        let ghost at_tcr = x;
        let tcr_index = Band::new(b >= 6, ValType::TCR, x / g, 94);
        let r = Resistance {
            value1,
            value10,
            value100,
            multiplier_pow,
            tolerance_index,
            tcr_index,
            bands,
        };
        proof {
            reveal_with_fuel(scaled_x, 6);
            assert(at_value1 == scaled_x(b as int, Slot::Value1));
            assert(at_value10 == scaled_x(b as int, Slot::Value10));
            assert(at_value100 == scaled_x(b as int, Slot::Value100));
            assert(at_multiplier == scaled_x(b as int, Slot::Multiplier));
            assert(at_tolerance == scaled_x(b as int, Slot::Tolerance));
            assert(at_tcr == scaled_x(b as int, Slot::Tcr));
        }
        assert forall|s: Slot| #[trigger] r.slot(s) == layout_band(bands as int, s) by {
            reveal_with_fuel(scaled_x, 6);
        }
        r
    }

    /// The band at position `i`, counted from the left.
    pub fn index(&self, i: u8) -> (r: &Band)
        requires
            self.wf(),
            i < self.bands,
        ensures
            *r == self.band_at(i as int),
    {
        match self.bands {
            3 => match i {
                0 => &self.value1,
                1 => &self.value10,
                _ => &self.multiplier_pow,
            },
            4 => match i {
                0 => &self.value1,
                1 => &self.value10,
                2 => &self.multiplier_pow,
                _ => &self.tolerance_index,
            },
            5 => match i {
                0 => &self.value1,
                1 => &self.value10,
                2 => &self.value100,
                3 => &self.multiplier_pow,
                _ => &self.tolerance_index,
            },
            _ => match i {
                0 => &self.value1,
                1 => &self.value10,
                2 => &self.value100,
                3 => &self.multiplier_pow,
                4 => &self.tolerance_index,
                _ => &self.tcr_index,
            },
        }
    }

    /// The band at position `i`, or `None` when no band is in use there.
    pub fn get(&self, i: u8) -> (r: Option<&Band>)
        requires
            self.wf(),
        ensures
            i < self.bands ==> (r matches Some(band) && *band == self.band_at(i as int)),
            i >= self.bands ==> r is None,
    {
        if i < self.bands {
            Some(self.index(i))
        } else {
            None
        }
    }

    /// Mutable access to the band at position `i`; the resistor afterwards
    /// holds whatever the caller leaves there.
    pub fn index_mut(&mut self, i: u8) -> (r: &mut Band)
        requires
            old(self).wf(),
            i < old(self).bands,
        ensures
            *r == old(self).band_at(i as int),
            *final(self) == old(self).with_slot(slot_of(old(self).bands as int, i as int), *final(r)),
    {
        match self.bands {
            3 => match i {
                0 => &mut self.value1,
                1 => &mut self.value10,
                _ => &mut self.multiplier_pow,
            },
            4 => match i {
                0 => &mut self.value1,
                1 => &mut self.value10,
                2 => &mut self.multiplier_pow,
                _ => &mut self.tolerance_index,
            },
            5 => match i {
                0 => &mut self.value1,
                1 => &mut self.value10,
                2 => &mut self.value100,
                3 => &mut self.multiplier_pow,
                _ => &mut self.tolerance_index,
            },
            _ => match i {
                0 => &mut self.value1,
                1 => &mut self.value10,
                2 => &mut self.value100,
                3 => &mut self.multiplier_pow,
                4 => &mut self.tolerance_index,
                _ => &mut self.tcr_index,
            },
        }
    }

    /// The same resistor with `bands` bands: laid out afresh, keeping the value
    /// of each slot that is in use both before and after, zero elsewhere.
    pub fn with_bands(&self, bands: u8) -> (r: Resistance)
        requires
            self.wf(),
            valid_band_count(bands as int),
        ensures
            r.wf(),
            r == self.rebuilt(bands as int),
    {
        let mut r = Resistance::new(bands);
        let ghost fresh = r;
        let old_b = self.bands;
        r.value1.value = self.value1.value;
        r.value10.value = self.value10.value;
        if old_b >= 5 && bands >= 5 {
            r.value100.value = self.value100.value;
        }
        r.multiplier_pow.value = self.multiplier_pow.value;
        if old_b >= 4 && bands >= 4 {
            r.tolerance_index.value = self.tolerance_index.value;
        }
        if old_b >= 6 && bands >= 6 {
            r.tcr_index.value = self.tcr_index.value;
        }
        assert forall|s: Slot|
            #[trigger] r.slot(s) == layout_band(bands as int, s).with_value(
                if addressable(old_b as int, s) && addressable(bands as int, s) {
                    self.slot(s).value as int
                } else {
                    0
                },
            ) by {
            assert(self.slot(s) == layout_band(old_b as int, s).with_value(self.slot(s).value as int));
            assert(fresh.slot(s) == layout_band(bands as int, s));
            match s {
                Slot::Value1 => {},
                Slot::Value10 => {},
                Slot::Value100 => {},
                Slot::Multiplier => {},
                Slot::Tolerance => {},
                Slot::Tcr => {},
            }
        }
        assert forall|s: Slot| #![trigger r.slot(s)]
            r.slot(s) == layout_band(bands as int, s).with_value(r.slot(s).value as int)
            && in_domain(slot_kind(s), r.slot(s).value as int) by {
            assert(self.slot(s) == layout_band(old_b as int, s).with_value(self.slot(s).value as int));
            assert(in_domain(slot_kind(s), self.slot(s).value as int));
        }
        assert(r.slot(Slot::Value1) == self.rebuilt_slot(bands as int, Slot::Value1));
        assert(r.slot(Slot::Value10) == self.rebuilt_slot(bands as int, Slot::Value10));
        assert(r.slot(Slot::Value100) == self.rebuilt_slot(bands as int, Slot::Value100));
        assert(r.slot(Slot::Multiplier) == self.rebuilt_slot(bands as int, Slot::Multiplier));
        assert(r.slot(Slot::Tolerance) == self.rebuilt_slot(bands as int, Slot::Tolerance));
        assert(r.slot(Slot::Tcr) == self.rebuilt_slot(bands as int, Slot::Tcr));
        r
    }
}

/// The layout of each band count in numbers: gaps, spare width, and the
/// scaled text columns of the multiplier, tolerance and TCR slots.
#[verifier::spinoff_prover]
proof fn lemma_layout_numbers(b: int)
    requires
        valid_band_count(b),
    ensures
        text_extent(ValType::Multiplier) == 24,
        text_extent(ValType::Tolerance) == 30,
        text_extent(ValType::TCR) == 42,
        b == 3 ==> gaps(b) == 2 && spare(b) == 92 && scaled_x(b, Slot::Multiplier) == 118,
        b == 4 ==> gaps(b) == 3 && spare(b) == 62 && scaled_x(b, Slot::Multiplier) == 101
            && scaled_x(b, Slot::Tolerance) == 235,
        b == 5 ==> gaps(b) == 3 && spare(b) == 56 && scaled_x(b, Slot::Multiplier) == 113
            && scaled_x(b, Slot::Tolerance) == 241,
        b == 6 ==> gaps(b) == 4 && spare(b) == 14 && scaled_x(b, Slot::Multiplier) == 90
            && scaled_x(b, Slot::Tolerance) == 200 && scaled_x(b, Slot::Tcr) == 334,
        gaps(b) * text_extent(ValType::Multiplier) == 24 * gaps(b),
        gaps(b) * text_extent(ValType::Tolerance) == 30 * gaps(b),
        gaps(b) * text_extent(ValType::TCR) == 42 * gaps(b),
{
    let g = gaps(b);
    let (m, t, c) = (
        text_extent(ValType::Multiplier),
        text_extent(ValType::Tolerance),
        text_extent(ValType::TCR),
    );
    assert(m == 24 && t == 30 && c == 42);
    assert(g * m == 24 * g && g * t == 30 * g && g * c == 42 * g) by (nonlinear_arith)
        requires
            m == 24,
            t == 30,
            c == 42,
    ;
    reveal_with_fuel(scaled_x, 6);
    if b == 4 {
        assert(g == 3);
        assert(scaled_x(b, Slot::Multiplier) == 101);
    } else if b == 5 {
        assert(g == 3);
        assert(scaled_x(b, Slot::Multiplier) == 113);
    } else if b == 6 {
        assert(g == 4);
        assert(scaled_x(b, Slot::Multiplier) == 90);
        assert(scaled_x(b, Slot::Tolerance) == 200);
    }
}

/// Every text column of the layout lies on screen.
#[verifier::spinoff_prover]
pub proof fn lemma_text_on_screen(b: int, s: Slot)
    requires
        valid_band_count(b),
    ensures
        0 <= text_x(b, s) <= WIDTH,
{
    lemma_layout_numbers(b);
    reveal_with_fuel(scaled_x, 6);
    let g = gaps(b);
    assert(0 <= scaled_x(b, s) <= g * WIDTH);
    lemma_scaled_on_screen(scaled_x(b, s), g);
}

impl Resistance {
    /// Each band of a well-formed resistor is well formed, of the kind of its slot.
    pub proof fn lemma_band_at(&self, p: int)
        requires
            self.wf(),
            0 <= p < self.bands,
        ensures
            self.band_at(p).wf(),
            self.band_at(p).vtype == slot_kind(slot_of(self.bands as int, p)),
            self.band_at(p) == layout_band(self.bands as int, slot_of(self.bands as int, p)).with_value(
                self.band_at(p).value as int,
            ),
    {
        let s = slot_of(self.bands as int, p);
        assert(self.slot(s) == layout_band(self.bands as int, s).with_value(self.slot(s).value as int));
        assert(in_domain(slot_kind(s), self.slot(s).value as int));
        lemma_text_on_screen(self.bands as int, s);
    }
}

/// Setting the value of one band, within its kind's domain, keeps the
/// resistor well formed and leaves every other position as it was.
pub proof fn lemma_set_value_keeps_wf(r: Resistance, p: int, v: int)
    requires
        r.wf(),
        0 <= p < r.bands,
        in_domain(r.band_at(p).vtype, v),
    ensures
        r.with_value_at(p, v).wf(),
        r.with_value_at(p, v).bands == r.bands,
        r.with_value_at(p, v).band_at(p) == r.band_at(p).with_value(v),
        r.with_value_at(p, v).band_at(p).value == v,
        forall|q: int|
            0 <= q < r.bands && q != p ==> #[trigger] r.with_value_at(p, v).band_at(q) == r.band_at(q),
{
    let b = r.bands as int;
    let n = r.with_value_at(p, v);
    let sp = slot_of(b, p);
    assert(r.slot(sp) == layout_band(b, sp).with_value(r.slot(sp).value as int));
    assert forall|s: Slot| #![trigger n.slot(s)]
        n.slot(s) == layout_band(b, s).with_value(n.slot(s).value as int)
        && in_domain(slot_kind(s), n.slot(s).value as int) by {
        assert(r.slot(s) == layout_band(b, s).with_value(r.slot(s).value as int));
        assert(in_domain(slot_kind(s), r.slot(s).value as int));
    }
    assert forall|q: int|
        0 <= q < r.bands && q != p implies #[trigger] n.band_at(q) == r.band_at(q) by {
        lemma_slot_resolution(b, p, q);
    }
}

/// Whether a spacing separates the text at position `p` from the next one.
pub open spec fn gap_after(b: int, p: int) -> bool {
    &&& p < b - 1
    &&& (slot_kind(slot_of(b, p)) == ValType::Multiplier || slot_kind(slot_of(b, p))
        == ValType::Tolerance)
}

/// Width of the texts at positions below `n`.
pub open spec fn extents_before(b: int, n: nat) -> int
    decreases n,
{
    if n == 0 {
        0
    } else {
        extents_before(b, (n - 1) as nat) + text_extent(slot_kind(slot_of(b, n - 1)))
    }
}

/// Number of spacings between the texts at positions below `n`.
pub open spec fn gaps_before(b: int, n: nat) -> int
    decreases n,
{
    if n == 0 {
        0
    } else {
        gaps_before(b, (n - 1) as nat) + if gap_after(b, n - 1) {
            1int
        } else {
            0
        }
    }
}

/// The layout fills the screen exactly. With one spacing worth
/// `spare(b) / gaps(b)` (all positions below are multiplied by `gaps(b)`):
/// the first text starts one spacing and one pixel in; each text starts where
/// the one before it ends, plus a spacing after the multiplier and the
/// tolerance; the last ends one spacing before the right edge (again offset by
/// one pixel). Spacings, one at each edge and those between texts, and the
/// texts' widths add up to the screen width.
#[verifier::spinoff_prover]
pub proof fn lemma_layout_fills_width(b: int)
    requires
        valid_band_count(b),
    ensures
        extents_before(b, b as nat) == total_text_width(b),
        gaps(b) == gaps_before(b, b as nat) + 2,
        gaps(b) > 0,
        spare(b) > 0,
        total_text_width(b) + spare(b) == WIDTH,
        scaled_x(b, slot_of(b, 0)) == spare(b) + gaps(b),
        forall|p: int|
            0 <= p < b - 1 ==> #[trigger] scaled_x(b, slot_of(b, p + 1)) == scaled_x(
                b,
                slot_of(b, p),
            ) + gaps(b) * text_extent(slot_kind(slot_of(b, p))) + (if gap_after(b, p) {
                spare(b)
            } else {
                0
            }),
        scaled_x(b, slot_of(b, b - 1)) + gaps(b) * text_extent(slot_kind(slot_of(b, b - 1)))
            + spare(b) == gaps(b) * (WIDTH + 1),
{
    reveal_with_fuel(scaled_x, 6);
    reveal_with_fuel(extents_before, 7);
    reveal_with_fuel(gaps_before, 7);
    assert forall|p: int|
        0 <= p < b - 1 implies #[trigger] scaled_x(b, slot_of(b, p + 1)) == scaled_x(
            b,
            slot_of(b, p),
        ) + gaps(b) * text_extent(slot_kind(slot_of(b, p))) + (if gap_after(b, p) {
            spare(b)
        } else {
            0
        }) by {
        assert(p == 0 || p == 1 || p == 2 || p == 3 || p == 4);
    }
    lemma_layout_numbers(b);
}

/// Number of digit bands: three from five bands on, else two.
pub open spec fn digit_count(b: int) -> int {
    if b >= 5 {
        3
    } else {
        2
    }
}

/// Within a supported band count, each position resolves to its own slot, the
/// slots reached are exactly those in use, and each has the kind that its
/// place calls for: two digits (three from five bands on), the multiplier,
/// then tolerance and TCR as the count allows.
pub proof fn lemma_slot_resolution(b: int, p: int, q: int)
    requires
        valid_band_count(b),
        0 <= p < b,
        0 <= q < b,
    ensures
        p != q ==> slot_of(b, p) != slot_of(b, q),
        addressable(b, slot_of(b, p)),
        slot_rank(slot_of(b, p)) < slot_rank(slot_of(b, q)) <==> p < q,
        forall|s: Slot| addressable(b, s) ==> exists|i: int| 0 <= i < b && #[trigger] slot_of(b, i) == s,
        slot_kind(slot_of(b, p)) == (if p < digit_count(b) {
            ValType::Digit
        } else if p == digit_count(b) {
            ValType::Multiplier
        } else if p == digit_count(b) + 1 {
            ValType::Tolerance
        } else {
            ValType::TCR
        }),
{
    assert forall|s: Slot| addressable(b, s) implies exists|i: int| 0 <= i < b && #[trigger] slot_of(b, i) == s by {
        let i: int = match s {
            Slot::Value1 => 0,
            Slot::Value10 => 1,
            Slot::Value100 => 2,
            Slot::Multiplier => if b >= 5 { 3 } else { 2 },
            Slot::Tolerance => if b >= 5 { 4 } else { 3 },
            Slot::Tcr => 5,
        };
        assert(slot_of(b, i) == s);
    }
}

} // verus!
