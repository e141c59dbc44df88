use crate::colors::{colour_at, colour_entry, colour_table, table_len, table_size, Colour, RGB};
use crate::geometry::{CHAR_WIDTH, TEXT_Y, WIDTH};
use vstd::arithmetic::div_mod::{lemma_fundamental_div_mod, lemma_fundamental_div_mod_converse};
use vstd::prelude::*;

verus! {

/// `u - (u mod m)`: the largest multiple of `m` that is not above `u`.
pub open spec fn floor_multiple(u: int, m: int) -> int {
    u - u % m
}

/// Rounds `unrounded` down (towards negative infinity) to a multiple of `multiple`.
pub fn round_down_to(unrounded: i16, multiple: i16) -> (r: i16)
    requires
        multiple > 0,
        unrounded >= i16::MIN + multiple - 1,
    ensures
        r == floor_multiple(unrounded as int, multiple as int),
{
    let ghost u = unrounded as int;
    let ghost m = multiple as int;
    if unrounded >= 0 {
        let q = unrounded / multiple;
        proof {
            lemma_fundamental_div_mod(u, m);
            assert(0 <= q * m <= u) by (nonlinear_arith)
                requires
                    u == m * q + u % m,
                    0 <= u % m < m,
                    u >= 0,
                    m > 0,
            ;
        }
        q * multiple
    } else {
        let shifted = unrounded + 1 - multiple;
        let q = shifted / multiple;
        proof {
            let n = -(shifted as int);
            assert(q == -(n / m));
            lemma_fundamental_div_mod(n, m);
            let (d, r0) = (n / m, n % m);
            assert(u == (-d) * m + (m - 1 - r0)) by (nonlinear_arith)
                requires
                    n == m * d + r0,
                    n == m - 1 - u,
            ;
            lemma_fundamental_div_mod_converse(u, m, -d, m - 1 - r0);
            assert(i16::MIN <= (-d) * m <= u) by (nonlinear_arith)
                requires
                    u == (-d) * m + (m - 1 - r0),
                    0 <= r0 < m,
                    u >= i16::MIN + m - 1,
            ;
        }
        q * multiple
    }
}

/// Non-negative remainder of `a` divided by `m`.
fn rem_euclid(a: i16, m: i16) -> (r: i16)
    requires
        m > 0,
    ensures
        r == a as int % m as int,
{
    let r = a % m;
    proof {
        let ghost n = if a >= 0 { a as int } else { -(a as int) };
        lemma_fundamental_div_mod(n, m as int);
        if a < 0 {
            assert(r == -(n % m as int));
            let (d, rr) = (n / m as int, n % m as int);
            if r < 0 {
                assert(a == (-d - 1) * m + (r + m)) by (nonlinear_arith)
                    requires
                        n == m * d + rr,
                        a == -n,
                        r == -rr,
                ;
                lemma_fundamental_div_mod_converse(a as int, m as int, -d - 1, r + m);
            } else {
                assert(a == (-d) * m + 0) by (nonlinear_arith)
                    requires
                        n == m * d + rr,
                        a == -n,
                        r == -rr,
                        r >= 0,
                        rr >= 0,
                ;
                lemma_fundamental_div_mod_converse(a as int, m as int, -d, 0);
            }
        } else {
            assert(r == n % m as int);
        }
    }
    if r < 0 {
        r + m
    } else {
        r
    }
}

/// What a band encodes.
#[derive(Clone, Copy, Debug, PartialEq, Eq, Structural)]
pub enum ValType {
    Digit,
    Multiplier,
    Tolerance,
    TCR,
}

/// Smallest value a band of kind `k` holds.
pub open spec fn min_value(k: ValType) -> int {
    match k {
        ValType::Multiplier => -3,
        _ => 0,
    }
}

/// Largest value a band of kind `k` holds.
pub open spec fn max_value(k: ValType) -> int {
    match k {
        ValType::TCR => 8,
        _ => 9,
    }
}

pub open spec fn in_domain(k: ValType, v: int) -> bool {
    min_value(k) <= v <= max_value(k)
}

/// Distance between a stored value and its colour-table index.
pub open spec fn pointer_offset(k: ValType) -> int {
    -min_value(k)
}

/// Width of a band's text, in character cells.
pub open spec fn width_of(k: ValType) -> u8 {
    match k {
        ValType::Digit => 1,
        ValType::Multiplier => 4,
        ValType::Tolerance => 5,
        ValType::TCR => 4,
    }
}

/// The value after stepping `v` by `d`: digits wrap modulo 10, the other
/// kinds stay put when the step would leave their domain.
pub open spec fn changed_by(k: ValType, v: int, d: int) -> int {
    match k {
        ValType::Digit => (v + d) % 10,
        _ => if in_domain(k, v + d) {
            v + d
        } else {
            v
        },
    }
}

/// The value stored for colour-table index `i`.
pub open spec fn value_for_pointer(k: ValType, i: int) -> int {
    i - pointer_offset(k)
}

/// Every colour table holds exactly one entry per value of its kind.
pub proof fn lemma_table_matches_domain(k: ValType)
    ensures
        table_len(k) == max_value(k) - min_value(k) + 1,
        colour_table(k).len() == table_len(k),
{
}

/// `v` after `n` successive steps of `d`.
pub open spec fn repeat_change(k: ValType, v: int, d: int, n: nat) -> int
    decreases n,
{
    if n == 0 {
        v
    } else {
        changed_by(k, repeat_change(k, v, d, (n - 1) as nat), d)
    }
}

/// Digit bands step modulo 10: ten steps up come back to the start, and a
/// step up followed by a step down changes nothing.
pub proof fn lemma_digit_steps_cycle(v: int)
    requires
        in_domain(ValType::Digit, v),
    ensures
        repeat_change(ValType::Digit, v, 1, 10) == v,
        changed_by(ValType::Digit, changed_by(ValType::Digit, v, 1), -1) == v,
        changed_by(ValType::Digit, changed_by(ValType::Digit, v, -1), 1) == v,
{
    lemma_digit_steps_up(v, 10);
    vstd::arithmetic::div_mod::lemma_mod_add_multiples_vanish(v, 10);
    vstd::arithmetic::div_mod::lemma_small_mod(v as nat, 10);
}

proof fn lemma_digit_steps_up(v: int, n: nat)
    requires
        in_domain(ValType::Digit, v),
    ensures
        repeat_change(ValType::Digit, v, 1, n) == (v + n) % 10,
    decreases n,
{
    if n == 0 {
        vstd::arithmetic::div_mod::lemma_small_mod(v as nat, 10);
    } else {
        lemma_digit_steps_up(v, (n - 1) as nat);
        vstd::arithmetic::div_mod::lemma_add_mod_noop(v + n - 1, 1, 10);
        vstd::arithmetic::div_mod::lemma_small_mod(1, 10);
        vstd::arithmetic::div_mod::lemma_mod_twice(v + n - 1, 10);
    }
}

/// Multiplier, tolerance and TCR bands saturate: a step up at the largest
/// value and a step down at the smallest leave the value unchanged.
pub proof fn lemma_clamped_kinds_saturate(k: ValType)
    requires
        k != ValType::Digit,
    ensures
        changed_by(k, max_value(k), 1) == max_value(k),
        changed_by(k, min_value(k), -1) == min_value(k),
        forall|v: int, d: int| in_domain(k, v) ==> in_domain(k, #[trigger] changed_by(k, v, d)),
{
}

/// Setting a band from its own colour-table index gives back its value, and
/// reading the index of a value set from an index gives back that index.
pub proof fn lemma_pointer_round_trip(k: ValType, v: int, i: int)
    ensures
        in_domain(k, v) ==> value_for_pointer(k, v + pointer_offset(k)) == v,
        in_domain(k, v) ==> 0 <= v + pointer_offset(k) < table_len(k),
        0 <= i < table_len(k) ==> in_domain(k, value_for_pointer(k, i)),
        0 <= i < table_len(k) ==> value_for_pointer(k, i) + pointer_offset(k) == i,
{
}

/// A single band of the resistor, with where its text and swatch go.
#[derive(Clone, Copy, Debug, PartialEq, Eq, Structural)]
pub struct Band {
    pub value: i8,
    pub show: bool,
    pub vtype: ValType,
    pub x: i16,
    pub y: i16,
    pub width: u8,
    pub bandx: i16,
}

/// What a band's text shows, with the positions of its glyphs.
#[derive(Clone, Copy, Debug)]
pub enum Label {
    /// One decimal digit.
    Digit { digit: u8 },
    /// `zeros` filler zeros (the two cells of `filler`), a metric prefix,
    /// and the ohm glyph at `ohm_x`.
    Multiplier { zeros: u8, filler: &'static str, prefix: &'static str, ohm_x: i16 },
    /// A percentage.
    Tolerance { percent: &'static str },
    /// The plus-minus glyph at `sign_x`, then the coefficient and "TCR" from `text_x`.
    TCR { sign_x: i16, text_x: i16, coefficient: &'static str },
}

/// The two cells before a multiplier's prefix: `zeros` zeros, then blanks.
pub open spec fn filler_text(zeros: int) -> Seq<char> {
    if zeros == 1 {
        "0 "@
    } else if zeros == 2 {
        "00"@
    } else {
        "  "@
    }
}

/// Text of `zeros` filler zeros, padded to two cells.
pub fn filler_str(zeros: u8) -> (s: &'static str)
    ensures
        s@ == filler_text(zeros as int),
{
    match zeros {
        1 => "0 ",
        2 => "00",
        _ => "  ",
    }
}

/// Metric prefixes, from milli (index 0) to giga (index 4).
pub open spec fn prefix_text(i: int) -> Seq<char> {
    if i == 0 {
        "m"@
    } else if i == 1 {
        " "@
    } else if i == 2 {
        "k"@
    } else if i == 3 {
        "M"@
    } else {
        "G"@
    }
}

/// Index of the metric prefix for multiplier exponent `v`.
pub open spec fn prefix_index(v: int) -> int {
    floor_multiple(v, 3) / 3 + 1
}

/// Tolerance texts, in percent, by tolerance index.
pub open spec fn tolerance_text(i: int) -> Seq<char> {
    if i == 0 { "0.01"@ }
    else if i == 1 { "0.02"@ }
    else if i == 2 { "0.05"@ }
    else if i == 3 { "0.10"@ }
    else if i == 4 { "0.25"@ }
    else if i == 5 { "0.50"@ }
    else if i == 6 { "1.00"@ }
    else if i == 7 { "2.00"@ }
    else if i == 8 { "5.00"@ }
    else { "10.0"@ }
}

fn tolerance_str(i: u8) -> (s: &'static str)
    requires
        i < 10,
    ensures
        s@ == tolerance_text(i as int),
{
    match i {
        0 => "0.01",
        1 => "0.02",
        2 => "0.05",
        3 => "0.10",
        4 => "0.25",
        5 => "0.50",
        6 => "1.00",
        7 => "2.00",
        8 => "5.00",
        _ => "10.0",
    }
}

/// Temperature coefficients in ppm/K, by TCR index.
pub open spec fn tcr_text(i: int) -> Seq<char> {
    if i == 0 {
        "1"@
    } else if i == 1 {
        "5"@
    } else if i == 2 {
        "10"@
    } else if i == 3 {
        "15"@
    } else if i == 4 {
        "20"@
    } else if i == 5 {
        "25"@
    } else if i == 6 {
        "50"@
    } else if i == 7 {
        "100"@
    } else {
        "250"@
    }
}

/// Number of digits in the coefficient of TCR index `i`.
pub open spec fn tcr_digits(i: int) -> int {
    if i <= 1 {
        1
    } else if i <= 6 {
        2
    } else {
        3
    }
}

fn prefix_str(i: i16) -> (s: &'static str)
    requires
        0 <= i <= 4,
    ensures
        s@ == prefix_text(i as int),
{
    match i {
        0 => "m",
        1 => " ",
        2 => "k",
        3 => "M",
        _ => "G",
    }
}

fn tcr_str(i: i8) -> (s: &'static str)
    requires
        0 <= i <= 8,
    ensures
        s@ == tcr_text(i as int),
        s@.len() == tcr_digits(i as int),
{
    proof {
        reveal_strlit("1");
        reveal_strlit("5");
        reveal_strlit("10");
        reveal_strlit("15");
        reveal_strlit("20");
        reveal_strlit("25");
        reveal_strlit("50");
        reveal_strlit("100");
        reveal_strlit("250");
    }
    match i {
        0 => "1",
        1 => "5",
        2 => "10",
        3 => "15",
        4 => "20",
        5 => "25",
        6 => "50",
        7 => "100",
        _ => "250",
    }
}

impl Band {
    /// The value lies in its kind's domain, the width matches the kind, and
    /// the text starts on screen.
    pub open spec fn wf(&self) -> bool {
        &&& in_domain(self.vtype, self.value as int)
        &&& self.width == width_of(self.vtype)
        &&& 0 <= self.x <= WIDTH
    }

    /// Colour-table index of the current value.
    pub open spec fn pointer(&self) -> int {
        self.value + pointer_offset(self.vtype)
    }

    /// The colour the band currently shows.
    pub open spec fn colour(&self) -> Colour {
        colour_table(self.vtype)[self.pointer()]
    }

    /// This band holding `v` in place of its value.
    pub open spec fn with_value(self, v: int) -> Band {
        Band { value: v as i8, ..self }
    }

    /// A band of kind `vtype` holding its zero value, text at `x`, swatch at `bandx`.
    pub fn new(show: bool, vtype: ValType, x: i16, bandx: i16) -> (r: Band)
        ensures
            r == (Band { value: 0, show, vtype, x, y: TEXT_Y, width: width_of(vtype), bandx }),
            0 <= x <= WIDTH ==> r.wf(),
    {
        let width = Band::get_width(&vtype);
        Band { value: 0, show, vtype, x, y: TEXT_Y, width, bandx }
    }

    /// Width of a kind's text, in character cells.
    pub fn get_width(vtype: &ValType) -> (r: u8)
        ensures
            r == width_of(*vtype),
    {
        match vtype {
            ValType::Digit => 1,
            ValType::Multiplier => 4,
            ValType::Tolerance => 5,
            ValType::TCR => 4,
        }
    }

    /// Steps the value by `increment`: a digit wraps modulo 10, any other
    /// kind ignores a step that would leave its domain.
    pub fn change_by(&mut self, increment: i8)
        requires
            old(self).wf(),
        ensures
            *final(self) == old(self).with_value(
                changed_by(old(self).vtype, old(self).value as int, increment as int),
            ),
            final(self).wf(),
    {
        let new: i16 = self.value as i16 + increment as i16;
        let (min, max): (i16, i16) = match self.vtype {
            ValType::Digit => {
                self.value = rem_euclid(new, 10) as i8;
                return;
            },
            ValType::Multiplier => (-3, 9),
            ValType::Tolerance => (0, 9),
            ValType::TCR => (0, 8),
        };
        if new <= max && new >= min {
            self.value = new as i8;
        }
    }

    /// Sets the value from colour-table index `new`.
    pub fn change_to(&mut self, new: i8)
        requires
            old(self).wf(),
            0 <= new < table_len(old(self).vtype),
        ensures
            *final(self) == old(self).with_value(value_for_pointer(old(self).vtype, new as int)),
            final(self).wf(),
            final(self).pointer() == new,
    {
        if let ValType::Multiplier = self.vtype {
            self.value = new - 3;
        } else {
            self.value = new;
        }
    }

    /// Colour-table index of the current value.
    pub fn get_pointer(&self) -> (r: i8)
        requires
            self.wf(),
        ensures
            r == self.pointer(),
            0 <= r < table_len(self.vtype),
    {
        if let ValType::Multiplier = self.vtype {
            self.value + 3
        } else {
            self.value
        }
    }

    /// Display entry of the band's current colour.
    pub fn get_rgb(&self) -> (r: RGB)
        requires
            self.wf(),
        ensures
            r == colour_entry(self.colour()),
    {
        let i = self.get_pointer();
        colour_at(self.vtype, i as u8).entry()
    }

    /// Display entries of the whole colour table of `vtype`, in menu order.
    pub fn rgb_arr_from_valtype(vtype: &ValType) -> (r: Vec<RGB>)
        ensures
            r@.len() == table_len(*vtype),
            forall|i: int|
                0 <= i < r@.len() ==> #[trigger] r@[i] == colour_entry(colour_table(*vtype)[i]),
    {
        let n = table_size(*vtype);
        let mut r: Vec<RGB> = Vec::new();
        let mut i: u8 = 0;
        while i < n
            invariant
                n == table_len(*vtype),
                i <= n,
                r@.len() == i,
                forall|j: int| 0 <= j < i ==> #[trigger] r@[j] == colour_entry(colour_table(*vtype)[j]),
            decreases n - i,
        {
            r.push(colour_at(*vtype, i).entry());
            i = i + 1;
        }
        r
    }

    /// The text of the band: a digit; filler zeros, a metric prefix and the
    /// ohm sign; a percentage; or a signed temperature coefficient.
    pub fn label(&self) -> (r: Label)
        requires
            self.wf(),
        ensures
            match r {
                Label::Digit { digit } => self.vtype == ValType::Digit && digit == self.value,
                Label::Multiplier { zeros, filler, prefix, ohm_x } => {
                    &&& self.vtype == ValType::Multiplier
                    &&& zeros == self.value % 3
                    &&& filler@ == filler_text(self.value as int % 3)
                    &&& prefix@ == prefix_text(prefix_index(self.value as int))
                    &&& ohm_x == self.x + CHAR_WIDTH * (self.width - 1)
                },
                Label::Tolerance { percent } => {
                    &&& self.vtype == ValType::Tolerance
                    &&& percent@ == tolerance_text(self.value as int)
                },
                Label::TCR { sign_x, text_x, coefficient } => {
                    &&& self.vtype == ValType::TCR
                    &&& coefficient@ == tcr_text(self.value as int)
                    &&& sign_x == self.x + CHAR_WIDTH * (3 - tcr_digits(self.value as int))
                    &&& text_x == sign_x + CHAR_WIDTH
                },
            },
    {
        match self.vtype {
            ValType::Digit => Label::Digit { digit: self.value as u8 },
            ValType::Multiplier => {
                let v = self.value as i16;
                let zeros = rem_euclid(v, 3) as u8;
                let prefix = prefix_str(round_down_to(v, 3) / 3 + 1);
                Label::Multiplier {
                    zeros,
                    filler: filler_str(zeros),
                    prefix,
                    ohm_x: self.x + CHAR_WIDTH * (self.width as i16 - 1),
                }
            },
            ValType::Tolerance => Label::Tolerance {
                percent: tolerance_str(self.value as u8),
            },
            ValType::TCR => {
                let coefficient = tcr_str(self.value);
                let sign_x = self.x + CHAR_WIDTH * (3 - coefficient.unicode_len() as i16);
                Label::TCR { sign_x, text_x: sign_x + CHAR_WIDTH, coefficient }
            },
        }
    }
}

} // verus!
