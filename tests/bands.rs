use resistor_bands::band::{filler_str, round_down_to, Band, Label, ValType};
use resistor_bands::colors::{colour_at, table_size, Colour, Pattern};
use resistor_bands::geometry::TEXT_Y;

fn band(vtype: ValType, value: i8) -> Band {
    let mut b = Band::new(true, vtype, 10, 32);
    b.value = value;
    b
}

#[test]
fn round_down_to_goes_towards_negative_infinity() {
    assert_eq!(round_down_to(0, 3), 0);
    assert_eq!(round_down_to(5, 3), 3);
    assert_eq!(round_down_to(6, 3), 6);
    assert_eq!(round_down_to(-1, 3), -3);
    assert_eq!(round_down_to(-3, 3), -3);
    assert_eq!(round_down_to(-4, 3), -6);
}

#[test]
fn new_band_holds_zero_and_kind_width() {
    let b = Band::new(false, ValType::Tolerance, 40, 82);
    assert_eq!(b.value, 0);
    assert!(!b.show);
    assert_eq!(b.x, 40);
    assert_eq!(b.y, TEXT_Y);
    assert_eq!(b.width, 5);
    assert_eq!(b.bandx, 82);
    assert_eq!(Band::get_width(&ValType::Digit), 1);
    assert_eq!(Band::get_width(&ValType::Multiplier), 4);
    assert_eq!(Band::get_width(&ValType::TCR), 4);
}

#[test]
fn digit_ten_steps_up_return_to_start() {
    for start in 0..10i8 {
        let mut b = band(ValType::Digit, start);
        for _ in 0..10 {
            b.change_by(1);
        }
        assert_eq!(b.value, start);
    }
}

#[test]
fn digit_up_then_down_is_identity() {
    for start in 0..10i8 {
        let mut b = band(ValType::Digit, start);
        b.change_by(1);
        b.change_by(-1);
        assert_eq!(b.value, start);
    }
}

#[test]
fn digit_wraps_both_ways() {
    let mut b = band(ValType::Digit, 9);
    b.change_by(1);
    assert_eq!(b.value, 0);
    b.change_by(-1);
    assert_eq!(b.value, 9);
    let mut z = band(ValType::Digit, 0);
    z.change_by(-3);
    assert_eq!(z.value, 7);
}

#[test]
fn clamped_kinds_saturate_at_both_ends() {
    for (kind, min, max) in [
        (ValType::Multiplier, -3i8, 9i8),
        (ValType::Tolerance, 0, 9),
        (ValType::TCR, 0, 8),
    ] {
        let mut top = band(kind, max);
        top.change_by(1);
        assert_eq!(top.value, max);
        let mut bottom = band(kind, min);
        bottom.change_by(-1);
        assert_eq!(bottom.value, min);
        let mut mid = band(kind, min);
        mid.change_by(1);
        assert_eq!(mid.value, min + 1);
    }
}

#[test]
fn change_to_and_get_pointer_round_trip() {
    for kind in [ValType::Digit, ValType::Multiplier, ValType::Tolerance, ValType::TCR] {
        for i in 0..table_size(kind) as i8 {
            let mut b = band(kind, 0);
            b.change_to(i);
            assert_eq!(b.get_pointer(), i);
            let mut c = band(kind, 0);
            c.change_to(b.get_pointer());
            assert_eq!(c.value, b.value);
        }
    }
}

#[test]
fn multiplier_index_is_offset_by_three() {
    let mut b = band(ValType::Multiplier, 5);
    assert_eq!(b.get_pointer(), 8);
    b.change_to(0);
    assert_eq!(b.value, -3);
    b.change_to(12);
    assert_eq!(b.value, 9);
    let mut t = band(ValType::Tolerance, 0);
    t.change_to(4);
    assert_eq!(t.value, 4);
}

#[test]
fn band_colour_follows_its_table() {
    let red = band(ValType::Digit, 2).get_rgb();
    assert_eq!((red.red, red.green, red.blue), (255, 0, 0));
    assert_eq!(red.pattern, Pattern::Squared);
    assert_eq!(red.abbreviation, Colour::Red);
    let pink = band(ValType::Multiplier, -3).get_rgb();
    assert_eq!(pink.abbreviation, Colour::Pink);
    assert_eq!((pink.red, pink.green, pink.blue), (255, 32, 128));
    let silver = band(ValType::Tolerance, 9).get_rgb();
    assert_eq!(silver.abbreviation, Colour::Silver);
    let black = band(ValType::TCR, 8).get_rgb();
    assert_eq!(black.abbreviation, Colour::Black);
    assert_eq!(black.pattern, Pattern::Black);
}

#[test]
fn colour_tables_have_one_entry_per_value() {
    let lens = [
        (ValType::Digit, 10),
        (ValType::Multiplier, 13),
        (ValType::Tolerance, 10),
        (ValType::TCR, 9),
    ];
    for (kind, n) in lens {
        let arr = Band::rgb_arr_from_valtype(&kind);
        assert_eq!(arr.len(), n);
        assert_eq!(table_size(kind) as usize, n);
        for (i, e) in arr.iter().enumerate() {
            assert_eq!(*e, colour_at(kind, i as u8).entry());
        }
    }
    let tol = Band::rgb_arr_from_valtype(&ValType::Tolerance);
    assert_eq!(tol[0].abbreviation, Colour::Gray);
    assert_eq!(tol[8].abbreviation, Colour::Gold);
    let white = Colour::White.entry();
    assert_eq!((white.red, white.green, white.blue), (255, 255, 255));
}

#[test]
fn digit_label_is_its_value() {
    match band(ValType::Digit, 6).label() {
        Label::Digit { digit } => assert_eq!(digit, 6),
        other => panic!("unexpected label {:?}", other),
    }
}

#[test]
fn multiplier_label_groups_by_three() {
    let cases = [
        (-3i8, 0u8, "m"),
        (-2, 1, "m"),
        (-1, 2, "m"),
        (0, 0, " "),
        (1, 1, " "),
        (2, 2, " "),
        (3, 0, "k"),
        (5, 2, "k"),
        (6, 0, "M"),
        (9, 0, "G"),
    ];
    for (value, want_zeros, want_prefix) in cases {
        match band(ValType::Multiplier, value).label() {
            Label::Multiplier { zeros, filler, prefix, ohm_x } => {
                assert_eq!(zeros, want_zeros);
                let want_filler = match want_zeros {
                    1 => "0 ",
                    2 => "00",
                    _ => "  ",
                };
                assert_eq!(filler, want_filler);
                assert_eq!(prefix, want_prefix);
                assert_eq!(ohm_x, 10 + 6 * 3);
            }
            other => panic!("unexpected label {:?}", other),
        }
    }
}

#[test]
fn tolerance_label_is_its_percentage() {
    match band(ValType::Tolerance, 0).label() {
        Label::Tolerance { percent } => assert_eq!(percent, "0.01"),
        other => panic!("unexpected label {:?}", other),
    }
    match band(ValType::Tolerance, 9).label() {
        Label::Tolerance { percent } => assert_eq!(percent, "10.0"),
        other => panic!("unexpected label {:?}", other),
    }
}

#[test]
fn tcr_label_is_right_aligned() {
    let cases = [(0i8, "1", 12i16), (3, "15", 6), (8, "250", 0)];
    for (value, want, offset) in cases {
        match band(ValType::TCR, value).label() {
            Label::TCR { sign_x, text_x, coefficient } => {
                assert_eq!(coefficient, want);
                assert_eq!(sign_x, 10 + offset);
                assert_eq!(text_x, 10 + offset + 6);
            }
            other => panic!("unexpected label {:?}", other),
        }
    }
}

#[test]
fn filler_pads_zeros_to_two_cells() {
    assert_eq!(filler_str(0), "  ");
    assert_eq!(filler_str(1), "0 ");
    assert_eq!(filler_str(2), "00");
}
