use resistor_bands::band::ValType;
use resistor_bands::colors::table_size;
use resistor_bands::controller::{
    band_count_from_byte, Buttons, Controller, Event, Led, Mode, DEFAULT_BANDS,
};
use resistor_bands::menu::{menu_cursor_xy, menu_entry_xy, move_cursor, Direction};
use resistor_bands::resistance::Resistance;
use resistor_bands::band::Band;

fn press(c: &mut Controller, d: Direction) {
    c.handle(Event::Press(d));
}

fn commit(c: &mut Controller) -> Option<u8> {
    c.handle(Event::Commit { left_held: false, right_held: false })
}

fn no_buttons() -> Buttons {
    Buttons {
        a: false,
        b: false,
        left: false,
        right: false,
        up: false,
        down: false,
        left_held: false,
        right_held: false,
    }
}

#[test]
#[allow(non_snake_case)]
fn slots_follow_band_count() {
    let kinds = |r: &Resistance| -> Vec<ValType> { (0..r.bands).map(|i| r.index(i).vtype).collect() };
    let (D, M, T, C) = (ValType::Digit, ValType::Multiplier, ValType::Tolerance, ValType::TCR);
    assert_eq!(kinds(&Resistance::new(3)), vec![D, D, M]);
    assert_eq!(kinds(&Resistance::new(4)), vec![D, D, M, T]);
    assert_eq!(kinds(&Resistance::new(5)), vec![D, D, D, M, T]);
    assert_eq!(kinds(&Resistance::new(6)), vec![D, D, D, M, T, C]);
}

#[test]
fn positions_resolve_to_distinct_visible_slots() {
    for b in 3..=6u8 {
        let r = Resistance::new(b);
        let xs: Vec<i16> = (0..b).map(|i| r.index(i).bandx).collect();
        for i in 0..xs.len() {
            assert!(r.index(i as u8).show);
            for j in 0..i {
                assert!(xs[j] < xs[i]);
            }
        }
        let shown = [
            r.value1.show,
            r.value10.show,
            r.value100.show,
            r.multiplier_pow.show,
            r.tolerance_index.show,
            r.tcr_index.show,
        ];
        assert_eq!(shown.iter().filter(|s| **s).count(), b as usize);
    }
}

#[test]
fn index_mut_reaches_the_same_band() {
    let mut r = Resistance::new(5);
    r.index_mut(3).change_by(2);
    assert_eq!(r.multiplier_pow.value, 2);
    assert_eq!(r.index(3).value, 2);
    r.index_mut(2).change_to(7);
    assert_eq!(r.value100.value, 7);
}

#[test]
fn layout_text_columns() {
    let cols = |b: u8| -> Vec<i16> {
        let r = Resistance::new(b);
        (0..b).map(|i| r.index(i).x).collect()
    };
    assert_eq!(cols(3), vec![47, 53, 59]);
    assert_eq!(cols(4), vec![21, 27, 33, 78]);
    assert_eq!(cols(5), vec![19, 25, 31, 37, 80]);
    assert_eq!(cols(6), vec![4, 10, 16, 22, 50, 83]);
}

#[test]
fn layout_fills_the_screen() {
    // Widths of the texts in pixels: digits 6, multiplier 24, tolerance 30, TCR 42.
    let extent = |k: ValType| -> f64 {
        match k {
            ValType::Digit => 6.0,
            ValType::Multiplier => 24.0,
            ValType::Tolerance => 30.0,
            ValType::TCR => 42.0,
        }
    };
    for (b, gaps) in [(3u8, 2.0f64), (4, 3.0), (5, 3.0), (6, 4.0)] {
        let r = Resistance::new(b);
        let total: f64 = (0..b).map(|i| extent(r.index(i).vtype)).sum();
        let spacing = (128.0 - total) / gaps;
        assert!((spacing * gaps + total - 128.0).abs() < 1e-9);
        let last = r.index(b - 1);
        let right = last.x as f64 + extent(last.vtype) + spacing;
        assert!(right <= 129.0 && right > 128.0 - 1.0);
        assert_eq!(r.index(0).x, (spacing + 1.0) as i16);
    }
}

#[test]
fn swatches_sit_at_fixed_places() {
    let r = Resistance::new(6);
    let xs: Vec<i16> = (0..6).map(|i| r.index(i).bandx).collect();
    assert_eq!(xs, vec![32, 44, 56, 69, 82, 94]);
    let r3 = Resistance::new(3);
    assert_eq!(r3.index(2).bandx, 69);
}

#[test]
fn down_three_times_on_a_digit_gives_seven() {
    let mut c = Controller::new(4);
    assert_eq!(c.pointer, 0);
    for _ in 0..3 {
        press(&mut c, Direction::Down);
    }
    assert_eq!(c.selected().value, 7);
}

#[test]
fn multiplier_up_stops_at_nine() {
    let mut c = Controller::new(3);
    press(&mut c, Direction::Right);
    press(&mut c, Direction::Right);
    assert_eq!(c.selected().vtype, ValType::Multiplier);
    assert_eq!(c.selected().value, 0);
    for _ in 0..9 {
        press(&mut c, Direction::Up);
    }
    assert_eq!(c.selected().value, 9);
    press(&mut c, Direction::Up);
    assert_eq!(c.selected().value, 9);
}

#[test]
fn menu_pick_on_tolerance_moves_one_entry() {
    let mut c = Controller::new(4);
    for _ in 0..3 {
        press(&mut c, Direction::Right);
    }
    assert_eq!(c.selected().vtype, ValType::Tolerance);
    let before = c.selected().value;
    assert_eq!(before, 0);
    c.handle(Event::Select);
    assert_eq!(c.mode, Mode::Menu);
    assert_eq!(c.menu_pointer, before as u8);
    press(&mut c, Direction::Right);
    c.handle(Event::Select);
    assert_eq!(c.mode, Mode::Main);
    assert_eq!(c.selected().value, before + 1);
}

#[test]
fn menu_cancel_changes_nothing() {
    let mut c = Controller::new(4);
    c.handle(Event::Select);
    press(&mut c, Direction::Down);
    assert_eq!(c.menu_pointer, 3);
    assert_eq!(commit(&mut c), None);
    assert_eq!(c.mode, Mode::Main);
    assert_eq!(c.selected().value, 0);
    assert_eq!(c.resistance.bands, 4);
}

#[test]
fn menu_pick_on_multiplier_uses_offset() {
    let mut c = Controller::new(3);
    press(&mut c, Direction::Right);
    press(&mut c, Direction::Right);
    c.handle(Event::Select);
    assert_eq!(c.menu_pointer, 3);
    press(&mut c, Direction::Up);
    c.handle(Event::Select);
    assert_eq!(c.selected().value, -3);
}

#[test]
fn left_and_right_stop_at_the_ends() {
    let mut c = Controller::new(4);
    press(&mut c, Direction::Left);
    assert_eq!(c.pointer, 0);
    for _ in 0..10 {
        press(&mut c, Direction::Right);
    }
    assert_eq!(c.pointer, 3);
}

#[test]
fn commit_cycles_band_count() {
    let mut c = Controller::new(3);
    let mut seen = vec![c.resistance.bands];
    for _ in 0..4 {
        commit(&mut c);
        seen.push(c.resistance.bands);
    }
    assert_eq!(seen, vec![3, 4, 5, 6, 3]);
}

#[test]
fn reshape_from_four_keeps_the_selected_kind() {
    let mut c = Controller::new(4);
    for _ in 0..3 {
        press(&mut c, Direction::Right);
    }
    assert_eq!(c.selected().vtype, ValType::Tolerance);
    commit(&mut c);
    assert_eq!(c.resistance.bands, 5);
    assert_eq!(c.pointer, 4);
    assert_eq!(c.selected().vtype, ValType::Tolerance);

    let mut m = Controller::new(4);
    press(&mut m, Direction::Right);
    press(&mut m, Direction::Right);
    commit(&mut m);
    assert_eq!(m.pointer, 3);
    assert_eq!(m.selected().vtype, ValType::Multiplier);
}

#[test]
fn reshape_to_three_clamps_the_selection() {
    let mut c = Controller::new(6);
    for _ in 0..5 {
        press(&mut c, Direction::Right);
    }
    assert_eq!(c.pointer, 5);
    commit(&mut c);
    assert_eq!(c.resistance.bands, 3);
    assert_eq!(c.pointer, 2);
}

#[test]
fn reshape_keeps_values_of_slots_still_in_use() {
    let mut c = Controller::new(6);
    press(&mut c, Direction::Up);
    for _ in 0..5 {
        press(&mut c, Direction::Right);
    }
    press(&mut c, Direction::Up);
    assert_eq!(c.resistance.tcr_index.value, 1);
    commit(&mut c);
    assert_eq!(c.resistance.value1.value, 1);
    assert_eq!(c.resistance.tcr_index.value, 0);
    let r = Resistance::new(4);
    let mut kept = r.with_bands(5);
    assert_eq!(kept.bands, 5);
    kept.index_mut(4).change_by(3);
    let back = kept.with_bands(4);
    assert_eq!(back.index(3).value, 3);
    assert_eq!(back.index(3).x, 78);
}

#[test]
fn selection_stays_in_range_over_any_presses() {
    let mut c = Controller::new(4);
    let script = [
        Direction::Right,
        Direction::Right,
        Direction::Right,
        Direction::Right,
        Direction::Left,
        Direction::Right,
    ];
    for round in 0..12 {
        for d in script {
            press(&mut c, d);
            assert!(c.pointer < c.resistance.bands);
        }
        if round % 3 != 2 {
            commit(&mut c);
        } else {
            c.handle(Event::Commit { left_held: true, right_held: false });
        }
        assert!(c.pointer < c.resistance.bands);
    }
}

#[test]
fn menu_cursor_stays_in_its_table() {
    for b in 3..=6u8 {
        let mut c = Controller::new(b);
        for p in 0..b {
            c.pointer = p;
            c.handle(Event::Select);
            let len = table_size(c.selected().vtype);
            let moves = [
                Direction::Down,
                Direction::Down,
                Direction::Down,
                Direction::Down,
                Direction::Down,
                Direction::Right,
                Direction::Right,
                Direction::Up,
                Direction::Left,
                Direction::Left,
                Direction::Left,
                Direction::Up,
                Direction::Up,
                Direction::Up,
                Direction::Up,
                Direction::Up,
                Direction::Left,
            ];
            for d in moves {
                press(&mut c, d);
                assert!(c.menu_pointer < len);
            }
            commit(&mut c);
        }
    }
}

#[test]
fn menu_cursor_moves() {
    assert_eq!(move_cursor(10, 7, Direction::Down), 9);
    assert_eq!(move_cursor(10, 9, Direction::Up), 7);
    assert_eq!(move_cursor(13, 12, Direction::Up), 10);
    assert_eq!(move_cursor(13, 9, Direction::Down), 12);
    assert_eq!(move_cursor(9, 7, Direction::Down), 7);
    assert_eq!(move_cursor(10, 9, Direction::Right), 9);
    assert_eq!(move_cursor(10, 3, Direction::Left), 3);
    assert_eq!(move_cursor(10, 4, Direction::Left), 3);
    assert_eq!(move_cursor(10, 5, Direction::Right), 5);
    assert_eq!(move_cursor(10, 1, Direction::Up), 1);
}

#[test]
fn menu_grid_places() {
    assert_eq!(menu_entry_xy(10, 0), (47, 13));
    assert_eq!(menu_entry_xy(10, 4), (60, 24));
    assert_eq!(menu_entry_xy(10, 9), (60, 46));
    assert_eq!(menu_entry_xy(13, 12), (60, 51));
    assert_eq!(menu_entry_xy(9, 8), (73, 40));
    assert_eq!(menu_cursor_xy(10, 9), (56, 46));
}

#[test]
fn stored_band_count_is_validated() {
    assert_eq!(band_count_from_byte(5), 5);
    assert_eq!(band_count_from_byte(3), 3);
    assert_eq!(band_count_from_byte(6), 6);
    assert_eq!(band_count_from_byte(200), DEFAULT_BANDS);
    assert_eq!(band_count_from_byte(2), 4);
    assert_eq!(band_count_from_byte(7), 4);
    assert_eq!(band_count_from_byte(0), 4);
    assert_eq!(band_count_from_byte(255), 4);
}

#[test]
fn save_combo_stores_count_and_confirms() {
    let mut c = Controller::new(4);
    commit(&mut c);
    let mut input = no_buttons();
    input.b = true;
    input.left_held = true;
    input.right_held = true;
    let f = c.update(input);
    assert_eq!(f.save, Some(5));
    assert_eq!(band_count_from_byte(f.save.unwrap()), 5);
    assert_eq!(c.resistance.bands, 5);
    assert_eq!(f.led, Led { red: 96, green: 255, blue: 16 });
    assert_eq!(c.confirm_timer, 29);
    for _ in 0..29 {
        let g = c.update(no_buttons());
        assert_eq!(g.led, Led { red: 96, green: 255, blue: 16 });
        assert_eq!(g.save, None);
    }
    assert_eq!(c.confirm_timer, 0);
    let h = c.update(no_buttons());
    assert_eq!(h.led, Led { red: 0, green: 0, blue: 0 });
}

#[test]
fn led_shows_band_or_hovered_entry() {
    let mut c = Controller::new(4);
    press(&mut c, Direction::Up);
    press(&mut c, Direction::Up);
    let f = c.update(no_buttons());
    assert_eq!(f.led, Led { red: 255, green: 0, blue: 0 });
    let mut input = no_buttons();
    input.a = true;
    input.down = true;
    let g = c.update(input);
    assert_eq!(c.mode, Mode::Menu);
    assert_eq!(c.menu_pointer, 2);
    assert_eq!(c.selected().value, 1);
    assert_eq!(g.led, Led { red: 192, green: 32, blue: 8 });
    assert_eq!(c.led(), Led { red: 255, green: 0, blue: 0 });
    let mut down = no_buttons();
    down.down = true;
    let h = c.update(down);
    assert_eq!(c.menu_pointer, 5);
    assert_eq!(h.led, Led { red: 0, green: 255, blue: 0 });
    assert_eq!(c.led(), h.led);
}

#[test]
fn tick_takes_presses_in_order() {
    let mut c = Controller::new(4);
    let mut input = no_buttons();
    input.b = true;
    input.right = true;
    input.up = true;
    let f = c.update(input);
    assert_eq!(f.save, None);
    assert_eq!(c.resistance.bands, 5);
    assert_eq!(c.pointer, 1);
    assert_eq!(c.selected().value, 1);
}

#[test]
fn menu_tick_with_a_and_b_only_picks() {
    let mut c = Controller::new(4);
    c.handle(Event::Select);
    press(&mut c, Direction::Right);
    let mut input = no_buttons();
    input.a = true;
    input.b = true;
    let f = c.update(input);
    assert_eq!(f.save, None);
    assert_eq!(c.mode, Mode::Main);
    assert_eq!(c.resistance.bands, 4);
    assert_eq!(c.pointer, 0);
    assert_eq!(c.selected().value, 1);
}

#[test]
fn menu_tick_with_a_and_left_keeps_the_selection() {
    let mut c = Controller::new(4);
    press(&mut c, Direction::Right);
    c.handle(Event::Select);
    press(&mut c, Direction::Down);
    let mut input = no_buttons();
    input.a = true;
    input.left = true;
    c.update(input);
    assert_eq!(c.mode, Mode::Main);
    assert_eq!(c.pointer, 1);
    assert_eq!(c.selected().value, 3);
    assert_eq!(c.menu_pointer, 3);
}

#[test]
fn menu_tick_with_b_cancels_and_moves_cursor() {
    let mut c = Controller::new(4);
    c.handle(Event::Select);
    let mut input = no_buttons();
    input.b = true;
    input.right = true;
    let f = c.update(input);
    assert_eq!(c.mode, Mode::Main);
    assert_eq!(c.selected().value, 0);
    assert_eq!(c.menu_pointer, 1);
    assert_eq!(f.led, Led { red: 192, green: 32, blue: 8 });
}

#[test]
fn main_tick_with_a_and_b_opens_menu_after_reshape() {
    let mut c = Controller::new(4);
    let mut input = no_buttons();
    input.a = true;
    input.b = true;
    c.update(input);
    assert_eq!(c.resistance.bands, 5);
    assert_eq!(c.mode, Mode::Menu);
    assert_eq!(c.menu_pointer, 0);
}

#[test]
fn main_tick_with_a_and_right_takes_cursor_from_new_selection() {
    let mut c = Controller::new(6);
    for _ in 0..4 {
        press(&mut c, Direction::Right);
    }
    for _ in 0..9 {
        press(&mut c, Direction::Up);
    }
    assert_eq!(c.selected().vtype, ValType::Tolerance);
    assert_eq!(c.selected().value, 9);
    let mut input = no_buttons();
    input.a = true;
    input.right = true;
    c.update(input);
    assert_eq!(c.pointer, 5);
    assert_eq!(c.selected().vtype, ValType::TCR);
    assert_eq!(c.mode, Mode::Menu);
    assert_eq!(c.menu_pointer, 0);
    assert!(c.menu_pointer < table_size(ValType::TCR));
}

#[test]
fn get_rejects_positions_past_the_band_count() {
    for b in 3..=6u8 {
        let r = Resistance::new(b);
        for i in 0..b {
            assert_eq!(r.get(i).map(|band| band.bandx), Some(r.index(i).bandx));
        }
        for i in b..=10 {
            assert!(r.get(i).is_none());
        }
    }
}

#[test]
fn band_new_keeps_any_text_origin() {
    let b = Band::new(true, ValType::Digit, -20, 32);
    assert_eq!(b.x, -20);
    assert_eq!(b.value, 0);
    let far = Band::new(false, ValType::TCR, 500, 94);
    assert_eq!(far.x, 500);
    assert_eq!(far.width, 4);
}
