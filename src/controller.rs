use crate::band::{changed_by, in_domain, value_for_pointer, Band};
use crate::colors::{colour_at, colour_entry, colour_table, table_len, table_size, RGB};
use crate::menu::{move_cursor, moved_cursor, Direction};
use crate::resistance::{
    lemma_set_value_keeps_wf, slot_kind, slot_of, valid_band_count, Resistance, MAX_BANDS,
    MIN_BANDS,
};
use vstd::prelude::*;

verus! {

/// Band count used when the stored one is unusable.
pub const DEFAULT_BANDS: u8 = 4;

/// Ticks for which the LED confirms a save.
pub const EEPROM_CONFIRM_TIME: u16 = 30;

/// LED colour shown while a save is being confirmed.
pub const CONFIRM_RED: u8 = 96;
pub const CONFIRM_GREEN: u8 = 255;
pub const CONFIRM_BLUE: u8 = 16;

/// The band count that a stored byte stands for.
pub open spec fn stored_band_count(raw: u8) -> u8 {
    if valid_band_count(raw as int) {
        raw
    } else {
        DEFAULT_BANDS
    }
}

/// Reads a stored band count: the byte itself when it is a supported count,
/// the default otherwise.
pub fn band_count_from_byte(raw: u8) -> (r: u8)
    ensures
        r == stored_band_count(raw),
        valid_band_count(r as int),
{
    if MIN_BANDS <= raw && raw <= MAX_BANDS {
        raw
    } else {
        DEFAULT_BANDS
    }
}

/// Which view has the buttons.
#[derive(Clone, Copy, Debug, PartialEq, Eq, Structural)]
pub enum Mode {
    /// Editing the resistor band by band.
    Main,
    /// Picking a colour for the selected band.
    Menu,
}

/// One button press.
#[derive(Clone, Copy, Debug, PartialEq, Eq, Structural)]
pub enum Event {
    /// The A button.
    Select,
    /// The B button, with whether left and right were held at the time.
    Commit { left_held: bool, right_held: bool },
    /// A direction button.
    Press(Direction),
}

/// The buttons of one tick: which were just pressed, and which are held.
#[derive(Clone, Copy, Debug, PartialEq, Eq, Structural)]
pub struct Buttons {
    pub a: bool,
    pub b: bool,
    pub left: bool,
    pub right: bool,
    pub up: bool,
    pub down: bool,
    pub left_held: bool,
    pub right_held: bool,
}

/// LED intensities.
#[derive(Clone, Copy, Debug, PartialEq, Eq, Structural)]
pub struct Led {
    pub red: u8,
    pub green: u8,
    pub blue: u8,
}

/// What a tick asks of the hardware.
#[derive(Clone, Copy, Debug, PartialEq, Eq, Structural)]
pub struct Frame {
    pub led: Led,
    /// A band count to store, when one was saved.
    pub save: Option<u8>,
}

/// The resistor being edited and the state of the user interface.
pub struct Controller {
    pub resistance: Resistance,
    /// Position of the selected band.
    pub pointer: u8,
    /// Highlighted entry of the colour menu.
    pub menu_pointer: u8,
    pub mode: Mode,
    /// Ticks left of the save confirmation.
    pub confirm_timer: u16,
}

impl Controller {
    /// The selected band.
    pub open spec fn band(&self) -> Band {
        self.resistance.band_at(self.pointer as int)
    }

    /// The selection is a band in use, the menu cursor is on an entry of the
    /// selected band's colour table, and the confirmation lasts no longer
    /// than it was set to.
    pub open spec fn wf(&self) -> bool {
        &&& self.resistance.wf()
        &&& self.pointer < self.resistance.bands
        &&& self.mode == Mode::Menu ==> self.menu_pointer < table_len(self.band().vtype)
        &&& self.confirm_timer <= EEPROM_CONFIRM_TIME
    }

    /// This state with the selected band holding `v`.
    pub open spec fn with_band_value(self, v: int) -> Controller {
        Controller { resistance: self.resistance.with_value_at(self.pointer as int, v), ..self }
    }
}

/// The band count after the one of `b`: 3, 4, 5, 6, then 3 again.
pub open spec fn next_band_count(b: int) -> int {
    if b < MAX_BANDS {
        b + 1
    } else {
        MIN_BANDS as int
    }
}

/// Where the selection goes when the band count changes from `b`: one place
/// right when leaving four bands from past the second band, so that the same
/// kind of band stays selected, then clamped to the new count.
pub open spec fn pointer_after_reshape(b: int, p: int) -> int {
    let moved = if b == 4 && p > 1 {
        p + 1
    } else {
        p
    };
    let nb = next_band_count(b);
    if moved > nb - 1 {
        nb - 1
    } else {
        moved
    }
}

/// The state after event `e`.
#[verifier::opaque]
pub open spec fn next(c: Controller, e: Event) -> Controller {
    let b = c.resistance.bands as int;
    match c.mode {
        Mode::Main => match e {
            Event::Select => Controller {
                menu_pointer: c.band().pointer() as u8,
                mode: Mode::Menu,
                ..c
            },
            Event::Commit { left_held, right_held } => if left_held && right_held {
                Controller { confirm_timer: EEPROM_CONFIRM_TIME, ..c }
            } else {
                Controller {
                    resistance: c.resistance.rebuilt(next_band_count(b)),
                    pointer: pointer_after_reshape(b, c.pointer as int) as u8,
                    ..c
                }
            },
            Event::Press(Direction::Left) => if c.pointer > 0 {
                Controller { pointer: (c.pointer - 1) as u8, ..c }
            } else {
                c
            },
            Event::Press(Direction::Right) => if c.pointer < b - 1 {
                Controller { pointer: (c.pointer + 1) as u8, ..c }
            } else {
                c
            },
            Event::Press(Direction::Up) => c.with_band_value(
                changed_by(c.band().vtype, c.band().value as int, 1),
            ),
            Event::Press(Direction::Down) => c.with_band_value(
                changed_by(c.band().vtype, c.band().value as int, -1),
            ),
        },
        Mode::Menu => match e {
            Event::Select => Controller {
                mode: Mode::Main,
                ..c.with_band_value(value_for_pointer(c.band().vtype, c.menu_pointer as int))
            },
            Event::Commit { .. } => Controller { mode: Mode::Main, ..c },
            Event::Press(d) => Controller {
                menu_pointer: moved_cursor(
                    table_len(c.band().vtype) as int,
                    c.menu_pointer as int,
                    d,
                ) as u8,
                ..c
            },
        },
    }
}

/// The band count that event `e` saves, if any: B with left and right held,
/// in the main view.
pub open spec fn saved(c: Controller, e: Event) -> Option<u8> {
    match (c.mode, e) {
        (Mode::Main, Event::Commit { left_held: true, right_held: true }) => Some(
            c.resistance.bands,
        ),
        _ => None,
    }
}

/// The state after the events of `evs`, in order.
pub open spec fn run(c: Controller, evs: Seq<Event>) -> Controller
    decreases evs.len(),
{
    if evs.len() == 0 {
        c
    } else {
        run(next(c, evs[0]), evs.drop_first())
    }
}

/// LED intensities of a colour-table entry.
pub open spec fn entry_led(e: RGB) -> Led {
    Led { red: e.red, green: e.green, blue: e.blue }
}

/// LED intensities of the selected band's colour.
pub open spec fn band_led(c: Controller) -> Led {
    entry_led(colour_entry(c.band().colour()))
}

/// LED intensities of the menu entry under the cursor.
pub open spec fn hover_led(c: Controller) -> Led {
    entry_led(colour_entry(colour_table(c.band().vtype)[c.menu_pointer as int]))
}

/// LED intensities for a state, save confirmation aside: the hovered menu
/// entry in the menu, the selected band's colour in the main view.
pub open spec fn led_of(c: Controller) -> Led {
    match c.mode {
        Mode::Menu => hover_led(c),
        Mode::Main => band_led(c),
    }
}

/// LED intensities while a save is being confirmed.
pub open spec fn confirm_led() -> Led {
    Led { red: CONFIRM_RED, green: CONFIRM_GREEN, blue: CONFIRM_BLUE }
}

/// `c` after `e` when `pressed`, else `c`.
pub open spec fn step_if(c: Controller, pressed: bool, e: Event) -> Controller {
    if pressed {
        next(c, e)
    } else {
        c
    }
}

/// The B press of a tick.
pub open spec fn commit_of(input: Buttons) -> Event {
    Event::Commit { left_held: input.left_held, right_held: input.right_held }
}

/// A tick that starts in the main view, before A is looked at: B, left,
/// right, up and down, in that order.
pub open spec fn main_edits(c: Controller, input: Buttons) -> Controller {
    step_if(step_if(main_moves(c, input), input.up, Event::Press(Direction::Up)), input.down, Event::Press(Direction::Down))
}

/// B, left and right of a tick that starts in the main view.
pub open spec fn main_moves(c: Controller, input: Buttons) -> Controller {
    let c1 = step_if(c, input.b, commit_of(input));
    let c2 = step_if(c1, input.left, Event::Press(Direction::Left));
    step_if(c2, input.right, Event::Press(Direction::Right))
}

/// `c` with the menu cursor moved by `d` when `pressed`.
pub open spec fn cursor_if(c: Controller, pressed: bool, d: Direction) -> Controller {
    if pressed {
        Controller {
            menu_pointer: moved_cursor(table_len(c.band().vtype) as int, c.menu_pointer as int, d) as u8,
            ..c
        }
    } else {
        c
    }
}

/// The state after the presses of a tick. The view is the one the tick
/// starts in. In the main view, B, left, right, up and down act in that
/// order, and A opens the menu on the colour of the band selected after B,
/// left and right, as it was before up and down. In the menu, A picks the
/// entry under the cursor and B cancels, both closing the menu, and the
/// direction buttons move the cursor.
pub open spec fn after_presses(c: Controller, input: Buttons) -> Controller {
    match c.mode {
        Mode::Main => {
            let e = main_edits(c, input);
            if input.a {
                Controller {
                    menu_pointer: main_moves(c, input).band().pointer() as u8,
                    mode: Mode::Menu,
                    ..e
                }
            } else {
                e
            }
        },
        Mode::Menu => {
            let c1 = step_if(c, input.a, Event::Select);
            let c2 = if input.b {
                Controller { mode: Mode::Main, ..c1 }
            } else {
                c1
            };
            let c3 = cursor_if(c2, input.left, Direction::Left);
            let c4 = cursor_if(c3, input.right, Direction::Right);
            let c5 = cursor_if(c4, input.up, Direction::Up);
            cursor_if(c5, input.down, Direction::Down)
        },
    }
}

/// The LED of a tick, save confirmation aside: in the main view the colour
/// of the selected band once edited, in the menu the entry under the cursor.
pub open spec fn tick_led(c: Controller, input: Buttons) -> Led {
    match c.mode {
        Mode::Main => band_led(main_edits(c, input)),
        Mode::Menu => hover_led(after_presses(c, input)),
    }
}

/// The band count that a tick saves, if any.
pub open spec fn tick_save(c: Controller, input: Buttons) -> Option<u8> {
    if input.b {
        saved(c, commit_of(input))
    } else {
        None
    }
}

impl Controller {
    /// The main view of a fresh resistor with `bands` bands, first band selected.
    pub fn new(bands: u8) -> (r: Controller)
        requires
            valid_band_count(bands as int),
        ensures
            r.wf(),
            r.resistance.bands == bands,
            forall|s: crate::resistance::Slot|
                #[trigger] r.resistance.slot(s) == crate::resistance::layout_band(bands as int, s),
            r.pointer == 0,
            r.menu_pointer == 0,
            r.mode == Mode::Main,
            r.confirm_timer == 0,
    {
        Controller {
            resistance: Resistance::new(bands),
            pointer: 0,
            menu_pointer: 0,
            mode: Mode::Main,
            confirm_timer: 0,
        }
    }

    /// The selected band.
    pub fn selected(&self) -> (r: &Band)
        requires
            self.wf(),
        ensures
            *r == self.band(),
    {
        self.resistance.index(self.pointer)
    }

    /// Applies one button press; returns the band count to store, if the
    /// press saved one.
    pub fn handle(&mut self, e: Event) -> (s: Option<u8>)
        requires
            old(self).wf(),
        ensures
            *final(self) == next(*old(self), e),
            final(self).wf(),
            s == saved(*old(self), e),
    {
        proof {
            lemma_next_keeps_wf(*self, e);
            self.resistance.lemma_band_at(self.pointer as int);
            reveal(next);
        }
        match self.mode {
            Mode::Main => match e {
                Event::Select => {
                    let i = self.resistance.index(self.pointer).get_pointer();
                    self.menu_pointer = i as u8;
                    self.mode = Mode::Menu;
                    None
                },
                Event::Commit { left_held, right_held } => {
                    if left_held && right_held {
                        self.confirm_timer = EEPROM_CONFIRM_TIME;
                        Some(self.resistance.bands)
                    } else {
                        let b = self.resistance.bands;
                        let mut p = self.pointer;
                        if b == 4 && p > 1 {
                            p = p + 1;
                        }
                        let nb = if b < MAX_BANDS {
                            b + 1
                        } else {
                            MIN_BANDS
                        };
                        self.resistance = self.resistance.with_bands(nb);
                        if p > nb - 1 {
                            p = nb - 1;
                        }
                        self.pointer = p;
                        None
                    }
                },
                Event::Press(Direction::Left) => {
                    if self.pointer > 0 {
                        self.pointer = self.pointer - 1;
                    }
                    None
                },
                Event::Press(Direction::Right) => {
                    if self.pointer < self.resistance.bands - 1 {
                        self.pointer = self.pointer + 1;
                    }
                    None
                },
                Event::Press(Direction::Up) => {
                    let p = self.pointer;
                    self.resistance.index_mut(p).change_by(1);
                    None
                },
                Event::Press(Direction::Down) => {
                    let p = self.pointer;
                    self.resistance.index_mut(p).change_by(-1);
                    None
                },
            },
            Mode::Menu => match e {
                Event::Select => {
                    let p = self.pointer;
                    let i = self.menu_pointer as i8;
                    self.resistance.index_mut(p).change_to(i);
                    self.mode = Mode::Main;
                    None
                },
                Event::Commit { .. } => {
                    self.mode = Mode::Main;
                    None
                },
                Event::Press(d) => {
                    let len = table_size(self.resistance.index(self.pointer).vtype);
                    self.menu_pointer = move_cursor(len, self.menu_pointer, d);
                    None
                },
            },
        }
    }

    /// The colour the LED shows for this state, save confirmation aside.
    pub fn led(&self) -> (r: Led)
        requires
            self.wf(),
        ensures
            r == led_of(*self),
    {
        proof {
            self.resistance.lemma_band_at(self.pointer as int);
        }
        let band = self.resistance.index(self.pointer);
        let entry = match self.mode {
            Mode::Menu => colour_at(band.vtype, self.menu_pointer).entry(),
            Mode::Main => band.get_rgb(),
        };
        Led { red: entry.red, green: entry.green, blue: entry.blue }
    }

    /// One tick, in the view it starts in (see `after_presses`), then the
    /// save confirmation counts down and overrides the LED while it lasts.
    pub fn update(&mut self, input: Buttons) -> (f: Frame)
        requires
            old(self).wf(),
        ensures
            final(self).wf(),
            ({
                let a = after_presses(*old(self), input);
                &&& *final(self) == (Controller {
                    confirm_timer: if a.confirm_timer > 0 {
                        (a.confirm_timer - 1) as u16
                    } else {
                        0
                    },
                    ..a
                })
                &&& f.led == if a.confirm_timer > 0 {
                    confirm_led()
                } else {
                    tick_led(*old(self), input)
                }
            }),
            f.save == tick_save(*old(self), input),
    {
        let (shown, save) = match self.mode {
            Mode::Main => self.main_tick(input),
            Mode::Menu => (self.menu_tick(input), None),
        };
        let led = if self.confirm_timer > 0 {
            self.confirm_timer = self.confirm_timer - 1;
            Led { red: CONFIRM_RED, green: CONFIRM_GREEN, blue: CONFIRM_BLUE }
        } else {
            shown
        };
        Frame { led, save }
    }

    /// The presses of a tick that starts in the main view.
    fn main_tick(&mut self, input: Buttons) -> (r: (Led, Option<u8>))
        requires
            old(self).wf(),
            old(self).mode == Mode::Main,
        ensures
            final(self).wf(),
            *final(self) == after_presses(*old(self), input),
            r.0 == band_led(main_edits(*old(self), input)),
            r.1 == tick_save(*old(self), input),
    {
        let ghost c0 = *self;
        let mut save: Option<u8> = None;
        proof {
            lemma_main_moves_stay_in_main(c0, input);
        }
        if input.b {
            save = self.handle(Event::Commit { left_held: input.left_held, right_held: input.right_held });
        }
        if input.left {
            self.handle(Event::Press(Direction::Left));
        }
        if input.right {
            self.handle(Event::Press(Direction::Right));
        }
        let ghost moved = *self;
        assert(moved == main_moves(c0, input));
        proof {
            self.resistance.lemma_band_at(self.pointer as int);
            lemma_step_keeps_band_kind(moved, input.up, Direction::Up);
            lemma_step_keeps_band_kind(
                step_if(moved, input.up, Event::Press(Direction::Up)),
                input.down,
                Direction::Down,
            );
        }
        let captured = self.resistance.index(self.pointer).get_pointer();
        if input.up {
            self.handle(Event::Press(Direction::Up));
        }
        if input.down {
            self.handle(Event::Press(Direction::Down));
        }
        assert(*self == main_edits(c0, input));
        let shown = self.led();
        if input.a {
            self.menu_pointer = captured as u8;
            self.mode = Mode::Menu;
        }
        (shown, save)
    }

    /// The presses of a tick that starts in the menu.
    fn menu_tick(&mut self, input: Buttons) -> (r: Led)
        requires
            old(self).wf(),
            old(self).mode == Mode::Menu,
        ensures
            final(self).wf(),
            *final(self) == after_presses(*old(self), input),
            r == hover_led(after_presses(*old(self), input)),
    {
        let ghost c0 = *self;
        proof {
            self.resistance.lemma_band_at(self.pointer as int);
            lemma_menu_select_keeps_cursor(c0);
        }
        let kind = self.resistance.index(self.pointer).vtype;
        let len = table_size(kind);
        if input.a {
            self.handle(Event::Select);
        }
        if input.b {
            self.mode = Mode::Main;
        }
        let ghost c2 = *self;
        assert(self.band().vtype == kind);
        proof {
            crate::menu::lemma_cursor_stays_in_grid(len as int, self.menu_pointer as int, Direction::Left);
        }
        if input.left {
            self.menu_pointer = move_cursor(len, self.menu_pointer, Direction::Left);
        }
        let ghost c3 = *self;
        assert(c3 == cursor_if(c2, input.left, Direction::Left));
        proof {
            crate::menu::lemma_cursor_stays_in_grid(len as int, self.menu_pointer as int, Direction::Right);
        }
        if input.right {
            self.menu_pointer = move_cursor(len, self.menu_pointer, Direction::Right);
        }
        let ghost c4 = *self;
        assert(c4 == cursor_if(c3, input.right, Direction::Right));
        proof {
            crate::menu::lemma_cursor_stays_in_grid(len as int, self.menu_pointer as int, Direction::Up);
        }
        if input.up {
            self.menu_pointer = move_cursor(len, self.menu_pointer, Direction::Up);
        }
        let ghost c5 = *self;
        assert(c5 == cursor_if(c4, input.up, Direction::Up));
        proof {
            crate::menu::lemma_cursor_stays_in_grid(len as int, self.menu_pointer as int, Direction::Down);
        }
        if input.down {
            self.menu_pointer = move_cursor(len, self.menu_pointer, Direction::Down);
        }
        assert(*self == cursor_if(c5, input.down, Direction::Down));
        let entry = colour_at(kind, self.menu_pointer).entry();
        Led { red: entry.red, green: entry.green, blue: entry.blue }
    }
}

/// B, left and right in the main view keep the main view.
pub proof fn lemma_main_moves_stay_in_main(c: Controller, input: Buttons)
    requires
        c.wf(),
        c.mode == Mode::Main,
    ensures
        step_if(c, input.b, commit_of(input)).mode == Mode::Main,
        step_if(step_if(c, input.b, commit_of(input)), input.left, Event::Press(Direction::Left)).mode
            == Mode::Main,
        main_moves(c, input).mode == Mode::Main,
        main_moves(c, input).wf(),
{
    reveal(next);
    let c1 = step_if(c, input.b, commit_of(input));
    lemma_next_keeps_wf(c, commit_of(input));
    let c2 = step_if(c1, input.left, Event::Press(Direction::Left));
    lemma_next_keeps_wf(c1, Event::Press(Direction::Left));
    lemma_next_keeps_wf(c2, Event::Press(Direction::Right));
}

/// Picking a colour in the menu changes only the selected band's value: the
/// selection, its kind and the cursor stay, and the view returns to the main one.
pub proof fn lemma_menu_select_keeps_cursor(c: Controller)
    requires
        c.wf(),
        c.mode == Mode::Menu,
    ensures
        next(c, Event::Select).wf(),
        next(c, Event::Select).mode == Mode::Main,
        next(c, Event::Select).pointer == c.pointer,
        next(c, Event::Select).menu_pointer == c.menu_pointer,
        next(c, Event::Select).resistance.bands == c.resistance.bands,
        next(c, Event::Select).band().vtype == c.band().vtype,
{
    reveal(next);
    lemma_next_keeps_wf(c, Event::Select);
    c.resistance.lemma_band_at(c.pointer as int);
    lemma_set_value_keeps_wf(c.resistance, c.pointer as int, value_for_pointer(c.band().vtype, c.menu_pointer as int));
}

/// An up or down press in the main view changes only the selected band's
/// value: the selection and its kind stay.
pub proof fn lemma_step_keeps_band_kind(c: Controller, pressed: bool, d: Direction)
    requires
        c.wf(),
        c.mode == Mode::Main,
        d == Direction::Up || d == Direction::Down,
    ensures
        step_if(c, pressed, Event::Press(d)).wf(),
        step_if(c, pressed, Event::Press(d)).mode == Mode::Main,
        step_if(c, pressed, Event::Press(d)).pointer == c.pointer,
        step_if(c, pressed, Event::Press(d)).resistance.bands == c.resistance.bands,
        step_if(c, pressed, Event::Press(d)).band().vtype == c.band().vtype,
{
    reveal(next);
    lemma_next_keeps_wf(c, Event::Press(d));
    c.resistance.lemma_band_at(c.pointer as int);
    let delta: int = if d == Direction::Up { 1 } else { -1 };
    lemma_set_value_keeps_wf(c.resistance, c.pointer as int, changed_by(c.band().vtype, c.band().value as int, delta));
}

/// A band count that is saved reads back as itself; a byte that is not a
/// supported count reads back as the default.
pub proof fn lemma_saved_count_reloads(c: Controller, raw: u8)
    requires
        c.wf(),
        c.mode == Mode::Main,
    ensures
        saved(c, Event::Commit { left_held: true, right_held: true }) == Some(c.resistance.bands),
        stored_band_count(c.resistance.bands) == c.resistance.bands,
        !valid_band_count(raw as int) ==> stored_band_count(raw) == DEFAULT_BANDS,
{
}

/// Each event keeps the state well formed.
pub proof fn lemma_next_keeps_wf(c: Controller, e: Event)
    requires
        c.wf(),
    ensures
        next(c, e).wf(),
{
    reveal(next);
    let b = c.resistance.bands as int;
    let p = c.pointer as int;
    assert(c.band() == c.resistance.slot(slot_of(b, p)));
    assert(c.band().vtype == slot_kind(slot_of(b, p)));
    assert(in_domain(c.band().vtype, c.band().value as int));
    match (c.mode, e) {
        (Mode::Main, Event::Press(Direction::Up)) => {
            lemma_set_value_keeps_wf(c.resistance, p, changed_by(c.band().vtype, c.band().value as int, 1));
        },
        (Mode::Main, Event::Press(Direction::Down)) => {
            lemma_set_value_keeps_wf(c.resistance, p, changed_by(c.band().vtype, c.band().value as int, -1));
        },
        (Mode::Main, Event::Commit { left_held, right_held }) => {
            if !(left_held && right_held) {
                c.resistance.lemma_rebuilt_wf(next_band_count(b));
            }
        },
        (Mode::Menu, Event::Select) => {
            lemma_set_value_keeps_wf(c.resistance, p, value_for_pointer(c.band().vtype, c.menu_pointer as int));
        },
        (Mode::Menu, Event::Press(d)) => {
            crate::menu::lemma_cursor_stays_in_grid(table_len(c.band().vtype) as int, c.menu_pointer as int, d);
        },
        _ => {},
    }
}

/// Whatever the events, the selection stays on a band in use and, in the
/// menu, the cursor stays on an entry of the selected band's colour table.
pub proof fn lemma_run_keeps_wf(c: Controller, evs: Seq<Event>)
    requires
        c.wf(),
    ensures
        run(c, evs).wf(),
        run(c, evs).pointer < run(c, evs).resistance.bands,
        run(c, evs).mode == Mode::Menu ==> run(c, evs).menu_pointer < table_len(
            run(c, evs).band().vtype,
        ),
    decreases evs.len(),
{
    if evs.len() > 0 {
        lemma_next_keeps_wf(c, evs[0]);
        lemma_run_keeps_wf(next(c, evs[0]), evs.drop_first());
    }
}

} // verus!
