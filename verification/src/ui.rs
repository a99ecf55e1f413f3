use crate::midi::{MidiMessage, note_off_message, note_on_message};
use crate::parameter::ParameterChange;
use vstd::prelude::*;

verus! {

/// The number of columns of the effect grid for `count` effects: between 1 and 3.
pub open spec fn column_count(count: nat) -> nat {
    if count == 0 {
        1
    } else if count < 3 {
        count
    } else {
        3
    }
}

/// The number of rows that `count` effects fill in rows of `cols`.
pub open spec fn row_count(count: nat, cols: nat) -> nat
    recommends
        cols > 0,
{
    count / cols + if count % cols == 0 {
        0nat
    } else {
        1nat
    }
}

/// The navigation state of the controls panel: the instrument cell (focus 0)
/// above a grid of effect cells (focus 1 and up, row by row).
pub struct ControlsState {
    pub rows: nat,
    pub cols: nat,
    pub count: nat,
    pub focus: nat,
    pub editing: bool,
    pub param_focus: nat,
}

impl ControlsState {
    /// The state of a fresh panel over `count` effects.
    pub open spec fn initial(count: nat) -> ControlsState {
        let cols = column_count(count);
        ControlsState {
            rows: row_count(count, cols),
            cols,
            count,
            focus: 0,
            editing: false,
            param_focus: 0,
        }
    }

    /// The grid's shape follows from the number of effects, and the focus names
    /// the instrument or one of the effects.
    pub open spec fn wf(self) -> bool {
        &&& self.cols == column_count(self.count)
        &&& self.rows == row_count(self.count, self.cols)
        &&& self.count <= usize::MAX
        &&& self.focus <= self.count
    }

    pub open spec fn selected(self) -> ControlsState {
        ControlsState { param_focus: 0, editing: true, ..self }
    }

    pub open spec fn deselected(self) -> ControlsState {
        ControlsState { param_focus: 0, editing: false, ..self }
    }

    /// The effect index (focus - 1) of the first cell of the focused row.
    pub open spec fn row_first(self) -> int {
        (self.focus - 1) - (self.focus - 1) % (self.cols as int)
    }

    /// The effect index (focus - 1) of the last existing cell of the focused row;
    /// the last row may hold fewer effects than there are columns.
    pub open spec fn row_last(self) -> int {
        if self.row_first() + self.cols < self.count {
            self.row_first() + self.cols - 1
        } else {
            self.count - 1
        }
    }

    /// One cell to the right, wrapping to the start of the row.
    pub open spec fn moved_right(self) -> ControlsState {
        if self.editing || self.focus == 0 {
            self
        } else if self.focus - 1 == self.row_last() {
            ControlsState { focus: (self.row_first() + 1) as nat, ..self }
        } else {
            ControlsState { focus: self.focus + 1, ..self }
        }
    }

    /// One cell to the left, wrapping to the last existing cell of the row.
    pub open spec fn moved_left(self) -> ControlsState {
        if self.editing || self.focus == 0 {
            self
        } else if self.focus - 1 == self.row_first() {
            ControlsState { focus: (self.row_last() + 1) as nat, ..self }
        } else {
            ControlsState { focus: (self.focus - 1) as nat, ..self }
        }
    }

    /// From the instrument to the first effect; in the grid one row down, wrapping
    /// around the effects.
    pub open spec fn moved_down(self) -> ControlsState {
        if self.editing {
            self
        } else if self.focus == 0 {
            if self.count > 0 {
                ControlsState { focus: 1, ..self }
            } else {
                self
            }
        } else {
            ControlsState {
                focus: (1 + ((self.focus - 1 + self.cols) % (self.count as int))) as nat,
                ..self
            }
        }
    }

    /// One row up; from the first row to the instrument.
    pub open spec fn moved_up(self) -> ControlsState {
        if self.editing || self.focus == 0 {
            self
        } else if self.focus - 1 < self.cols {
            ControlsState { focus: 0, ..self }
        } else {
            ControlsState { focus: (self.focus - self.cols) as nat, ..self }
        }
    }
}

/// Navigation over the instrument and its effects, and whether the focused
/// cell is being edited.
#[derive(Debug)]
pub struct Controls {
    effect_row_count: usize,
    effect_column_count: usize,
    effect_count: usize,
    // focus_index: 0 -> instrument, 1..=effect_count -> effects
    focus_index: usize,
    is_editing: bool,
    param_focus_index: usize,
}

impl View for Controls {
    type V = ControlsState;

    closed spec fn view(&self) -> ControlsState {
        ControlsState {
            rows: self.effect_row_count as nat,
            cols: self.effect_column_count as nat,
            count: self.effect_count as nat,
            focus: self.focus_index as nat,
            editing: self.is_editing,
            param_focus: self.param_focus_index as nat,
        }
    }
}

/// The focused row's first and last cells bracket the focus, lie among the
/// effects, and span at most one row of columns.
proof fn lemma_row(s: ControlsState)
    requires
        s.wf(),
        s.focus >= 1,
    ensures
        1 <= s.cols <= 3,
        0 <= s.row_first() <= s.focus - 1 <= s.row_last() < s.count,
        s.row_last() - s.row_first() < s.cols,
        s.row_first() % (s.cols as int) == 0,
{
    let e = s.focus - 1;
    lemma_mod_cols(e, s.cols as int);
    lemma_mod_cols(s.row_first(), s.cols as int);
}

impl Controls {
    /// A panel over `effect_count` effects, focused on the instrument.
    pub fn new(effect_count: usize) -> (controls: Self)
        ensures
            controls@ == ControlsState::initial(effect_count as nat),
            controls@.wf(),
    {
        let effect_column_count: usize = if effect_count == 0 {
            1
        } else if effect_count < 3 {
            effect_count
        } else {
            3
        };
        let effect_row_count: usize = effect_count / effect_column_count + if effect_count
            % effect_column_count == 0 {
            0
        } else {
            1
        };
        Controls {
            effect_row_count,
            effect_column_count,
            effect_count,
            focus_index: 0,
            is_editing: false,
            param_focus_index: 0,
        }
    }

    /// The focused cell: 0 for the instrument, `k` for the `k`-th effect.
    pub fn focus_index(&self) -> (focus: usize)
        ensures
            focus == self@.focus,
    {
        self.focus_index
    }

    pub fn is_editing(&self) -> (editing: bool)
        ensures
            editing == self@.editing,
    {
        self.is_editing
    }

    /// The parameter of the edited cell that the arrows step.
    pub fn param_focus_index(&self) -> (param_focus: usize)
        ensures
            param_focus == self@.param_focus,
    {
        self.param_focus_index
    }

    pub fn effect_row_count(&self) -> (rows: usize)
        ensures
            rows == self@.rows,
    {
        self.effect_row_count
    }

    pub fn effect_column_count(&self) -> (cols: usize)
        ensures
            cols == self@.cols,
    {
        self.effect_column_count
    }

    /// Starts editing the focused cell, from its first parameter.
    pub fn select(&mut self)
        ensures
            final(self)@ == old(self)@.selected(),
    {
        self.param_focus_index = 0;
        self.is_editing = true;
    }

    /// Stops editing.
    pub fn deselect(&mut self)
        ensures
            final(self)@ == old(self)@.deselected(),
    {
        self.param_focus_index = 0;
        self.is_editing = false;
    }

    /// The effect indices of the first and last existing cells of the focused row.
    fn row_bounds(&self) -> (bounds: (usize, usize))
        requires
            self@.wf(),
            self@.focus >= 1,
        ensures
            bounds.0 == self@.row_first(),
            bounds.1 == self@.row_last(),
    {
        proof {
            lemma_row(self@);
        }
        let eff_idx = self.focus_index - 1;
        let first = eff_idx - eff_idx % self.effect_column_count;
        let remaining = self.effect_count - first;
        let last = if remaining > self.effect_column_count {
            first + self.effect_column_count - 1
        } else {
            self.effect_count - 1
        };
        (first, last)
    }

    pub fn move_right(&mut self)
        requires
            old(self)@.wf(),
        ensures
            final(self)@ == old(self)@.moved_right(),
            final(self)@.wf(),
    {
        if self.is_editing || self.focus_index == 0 {
            return;
        }
        proof {
            lemma_row(self@);
        }
        let (first, last) = self.row_bounds();
        if self.focus_index - 1 == last {
            self.focus_index = first + 1;
        } else {
            self.focus_index += 1;
        }
    }

    pub fn move_left(&mut self)
        requires
            old(self)@.wf(),
        ensures
            final(self)@ == old(self)@.moved_left(),
            final(self)@.wf(),
    {
        if self.is_editing || self.focus_index == 0 {
            return;
        }
        proof {
            lemma_row(self@);
        }
        let (first, last) = self.row_bounds();
        if self.focus_index - 1 == first {
            self.focus_index = last + 1;
        } else {
            self.focus_index -= 1;
        }
    }

    pub fn move_down(&mut self)
        requires
            old(self)@.wf(),
            old(self)@.focus == 0 || old(self)@.focus - 1 + old(self)@.cols <= usize::MAX,
        ensures
            final(self)@ == old(self)@.moved_down(),
            final(self)@.wf(),
    {
        if self.is_editing {
            return;
        }
        if self.focus_index == 0 {
            if self.effect_count > 0 {
                self.focus_index = 1;
            }
        } else {
            let eff_idx = self.focus_index - 1;
            self.focus_index = 1 + (eff_idx + self.effect_column_count) % self.effect_count;
        }
    }

    pub fn move_up(&mut self)
        requires
            old(self)@.wf(),
        ensures
            final(self)@ == old(self)@.moved_up(),
            final(self)@.wf(),
    {
        if self.is_editing || self.focus_index == 0 {
            return;
        }
        let eff_idx = self.focus_index - 1;
        if eff_idx < self.effect_column_count {
            self.focus_index = 0;
        } else {
            self.focus_index -= self.effect_column_count;
        }
    }
}

/// `x % cols` for the column counts a grid can have.
proof fn lemma_mod_cols(x: int, cols: int)
    ensures
        cols == 1 ==> x % cols == 0,
        cols == 2 ==> x % cols == x % 2,
        cols == 3 ==> x % cols == x % 3,
{
    if cols == 1 {
        assert(x % cols == 0) by (nonlinear_arith)
            requires
                cols == 1,
        ;
    } else if cols == 2 {
        assert(x % cols == x % 2) by (nonlinear_arith)
            requires
                cols == 2,
        ;
    } else if cols == 3 {
        assert(x % cols == x % 3) by (nonlinear_arith)
            requires
                cols == 3,
        ;
    }
}

/// Another cell of the focused row has the same first and last cells.
proof fn lemma_same_row(s: ControlsState, focus: nat)
    requires
        s.wf(),
        s.focus >= 1,
        s.row_first() <= focus - 1 <= s.row_last(),
    ensures
        (ControlsState { focus, ..s }).row_first() == s.row_first(),
        (ControlsState { focus, ..s }).row_last() == s.row_last(),
{
    lemma_row(s);
    lemma_mod_cols(focus - 1, s.cols as int);
    lemma_mod_cols(s.row_first(), s.cols as int);
}

/// Moving left undoes moving right and moving right undoes moving left, on any
/// effect cell while no cell is being edited.
pub proof fn law_left_right_inverse(s: ControlsState)
    requires
        s.wf(),
        !s.editing,
        s.focus > 0,
    ensures
        s.moved_right().moved_left() == s,
        s.moved_left().moved_right() == s,
{
    lemma_row(s);
    lemma_same_row(s, s.moved_right().focus);
    lemma_same_row(s, s.moved_left().focus);
}

/// Moving down and back up returns to the same cell whenever the move down did
/// not wrap around the effects; in particular from the instrument.
pub proof fn law_down_up_returns(s: ControlsState)
    requires
        s.wf(),
        !s.editing,
        s.count > 0,
        s.focus == 0 || s.focus - 1 + s.cols < s.count,
    ensures
        s.moved_down().moved_up() == s,
{
    if s.focus > 0 {
        lemma_row(s);
        let x = (s.focus - 1 + s.cols) as nat;
        vstd::arithmetic::div_mod::lemma_small_mod(x, s.count);
    } else {
        assert(s.cols >= 1);
    }
}

/// Moving down from the instrument and back up returns to the instrument.
pub proof fn law_down_up_from_instrument(s: ControlsState)
    requires
        s.wf(),
        !s.editing,
        s.focus == 0,
    ensures
        s.moved_down().moved_up() == s,
{
}

/// While a cell is being edited the focus does not move; deselecting ends the
/// editing and forgets the parameter focus, whatever was selected before.
pub proof fn law_editing_holds_focus(s: ControlsState)
    requires
        s.editing,
    ensures
        s.moved_right() == s,
        s.moved_left() == s,
        s.moved_up() == s,
        s.moved_down() == s,
        s.selected().deselected() == s.deselected(),
        !s.deselected().editing,
        s.deselected().param_focus == 0,
        s.deselected().focus == s.focus,
{
}

/// A key of the computer keyboard, as far as the synthesizer tells keys apart.
#[derive(Clone, Copy, Debug, PartialEq, Eq, Structural)]
pub enum KeyInput {
    Char(char),
    Esc,
    Left,
    Right,
    Up,
    Down,
    Enter,
    Other,
}

/// What a key press asks of the rest of the program, in order.
#[derive(Clone, Copy, Debug, PartialEq, Eq, Structural)]
pub enum UiAction {
    SendMidi(MidiMessage),
    UpdateParameter(usize, ParameterChange),
}

/// The MIDI note of each key of the on-screen keyboard, from F below middle C
/// (`q`) up to the C above it (`]`).
pub open spec fn spec_note_for_char(c: char) -> Option<u8> {
    if c == 'q' {
        Some(53u8)
    } else if c == '2' {
        Some(54u8)
    } else if c == 'w' {
        Some(55u8)
    } else if c == '3' {
        Some(56u8)
    } else if c == 'e' {
        Some(57u8)
    } else if c == '4' {
        Some(58u8)
    } else if c == 'r' {
        Some(59u8)
    } else if c == 't' {
        Some(60u8)
    } else if c == '6' {
        Some(61u8)
    } else if c == 'y' {
        Some(62u8)
    } else if c == '7' {
        Some(63u8)
    } else if c == 'u' {
        Some(64u8)
    } else if c == 'i' {
        Some(65u8)
    } else if c == '9' {
        Some(66u8)
    } else if c == 'o' {
        Some(67u8)
    } else if c == '0' {
        Some(68u8)
    } else if c == 'p' {
        Some(69u8)
    } else if c == '-' {
        Some(70u8)
    } else if c == '[' {
        Some(71u8)
    } else if c == ']' {
        Some(72u8)
    } else {
        None
    }
}

/// The MIDI note that a key plays, if it is a key of the on-screen keyboard.
pub open spec fn spec_note_for_key(code: KeyInput) -> Option<u8> {
    match code {
        KeyInput::Char(c) => spec_note_for_char(c),
        _ => None,
    }
}

/// Maps a computer keyboard key to its corresponding MIDI note.
pub fn get_midi_note_for_key(code: KeyInput) -> (note: Option<u8>)
    ensures
        note == spec_note_for_key(code),
{
    match code {
        KeyInput::Char('q') => Some(53),  // F
        KeyInput::Char('2') => Some(54),
        KeyInput::Char('w') => Some(55),  // G
        KeyInput::Char('3') => Some(56),
        KeyInput::Char('e') => Some(57),  // A
        KeyInput::Char('4') => Some(58),
        KeyInput::Char('r') => Some(59),  // B
        KeyInput::Char('t') => Some(60),  // Middle C
        KeyInput::Char('6') => Some(61),
        KeyInput::Char('y') => Some(62),  // D
        KeyInput::Char('7') => Some(63),
        KeyInput::Char('u') => Some(64),  // E
        KeyInput::Char('i') => Some(65),  // F
        KeyInput::Char('9') => Some(66),
        KeyInput::Char('o') => Some(67),  // G
        KeyInput::Char('0') => Some(68),
        KeyInput::Char('p') => Some(69),  // A
        KeyInput::Char('-') => Some(70),
        KeyInput::Char('[') => Some(71),  // B
        KeyInput::Char(']') => Some(72),  // C
        _ => None,
    }
}

/// The state of the terminal interface, apart from the engine it drives.
pub struct UiState {
    pub last_key: char,
    pub last_note: Option<u8>,
    pub controls: ControlsState,
    pub key_release_reported: bool,
    pub held_note: Option<u8>,
    pub exit: bool,
}

impl UiState {
    /// The keyboard part of a key press: a note key becomes the last key shown,
    /// starts its note and, when the terminal reports no key releases, first
    /// stops the note held before, so that the keyboard plays one note at a time.
    pub open spec fn pressed_note(self, code: KeyInput) -> (UiState, Seq<UiAction>) {
        match spec_note_for_key(code) {
            Some(note) => {
                let shown = UiState {
                    last_key: code->Char_0,
                    last_note: Some(note),
                    ..self
                };
                let on = seq![UiAction::SendMidi(note_on_message(note))];
                if !self.key_release_reported {
                    match self.held_note {
                        Some(held) => (
                            UiState { held_note: Some(note), ..shown },
                            seq![UiAction::SendMidi(note_off_message(held))] + on,
                        ),
                        None => (UiState { held_note: Some(note), ..shown }, on),
                    }
                } else {
                    (shown, on)
                }
            },
            None => (self, Seq::empty()),
        }
    }

    /// The navigation part of a key press. While the instrument is edited the
    /// arrows pick a parameter (left, right) and step it (up, down) and Esc ends
    /// the editing; otherwise the arrows move the focus and Enter edits.
    pub open spec fn pressed_control(self, code: KeyInput, param_count: nat) -> (
        UiState,
        Seq<UiAction>,
    ) {
        let c = self.controls;
        if c.editing {
            if c.focus == 0 {
                match code {
                    KeyInput::Esc => (UiState { controls: c.deselected(), ..self }, Seq::empty()),
                    KeyInput::Left => if c.param_focus > 0 {
                        (
                            UiState {
                                controls: ControlsState {
                                    param_focus: (c.param_focus - 1) as nat,
                                    ..c
                                },
                                ..self
                            },
                            Seq::empty(),
                        )
                    } else {
                        (self, Seq::empty())
                    },
                    KeyInput::Right => if c.param_focus < param_count - 1 {
                        (
                            UiState {
                                controls: ControlsState { param_focus: c.param_focus + 1, ..c },
                                ..self
                            },
                            Seq::empty(),
                        )
                    } else {
                        (self, Seq::empty())
                    },
                    KeyInput::Up => (
                        self,
                        seq![
                            UiAction::UpdateParameter(
                                c.param_focus as usize,
                                ParameterChange::Increment,
                            ),
                        ],
                    ),
                    KeyInput::Down => (
                        self,
                        seq![
                            UiAction::UpdateParameter(
                                c.param_focus as usize,
                                ParameterChange::Decrement,
                            ),
                        ],
                    ),
                    _ => (self, Seq::empty()),
                }
            } else {
                (self, Seq::empty())
            }
        } else {
            match code {
                KeyInput::Enter => (UiState { controls: c.selected(), ..self }, Seq::empty()),
                KeyInput::Left => (UiState { controls: c.moved_left(), ..self }, Seq::empty()),
                KeyInput::Right => (UiState { controls: c.moved_right(), ..self }, Seq::empty()),
                KeyInput::Up => (UiState { controls: c.moved_up(), ..self }, Seq::empty()),
                KeyInput::Down => (UiState { controls: c.moved_down(), ..self }, Seq::empty()),
                _ => (self, Seq::empty()),
            }
        }
    }

    /// A whole key press: Ctrl+C asks to exit, then the keyboard part, then the
    /// navigation part; the actions come out in that order.
    pub open spec fn pressed(self, code: KeyInput, ctrl: bool, param_count: nat) -> (
        UiState,
        Seq<UiAction>,
    ) {
        let s0 = if code == KeyInput::Char('c') && ctrl {
            UiState { exit: true, ..self }
        } else {
            self
        };
        let (s1, notes) = s0.pressed_note(code);
        let (s2, controls) = s1.pressed_control(code, param_count);
        (s2, notes + controls)
    }

    /// A key release: a note key stops its note and is no longer held.
    pub open spec fn released(self, code: KeyInput) -> (UiState, Option<MidiMessage>) {
        match spec_note_for_key(code) {
            Some(note) => (
                if self.held_note == Some(note) {
                    UiState { held_note: None, ..self }
                } else {
                    self
                },
                Some(note_off_message(note)),
            ),
            None => (self, None),
        }
    }

    /// The inputs on which a key press is defined: a step right through the
    /// parameters needs at least one parameter, and a step down through the
    /// effects must not run past the largest index.
    pub open spec fn press_defined(self, code: KeyInput, param_count: nat) -> bool {
        &&& code == KeyInput::Right && self.controls.editing && self.controls.focus == 0
            ==> param_count > 0
        &&& code == KeyInput::Down && !self.controls.editing ==> self.controls.focus == 0
            || self.controls.focus - 1 + self.controls.cols <= usize::MAX
    }
}

/// The terminal interface's state: the last key played, the navigation of the
/// controls panel, the note held down, and whether the user asked to exit.
#[derive(Debug)]
pub struct UI {
    last_key: char,
    last_note: Option<u8>,
    controls_interface: Controls,
    key_release_reported: bool,
    held_note: Option<u8>,
    exit: bool,
}

impl View for UI {
    type V = UiState;

    closed spec fn view(&self) -> UiState {
        UiState {
            last_key: self.last_key,
            last_note: self.last_note,
            controls: self.controls_interface@,
            key_release_reported: self.key_release_reported,
            held_note: self.held_note,
            exit: self.exit,
        }
    }
}

impl UI {
    /// A fresh interface: no key played yet, the panel over no effects, key
    /// releases not known to be reported.
    pub fn new() -> (ui: Self)
        ensures
            ui@ == (UiState {
                last_key: '_',
                last_note: None,
                controls: ControlsState::initial(0),
                key_release_reported: false,
                held_note: None,
                exit: false,
            }),
            ui@.controls.wf(),
    {
        UI {
            controls_interface: Controls::new(0),
            last_key: '_',
            last_note: None,
            key_release_reported: false,
            held_note: None,
            exit: false,
        }
    }

    /// Records whether the terminal reports key releases; without them the
    /// keyboard plays one note at a time.
    pub fn set_key_release_reported(&mut self, reported: bool)
        ensures
            final(self)@ == (UiState { key_release_reported: reported, ..old(self)@ }),
    {
        self.key_release_reported = reported;
    }

    /// The last note key pressed, `'_'` before any.
    pub fn last_key(&self) -> (key: char)
        ensures
            key == self@.last_key,
    {
        self.last_key
    }

    /// The note of the last note key pressed.
    pub fn last_note(&self) -> (note: Option<u8>)
        ensures
            note == self@.last_note,
    {
        self.last_note
    }

    pub fn controls(&self) -> (controls: &Controls)
        ensures
            controls@ == self@.controls,
    {
        &self.controls_interface
    }

    /// Whether the user asked to exit.
    pub fn exit_requested(&self) -> (exit: bool)
        ensures
            exit == self@.exit,
    {
        self.exit
    }

    /// Handles a key press, given how many parameters the engine has, and returns
    /// the MIDI messages to send and the parameter steps to apply, in order.
    pub fn handle_key_press(&mut self, code: KeyInput, ctrl: bool, param_count: usize) -> (actions:
        Vec<UiAction>)
        requires
            old(self)@.controls.wf(),
            old(self)@.press_defined(code, param_count as nat),
        ensures
            final(self)@ == old(self)@.pressed(code, ctrl, param_count as nat).0,
            actions@ == old(self)@.pressed(code, ctrl, param_count as nat).1,
            final(self)@.controls.wf(),
    {
        let mut actions: Vec<UiAction> = Vec::new();
        if code == KeyInput::Char('c') && ctrl {
            self.exit();
        }
        if let Some(midi_note) = get_midi_note_for_key(code) {
            if let KeyInput::Char(pressed_key) = code {
                self.last_key = pressed_key;
                self.last_note = Some(midi_note);
            }
            // Without release events, release the previous note before starting this one
            if !self.key_release_reported {
                let previous = self.held_note;
                self.held_note = Some(midi_note);
                if let Some(held_note) = previous {
                    actions.push(UiAction::SendMidi(MidiMessage(128, held_note, 0)));
                }
            }
            actions.push(UiAction::SendMidi(MidiMessage(144, midi_note, 100)));
        }
        let ghost notes = actions@;
        let ghost mid = self@;
        if self.controls_interface.is_editing {
            let param_index = self.controls_interface.param_focus_index;
            if self.controls_interface.focus_index == 0 {
                match code {
                    KeyInput::Esc => self.controls_interface.deselect(),
                    KeyInput::Left => {
                        if param_index > 0 {
                            self.controls_interface.param_focus_index -= 1;
                        }
                    },
                    KeyInput::Right => {
                        if param_index < param_count - 1 {
                            self.controls_interface.param_focus_index += 1;
                        }
                    },
                    KeyInput::Up => {
                        actions.push(
                            UiAction::UpdateParameter(param_index, ParameterChange::Increment),
                        );
                    },
                    KeyInput::Down => {
                        actions.push(
                            UiAction::UpdateParameter(param_index, ParameterChange::Decrement),
                        );
                    },
                    _ => {},
                }
            }
        } else {
            match code {
                KeyInput::Enter => self.controls_interface.select(),
                KeyInput::Left => self.controls_interface.move_left(),
                KeyInput::Right => self.controls_interface.move_right(),
                KeyInput::Up => self.controls_interface.move_up(),
                KeyInput::Down => self.controls_interface.move_down(),
                _ => {},
            }
        }
        proof {
            let (s1, n) = old(self)@.pressed_note(code);
            assert(notes =~= n);
            assert(actions@ =~= n + mid.pressed_control(code, param_count as nat).1);
        }
        actions
    }

    /// Handles a key release, and returns the Note Off to send, if any.
    pub fn handle_key_release(&mut self, code: KeyInput) -> (message: Option<MidiMessage>)
        ensures
            final(self)@ == old(self)@.released(code).0,
            message == old(self)@.released(code).1,
    {
        if let Some(midi_note) = get_midi_note_for_key(code) {
            if self.held_note == Some(midi_note) {
                self.held_note = None;
            }
            return Some(MidiMessage(128, midi_note, 0));
        }
        None
    }

    fn exit(&mut self)
        ensures
            final(self)@ == (UiState { exit: true, ..old(self)@ }),
    {
        self.exit = true;
    }
}

/// A note key plays its note and leaves the controls panel alone; when the
/// terminal reports no key releases it first stops the note held before, so
/// that one note sounds at a time.
pub proof fn law_note_keys_play_notes(s: UiState, code: KeyInput, ctrl: bool, param_count: nat, note: u8)
    requires
        spec_note_for_key(code) == Some(note),
    ensures
        s.pressed(code, ctrl, param_count).0.controls == s.controls,
        s.pressed(code, ctrl, param_count).0.last_note == Some(note),
        s.key_release_reported ==> s.pressed(code, ctrl, param_count).1 == seq![
            UiAction::SendMidi(note_on_message(note)),
        ],
        !s.key_release_reported ==> s.pressed(code, ctrl, param_count).0.held_note == Some(note),
        !s.key_release_reported && s.held_note is None ==> s.pressed(code, ctrl, param_count).1
            == seq![UiAction::SendMidi(note_on_message(note))],
        !s.key_release_reported && s.held_note is Some ==> s.pressed(code, ctrl, param_count).1
            == seq![
            UiAction::SendMidi(note_off_message(s.held_note->0)),
            UiAction::SendMidi(note_on_message(note)),
        ],
{
    let (s1, n) = s.pressed_note(code);
    assert(s.pressed(code, ctrl, param_count).1 =~= n);
    if !s.key_release_reported && s.held_note is Some {
        assert(n =~= seq![
            UiAction::SendMidi(note_off_message(s.held_note->0)),
            UiAction::SendMidi(note_on_message(note)),
        ]);
    }
}

/// Releasing the key that was just pressed stops its note, and no note is left held.
pub proof fn law_release_after_press(s: UiState, code: KeyInput, ctrl: bool, param_count: nat, note: u8)
    requires
        spec_note_for_key(code) == Some(note),
        !s.key_release_reported,
    ensures
        s.pressed(code, ctrl, param_count).0.released(code).0.held_note is None,
        s.pressed(code, ctrl, param_count).0.released(code).1 == Some(note_off_message(note)),
{
}

/// Once the user has asked to exit, no key takes the request back; Ctrl+C always
/// makes it.
pub proof fn law_exit_is_sticky(s: UiState, code: KeyInput, ctrl: bool, param_count: nat)
    ensures
        s.exit ==> s.pressed(code, ctrl, param_count).0.exit,
        code == KeyInput::Char('c') && ctrl ==> s.pressed(code, ctrl, param_count).0.exit,
{
}

/// Only Ctrl+C asks to exit: any other key, or `c` without Ctrl, leaves the exit
/// request as it was.
pub proof fn law_only_ctrl_c_exits(s: UiState, code: KeyInput, ctrl: bool, param_count: nat)
    ensures
        !(code == KeyInput::Char('c') && ctrl) ==> s.pressed(code, ctrl, param_count).0.exit
            == s.exit,
        code == KeyInput::Char('c') && ctrl ==> s.pressed(code, ctrl, param_count).0.exit,
{
}

/// The MIDI a note key sends: a Note On (status 144, velocity 100) for its note,
/// preceded, when releases are not reported and another note is held, by a Note
/// Off (status 128, velocity 0) for the held note; its release sends a Note Off
/// for its note.
pub proof fn law_note_key_midi(s: UiState, code: KeyInput, ctrl: bool, param_count: nat, note: u8)
    requires
        spec_note_for_key(code) == Some(note),
    ensures
        s.key_release_reported || s.held_note is None ==> s.pressed(code, ctrl, param_count).1
            == seq![UiAction::SendMidi(MidiMessage(144, note, 100))],
        !s.key_release_reported && s.held_note is Some ==> s.pressed(code, ctrl, param_count).1
            == seq![
            UiAction::SendMidi(MidiMessage(128, s.held_note->0, 0)),
            UiAction::SendMidi(MidiMessage(144, note, 100)),
        ],
        s.released(code).1 == Some(MidiMessage(128, note, 0)),
        s.pressed(code, ctrl, param_count).0.controls == s.controls,
{
    law_note_keys_play_notes(s, code, ctrl, param_count, note);
}

/// While the instrument cell is edited: up and down step the focused parameter
/// up and down, left and right move the parameter focus within the parameters,
/// Esc ends the editing, and nothing else is asked.
pub proof fn law_instrument_editing_keys(s: UiState, ctrl: bool, param_count: nat)
    requires
        s.controls.editing,
        s.controls.focus == 0,
    ensures
        s.pressed(KeyInput::Up, ctrl, param_count).1 == seq![
            UiAction::UpdateParameter(s.controls.param_focus as usize, ParameterChange::Increment),
        ],
        s.pressed(KeyInput::Down, ctrl, param_count).1 == seq![
            UiAction::UpdateParameter(s.controls.param_focus as usize, ParameterChange::Decrement),
        ],
        s.pressed(KeyInput::Up, ctrl, param_count).0 == s,
        s.pressed(KeyInput::Down, ctrl, param_count).0 == s,
        s.pressed(KeyInput::Esc, ctrl, param_count).1.len() == 0,
        !s.pressed(KeyInput::Esc, ctrl, param_count).0.controls.editing,
        s.pressed(KeyInput::Esc, ctrl, param_count).0.controls.focus == s.controls.focus,
        s.pressed(KeyInput::Left, ctrl, param_count).1.len() == 0,
        s.pressed(KeyInput::Left, ctrl, param_count).0.controls.param_focus == if s.controls.param_focus
            > 0 {
            s.controls.param_focus - 1
        } else {
            0
        },
        s.pressed(KeyInput::Right, ctrl, param_count).1.len() == 0,
        s.controls.param_focus + 1 < param_count ==> s.pressed(
            KeyInput::Right,
            ctrl,
            param_count,
        ).0.controls.param_focus == s.controls.param_focus + 1,
        s.controls.param_focus + 1 >= param_count ==> s.pressed(
            KeyInput::Right,
            ctrl,
            param_count,
        ).0.controls.param_focus == s.controls.param_focus,
        s.pressed(KeyInput::Enter, ctrl, param_count) == (s, Seq::<UiAction>::empty()),
{
    assert(s.pressed(KeyInput::Up, ctrl, param_count).1 =~= seq![
        UiAction::UpdateParameter(s.controls.param_focus as usize, ParameterChange::Increment),
    ]);
    assert(s.pressed(KeyInput::Down, ctrl, param_count).1 =~= seq![
        UiAction::UpdateParameter(s.controls.param_focus as usize, ParameterChange::Decrement),
    ]);
    assert(s.pressed(KeyInput::Enter, ctrl, param_count).1 =~= Seq::<UiAction>::empty());
}

/// Outside editing, Enter starts editing the focused cell and the arrows move the
/// focus in their own direction; no key then steps a parameter.
pub proof fn law_navigation_keys(s: UiState, ctrl: bool, param_count: nat, code: KeyInput)
    requires
        !s.controls.editing,
        spec_note_for_key(code) is None,
    ensures
        s.pressed(KeyInput::Enter, ctrl, param_count).0.controls.editing,
        s.pressed(KeyInput::Enter, ctrl, param_count).0.controls.focus == s.controls.focus,
        s.pressed(KeyInput::Enter, ctrl, param_count).0.controls.param_focus == 0,
        s.pressed(KeyInput::Left, ctrl, param_count).0.controls == s.controls.moved_left(),
        s.pressed(KeyInput::Right, ctrl, param_count).0.controls == s.controls.moved_right(),
        s.pressed(KeyInput::Up, ctrl, param_count).0.controls == s.controls.moved_up(),
        s.pressed(KeyInput::Down, ctrl, param_count).0.controls == s.controls.moved_down(),
        s.pressed(code, ctrl, param_count).1.len() == 0,
{
    assert(s.pressed(code, ctrl, param_count).1 =~= Seq::<UiAction>::empty());
}

/// The keys of the on-screen keyboard, from lowest to highest pitch.
pub open spec fn keyboard_keys() -> Seq<char> {
    seq!['q', '2', 'w', '3', 'e', '4', 'r', 't', '6', 'y', '7', 'u', 'i', '9', 'o', '0', 'p', '-', '[', ']']
}

/// The on-screen keyboard is chromatic: its keys, from lowest to highest, play
/// the consecutive MIDI notes from 53 (the F below middle C) to 72; `t` is
/// middle C (60) and `e` is A440 (57).
pub proof fn law_keyboard_is_chromatic(i: int)
    requires
        0 <= i < 20,
    ensures
        spec_note_for_char(keyboard_keys()[i]) == Some((53 + i) as u8),
        spec_note_for_char('t') == Some(60u8),
        spec_note_for_char('e') == Some(57u8),
{
    assert(keyboard_keys().len() == 20);
}

} // verus!
