use synth_sim::midi::MidiMessage;
use synth_sim::parameter::ParameterChange;
use synth_sim::ui::{Controls, KeyInput, UiAction, UI, get_midi_note_for_key};

#[test]
fn controls_grid_shape() {
    let c = Controls::new(0);
    assert_eq!((c.effect_row_count(), c.effect_column_count()), (0, 1));
    let c = Controls::new(2);
    assert_eq!((c.effect_row_count(), c.effect_column_count()), (1, 2));
    let c = Controls::new(5);
    assert_eq!((c.effect_row_count(), c.effect_column_count()), (2, 3));
    let c = Controls::new(6);
    assert_eq!((c.effect_row_count(), c.effect_column_count()), (2, 3));
    assert_eq!(c.focus_index(), 0);
    assert!(!c.is_editing());
}

#[test]
fn controls_move_around_grid() {
    let mut c = Controls::new(5);
    c.move_right();
    assert_eq!(c.focus_index(), 0);
    c.move_down();
    assert_eq!(c.focus_index(), 1);
    c.move_right();
    c.move_right();
    assert_eq!(c.focus_index(), 3);
    c.move_right();
    assert_eq!(c.focus_index(), 1);
    c.move_left();
    assert_eq!(c.focus_index(), 3);
    c.move_left();
    assert_eq!(c.focus_index(), 2);
    c.move_down();
    assert_eq!(c.focus_index(), 5);
    c.move_down();
    assert_eq!(c.focus_index(), 1 + (4 + 3) % 5);
    c.move_up();
    assert_eq!(c.focus_index(), 0);
}

#[test]
fn controls_up_from_second_row() {
    let mut c = Controls::new(6);
    c.move_down();
    c.move_down();
    assert_eq!(c.focus_index(), 4);
    c.move_up();
    assert_eq!(c.focus_index(), 1);
}

#[test]
fn controls_move_down_without_effects_stays() {
    let mut c = Controls::new(0);
    c.move_down();
    assert_eq!(c.focus_index(), 0);
}

#[test]
fn controls_wrap_within_short_last_row() {
    let mut c = Controls::new(5);
    c.move_down();
    c.move_down();
    assert_eq!(c.focus_index(), 4);
    c.move_left();
    assert_eq!(c.focus_index(), 5);
    c.move_right();
    assert_eq!(c.focus_index(), 4);
    c.move_right();
    assert_eq!(c.focus_index(), 5);
    c.move_right();
    assert_eq!(c.focus_index(), 4);
    let mut c = Controls::new(4);
    c.move_down();
    c.move_down();
    assert_eq!(c.focus_index(), 4);
    c.move_right();
    assert_eq!(c.focus_index(), 4);
    c.move_left();
    assert_eq!(c.focus_index(), 4);
}

#[test]
fn controls_down_then_up_returns() {
    let mut c = Controls::new(6);
    c.move_down();
    c.move_right();
    assert_eq!(c.focus_index(), 2);
    c.move_down();
    assert_eq!(c.focus_index(), 5);
    c.move_up();
    assert_eq!(c.focus_index(), 2);
}

#[test]
fn controls_editing_blocks_moves() {
    let mut c = Controls::new(3);
    c.move_down();
    c.select();
    assert!(c.is_editing());
    c.move_right();
    c.move_up();
    assert_eq!(c.focus_index(), 1);
    c.deselect();
    assert!(!c.is_editing());
    assert_eq!(c.param_focus_index(), 0);
    c.move_right();
    assert_eq!(c.focus_index(), 2);
}

#[test]
fn midi_notes_of_keys() {
    assert_eq!(get_midi_note_for_key(KeyInput::Char('q')), Some(53));
    assert_eq!(get_midi_note_for_key(KeyInput::Char('t')), Some(60));
    assert_eq!(get_midi_note_for_key(KeyInput::Char(']')), Some(72));
    assert_eq!(get_midi_note_for_key(KeyInput::Char('x')), None);
    assert_eq!(get_midi_note_for_key(KeyInput::Enter), None);
}

#[test]
fn monophonic_keyboard_releases_previous_note() {
    let mut ui = UI::new();
    let a = ui.handle_key_press(KeyInput::Char('q'), false, 5);
    assert_eq!(a, vec![UiAction::SendMidi(MidiMessage(144, 53, 100))]);
    assert_eq!(ui.last_key(), 'q');
    assert_eq!(ui.last_note(), Some(53));
    let a = ui.handle_key_press(KeyInput::Char('w'), false, 5);
    assert_eq!(
        a,
        vec![
            UiAction::SendMidi(MidiMessage(128, 53, 0)),
            UiAction::SendMidi(MidiMessage(144, 55, 100))
        ]
    );
    assert_eq!(ui.handle_key_release(KeyInput::Char('w')), Some(MidiMessage(128, 55, 0)));
    let a = ui.handle_key_press(KeyInput::Char('e'), false, 5);
    assert_eq!(a, vec![UiAction::SendMidi(MidiMessage(144, 57, 100))]);
}

#[test]
fn polyphonic_keyboard_with_release_reports() {
    let mut ui = UI::new();
    ui.set_key_release_reported(true);
    let a = ui.handle_key_press(KeyInput::Char('q'), false, 5);
    assert_eq!(a, vec![UiAction::SendMidi(MidiMessage(144, 53, 100))]);
    let a = ui.handle_key_press(KeyInput::Char('w'), false, 5);
    assert_eq!(a, vec![UiAction::SendMidi(MidiMessage(144, 55, 100))]);
    assert_eq!(ui.handle_key_release(KeyInput::Char('q')), Some(MidiMessage(128, 53, 0)));
    assert_eq!(ui.handle_key_release(KeyInput::Left), None);
}

#[test]
fn ctrl_c_requests_exit() {
    let mut ui = UI::new();
    assert!(!ui.exit_requested());
    let a = ui.handle_key_press(KeyInput::Char('c'), false, 5);
    assert!(a.is_empty());
    assert!(!ui.exit_requested());
    ui.handle_key_press(KeyInput::Char('c'), true, 5);
    assert!(ui.exit_requested());
    ui.handle_key_press(KeyInput::Char('q'), false, 5);
    assert!(ui.exit_requested());
}

#[test]
fn editing_the_instrument_steps_parameters() {
    let mut ui = UI::new();
    ui.handle_key_press(KeyInput::Enter, false, 3);
    assert!(ui.controls().is_editing());
    let a = ui.handle_key_press(KeyInput::Up, false, 3);
    assert_eq!(a, vec![UiAction::UpdateParameter(0, ParameterChange::Increment)]);
    ui.handle_key_press(KeyInput::Right, false, 3);
    ui.handle_key_press(KeyInput::Right, false, 3);
    ui.handle_key_press(KeyInput::Right, false, 3);
    assert_eq!(ui.controls().param_focus_index(), 2);
    let a = ui.handle_key_press(KeyInput::Down, false, 3);
    assert_eq!(a, vec![UiAction::UpdateParameter(2, ParameterChange::Decrement)]);
    ui.handle_key_press(KeyInput::Left, false, 3);
    assert_eq!(ui.controls().param_focus_index(), 1);
    ui.handle_key_press(KeyInput::Esc, false, 3);
    assert!(!ui.controls().is_editing());
    assert_eq!(ui.controls().param_focus_index(), 0);
}
