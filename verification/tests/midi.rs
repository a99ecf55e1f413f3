use synth_sim::keyboard_input::semitones_for_key;
use synth_sim::midi::{
    dispatch_midi_message, message_from_bytes, port_prompt_needed, select_midi_port, MidiEvent,
    MidiMessage, MidiPortError,
};
use synth_sim::ui::{KeyInput, UiAction, UI};

#[test]
fn midi_messages_dispatch() {
    assert_eq!(dispatch_midi_message(MidiMessage(144, 60, 100)), MidiEvent::NoteOn(60));
    assert_eq!(dispatch_midi_message(MidiMessage(144, 60, 0)), MidiEvent::NoteOff(60));
    assert_eq!(dispatch_midi_message(MidiMessage(128, 61, 64)), MidiEvent::NoteOff(61));
    assert_eq!(
        dispatch_midi_message(MidiMessage(224, 0, 64)),
        MidiEvent::PitchBend(MidiMessage(224, 0, 64))
    );
    assert_eq!(
        dispatch_midi_message(MidiMessage(176, 1, 2)),
        MidiEvent::Unsupported(MidiMessage(176, 1, 2))
    );
    // a Note On on another channel is not a Note On of channel 1
    assert_eq!(
        dispatch_midi_message(MidiMessage(145, 60, 100)),
        MidiEvent::Unsupported(MidiMessage(145, 60, 100))
    );
}

#[test]
fn midi_bytes_to_message() {
    assert_eq!(message_from_bytes(&[]), None);
    assert_eq!(message_from_bytes(&[144, 60]), None);
    assert_eq!(message_from_bytes(&[144, 60, 100]), Some(MidiMessage(144, 60, 100)));
    assert_eq!(message_from_bytes(&[128, 60, 0, 7]), Some(MidiMessage(128, 60, 0)));
}

#[test]
fn midi_port_selection() {
    assert!(!port_prompt_needed(0));
    assert!(!port_prompt_needed(1));
    assert!(port_prompt_needed(2));
    assert_eq!(select_midi_port(0, 0), Err(MidiPortError::NoPortFound));
    assert_eq!(select_midi_port(1, 5), Ok(0));
    assert_eq!(select_midi_port(3, 2), Ok(2));
    assert_eq!(select_midi_port(3, 3), Err(MidiPortError::InvalidPortSelected));
}

#[test]
fn command_line_keyboard_pitches() {
    assert_eq!(semitones_for_key(KeyInput::Char('e')), Some(0));
    assert_eq!(semitones_for_key(KeyInput::Char('q')), Some(-4));
    assert_eq!(semitones_for_key(KeyInput::Char('r')), Some(2));
    assert_eq!(semitones_for_key(KeyInput::Char('t')), Some(3));
    assert_eq!(semitones_for_key(KeyInput::Char('p')), Some(12));
    assert_eq!(semitones_for_key(KeyInput::Char(']')), Some(15));
    assert_eq!(semitones_for_key(KeyInput::Char('z')), None);
    assert_eq!(semitones_for_key(KeyInput::Esc), None);
}

#[test]
fn keyboard_messages_read_back_as_notes() {
    let mut ui = UI::new();
    let actions = ui.handle_key_press(KeyInput::Char('t'), false, 1);
    assert_eq!(actions.len(), 1);
    match actions[0] {
        UiAction::SendMidi(m) => assert_eq!(dispatch_midi_message(m), MidiEvent::NoteOn(60)),
        _ => panic!("a note key sends MIDI"),
    }
    let off = ui.handle_key_release(KeyInput::Char('t')).unwrap();
    assert_eq!(dispatch_midi_message(off), MidiEvent::NoteOff(60));
}
