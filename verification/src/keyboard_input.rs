use crate::ui::{KeyInput, spec_note_for_key};
use vstd::prelude::*;

verus! {

/// The pitch of each key of the command-line keyboard, in semitones from A440
/// (`e`), from the F below (`q`) to the C an octave and a third above (`]`).
pub open spec fn spec_semitones_for_key(code: KeyInput) -> Option<i32> {
    match code {
        KeyInput::Char(c) => if c == 'q' {
            Some(-4i32)
        } else if c == '2' {
            Some(-3i32)
        } else if c == 'w' {
            Some(-2i32)
        } else if c == '3' {
            Some(-1i32)
        } else if c == 'e' {
            Some(0i32)
        } else if c == '4' {
            Some(1i32)
        } else if c == 'r' {
            Some(2i32)
        } else if c == 't' {
            Some(3i32)
        } else if c == '6' {
            Some(4i32)
        } else if c == 'y' {
            Some(5i32)
        } else if c == '7' {
            Some(6i32)
        } else if c == 'u' {
            Some(7i32)
        } else if c == 'i' {
            Some(8i32)
        } else if c == '9' {
            Some(9i32)
        } else if c == 'o' {
            Some(10i32)
        } else if c == '0' {
            Some(11i32)
        } else if c == 'p' {
            Some(12i32)
        } else if c == '-' {
            Some(13i32)
        } else if c == '[' {
            Some(14i32)
        } else if c == ']' {
            Some(15i32)
        } else {
            None
        },
        _ => None,
    }
}

/// The pitch, in semitones from A440, that a key of the command-line keyboard
/// plays; `None` for the other keys, which play nothing.
pub fn semitones_for_key(code: KeyInput) -> (semitones: Option<i32>)
    ensures
        semitones == spec_semitones_for_key(code),
{
    match code {
        KeyInput::Char('q') => Some(-4),  // F
        KeyInput::Char('2') => Some(-3),
        KeyInput::Char('w') => Some(-2),  // G
        KeyInput::Char('3') => Some(-1),
        KeyInput::Char('e') => Some(0),  // A
        KeyInput::Char('4') => Some(1),
        KeyInput::Char('r') => Some(2),  // B
        KeyInput::Char('t') => Some(3),  // C
        KeyInput::Char('6') => Some(4),
        KeyInput::Char('y') => Some(5),  // D
        KeyInput::Char('7') => Some(6),
        KeyInput::Char('u') => Some(7),  // E
        KeyInput::Char('i') => Some(8),  // F
        KeyInput::Char('9') => Some(9),
        KeyInput::Char('o') => Some(10),  // G
        KeyInput::Char('0') => Some(11),
        KeyInput::Char('p') => Some(12),  // A
        KeyInput::Char('-') => Some(13),
        KeyInput::Char('[') => Some(14),  // B
        KeyInput::Char(']') => Some(15),  // C
        _ => None,
    }
}

/// The command-line keyboard and the on-screen keyboard agree: the same keys play,
/// each at its MIDI note's distance from A440 (note 57).
pub proof fn law_keyboards_agree(code: KeyInput)
    ensures
        spec_semitones_for_key(code) is Some <==> spec_note_for_key(code) is Some,
        spec_note_for_key(code) is Some ==> spec_semitones_for_key(code)->0 == spec_note_for_key(
            code,
        )->0 - 57,
{
}

} // verus!
