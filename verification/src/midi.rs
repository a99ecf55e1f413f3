use vstd::prelude::*;

verus! {

/// The status byte of a Note Off message.
pub const NOTE_OFF: u8 = 128;

/// The status byte of a Note On message.
pub const NOTE_ON: u8 = 144;

/// The status byte of a Pitch Bend message.
pub const PITCH_BEND: u8 = 224;

/// A three-byte MIDI channel message: status, first and second data byte.
#[derive(Clone, Copy, Debug, PartialEq, Eq, Structural)]
pub struct MidiMessage(pub u8, pub u8, pub u8);

/// What the synthesizer does with a MIDI message.
#[derive(Clone, Copy, Debug, PartialEq, Eq, Structural)]
pub enum MidiEvent {
    NoteOn(u8),
    NoteOff(u8),
    PitchBend(MidiMessage),
    Unsupported(MidiMessage),
}

/// How a message is handled: Note Off, and Note On with velocity 0, stop the
/// note; Note On starts it; Pitch Bend bends; anything else is not supported.
pub open spec fn spec_midi_event(message: MidiMessage) -> MidiEvent {
    if message.0 == NOTE_OFF {
        MidiEvent::NoteOff(message.1)
    } else if message.0 == NOTE_ON {
        if message.2 == 0 {
            MidiEvent::NoteOff(message.1)
        } else {
            MidiEvent::NoteOn(message.1)
        }
    } else if message.0 == PITCH_BEND {
        MidiEvent::PitchBend(message)
    } else {
        MidiEvent::Unsupported(message)
    }
}

/// Decides what a received MIDI message asks of the synthesizer.
pub fn dispatch_midi_message(message: MidiMessage) -> (event: MidiEvent)
    ensures
        event == spec_midi_event(message),
{
    match message.0 {
        128 => MidiEvent::NoteOff(message.1),
        144 => match message.2 {
            0 => MidiEvent::NoteOff(message.1),
            _ => MidiEvent::NoteOn(message.1),
        },
        224 => MidiEvent::PitchBend(message),
        _ => MidiEvent::Unsupported(message),
    }
}

/// The message that raw input bytes carry: their first three bytes, or `None`
/// when fewer than three arrived.
pub fn message_from_bytes(bytes: &[u8]) -> (message: Option<MidiMessage>)
    ensures
        bytes@.len() < 3 ==> message is None,
        bytes@.len() >= 3 ==> message == Some(MidiMessage(bytes@[0], bytes@[1], bytes@[2])),
{
    if bytes.len() < 3 {
        return None;
    }
    Some(MidiMessage(bytes[0], bytes[1], bytes[2]))
}

/// A Note On for `note` as the on-screen keyboard sends it.
pub open spec fn note_on_message(note: u8) -> MidiMessage {
    MidiMessage(NOTE_ON, note, 100)
}

/// A Note Off for `note` as the on-screen keyboard sends it.
pub open spec fn note_off_message(note: u8) -> MidiMessage {
    MidiMessage(NOTE_OFF, note, 0)
}

/// The messages the on-screen keyboard sends are read back as the same notes.
pub proof fn law_keyboard_messages_round_trip(note: u8)
    ensures
        spec_midi_event(note_on_message(note)) == MidiEvent::NoteOn(note),
        spec_midi_event(note_off_message(note)) == MidiEvent::NoteOff(note),
{
}

/// A Note On (status 144) starts its note at any nonzero velocity, and only at
/// velocity 0 stops it; a Note Off (status 128) stops its note at any velocity;
/// a Pitch Bend (status 224) is passed on whole; any other status, other
/// channels included, is not supported.
pub proof fn law_midi_dispatch(status: u8, note: u8, velocity: u8)
    ensures
        velocity != 0 ==> spec_midi_event(MidiMessage(144, note, velocity)) == MidiEvent::NoteOn(
            note,
        ),
        spec_midi_event(MidiMessage(144, note, 0)) == MidiEvent::NoteOff(note),
        spec_midi_event(MidiMessage(128, note, velocity)) == MidiEvent::NoteOff(note),
        spec_midi_event(MidiMessage(224, note, velocity)) == MidiEvent::PitchBend(
            MidiMessage(224, note, velocity),
        ),
        status != 128 && status != 144 && status != 224 ==> spec_midi_event(
            MidiMessage(status, note, velocity),
        ) == MidiEvent::Unsupported(MidiMessage(status, note, velocity)),
{
}

/// Why no MIDI input port could be chosen.
#[derive(Clone, Copy, Debug, PartialEq, Eq, Structural)]
pub enum MidiPortError {
    NoPortFound,
    InvalidPortSelected,
}

/// Whether the user must be asked to pick a port among `port_count` ports.
pub fn port_prompt_needed(port_count: usize) -> (ask: bool)
    ensures
        ask == (port_count > 1),
{
    port_count > 1
}

/// The port to read MIDI from among `port_count` ports: none to choose from is an
/// error, a single port is taken, and among several the user's answer must name
/// one of them.
pub fn select_midi_port(port_count: usize, answer: usize) -> (port: Result<usize, MidiPortError>)
    ensures
        port_count == 0 ==> port == Err::<usize, MidiPortError>(MidiPortError::NoPortFound),
        port_count == 1 ==> port == Ok::<usize, MidiPortError>(0),
        port_count > 1 && answer < port_count ==> port == Ok::<usize, MidiPortError>(answer),
        port_count > 1 && answer >= port_count ==> port == Err::<usize, MidiPortError>(
            MidiPortError::InvalidPortSelected,
        ),
{
    match port_count {
        0 => Err(MidiPortError::NoPortFound),
        1 => Ok(0),
        _ => {
            if answer < port_count {
                Ok(answer)
            } else {
                Err(MidiPortError::InvalidPortSelected)
            }
        },
    }
}

} // verus!
