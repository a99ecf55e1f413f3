//! Core logic of a desktop simulator for a polyphonic FM synthesizer:
//! voice allocation, control navigation, key handling, MIDI decoding and
//! the bounded event log.

pub mod voices;
pub mod ui;
pub mod midi;
pub mod oscillator;
pub mod parameter;
pub mod controls;
pub mod log;
pub mod envelope;
pub mod effects;
pub mod keyboard_input;
