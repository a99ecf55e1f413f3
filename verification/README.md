# synth_sim

The logic of a desktop simulator for a polyphonic FM synthesizer, verified with
Verus, and the program around it.

- `src/` is the verified library:
  - `voices`: the voice pool that assigns notes to a fixed set of voices
    (free voices first, then the voice of the oldest note), with its laws;
  - `ui`: the navigation grid of the controls panel and the terminal
    interface's key handling (note keys, parameter editing, exit);
  - `controls`: the pages of the hardware interface and what each control
    event does on them, and the simulator keys that stand for the controls;
  - `midi`: decoding of received MIDI messages and the choice of input port;
  - `log`: the bounded event log;
  - `envelope`: the stages of an amplitude envelope and how a voice is rendered;
  - `effects`: ring-buffer positions of the delay-based effects;
  - `parameter`, `oscillator`, `keyboard_input`: parameter steps and routing,
    waveforms, and the pitches of the command-line keyboard.
- `app/` is the program: audio output, MIDI input, the simulated display and
  terminal interface, and the floating-point signal processing.
- `tests/` runs the library on concrete inputs.
