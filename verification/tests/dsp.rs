use synth_sim::effects::{advance_write_index, delay_read_index};
use synth_sim::envelope::{voice_render, AmpSource, EnvelopeProgress, VoiceRender};
use synth_sim::parameter::{route_parameter, ParameterTarget};

#[test]
fn envelope_attack_decay_then_hold() {
    let mut e = EnvelopeProgress::new();
    assert!(e.get_release_complete());
    assert!(!e.get_releasing());
    assert_eq!(e.next(3, 2), AmpSource::AttackDecay(0));
    assert!(!e.get_release_complete());
    assert_eq!(e.next(3, 2), AmpSource::AttackDecay(1));
    assert_eq!(e.next(3, 2), AmpSource::AttackDecay(2));
    assert_eq!(e.next(3, 2), AmpSource::Hold);
    assert_eq!(e.next(3, 2), AmpSource::Hold);
}

#[test]
fn envelope_release_runs_then_completes() {
    let mut e = EnvelopeProgress::new();
    e.next(3, 2);
    e.set_should_release();
    assert!(e.get_releasing());
    assert_eq!(e.next(3, 2), AmpSource::Release(0));
    assert_eq!(e.next(3, 2), AmpSource::Release(1));
    assert_eq!(e.next(3, 2), AmpSource::Silence);
    assert!(!e.get_releasing());
    assert!(e.get_release_complete());
    assert_eq!(e.elapsed_samples, 0);
    // a new note starts the attack again
    assert_eq!(e.next(3, 2), AmpSource::AttackDecay(0));
}

#[test]
fn voice_render_decisions() {
    assert_eq!(voice_render(true, false, true), VoiceRender::Play);
    assert_eq!(voice_render(false, false, false), VoiceRender::ReleaseAndPlay);
    assert_eq!(voice_render(false, true, false), VoiceRender::PlayRelease);
    assert_eq!(voice_render(false, false, true), VoiceRender::Silent);
}

#[test]
fn delay_line_indices() {
    assert_eq!(delay_read_index(0, 10, 3), 7);
    assert_eq!(delay_read_index(5, 10, 3), 2);
    // delays longer than the buffer are clamped to its length minus one
    assert_eq!(delay_read_index(5, 10, 20), 6);
    assert_eq!(delay_read_index(4, 10, 0), 4);
    assert_eq!(advance_write_index(3, 10), 4);
    assert_eq!(advance_write_index(9, 10), 0);
}

#[test]
fn fm_parameter_routing() {
    assert_eq!(route_parameter(0, 5), ParameterTarget::CarrierRatio);
    assert_eq!(route_parameter(1, 5), ParameterTarget::ModulatorRatio);
    assert_eq!(route_parameter(2, 5), ParameterTarget::ModIndex);
    assert_eq!(route_parameter(3, 5), ParameterTarget::LfoAmp);
    assert_eq!(route_parameter(4, 5), ParameterTarget::LfoFreq);
    assert_eq!(route_parameter(5, 5), ParameterTarget::Envelope(0));
    assert_eq!(route_parameter(8, 5), ParameterTarget::Envelope(3));
    assert_eq!(route_parameter(5, 7), ParameterTarget::Unassigned);
}

#[test]
fn write_index_walks_the_whole_ring() {
    let len = 7;
    let mut w = 3;
    let mut seen = vec![false; len];
    for _ in 0..len {
        seen[w] = true;
        w = advance_write_index(w, len);
    }
    assert_eq!(w, 3);
    assert!(seen.iter().all(|s| *s));
    // reading trails writing by the delay
    for d in 0..12 {
        let r = delay_read_index(w, len, d);
        assert_eq!((r + d.min(len - 1)) % len, w);
    }
}
