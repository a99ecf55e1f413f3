use vstd::prelude::*;

verus! {

/// Where an amplitude envelope stands: how many samples of the current stage have
/// passed, whether it is releasing, and whether its last release has finished.
#[derive(Clone, Copy, Debug, PartialEq, Eq, Structural)]
pub struct EnvelopeProgress {
    pub elapsed_samples: usize,
    pub should_release: bool,
    pub release_complete: bool,
}

/// Which amplitude an envelope puts out for a sample: an entry of the
/// attack-decay table, an entry of the release table, the amplitude it put out
/// last, or silence.
#[derive(Clone, Copy, Debug, PartialEq, Eq, Structural)]
pub enum AmpSource {
    AttackDecay(usize),
    Release(usize),
    Hold,
    Silence,
}

impl EnvelopeProgress {
    /// One sample on, with tables of the given lengths: a release walks its table
    /// and then completes with silence; otherwise the attack and decay walk their
    /// table and the amplitude holds at the sustain level after it.
    pub open spec fn stepped(self, attack_decay_len: nat, release_len: nat) -> (
        EnvelopeProgress,
        AmpSource,
    ) {
        if self.should_release {
            if self.elapsed_samples < release_len {
                (
                    EnvelopeProgress { elapsed_samples: (self.elapsed_samples + 1) as usize, ..self },
                    AmpSource::Release(self.elapsed_samples),
                )
            } else {
                (
                    EnvelopeProgress {
                        elapsed_samples: 0,
                        should_release: false,
                        release_complete: true,
                    },
                    AmpSource::Silence,
                )
            }
        } else if self.elapsed_samples < attack_decay_len {
            (
                EnvelopeProgress {
                    elapsed_samples: (self.elapsed_samples + 1) as usize,
                    release_complete: false,
                    ..self
                },
                AmpSource::AttackDecay(self.elapsed_samples),
            )
        } else {
            (
                EnvelopeProgress { elapsed_samples: (self.elapsed_samples + 1) as usize, ..self },
                AmpSource::Hold,
            )
        }
    }

    /// The progress after `count` samples.
    pub open spec fn run(self, attack_decay_len: nat, release_len: nat, count: nat) -> EnvelopeProgress
        decreases count,
    {
        if count == 0 {
            self
        } else {
            self.stepped(attack_decay_len, release_len).0.run(
                attack_decay_len,
                release_len,
                (count - 1) as nat,
            )
        }
    }

    /// An envelope that has not started: silent, with no release pending.
    pub fn new() -> (progress: Self)
        ensures
            progress == (EnvelopeProgress {
                elapsed_samples: 0,
                should_release: false,
                release_complete: true,
            }),
    {
        EnvelopeProgress { elapsed_samples: 0, should_release: false, release_complete: true }
    }

    /// Starts the release from the beginning of its table.
    pub fn set_should_release(&mut self)
        ensures
            *final(self) == (EnvelopeProgress {
                elapsed_samples: 0,
                should_release: true,
                ..*old(self)
            }),
    {
        self.elapsed_samples = 0;
        self.should_release = true;
    }

    pub fn get_releasing(&self) -> (releasing: bool)
        ensures
            releasing == self.should_release,
    {
        self.should_release
    }

    pub fn get_release_complete(&self) -> (complete: bool)
        ensures
            complete == self.release_complete,
    {
        self.release_complete
    }

    /// Advances one sample with tables of the given lengths, and says which
    /// amplitude to put out.
    pub fn next(&mut self, attack_decay_len: usize, release_len: usize) -> (source: AmpSource)
        requires
            old(self).elapsed_samples < usize::MAX || (old(self).should_release
                && old(self).elapsed_samples >= release_len),
        ensures
            *final(self) == old(self).stepped(attack_decay_len as nat, release_len as nat).0,
            source == old(self).stepped(attack_decay_len as nat, release_len as nat).1,
    {
        if self.should_release {
            if self.elapsed_samples < release_len {
                let i = self.elapsed_samples;
                self.elapsed_samples += 1;
                AmpSource::Release(i)
            } else {
                self.elapsed_samples = 0;
                self.should_release = false;
                self.release_complete = true;
                AmpSource::Silence
            }
        } else if self.elapsed_samples < attack_decay_len {
            self.release_complete = false;
            let i = self.elapsed_samples;
            self.elapsed_samples += 1;
            AmpSource::AttackDecay(i)
        } else {
            self.elapsed_samples += 1;
            AmpSource::Hold
        }
    }
}

/// A release that has begun plays the rest of its table, one entry per sample,
/// and then completes: the envelope is silent and no longer releasing.
pub proof fn law_release_completes(p: EnvelopeProgress, attack_decay_len: nat, release_len: nat)
    requires
        p.should_release,
        p.elapsed_samples <= release_len,
        release_len < usize::MAX,
    ensures
        p.run(attack_decay_len, release_len, (release_len - p.elapsed_samples + 1) as nat) == (
        EnvelopeProgress { elapsed_samples: 0, should_release: false, release_complete: true }),
    decreases release_len - p.elapsed_samples,
{
    if p.elapsed_samples < release_len {
        let q = p.stepped(attack_decay_len, release_len).0;
        law_release_completes(q, attack_decay_len, release_len);
        assert((release_len - p.elapsed_samples + 1) as nat - 1 == (release_len - q.elapsed_samples
            + 1) as nat);
    } else {
        let q = p.stepped(attack_decay_len, release_len).0;
        assert(q.run(attack_decay_len, release_len, 0) == q);
    }
}

/// A started release puts out the release table from its first entry.
pub proof fn law_release_starts_at_table_start(p: EnvelopeProgress, attack_decay_len: nat, release_len: nat)
    requires
        release_len > 0,
    ensures
        (EnvelopeProgress { elapsed_samples: 0, should_release: true, ..p }).stepped(
            attack_decay_len,
            release_len,
        ).1 == AmpSource::Release(0),
{
}

/// How a voice is rendered for one sample.
#[derive(Clone, Copy, Debug, PartialEq, Eq, Structural)]
pub enum VoiceRender {
    /// The note is on: the voice plays.
    Play,
    /// The note is off but its release has not started: start it, then play.
    ReleaseAndPlay,
    /// The note is off and still releasing: the voice plays its release.
    PlayRelease,
    /// The voice is silent.
    Silent,
}

/// Decides how a voice is rendered, from whether its note is on and where its
/// envelope stands.
pub fn voice_render(on: bool, releasing: bool, release_complete: bool) -> (render: VoiceRender)
    ensures
        on ==> render == VoiceRender::Play,
        !on && !release_complete && !releasing ==> render == VoiceRender::ReleaseAndPlay,
        !on && !release_complete && releasing ==> render == VoiceRender::PlayRelease,
        !on && release_complete ==> render == VoiceRender::Silent,
{
    if on {
        VoiceRender::Play
    } else if !release_complete {
        if !releasing {
            VoiceRender::ReleaseAndPlay
        } else {
            VoiceRender::PlayRelease
        }
    } else {
        VoiceRender::Silent
    }
}

} // verus!
