//! The alarm: a siren made of a loud tone and a near-silent one that take
//! turns, and the flag by which a running alarm is told to stop.
//!
//! The tones themselves are made by the host's audio library. This module
//! decides, sample by sample, which of the two is heard, and says what the
//! playback task has to do.

use crate::time::{Duration, TimeDelta};
use vstd::prelude::*;

verus! {

/// Samples per second of the alarm signal.
pub const SAMPLE_RATE: u32 = 48_000;

/// Channels of the alarm signal.
pub const CHANNELS: u16 = 1;

/// Parts into which one round of the siren is cut.
pub const PHASES: usize = 8;

/// Samples per part of the siren as the alarm plays it.
pub const SWITCH_RATE: usize = 10_000;

/// Pitch of the loud tone, in hertz.
pub const TONE_HERTZ: u32 = 1_220;

/// Pitch of the near-silent tone, in hertz.
pub const MUTE_HERTZ: u32 = 1;

/// Loudness of the near-silent tone, in thousandths of the full one.
pub const MUTE_GAIN_PER_MILLE: u32 = 1;

/// Milliseconds that the playback task waits after it has opened the audio
/// output, and between two looks at the stop flag.
pub const POLL_MILLIS: u64 = 100;

/// The part of the siren in which sample number `num_sample` lies.
pub open spec fn phase(num_sample: nat, rate: nat) -> nat {
    (num_sample / rate) % (PHASES as nat)
}

/// The generator that gives sample number `num_sample`: 0, the loud one, in
/// the first part of a round and in the seventh, and 1, the near-silent one,
/// in the others.
pub open spec fn source_index(num_sample: nat, rate: nat) -> nat {
    if phase(num_sample, rate) == 0 || phase(num_sample, rate) == 6 {
        0
    } else {
        1
    }
}

/// The samples in one round of the siren.
pub open spec fn round_len(rate: nat) -> nat {
    (PHASES as nat) * rate
}

/// One round of the siren later the same part comes again, and with it the
/// same generator.
pub proof fn lemma_phase_repeats(num_sample: nat, rate: nat)
    requires
        rate > 0,
    ensures
        phase(num_sample + round_len(rate), rate) == phase(num_sample, rate),
        source_index(num_sample + round_len(rate), rate) == source_index(num_sample, rate),
{
    assert((num_sample + 8 * rate) / rate == num_sample / rate + 8) by (nonlinear_arith)
        requires
            rate > 0,
    ;
}

/// Any number of whole rounds later the same part comes again.
pub proof fn lemma_phase_is_periodic(num_sample: nat, rate: nat, rounds: nat)
    requires
        rate > 0,
    ensures
        phase(num_sample + rounds * round_len(rate), rate) == phase(num_sample, rate),
        source_index(num_sample + rounds * round_len(rate), rate) == source_index(
            num_sample,
            rate,
        ),
    decreases rounds,
{
    if rounds > 0 {
        let fewer = (rounds - 1) as nat;
        lemma_phase_is_periodic(num_sample, rate, fewer);
        lemma_phase_repeats(num_sample + fewer * round_len(rate), rate);
        assert(rounds * round_len(rate) == fewer * round_len(rate) + round_len(rate))
            by (nonlinear_arith)
            requires
                rounds == fewer + 1,
        ;
    }
}

/// The switch between the two tone generators.
#[derive(Debug, Clone, Copy, PartialEq, Eq)]
pub struct AlarmSource {
    /// Samples per part of the siren.
    pub rate: usize,
    /// Samples drawn so far.
    pub num_sample: usize,
}

impl AlarmSource {
    /// A part of the siren holds at least one sample.
    pub open spec fn wf(self) -> bool {
        self.rate > 0
    }

    /// Decides `wf` at run time.
    pub fn is_valid(&self) -> (valid: bool)
        ensures
            valid == self.wf(),
    {
        self.rate > 0
    }

    /// A switch with `rate` samples per part, before its first sample.
    pub fn new(rate: usize) -> (source: AlarmSource)
        requires
            rate > 0,
        ensures
            source == (AlarmSource { rate, num_sample: 0 }),
            source.wf(),
    {
        AlarmSource { rate, num_sample: 0 }
    }

    /// The generator that gives the next sample.
    pub fn get_current_source_index(&self) -> (index: usize)
        requires
            self.wf(),
        ensures
            index == source_index(self.num_sample as nat, self.rate as nat),
            index == 0 || index == 1,
    {
        let eighth = self.num_sample / self.rate % PHASES;
        if eighth == 0 || eighth == 6 {
            0
        } else {
            1
        }
    }

    /// Moves on by one sample and says which generator gives it. The count
    /// goes up whichever generator that is.
    pub fn next(&mut self) -> (index: usize)
        requires
            old(self).wf(),
            old(self).num_sample < usize::MAX,
        ensures
            index == source_index(old(self).num_sample as nat, old(self).rate as nat),
            final(self).num_sample == old(self).num_sample + 1,
            final(self).rate == old(self).rate,
    {
        let index = self.get_current_source_index();
        self.num_sample += 1;
        index
    }

    /// The signal is not cut into frames.
    pub fn current_frame_len(&self) -> (len: Option<usize>)
        ensures
            len is None,
    {
        None
    }

    /// The signal has one channel.
    pub fn channels(&self) -> (channels: u16)
        ensures
            channels == CHANNELS,
    {
        CHANNELS
    }

    /// The signal has `SAMPLE_RATE` samples per second.
    pub fn sample_rate(&self) -> (rate: u32)
        ensures
            rate == SAMPLE_RATE,
    {
        SAMPLE_RATE
    }

    /// The signal has no end of its own: whoever plays it cuts it off.
    pub fn total_duration(&self) -> (total: Option<Duration>)
        ensures
            total is None,
    {
        None
    }
}

/// What the playback task does, in this order: open the audio output, wait
/// for `settle`, play the siren of `source` for `limit`, clear the stop flag,
/// and then look at the flag every `poll` until it is set.
#[derive(Debug, Clone, Copy, PartialEq, Eq)]
pub struct Playback {
    pub settle: Duration,
    pub source: AlarmSource,
    pub tone_hertz: u32,
    pub mute_hertz: u32,
    pub mute_gain_per_mille: u32,
    pub limit: Duration,
    pub poll: Duration,
}

/// An alarm of a fixed length and the flag that stops it. The length may
/// be any span; only one that does not run backwards can be played.
#[derive(Debug, Clone, Copy, PartialEq, Eq)]
pub struct Alarm {
    pub duration: TimeDelta,
    pub should_stop: bool,
}

impl Alarm {
    /// Whether the alarm has a length that can be played.
    pub open spec fn can_play(self) -> bool {
        self.duration@ >= 0
    }

    /// The task that plays an alarm of length `duration`.
    pub open spec fn playback(duration: Duration) -> Playback {
        Playback {
            settle: Duration { millis: POLL_MILLIS },
            source: AlarmSource { rate: SWITCH_RATE, num_sample: 0 },
            tone_hertz: TONE_HERTZ,
            mute_hertz: MUTE_HERTZ,
            mute_gain_per_mille: MUTE_GAIN_PER_MILLE,
            limit: duration,
            poll: Duration { millis: POLL_MILLIS },
        }
    }

    /// An alarm that ends by itself after `duration`. Until it plays it
    /// counts as stopped.
    pub fn new(duration: TimeDelta) -> (alarm: Alarm)
        ensures
            alarm == (Alarm { duration, should_stop: true }),
    {
        Alarm { should_stop: true, duration }
    }

    /// What a task has to do to play this alarm. The alarm itself stays as
    /// it is until the task reports with `started`; each call stands for a
    /// task of its own, whether or not an earlier one still plays.
    pub fn play(&mut self) -> (task: Playback)
        requires
            old(self).can_play(),
        ensures
            task == Self::playback(Duration { millis: old(self).duration.millis as u64 }),
            task.limit@ == old(self).duration@,
            task.source.wf(),
            *final(self) == *old(self),
    {
        let limit = self.duration.to_std().unwrap();
        Playback {
            settle: Duration::from_millis(POLL_MILLIS),
            source: AlarmSource::new(SWITCH_RATE),
            tone_hertz: TONE_HERTZ,
            mute_hertz: MUTE_HERTZ,
            mute_gain_per_mille: MUTE_GAIN_PER_MILLE,
            limit,
            poll: Duration::from_millis(POLL_MILLIS),
        }
    }

    /// The playback task has started the siren: the alarm no longer counts
    /// as stopped.
    pub fn started(&mut self)
        ensures
            *final(self) == (Alarm { should_stop: false, ..*old(self) }),
    {
        self.should_stop = false;
    }

    /// Tells the playback task to end.
    pub fn stop(&mut self)
        ensures
            *final(self) == (Alarm { should_stop: true, ..*old(self) }),
    {
        self.should_stop = true;
    }

    /// What the playback task does after a look at the flag: it ends where
    /// the flag is set, and else waits for the time returned and looks
    /// again.
    pub fn poll(&self) -> (wait: Option<Duration>)
        ensures
            wait == (if self.should_stop {
                None
            } else {
                Some(Duration { millis: POLL_MILLIS })
            }),
    {
        if self.should_stop {
            None
        } else {
            Some(Duration::from_millis(POLL_MILLIS))
        }
    }
}

} // verus!
