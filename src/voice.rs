//! Voices: the command that a trigger produces, and a voice's place in its
//! lifetime once it sounds. All times are counted in samples.

use vstd::prelude::*;

verus! {

/// How long a plucked voice sounds, in seconds.
pub const PLUCK_SECONDS: u64 = 5;

/// A plucked voice fades in over one fiftieth of a second (20 ms).
pub const FADE_IN_DIVISOR: u64 = 50;

/// A plucked voice fades out over one fifth of a second (200 ms).
pub const FADE_OUT_DIVISOR: u64 = 5;

/// What is needed to start one voice.
#[derive(Clone, Copy, Debug, PartialEq, Eq, Structural)]
pub struct VoiceCommand {
    /// Pitch in hundredths of a semitone (note number 69 is 6900).
    pub pitch_cents: i32,
    /// Seed of the voice's noise source.
    pub seed: u64,
    /// Samples of silence after admission before the voice starts.
    pub start_offset: u64,
    /// Samples from admission until the voice is over and removed.
    pub duration: u64,
    /// Samples over which the level rises from nothing to full.
    pub fade_in: u64,
    /// Samples before the end over which the level falls back to nothing.
    pub fade_out: u64,
}

impl VoiceCommand {
    /// A command can be admitted only if it lasts at least one sample.
    pub open spec fn valid(self) -> bool {
        self.duration > 0
    }

    /// The command of a pluck at `sample_rate`.
    pub open spec fn pluck_spec(pitch_cents: i32, seed: u64, sample_rate: u32) -> VoiceCommand {
        VoiceCommand {
            pitch_cents,
            seed,
            start_offset: 0,
            duration: (PLUCK_SECONDS * sample_rate) as u64,
            fade_in: (sample_rate as int / FADE_IN_DIVISOR as int) as u64,
            fade_out: (sample_rate as int / FADE_OUT_DIVISOR as int) as u64,
        }
    }

    /// The command of a pluck: it starts at once, lasts five seconds, fades
    /// in over 20 ms and out over 200 ms.
    pub fn pluck(pitch_cents: i32, seed: u64, sample_rate: u32) -> (r: VoiceCommand)
        requires
            sample_rate > 0,
        ensures
            r == Self::pluck_spec(pitch_cents, seed, sample_rate),
            r.valid(),
    {
        let rate: u64 = sample_rate as u64;
        VoiceCommand {
            pitch_cents,
            seed,
            start_offset: 0,
            duration: PLUCK_SECONDS * rate,
            fade_in: rate / FADE_IN_DIVISOR,
            fade_out: rate / FADE_OUT_DIVISOR,
        }
    }
}

/// Progress through a fade: `pos` samples of `len`. A fade of length zero
/// stands for a level that is already full.
#[derive(Clone, Copy, Debug, PartialEq, Eq, Structural)]
pub struct Ramp {
    pub pos: u64,
    pub len: u64,
}

/// A voice in the live set.
#[derive(Clone, Copy, Debug, PartialEq, Eq, Structural)]
pub struct LiveVoice {
    /// Serial number given at admission, in admission order.
    pub id: u64,
    pub command: VoiceCommand,
    /// Samples rendered since admission.
    pub elapsed: u64,
}

impl LiveVoice {
    /// The voice after one more sample.
    pub open spec fn aged(self) -> LiveVoice {
        LiveVoice { elapsed: (self.elapsed + 1) as u64, ..self }
    }

    /// The voice still sounds after one more sample.
    pub open spec fn survives_tick(self) -> bool {
        self.elapsed + 1 < self.command.duration
    }

    /// The voice has passed its start offset.
    pub open spec fn started(self) -> bool {
        self.elapsed >= self.command.start_offset
    }

    pub open spec fn fade_in_spec(self) -> Ramp {
        let pos = if !self.started() {
            0
        } else if self.elapsed - self.command.start_offset < self.command.fade_in {
            self.elapsed - self.command.start_offset
        } else {
            self.command.fade_in as int
        };
        Ramp { pos: pos as u64, len: self.command.fade_in }
    }

    pub open spec fn fade_out_spec(self) -> Ramp {
        let left = if self.elapsed >= self.command.duration {
            0
        } else if self.command.duration - self.elapsed < self.command.fade_out {
            self.command.duration - self.elapsed
        } else {
            self.command.fade_out as int
        };
        Ramp { pos: left as u64, len: self.command.fade_out }
    }

    /// Whether the voice contributes to the mix: before its start offset it
    /// is silent.
    pub fn is_started(&self) -> (r: bool)
        ensures
            r == self.started(),
    {
        self.elapsed >= self.command.start_offset
    }

    /// How far the fade-in has gone: the samples since the start, at most
    /// the fade's length, and none before the start.
    pub fn fade_in_ramp(&self) -> (r: Ramp)
        ensures
            r == self.fade_in_spec(),
            r.pos <= r.len,
    {
        let pos: u64 = if self.elapsed < self.command.start_offset {
            0
        } else if self.elapsed - self.command.start_offset < self.command.fade_in {
            self.elapsed - self.command.start_offset
        } else {
            self.command.fade_in
        };
        Ramp { pos, len: self.command.fade_in }
    }

    /// How much of the fade-out is left: the samples until the end, at most
    /// the fade's length, and none once the duration is reached.
    pub fn fade_out_ramp(&self) -> (r: Ramp)
        ensures
            r == self.fade_out_spec(),
            r.pos <= r.len,
    {
        let left: u64 = if self.elapsed >= self.command.duration {
            0
        } else if self.command.duration - self.elapsed < self.command.fade_out {
            self.command.duration - self.elapsed
        } else {
            self.command.fade_out
        };
        Ramp { pos: left, len: self.command.fade_out }
    }
}

} // verus!
