//! Transport state: the playback position in frames, seek recomputation,
//! and the end-of-stream condition.

use vstd::prelude::*;

verus! {

/// Length descriptor of a playback session: a known total in whole seconds
/// for files and VODs, or `Live` for an unbounded stream.
#[derive(Clone, Copy, Debug, PartialEq, Eq, Structural)]
pub enum DurationType {
    Fixed(u64),
    Live,
}

/// Direction of a user seek; every seek moves by five seconds.
#[derive(Clone, Copy, Debug, PartialEq, Eq, Structural)]
pub enum SeekDirection {
    Forward,
    Backward,
}

/// Seconds jumped per seek key press.
pub const SEEK_STEP_SECONDS: u64 = 5;

/// The playback position after a seek, in frames: five seconds' worth of
/// frames forward or backward from `frames_seen`, clamped so the position
/// never goes below zero.
pub open spec fn seek_frames_spec(frames_seen: u64, fps: u64, direction: SeekDirection) -> int {
    match direction {
        SeekDirection::Forward => frames_seen + 5 * fps,
        SeekDirection::Backward => if frames_seen >= 5 * fps {
            frames_seen - 5 * fps
        } else {
            0
        },
    }
}

/// The absolute position asked of the decoder on a seek, in milliseconds:
/// the current position plus or minus five seconds, clamped to at least
/// zero. The current position in milliseconds is `frames_seen * 1000 / fps`.
pub open spec fn seek_millis_spec(frames_seen: u64, fps: u64, direction: SeekDirection) -> int {
    let current_millis = (frames_seen as int) * 1000 / (fps as int);
    match direction {
        SeekDirection::Forward => current_millis + 5000,
        SeekDirection::Backward => if current_millis >= 5000 {
            current_millis - 5000
        } else {
            0
        },
    }
}

/// Whether a session of known length is over: the remaining time
/// `duration - frames_seen / fps` has dropped under a twentieth of a second.
/// Stated over integers by scaling both sides by `20 * fps`.
pub open spec fn stream_finished(duration_secs: u64, frames_seen: u64, fps: u64) -> bool {
    20 * duration_secs * fps < 20 * frames_seen + fps
}

/// Playback position bookkeeping for one session. The render task owns the
/// transport; the input task only sends it seek intents.
pub struct Transport {
    /// Frames painted since the session began, adjusted on seeks.
    pub frames_seen: u64,
    /// Source frames per second; always at least 1.
    pub fps: u64,
    /// Whether the source is a live stream, on which seeking is inert.
    pub live: bool,
}

impl Transport {
    /// A transport is only meaningful with a positive frame rate, and with a
    /// position that leaves room for the arithmetic of seeks and timecodes.
    pub open spec fn wf(self) -> bool {
        &&& 1 <= self.fps <= 1_000_000
        &&& self.frames_seen <= 0x20_0000_0000_0000
    }

    /// Starts a session at position zero.
    pub fn new(fps: u64, live: bool) -> (t: Transport)
        requires
            1 <= fps <= 1_000_000,
        ensures
            t.wf(),
            t.frames_seen == 0,
            t.fps == fps,
            t.live == live,
    {
        Transport { frames_seen: 0, fps, live }
    }

    /// Records one painted frame: the position advances by exactly one.
    pub fn on_frame_painted(&mut self)
        requires
            old(self).wf(),
            old(self).frames_seen < 0x20_0000_0000_0000,
        ensures
            final(self).wf(),
            final(self).frames_seen == old(self).frames_seen + 1,
            final(self).fps == old(self).fps,
            final(self).live == old(self).live,
    {
        self.frames_seen = self.frames_seen + 1;
    }

    /// The playback position in whole seconds.
    pub fn current_time_secs(&self) -> (t: u64)
        requires
            self.wf(),
        ensures
            t == self.frames_seen / self.fps,
    {
        self.frames_seen / self.fps
    }

    /// Applies a seek intent. On a live stream nothing changes and nothing
    /// is returned; otherwise the position moves five seconds in the given
    /// direction (clamped to zero going backward) and the absolute target in
    /// milliseconds, clamped the same way, is returned for the decoder.
    pub fn seek(&mut self, direction: SeekDirection) -> (target_millis: Option<i64>)
        requires
            old(self).wf(),
            old(self).frames_seen + 5 * old(self).fps <= 0x20_0000_0000_0000,
        ensures
            final(self).wf(),
            final(self).fps == old(self).fps,
            final(self).live == old(self).live,
            old(self).live ==> final(self).frames_seen == old(self).frames_seen
                && target_millis is None,
            !old(self).live ==> {
                &&& final(self).frames_seen
                    == seek_frames_spec(old(self).frames_seen, old(self).fps, direction)
                &&& target_millis matches Some(m)
                    && m == seek_millis_spec(old(self).frames_seen, old(self).fps, direction)
            },
    {
        if self.live {
            return None;
        }
        let step_frames: u64 = SEEK_STEP_SECONDS * self.fps;
        let current_millis: u64 = (self.frames_seen * 1000) / self.fps;
        match direction {
            SeekDirection::Forward => {
                self.frames_seen = self.frames_seen + step_frames;
                Some((current_millis + 5000) as i64)
            }
            SeekDirection::Backward => {
                self.frames_seen = if self.frames_seen >= step_frames {
                    self.frames_seen - step_frames
                } else {
                    0
                };
                let target: u64 = if current_millis >= 5000 {
                    current_millis - 5000
                } else {
                    0
                };
                Some(target as i64)
            }
        }
    }

    /// Whether the session has reached its end: never for a live stream,
    /// and for a fixed duration once less than a twentieth of a second
    /// remains.
    pub fn finished(&self, duration: DurationType) -> (done: bool)
        requires
            self.wf(),
        ensures
            done == match duration {
                DurationType::Fixed(total) => stream_finished(total, self.frames_seen, self.fps),
                DurationType::Live => false,
            },
    {
        match duration {
            DurationType::Fixed(total) => {
                proof {
                    assert(0 <= 20 * (total as int) * (self.fps as int)
                        <= 20 * 0xffff_ffff_ffff_ffff * 1_000_000) by (nonlinear_arith)
                        requires total <= 0xffff_ffff_ffff_ffff && 0 <= self.fps <= 1_000_000;
                }
                let lhs: u128 = 20 * (total as u128) * (self.fps as u128);
                let rhs: u128 = 20 * (self.frames_seen as u128) + self.fps as u128;
                lhs < rhs
            }
            DurationType::Live => false,
        }
    }
}

} // verus!
