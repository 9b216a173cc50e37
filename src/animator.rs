use vstd::prelude::*;

use crate::time::Duration;

verus! {

/// Static configuration of a cyclic sprite animation: how many frames it has
/// and how long each frame stays on screen. A stopped animation is its `Data`.
#[derive(Clone, Copy, Debug, PartialEq, Eq, Structural)]
pub struct Data {
    pub frames: u32,
    pub frame_duration: Duration,
}

/// A running animation clock: the configuration plus the time accumulated
/// since it was started.
#[derive(Clone, Copy, Debug, PartialEq, Eq, Structural)]
pub struct Animator {
    pub data: Data,
    pub elapsed: Duration,
}

/// The frame shown after `elapsed` nanoseconds of a cycle of `frames` frames
/// that each last `frame_duration` nanoseconds.
pub open spec fn frame_at(frames: nat, frame_duration: nat, elapsed: nat) -> nat
    recommends
        frames > 0,
        frame_duration > 0,
{
    (elapsed / frame_duration) % frames
}

impl Data {
    /// At least one frame, and each frame lasts a positive time.
    pub open spec fn wf(self) -> bool {
        self.frames > 0 && self.frame_duration.nanos > 0
    }

    pub fn new(frames: u32, frame_duration: Duration) -> (r: Data)
        requires
            frames > 0,
            frame_duration.nanos > 0,
        ensures
            r.frames == frames,
            r.frame_duration == frame_duration,
            r.wf(),
    {
        Data { frames, frame_duration }
    }

    pub open spec fn start_spec(self) -> Animator {
        Animator { data: self, elapsed: Duration { nanos: 0 } }
    }

    /// A clock at the first frame of the cycle.
    pub fn start(self) -> (r: Animator)
        ensures
            r == self.start_spec(),
            r.data == self,
            r.elapsed.nanos == 0,
    {
        Animator { data: self, elapsed: Duration { nanos: 0 } }
    }
}

impl Animator {
    pub open spec fn wf(self) -> bool {
        self.data.wf()
    }

    pub open spec fn frame_spec(self) -> nat {
        frame_at(self.data.frames as nat, self.data.frame_duration.nanos as nat, self.elapsed.nanos as nat)
    }

    /// Moves the clock forward by `delta`; the accumulated time never wraps.
    pub fn animate(&mut self, delta: Duration)
        ensures
            final(self).data == old(self).data,
            final(self).elapsed == if old(self).elapsed.nanos + delta.nanos > u64::MAX {
                Duration { nanos: u64::MAX }
            } else {
                Duration { nanos: (old(self).elapsed.nanos + delta.nanos) as u64 }
            },
    {
        self.elapsed = self.elapsed.saturating_add(delta);
    }

    /// The index of the frame to show: `floor(elapsed / frame_duration) mod frames`.
    pub fn frame(&self) -> (r: u32)
        requires
            self.wf(),
        ensures
            r == self.frame_spec(),
            r < self.data.frames,
    {
        let ticks = self.elapsed.nanos / self.data.frame_duration.nanos;
        let r = ticks % (self.data.frames as u64);
        r as u32
    }

    /// Stops the clock; the animation falls back to its configuration.
    pub fn stop(self) -> (r: Data)
        ensures
            r == self.data,
    {
        self.data
    }
}

/// Whatever time has accumulated, even past a whole cycle, the frame shown
/// is one of the animation's frames.
pub proof fn lemma_frame_in_range(a: Animator)
    requires
        a.wf(),
    ensures
        0 <= a.frame_spec() < a.data.frames,
{
}

} // verus!
