//! Frame pacing: holding submission back to the monitor's refresh interval.

use vstd::prelude::*;

verus! {

/// Nanoseconds in a second.
pub const NANOSECONDS_PER_SECOND: u64 = 1_000_000_000;

/// The successor of a generation counter. Counters wrap around, so a
/// successor always differs from its predecessor.
pub open spec fn next_generation(generation: u64) -> u64 {
    if generation == u64::MAX {
        0
    } else {
        (generation + 1) as u64
    }
}

/// Computes the successor of a generation counter.
pub fn advance_generation(generation: u64) -> (next: u64)
    ensures
        next == next_generation(generation),
        next != generation,
{
    if generation == u64::MAX {
        0
    } else {
        generation + 1
    }
}

/// The timing of one stage of a frame: when the stage last began and ended,
/// and how many times it has begun. Times are in nanoseconds of a monotonic
/// clock.
#[derive(Clone, Copy, Debug, PartialEq, Eq, Structural)]
pub struct FrameStage {
    pub begin: u64,
    pub end: u64,
    pub generation: u64,
}

/// Paces frames to the refresh rate of the monitor.
#[derive(Clone, Copy, Debug, PartialEq, Eq, Structural)]
pub struct FramePacer {
    /// Refresh rate in frames per second.
    pub monitor_frequency: u32,
    /// When the most recent stage began, if any has.
    pub last_begin: Option<u64>,
}

impl FramePacer {
    /// The time between two refreshes of the monitor, in nanoseconds. A
    /// frequency of zero gives no interval to wait for.
    pub open spec fn frame_interval(self) -> nat {
        if self.monitor_frequency == 0 {
            0
        } else {
            (NANOSECONDS_PER_SECOND as nat) / (self.monitor_frequency as nat)
        }
    }

    /// How long a frame that could start at `now` has to wait so that it
    /// starts no earlier than one refresh interval after the previous one.
    pub open spec fn wait_time(self, now: u64) -> nat {
        match self.last_begin {
            None => 0,
            Some(begin) => {
                let earliest = begin + self.frame_interval();
                if earliest > now {
                    if earliest > u64::MAX {
                        (u64::MAX - now) as nat
                    } else {
                        (earliest - now) as nat
                    }
                } else {
                    0
                }
            },
        }
    }

    /// The stage and the pacer after the stage begins at `now`.
    pub open spec fn stage_begun(stage: FrameStage, now: u64) -> FrameStage {
        FrameStage { begin: now, end: stage.end, generation: next_generation(stage.generation) }
    }

    pub fn new(monitor_frequency: u32) -> (pacer: FramePacer)
        ensures
            pacer == (FramePacer { monitor_frequency, last_begin: None }),
    {
        FramePacer { monitor_frequency, last_begin: None }
    }

    pub fn set_monitor_frequency(&mut self, monitor_frequency: u32)
        ensures
            *final(self) == (FramePacer { monitor_frequency, ..*old(self) }),
    {
        self.monitor_frequency = monitor_frequency;
    }

    /// Creates the timing of a stage that has not begun yet.
    pub fn create_frame_stage(&mut self, now: u64) -> (stage: FrameStage)
        ensures
            *final(self) == *old(self),
            stage == (FrameStage { begin: now, end: now, generation: 0 }),
    {
        FrameStage { begin: now, end: now, generation: 0 }
    }

    /// The time to sleep before the next frame, in nanoseconds.
    pub fn wait_for_frame(&self, now: u64) -> (wait: u64)
        ensures
            wait == self.wait_time(now),
    {
        match self.last_begin {
            None => 0,
            Some(begin) => {
                let interval: u64 = if self.monitor_frequency == 0 {
                    0
                } else {
                    NANOSECONDS_PER_SECOND / (self.monitor_frequency as u64)
                };
                let earliest: u64 = begin.saturating_add(interval);
                if earliest > now {
                    earliest - now
                } else {
                    0
                }
            },
        }
    }

    /// Begins a stage at `now` and returns its new timing.
    pub fn begin_frame_stage(&mut self, stage: FrameStage, now: u64) -> (begun: FrameStage)
        ensures
            *final(self) == (FramePacer { last_begin: Some(now), ..*old(self) }),
            begun == FramePacer::stage_begun(stage, now),
    {
        self.last_begin = Some(now);
        FrameStage { begin: now, end: stage.end, generation: advance_generation(stage.generation) }
    }

    /// Ends a stage at `now` and returns its new timing.
    pub fn end_frame_stage(&mut self, stage: FrameStage, now: u64) -> (ended: FrameStage)
        ensures
            *final(self) == *old(self),
            ended == (FrameStage { end: now, ..stage }),
    {
        FrameStage { begin: stage.begin, end: now, generation: stage.generation }
    }
}

} // verus!
