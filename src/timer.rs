use vstd::prelude::*;

verus! {

/// Frame time
#[derive(Debug, Default, Clone, Copy, PartialEq, Eq)]
pub struct Time {
    /// Milliseconds elapsed since the previous frame
    pub delta: u64,
    /// Number of frames elapsed since the start, wrapping
    pub elapsed: u32,
}

/// The frame rate reading of a frame that took `delta` milliseconds
pub open spec fn fps_of(delta: u64) -> u32 {
    if delta * 18 / 5 > u32::MAX {
        u32::MAX
    } else {
        (delta * 18 / 5) as u32
    }
}

impl Time {
    pub fn new() -> (r: Time)
        ensures
            r.delta == 0 && r.elapsed == 0,
    {
        Time { delta: 0, elapsed: 0 }
    }

    /// Starts a new frame that came `delta` milliseconds after the previous one
    pub fn update(&mut self, delta: u64)
        ensures
            final(self).delta == delta,
            final(self).elapsed == (if old(self).elapsed == u32::MAX {
                0
            } else {
                old(self).elapsed + 1
            }),
    {
        self.elapsed = self.elapsed.wrapping_add(1);
        self.delta = delta;
    }

    /// `delta` scaled by `60 / (1000 / 60)`, saturating
    pub fn fps(&self) -> (r: u32)
        ensures
            r == fps_of(self.delta),
    {
        let scaled = (self.delta as u128) * 18 / 5;
        if scaled > u32::MAX as u128 {
            u32::MAX
        } else {
            scaled as u32
        }
    }
}

/// Count-down timer, in milliseconds
#[derive(Debug, Default, Clone, Copy, PartialEq, Eq)]
pub struct Timer {
    pub duration: u64,
    /// Time left
    pub time: u64,
}

impl Timer {
    pub fn new(duration: u64) -> (r: Timer)
        ensures
            r.duration == duration,
            r.time == 0,
    {
        Timer { duration, time: 0 }
    }

    pub fn from_millis(millis: u64) -> (r: Timer)
        ensures
            r.duration == millis,
            r.time == 0,
    {
        Timer::new(millis)
    }

    /// Counts the frame's time down, stopping at zero
    pub fn update(&mut self, time: &Time)
        ensures
            final(self).duration == old(self).duration,
            final(self).time == (if old(self).time > time.delta {
                old(self).time - time.delta
            } else {
                0
            }),
    {
        self.time = self.time.saturating_sub(time.delta);
    }

    /// Sets the duration and starts from it
    pub fn start_duration(&mut self, duration: u64)
        ensures
            final(self).duration == duration,
            final(self).time == duration,
    {
        self.duration = duration;
        self.time = duration;
    }

    /// Starts counting down from the duration
    pub fn start(&mut self)
        ensures
            final(self).duration == old(self).duration,
            final(self).time == old(self).duration,
    {
        self.time = self.duration;
    }

    /// Time counted down so far
    pub fn left(&self) -> (r: u64)
        requires
            self.time <= self.duration,
        ensures
            r == self.duration - self.time,
    {
        self.duration - self.time
    }

    pub fn finished(&self) -> (r: bool)
        ensures
            r == (self.time == 0),
    {
        self.time == 0
    }
}

} // verus!
