use vstd::prelude::*;

use crate::timer::{Time, Timer};

verus! {

/// Animation waiting behaviour
#[derive(Debug, Clone, Copy, PartialEq, Eq)]
pub enum AnimWait {
    /// Jump to the next keyframe after the current animation has been finished
    Finish,
    /// Jump to the next keyframe after the current animation has reached the Nth frame
    Frame(i32),
}

/// Sprite frame-by-frame animation
#[derive(Debug)]
pub struct Anim {
    /// Current frame index
    pub frame: i32,
    pub range: std::ops::Range<i32>,
    pub playing: bool,
    /// Whether the current playback is reversed
    pub reversed: bool,
    pub looped: bool,
    pub frame_timer: Timer,
}

/// The first frame of a playback over `start..end`
pub open spec fn first_frame(start: i32, end: i32, reversed: bool) -> i32 {
    if reversed {
        (end - 1) as i32
    } else {
        start
    }
}

impl Anim {
    /// The animation after a frame of `delta` milliseconds
    pub open spec fn next(self, delta: u64) -> Anim {
        let time_left = if self.frame_timer.time > delta {
            (self.frame_timer.time - delta) as u64
        } else {
            0
        };
        let counted = Anim { frame_timer: Timer { time: time_left, ..self.frame_timer }, ..self };
        let stepped = if self.reversed {
            (self.frame - 1) as i32
        } else {
            (self.frame + 1) as i32
        };
        let restarted = Timer { time: self.frame_timer.duration, ..self.frame_timer };
        if !self.playing {
            self
        } else if time_left != 0 {
            counted
        } else if self.range.start <= stepped < self.range.end {
            Anim { frame: stepped, frame_timer: restarted, ..self }
        } else if self.looped {
            Anim {
                frame: first_frame(self.range.start, self.range.end, self.reversed),
                frame_timer: restarted,
                ..self
            }
        } else {
            Anim { frame: stepped, playing: false, ..counted }
        }
    }

    /// Animation at `fps` frames per second over `range`, stopped at its start
    pub fn new(fps: u64, range: std::ops::Range<i32>) -> (r: Anim)
        requires
            fps > 0,
        ensures
            r.frame == range.start,
            r.range == range,
            !r.playing && !r.reversed && !r.looped,
            r.frame_timer == (Timer { duration: (1000u64 / fps) as u64, time: 0 }),
    {
        let start = range.start;
        Anim {
            frame: start,
            range,
            playing: false,
            reversed: false,
            looped: false,
            frame_timer: Timer::from_millis(1000 / fps),
        }
    }

    pub fn with_looped(self) -> (r: Anim)
        ensures
            r == (Anim { looped: true, ..self }),
    {
        let mut r = self;
        r.looped = true;
        r
    }

    pub fn with_playing(self) -> (r: Anim)
        requires
            self.range.end > i32::MIN,
        ensures
            self.playing ==> r == self,
            !self.playing ==> r == (Anim {
                playing: true,
                reversed: false,
                frame: self.range.start,
                frame_timer: Timer { time: self.frame_timer.duration, ..self.frame_timer },
                ..self
            }),
    {
        let mut r = self;
        r.play(false);
        r
    }

    /// Starts playing from the first frame, unless already playing
    pub fn play(&mut self, reversed: bool)
        requires
            old(self).range.end > i32::MIN,
        ensures
            old(self).playing ==> *final(self) == *old(self),
            !old(self).playing ==> *final(self) == (Anim {
                playing: true,
                reversed,
                frame: first_frame(old(self).range.start, old(self).range.end, reversed),
                frame_timer: Timer { time: old(self).frame_timer.duration, ..old(self).frame_timer },
                ..*old(self)
            }),
    {
        if self.playing {
            return ;
        }
        self.playing = true;
        self.reversed = reversed;
        self.frame_timer.start();
        self.frame_to_start();
    }

    pub fn stop(&mut self)
        ensures
            *final(self) == (Anim { playing: false, ..*old(self) }),
    {
        self.playing = false;
    }

    fn frame_to_start(&mut self)
        requires
            old(self).range.end > i32::MIN,
        ensures
            *final(self) == (Anim {
                frame: first_frame(old(self).range.start, old(self).range.end, old(self).reversed),
                ..*old(self)
            }),
    {
        if self.reversed {
            self.frame = self.range.end - 1;
        } else {
            self.frame = self.range.start;
        }
    }

    /// Advances the animation by one frame of the given time
    pub fn update(&mut self, time: &Time)
        requires
            old(self).range.end > i32::MIN,
            i32::MIN < old(self).frame < i32::MAX,
        ensures
            *final(self) == old(self).next(time.delta),
    {
        if !self.playing {
            return ;
        }
        self.frame_timer.update(time);
        if self.frame_timer.finished() {
            if self.reversed {
                self.frame = self.frame - 1;
            } else {
                self.frame = self.frame + 1;
            }
            let next = self.wrap_frame();
            if next {
                self.frame_timer.start();
            }
        }
    }

    /// Keeps the frame in range: wraps to the start when looped, else stops;
    /// returns whether the animation goes on
    fn wrap_frame(&mut self) -> (r: bool)
        requires
            old(self).range.end > i32::MIN,
        ensures
            old(self).range.start <= old(self).frame < old(self).range.end ==> r && *final(self)
                == *old(self),
            !(old(self).range.start <= old(self).frame < old(self).range.end) && old(self).looped
                ==> r && *final(self) == (Anim {
                frame: first_frame(old(self).range.start, old(self).range.end, old(self).reversed),
                ..*old(self)
            }),
            !(old(self).range.start <= old(self).frame < old(self).range.end) && !old(self).looped
                ==> !r && *final(self) == (Anim { playing: false, ..*old(self) }),
    {
        if self.range.start <= self.frame && self.frame < self.range.end {
            return true;
        }
        if self.looped {
            self.frame_to_start();
            true
        } else {
            self.stop();
            false
        }
    }
}

} // verus!
