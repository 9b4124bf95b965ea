use vstd::prelude::*;

use crate::emu::Emu;
use crate::timer::{Time, Timer};

verus! {

/// How long the error LED stays lit, in milliseconds
pub const SHOW_ERROR_MILLIS: u64 = 600;

/// How long the keyboard LED stays lit after a key check, in milliseconds
pub const SHOW_USED_MILLIS: u64 = 200;

pub open spec fn counted_down(t: Timer, delta: u64) -> Timer {
    Timer {
        time: if t.time > delta {
            (t.time - delta) as u64
        } else {
            0
        },
        ..t
    }
}

/// LEDs that show the emulator's state: errors, key checks
pub struct StateLeds {
    pub show_error_timer: Timer,
    pub show_used_timer: Timer,
}

impl Default for StateLeds {
    fn default() -> (r: StateLeds)
        ensures
            r.show_error_timer == (Timer { duration: SHOW_ERROR_MILLIS, time: 0 }),
            r.show_used_timer == (Timer { duration: SHOW_USED_MILLIS, time: 0 }),
    {
        StateLeds {
            show_error_timer: Timer::from_millis(SHOW_ERROR_MILLIS),
            show_used_timer: Timer::from_millis(SHOW_USED_MILLIS),
        }
    }
}

impl StateLeds {
    /// Counts the LED timers down; an emulator error or key check is taken
    /// from the emulator and lights its LED again
    pub fn update(&mut self, time: &Time, emu: &mut Emu)
        ensures
            final(self).show_error_timer == if old(emu).error {
                Timer { time: old(self).show_error_timer.duration, ..old(self).show_error_timer }
            } else {
                counted_down(old(self).show_error_timer, time.delta)
            },
            final(self).show_used_timer == if old(emu).key_checked {
                Timer { time: old(self).show_used_timer.duration, ..old(self).show_used_timer }
            } else {
                counted_down(old(self).show_used_timer, time.delta)
            },
            !final(emu).error,
            !final(emu).key_checked,
            old(emu).same_but_flags(*final(emu)),
    {
        self.show_error_timer.update(time);
        self.show_used_timer.update(time);
        if emu.error {
            self.show_error_timer.start();
            emu.error = false;
        }
        if emu.key_checked {
            self.show_used_timer.start();
            emu.key_checked = false;
        }
    }

    /// Whether the error LED is lit
    pub fn error_lit(&self) -> (r: bool)
        ensures
            r == (self.show_error_timer.time != 0),
    {
        !self.show_error_timer.finished()
    }

    /// Whether the keyboard LED is lit
    pub fn used_lit(&self) -> (r: bool)
        ensures
            r == (self.show_used_timer.time != 0),
    {
        !self.show_used_timer.finished()
    }
}

} // verus!
