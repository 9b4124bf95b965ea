use vstd::prelude::*;

use crate::timer::{Time, Timer};

verus! {

/// Capacity of a tooltip message
pub const MAX_LEN: usize = 64;

/// Time an error message stays, in milliseconds
pub const ERROR_MILLIS: u64 = 2000;

/// `msg` cropped to `MAX_LEN` bytes and padded with zeros
pub open spec fn cropped(msg: Seq<u8>) -> Seq<u8> {
    Seq::new(MAX_LEN as nat, |i: int| if i < msg.len() { msg[i] } else { 0u8 })
}

/// Tooltip state
pub struct Tooltip {
    pub tooltip: [u8; MAX_LEN],
    pub error: [u8; MAX_LEN],
    pub is_tooltip_visible: bool,
    pub error_timer: Timer,
}

impl Default for Tooltip {
    fn default() -> (r: Tooltip)
        ensures
            r.tooltip@ == Seq::new(MAX_LEN as nat, |i: int| 0u8),
            r.error@ == Seq::new(MAX_LEN as nat, |i: int| 0u8),
            !r.is_tooltip_visible,
            r.error_timer == (Timer { duration: ERROR_MILLIS, time: 0 }),
    {
        let r = Tooltip {
            tooltip: [0; MAX_LEN],
            error: [0; MAX_LEN],
            is_tooltip_visible: false,
            error_timer: Timer::from_millis(ERROR_MILLIS),
        };
        assert(r.tooltip@ =~= Seq::new(MAX_LEN as nat, |i: int| 0u8));
        assert(r.error@ =~= Seq::new(MAX_LEN as nat, |i: int| 0u8));
        r
    }
}

impl Tooltip {
    /// Starts a frame: the error timer counts down and the tooltip hides
    pub fn update(&mut self, time: &Time)
        ensures
            final(self).tooltip == old(self).tooltip,
            final(self).error == old(self).error,
            !final(self).is_tooltip_visible,
            final(self).error_timer.duration == old(self).error_timer.duration,
            final(self).error_timer.time == (if old(self).error_timer.time > time.delta {
                old(self).error_timer.time - time.delta
            } else {
                0
            }),
    {
        self.error_timer.update(time);
        self.is_tooltip_visible = false;
    }

    fn set_msg(buf: &mut [u8; MAX_LEN], msg: &[u8])
        ensures
            final(buf)@ == cropped(msg@),
    {
        let len = if msg.len() < MAX_LEN {
            msg.len()
        } else {
            MAX_LEN
        };
        let mut i: usize = 0;
        while i < MAX_LEN
            invariant
                len <= MAX_LEN,
                len <= msg@.len(),
                len == msg@.len() || len == MAX_LEN,
                i <= MAX_LEN,
                buf@.len() == MAX_LEN,
                forall|j: int| 0 <= j < i ==> #[trigger] buf@[j] == cropped(msg@)[j],
            decreases MAX_LEN - i,
        {
            if i < len {
                buf[i] = msg[i];
            } else {
                buf[i] = 0;
            }
            i += 1;
        }
        assert(buf@ =~= cropped(msg@));
    }

    /// Shows a tooltip, cropped to `MAX_LEN` bytes, unless an error is showing
    pub fn set(&mut self, msg: &[u8])
        ensures
            final(self).error == old(self).error,
            final(self).error_timer == old(self).error_timer,
            old(self).error_timer.time != 0 ==> final(self).tooltip == old(self).tooltip
                && final(self).is_tooltip_visible == old(self).is_tooltip_visible,
            old(self).error_timer.time == 0 ==> final(self).tooltip@ == cropped(msg@)
                && final(self).is_tooltip_visible,
    {
        if !self.error_timer.finished() {
            return ;
        }
        Self::set_msg(&mut self.tooltip, msg);
        self.is_tooltip_visible = true;
    }

    /// Shows an error, cropped to `MAX_LEN` bytes, for the error time
    pub fn set_error(&mut self, msg: &[u8])
        ensures
            final(self).tooltip == old(self).tooltip,
            final(self).is_tooltip_visible == old(self).is_tooltip_visible,
            final(self).error@ == cropped(msg@),
            final(self).error_timer.duration == old(self).error_timer.duration,
            final(self).error_timer.time == old(self).error_timer.duration,
    {
        Self::set_msg(&mut self.error, msg);
        self.error_timer.start();
    }
}

} // verus!
