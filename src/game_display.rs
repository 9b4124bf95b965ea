use vstd::prelude::*;

use crate::emu::{MAX_SPEED, SCREEN_BUF_SIZE};

verus! {

/// Bytes of the RGB display texture: three per emulator pixel
pub const BUF_SIZE: usize = 6144;

/// Width of the speed bar, in chars
pub const PROGRESS_WIDTH: usize = 14;

/// Red and blue of a lit pixel
pub const LIT_RB: u8 = 178;

/// Green of a lit pixel
pub const LIT_G: u8 = 204;

/// Darkest level a pixel fades to
pub const MIN_LEVEL: u8 = 25;

/// Bar chars of the IBM font
pub const H_PIPE: u8 = 196;

pub const V_PIPE: u8 = 197;

pub const V_DOUBLE_PIPE: u8 = 215;

/// A dark pixel fades to two thirds of its level, down to `MIN_LEVEL`
pub open spec fn faded(level: u8) -> u8 {
    if level * 2 / 3 < MIN_LEVEL {
        MIN_LEVEL
    } else {
        (level * 2 / 3) as u8
    }
}

/// Byte `i` of the display after a frame showing `screen`
pub open spec fn next_byte(buffer: Seq<u8>, screen: Seq<bool>, i: int) -> u8 {
    let p = i / 3;
    if screen[p] {
        if i % 3 == 1 {
            LIT_G
        } else {
            LIT_RB
        }
    } else {
        faded(buffer[p * 3])
    }
}

/// Shows the emulator screen: lit pixels light up, the others fade out like
/// an old display
pub fn update_buffer(buffer: &mut [u8; BUF_SIZE], screen: &[bool; SCREEN_BUF_SIZE])
    ensures
        forall|i: int|
            0 <= i < BUF_SIZE ==> #[trigger] final(buffer)@[i] == next_byte(old(buffer)@, screen@, i),
{
    let mut p: usize = 0;
    while p < SCREEN_BUF_SIZE
        invariant
            p <= SCREEN_BUF_SIZE,
            buffer@.len() == BUF_SIZE,
            forall|i: int|
                0 <= i < 3 * p ==> #[trigger] buffer@[i] == next_byte(old(buffer)@, screen@, i),
            forall|i: int| 3 * p <= i < BUF_SIZE ==> #[trigger] buffer@[i] == old(buffer)@[i],
        decreases SCREEN_BUF_SIZE - p,
    {
        let i = p * 3;
        if screen[p] {
            buffer[i] = LIT_RB;
            buffer[i + 1] = LIT_G;
            buffer[i + 2] = LIT_RB;
        } else {
            let level = (buffer[i] as u16 * 2 / 3) as u8;
            let color = if level < MIN_LEVEL {
                MIN_LEVEL
            } else {
                level
            };
            buffer[i] = color;
            buffer[i + 1] = color;
            buffer[i + 2] = color;
        }
        proof {
            assert forall|k: int| 3 * p <= k < 3 * p + 3 implies #[trigger] (k / 3) == p && (k % 3
                == 1 <==> k == 3 * p + 1) by {}
        }
        p += 1;
    }
}

/// Speed bar: the thumb at the speed's place, the normal speed mark at 2
pub open spec fn progress_char(speed: int, i: int) -> u8 {
    if i == speed * (PROGRESS_WIDTH - 1) / (MAX_SPEED as int) {
        V_PIPE
    } else if i == 2 {
        V_DOUBLE_PIPE
    } else {
        H_PIPE
    }
}

/// The speed bar of the given speed, `0..=MAX_SPEED`
pub fn progress_text(speed: i32) -> (r: [u8; PROGRESS_WIDTH])
    requires
        0 <= speed <= MAX_SPEED,
    ensures
        r@ == Seq::new(PROGRESS_WIDTH as nat, |i: int| progress_char(speed as int, i)),
{
    let mut text: [u8; PROGRESS_WIDTH] = [H_PIPE; PROGRESS_WIDTH];
    let cur_idx = (speed as i64 * (PROGRESS_WIDTH as i64 - 1) / MAX_SPEED as i64) as usize;
    let mut i: usize = 0;
    while i < PROGRESS_WIDTH
        invariant
            i <= PROGRESS_WIDTH,
            cur_idx == speed * (PROGRESS_WIDTH - 1) / (MAX_SPEED as int),
            text@.len() == PROGRESS_WIDTH,
            forall|k: int| 0 <= k < i ==> #[trigger] text@[k] == progress_char(speed as int, k),
            forall|k: int| i <= k < PROGRESS_WIDTH ==> #[trigger] text@[k] == H_PIPE,
        decreases PROGRESS_WIDTH - i,
    {
        if i == cur_idx {
            text[i] = V_PIPE;
        } else if i == 2 {
            text[i] = V_DOUBLE_PIPE;
        }
        i += 1;
    }
    assert(text@ =~= Seq::new(PROGRESS_WIDTH as nat, |i: int| progress_char(speed as int, i)));
    text
}

} // verus!
