use vstd::prelude::*;

use vstd::arithmetic::div_mod::{lemma_fundamental_div_mod, lemma_fundamental_div_mod_converse};

use crate::math::ONE;

verus! {

pub const SCREEN_WIDTH: usize = 64;

pub const SCREEN_HEIGHT: usize = 32;

/// Number of pixels of the screen
pub const SCREEN_BUF_SIZE: usize = 2048;

/// Starting address of programs in the memory
pub const PROGRAM_START_ADDR: usize = 0x200;

pub const MEMORY_SIZE: usize = 12288;

/// Largest program
pub const PROGRAM_SIZE: usize = 11776;

pub const STACK_SIZE: usize = 16;

pub const KEYS_COUNT: usize = 16;

/// Number of registers `V0-VF`
pub const REG_COUNT: usize = 16;

/// Instructions per frame at speed one
pub const STEPS_PER_FRAME: u8 = 20;

/// Execution speed bounds, fixed point
pub const MIN_SPEED: i32 = 0;

pub const MAX_SPEED: i32 = 327680;

/// Bytes of each font char
pub const CHAR_HEIGHT: u16 = 5;

/// Bytes of the font
pub const FONT_SIZE: usize = 80;

/// Heat is counted in millionths
pub const MAX_HEAT: u32 = 1_000_000;

/// Heat level from which the CPU is hot
pub const HOT_LEVEL: u32 = 50_000;

pub const CRITICAL_HEAT_LEVEL: u32 = 990_000;

/// Heat gained on each jump
pub const HEAT_SPEED: u32 = 75;

/// Heat lost on each frame, times the cooling multiplier
pub const COOL_SPEED: u32 = 1000;

/// Relies on quad_rand::rand for the random numbers that some instructions
/// draw; nothing is promised of the value.
pub assume_specification[ quad_rand::rand ]() -> u32;

/// Hex digit glyphs `0-F`, five rows each
pub open spec fn font() -> Seq<u8> {
    seq![
        0xF0, 0x90, 0x90, 0x90, 0xF0, 0x20, 0x60, 0x20, 0x20, 0x70, 0xF0, 0x10, 0xF0, 0x80, 0xF0,
        0xF0, 0x10, 0xF0, 0x10, 0xF0, 0x90, 0x90, 0xF0, 0x10, 0x10, 0xF0, 0x80, 0xF0, 0x10, 0xF0,
        0xF0, 0x80, 0xF0, 0x90, 0xF0, 0xF0, 0x10, 0x20, 0x40, 0x40, 0xF0, 0x90, 0xF0, 0x90, 0xF0,
        0xF0, 0x90, 0xF0, 0x10, 0xF0, 0xF0, 0x90, 0xF0, 0x90, 0x90, 0xE0, 0x90, 0xE0, 0x90, 0xE0,
        0xF0, 0x80, 0x80, 0x80, 0xF0, 0xE0, 0x90, 0x90, 0x90, 0xE0, 0xF0, 0x80, 0xF0, 0x80, 0xF0,
        0xF0, 0x80, 0xF0, 0x80, 0x80,
    ]
}

fn font_bytes() -> (r: [u8; FONT_SIZE])
    ensures
        r@ == font(),
{
    let r: [u8; FONT_SIZE] = [
        0xF0, 0x90, 0x90, 0x90, 0xF0, 0x20, 0x60, 0x20, 0x20, 0x70, 0xF0, 0x10, 0xF0, 0x80, 0xF0,
        0xF0, 0x10, 0xF0, 0x10, 0xF0, 0x90, 0x90, 0xF0, 0x10, 0x10, 0xF0, 0x80, 0xF0, 0x10, 0xF0,
        0xF0, 0x80, 0xF0, 0x90, 0xF0, 0xF0, 0x10, 0x20, 0x40, 0x40, 0xF0, 0x90, 0xF0, 0x90, 0xF0,
        0xF0, 0x90, 0xF0, 0x10, 0xF0, 0xF0, 0x90, 0xF0, 0x90, 0x90, 0xE0, 0x90, 0xE0, 0x90, 0xE0,
        0xF0, 0x80, 0x80, 0x80, 0xF0, 0xE0, 0x90, 0x90, 0x90, 0xE0, 0xF0, 0x80, 0xF0, 0x80, 0xF0,
        0xF0, 0x80, 0xF0, 0x80, 0x80,
    ];
    assert(r@ =~= font());
    r
}

/// Registers, often referred to as `V0-VF`
#[derive(Debug)]
pub struct Registers {
    pub regs: [u8; REG_COUNT],
}

impl Registers {
    pub fn new() -> (r: Registers)
        ensures
            r.regs@ == Seq::new(REG_COUNT as nat, |i: int| 0u8),
    {
        let r = Registers { regs: [0; REG_COUNT] };
        assert(r.regs@ =~= Seq::new(REG_COUNT as nat, |i: int| 0u8));
        r
    }

    pub fn get(&self, i: u8) -> (r: u8)
        requires
            i < REG_COUNT,
        ensures
            r == self.regs@[i as int],
    {
        self.regs[i as usize]
    }

    pub fn set(&mut self, i: u8, value: u8)
        requires
            i < REG_COUNT,
        ensures
            final(self).regs@ == old(self).regs@.update(i as int, value),
    {
        self.regs[i as usize] = value;
    }

    /// The registers as a slice
    pub fn as_slice(&self) -> (r: &[u8])
        ensures
            r@ == self.regs@,
    {
        self.regs.as_slice()
    }
}


/// What an instruction can read and change
pub struct EmuView {
    pub screen: Seq<bool>,
    pub pc: u16,
    pub sp: u16,
    pub index: u16,
    pub stack: Seq<u16>,
    pub memory: Seq<u8>,
    pub regs: Seq<u8>,
    pub delay_timer: u8,
    pub sound_timer: u8,
    pub pressed_keys: Seq<bool>,
    pub cur_ins: (u8, u8),
    pub wait_for_keypress: Option<u8>,
    pub key_checked: bool,
    pub error: bool,
    pub heat: u32,
}

pub open spec fn heated(heat: u32) -> u32 {
    if heat + HEAT_SPEED > MAX_HEAT {
        MAX_HEAT
    } else {
        (heat + HEAT_SPEED) as u32
    }
}

/// Whether bit `col` (0 is the most significant) of `byte` is set
pub open spec fn bit_at(byte: u8, col: int) -> bool {
    (byte >> ((7 - col) as u8)) & 1u8 == 1u8
}

/// Whether pixel `idx` lies under a set bit of the `n`-row sprite at `index`,
/// drawn at `(vx, vy)` with wrapping
pub open spec fn covered(memory: Seq<u8>, index: int, vx: int, vy: int, n: int, idx: int) -> bool {
    let col = (idx % 64 - vx) % 64;
    let row = (idx / 64 - vy) % 32;
    col < 8 && row < n && bit_at(memory[index + row], col)
}

impl EmuView {
    pub open spec fn reg(self, x: int) -> u8 {
        self.regs[x]
    }

    pub open spec fn with_reg(self, x: int, value: u8) -> EmuView {
        EmuView { regs: self.regs.update(x, value), ..self }
    }

    pub open spec fn jump(self, addr: int) -> EmuView {
        EmuView { pc: addr as u16, heat: heated(self.heat), ..self }
    }

    pub open spec fn skip_if(self, cond: bool) -> EmuView {
        if cond {
            EmuView { pc: (self.pc + 2) as u16, ..self }
        } else {
            self
        }
    }

    pub open spec fn key_pressed(self, key: u8) -> bool {
        self.pressed_keys[key as int % KEYS_COUNT as int]
    }

    /// Sprite of `n` rows at `I` drawn at `(Vx, Vy)`: pixels toggle, `VF` tells
    /// whether any pixel was turned off
    pub open spec fn drawn(self, x: int, y: int, n: int) -> EmuView {
        let vx = self.reg(x) as int;
        let vy = self.reg(y) as int;
        let i = self.index as int;
        if i + n > MEMORY_SIZE {
            EmuView { error: true, ..self }
        } else {
            let overlap = exists|idx: int|
                0 <= idx < SCREEN_BUF_SIZE && #[trigger] covered(self.memory, i, vx, vy, n, idx)
                    && self.screen[idx];
            EmuView {
                screen: Seq::new(
                    SCREEN_BUF_SIZE as nat,
                    |idx: int| self.screen[idx] != covered(self.memory, i, vx, vy, n, idx),
                ),
                ..self
            }.with_reg(
                0xf,
                if overlap {
                    1
                } else {
                    0
                },
            )
        }
    }

    pub open spec fn bcd_stored(self, x: int) -> EmuView {
        let vx = self.reg(x);
        let i = self.index as int;
        if i + 2 >= MEMORY_SIZE {
            EmuView { error: true, ..self }
        } else {
            EmuView {
                memory: self.memory.update(i, vx / 100).update(i + 1, (vx % 100) / 10).update(
                    i + 2,
                    vx % 10,
                ),
                ..self
            }
        }
    }

    pub open spec fn stored_through(self, x: int) -> EmuView {
        let i = self.index as int;
        if i + x >= MEMORY_SIZE {
            EmuView { error: true, ..self }
        } else {
            EmuView {
                memory: Seq::new(
                    MEMORY_SIZE as nat,
                    |j: int|
                        if i <= j <= i + x {
                            self.regs[j - i]
                        } else {
                            self.memory[j]
                        },
                ),
                ..self
            }
        }
    }

    pub open spec fn read_through(self, x: int) -> EmuView {
        let i = self.index as int;
        if i + x >= MEMORY_SIZE {
            EmuView { error: true, ..self }
        } else {
            EmuView {
                regs: Seq::new(
                    REG_COUNT as nat,
                    |v: int|
                        if v <= x {
                            self.memory[i + v]
                        } else {
                            self.regs[v]
                        },
                ),
                ..self
            }
        }
    }

    /// The state after executing the current instruction, where `random` is
    /// the random number the instruction may draw
    pub open spec fn executed(self, random: u32) -> EmuView {
        let hi = self.cur_ins.0 as int;
        let lo = self.cur_ins.1 as int;
        let a = hi / 16;
        let x = hi % 16;
        let y = lo / 16;
        let n = lo % 16;
        let addr = x * 256 + lo;
        let byte = lo as u8;
        let vx = self.reg(x);
        let vy = self.reg(y);
        if a == 0 && x == 0 && y == 0xe && n == 0 {
            EmuView { screen: Seq::new(SCREEN_BUF_SIZE as nat, |i: int| false), ..self }
        } else if a == 0xd {
            self.drawn(x, y, n)
        } else if a == 0 && x == 0 && y == 0xe && n == 0xe {
            if self.sp == 0 {
                EmuView { error: true, ..self }.jump(random as int % MEMORY_SIZE as int)
            } else {
                let sp = (self.sp - 1) as u16;
                EmuView { sp, ..self }.jump(self.stack[sp as int] as int)
            }
        } else if a == 1 {
            self.jump(addr)
        } else if a == 0xb {
            self.jump(addr + self.reg(0))
        } else if a == 2 {
            let pushed = EmuView {
                stack: self.stack.update(self.sp as int, self.pc),
                sp: (self.sp + 1) as u16,
                ..self
            };
            let wrapped = if pushed.sp >= STACK_SIZE {
                EmuView { sp: 0, error: true, ..pushed }
            } else {
                pushed
            };
            wrapped.jump(addr)
        } else if a == 3 {
            self.skip_if(vx == byte)
        } else if a == 4 {
            self.skip_if(vx != byte)
        } else if a == 5 && n == 0 {
            self.skip_if(vx == vy)
        } else if a == 9 && n == 0 {
            self.skip_if(vx != vy)
        } else if a == 0xf && y == 0 && n == 0xa {
            EmuView { wait_for_keypress: Some(x as u8), ..self }
        } else if a == 0xe && y == 9 && n == 0xe {
            EmuView { key_checked: true, ..self }.skip_if(self.key_pressed(vx))
        } else if a == 0xe && y == 0xa && n == 1 {
            EmuView { key_checked: true, ..self }.skip_if(!self.key_pressed(vx))
        } else if a == 6 {
            self.with_reg(x, byte)
        } else if a == 7 {
            self.with_reg(x, ((vx + byte) % 256) as u8)
        } else if a == 8 && n == 0 {
            self.with_reg(x, vy)
        } else if a == 8 && n == 4 {
            self.with_reg(x, ((vx + vy) % 256) as u8).with_reg(
                0xf,
                if vx + vy > 255 {
                    1
                } else {
                    0
                },
            )
        } else if a == 8 && n == 5 {
            self.with_reg(
                0xf,
                if vx > vy {
                    1
                } else {
                    0
                },
            ).with_reg(x, ((vx - vy + 256) % 256) as u8)
        } else if a == 0xc {
            self.with_reg(x, ((random % 255) as u8) & byte)
        } else if a == 8 && n == 1 {
            self.with_reg(x, vx | vy)
        } else if a == 8 && n == 2 {
            self.with_reg(x, vx & vy)
        } else if a == 8 && n == 3 {
            self.with_reg(x, vx ^ vy)
        } else if a == 8 && n == 6 {
            self.with_reg(0xf, vx & 1).with_reg(x, self.with_reg(0xf, vx & 1).reg(x) / 2)
        } else if a == 8 && n == 7 {
            // the difference lands in `Vy`
            self.with_reg(
                0xf,
                if vx > vy {
                    1
                } else {
                    0
                },
            ).with_reg(y, ((vx - vy + 256) % 256) as u8)
        } else if a == 8 && n == 0xe {
            self.with_reg(0xf, (vx & 0x80) >> 7u8).with_reg(
                x,
                ((self.with_reg(0xf, (vx & 0x80) >> 7u8).reg(x) * 2) % 256) as u8,
            )
        } else if a == 0xf && y == 0 && n == 7 {
            self.with_reg(x, self.delay_timer)
        } else if a == 0xf && y == 1 && n == 5 {
            EmuView { delay_timer: vx, ..self }
        } else if a == 0xf && y == 1 && n == 8 {
            EmuView { sound_timer: vx, ..self }
        } else if a == 0xa {
            EmuView { index: addr as u16, ..self }
        } else if a == 0xf && y == 1 && n == 0xe {
            EmuView { index: ((self.index + vx) % MEMORY_SIZE as int) as u16, ..self }
        } else if a == 0xf && y == 2 && n == 9 {
            EmuView { index: (vx * CHAR_HEIGHT) as u16, ..self }
        } else if a == 0xf && y == 3 && n == 3 {
            self.bcd_stored(x)
        } else if a == 0xf && y == 5 && n == 5 {
            self.stored_through(x)
        } else if a == 0xf && y == 6 && n == 5 {
            self.read_through(x)
        } else if a == 0 {
            self
        } else {
            EmuView { error: true, ..self }
        }
    }

    /// The state after fetching the next instruction; the program counter
    /// wraps to the program start at the end of the memory, and nothing is
    /// fetched while waiting for a keypress
    pub open spec fn fetched(self) -> EmuView {
        let pc = if self.pc >= MEMORY_SIZE - 1 {
            PROGRAM_START_ADDR as u16
        } else {
            self.pc
        };
        if self.wait_for_keypress is Some {
            EmuView { pc, ..self }
        } else {
            EmuView {
                pc: (pc + 2) as u16,
                cur_ins: (self.memory[pc as int], self.memory[pc + 1]),
                ..self
            }
        }
    }

    /// Both timers counted down by one, stopping at zero
    pub open spec fn timers_counted(self) -> EmuView {
        EmuView {
            delay_timer: if self.delay_timer > 0 {
                (self.delay_timer - 1) as u8
            } else {
                0
            },
            sound_timer: if self.sound_timer > 0 {
                (self.sound_timer - 1) as u8
            } else {
                0
            },
            ..self
        }
    }

    /// One step: fetch, then execute unless waiting for a keypress
    pub open spec fn stepped(self, random: u32) -> EmuView {
        if self.wait_for_keypress is Some {
            self.fetched()
        } else {
            self.fetched().executed(random)
        }
    }

    /// Whether the current instruction draws a random number
    pub open spec fn draws_random(self) -> bool {
        let a = self.cur_ins.0 / 16;
        ||| a == 0xc
        ||| self.cur_ins == (0u8, 0xeeu8) && self.sp == 0
    }
}


/// CHIP-8 emulator
#[derive(Debug)]
pub struct Emu {
    pub screen: [bool; SCREEN_BUF_SIZE],
    /// Program counter (PC), points to the current instruction in the memory
    pub pc: u16,
    /// Stack pointer (SP), points to the topmost level of the stack
    pub sp: u16,
    /// Memory pointer (I), used by some instructions
    pub index: u16,
    /// Addresses to return to
    pub stack: [u16; STACK_SIZE],
    /// Current program data
    pub program: [u8; PROGRAM_SIZE],
    pub memory: [u8; MEMORY_SIZE],
    pub regs: Registers,
    /// Delay timer (DT)
    pub delay_timer: u8,
    /// Sound timer (ST)
    pub sound_timer: u8,
    pub pressed_keys: [bool; KEYS_COUNT],
    /// Current instruction
    pub cur_ins: (u8, u8),
    /// If `Some(register)`, execution waits for a keypress to write into that register
    pub wait_for_keypress: Option<u8>,
    /// Whether a pressed key check occurred
    pub key_checked: bool,
    /// Steps per frame multiplier, fixed point
    pub speed: i32,
    /// Whether any kind of error has occurred
    pub error: bool,
    /// CPU heat level in millionths
    pub heat: u32,
}

impl Emu {
    pub open spec fn model(&self) -> EmuView {
        EmuView {
            screen: self.screen@,
            pc: self.pc,
            sp: self.sp,
            index: self.index,
            stack: self.stack@,
            memory: self.memory@,
            regs: self.regs.regs@,
            delay_timer: self.delay_timer,
            sound_timer: self.sound_timer,
            pressed_keys: self.pressed_keys@,
            cur_ins: self.cur_ins,
            wait_for_keypress: self.wait_for_keypress,
            key_checked: self.key_checked,
            error: self.error,
            heat: self.heat,
        }
    }

    /// The state stays in the bounds that the instructions keep
    pub open spec fn wf(&self) -> bool {
        &&& self.sp < STACK_SIZE
        &&& self.index < MEMORY_SIZE
        &&& self.pc <= MEMORY_SIZE + 2
        &&& forall|k: int| 0 <= k < STACK_SIZE ==> #[trigger] self.stack@[k] <= MEMORY_SIZE + 2
        &&& self.heat <= MAX_HEAT
        &&& MIN_SPEED <= self.speed <= MAX_SPEED
        &&& match self.wait_for_keypress {
            Some(x) => x < REG_COUNT,
            None => true,
        }
    }

    /// Whether `o` differs from this emulator in the screen only
    pub open spec fn same_but_screen(&self, o: Emu) -> bool {
        &&& o.pc == self.pc
        &&& o.sp == self.sp
        &&& o.index == self.index
        &&& o.stack == self.stack
        &&& o.program == self.program
        &&& o.memory == self.memory
        &&& o.regs == self.regs
        &&& o.delay_timer == self.delay_timer
        &&& o.sound_timer == self.sound_timer
        &&& o.pressed_keys == self.pressed_keys
        &&& o.cur_ins == self.cur_ins
        &&& o.wait_for_keypress == self.wait_for_keypress
        &&& o.key_checked == self.key_checked
        &&& o.speed == self.speed
        &&& o.error == self.error
        &&& o.heat == self.heat
    }

    /// Whether `next` is this emulator with the view `v` and the rest unchanged
    pub open spec fn becomes(&self, next: Emu, v: EmuView) -> bool {
        &&& next.model() == v
        &&& next.program@ == self.program@
        &&& next.speed == self.speed
    }
}


/// `(u - v) mod m` is `c` exactly when `u` is `(v + c) mod m`
proof fn lemma_mod_offset(u: int, v: int, c: int, m: int)
    requires
        0 <= u < m,
        0 <= c < m,
    ensures
        (u - v) % m == c <==> u == (v + c) % m,
{
    lemma_fundamental_div_mod(u - v, m);
    lemma_fundamental_div_mod(v + c, m);
    if (u - v) % m == c {
        let q = (u - v) / m;
        assert(v + c == (-q) * m + u) by (nonlinear_arith)
            requires
                u - v == m * q + c,
        ;
        lemma_fundamental_div_mod_converse(v + c, m, -q, u);
    }
    if u == (v + c) % m {
        let q = (v + c) / m;
        assert(u - v == (-q) * m + c) by (nonlinear_arith)
            requires
                v + c == m * q + u,
        ;
        lemma_fundamental_div_mod_converse(u - v, m, -q, c);
    }
}

/// Screen pixel of bit `(row, col)` of a sprite drawn at `(vx, vy)`
pub open spec fn sprite_pixel(vx: int, vy: int, row: int, col: int) -> int {
    (vx + col) % 64 + ((vy + row) % 32) * 64
}

/// Whether pixel `idx` comes before bit `(r, c)` of a sprite drawn at `(vx, vy)`,
/// in the drawing order
pub open spec fn drawn_before(vx: int, vy: int, idx: int, r: int, c: int) -> bool {
    let row = (idx / 64 - vy) % 32;
    let col = (idx % 64 - vx) % 64;
    row < r || (row == r && col < c)
}

/// The pixel of bit `(r, c)` lies on the screen and is the only pixel with that bit
proof fn lemma_sprite_pixel(vx: int, vy: int, r: int, c: int, idx: int)
    requires
        0 <= c < 8,
        0 <= r < 32,
        0 <= idx < SCREEN_BUF_SIZE,
    ensures
        0 <= sprite_pixel(vx, vy, r, c) < SCREEN_BUF_SIZE,
        (sprite_pixel(vx, vy, r, c) % 64 - vx) % 64 == c,
        (sprite_pixel(vx, vy, r, c) / 64 - vy) % 32 == r,
        ((idx % 64 - vx) % 64 == c && (idx / 64 - vy) % 32 == r) ==> idx == sprite_pixel(
            vx,
            vy,
            r,
            c,
        ),
{
    let p = sprite_pixel(vx, vy, r, c);
    let pc = (vx + c) % 64;
    let pr = (vy + r) % 32;
    lemma_fundamental_div_mod(vx + c, 64);
    lemma_fundamental_div_mod(vy + r, 32);
    assert(0 <= pc < 64 && 0 <= pr < 32);
    lemma_fundamental_div_mod_converse(p, 64, pr, pc);
    lemma_mod_offset(pc, vx, c, 64);
    lemma_mod_offset(pr, vy, r, 32);
    lemma_fundamental_div_mod(idx, 64);
    let ic = idx % 64;
    let ir = idx / 64;
    assert(0 <= ir < 32) by {
        assert(idx == 64 * ir + ic);
    }
    lemma_mod_offset(ic, vx, c, 64);
    lemma_mod_offset(ir, vy, r, 32);
}

/// The screen while drawing a sprite: the bits before `(r, c)` are drawn, and
/// `overlap` tells whether one of them turned a pixel off
pub open spec fn draw_progress(
    screen: Seq<bool>,
    overlap: bool,
    old_screen: Seq<bool>,
    mem: Seq<u8>,
    i: int,
    vx: int,
    vy: int,
    n: int,
    r: int,
    c: int,
) -> bool {
    &&& screen.len() == SCREEN_BUF_SIZE
    &&& old_screen.len() == SCREEN_BUF_SIZE
    &&& forall|idx: int|
        0 <= idx < SCREEN_BUF_SIZE ==> #[trigger] screen[idx] == (old_screen[idx] != (covered(
            mem,
            i,
            vx,
            vy,
            n,
            idx,
        ) && drawn_before(vx, vy, idx, r, c)))
    &&& overlap == exists|idx: int|
        0 <= idx < SCREEN_BUF_SIZE && #[trigger] covered(mem, i, vx, vy, n, idx) && drawn_before(
            vx,
            vy,
            idx,
            r,
            c,
        ) && old_screen[idx]
}

/// Draws bit `(row, col)` of a sprite
fn draw_bit(
    screen: &mut [bool; SCREEN_BUF_SIZE],
    overlap: &mut bool,
    byte: u8,
    vx: usize,
    vy: usize,
    row: usize,
    col: usize,
    Ghost(old_screen): Ghost<Seq<bool>>,
    Ghost(mem): Ghost<Seq<u8>>,
    Ghost(i): Ghost<int>,
    Ghost(n): Ghost<int>,
)
    requires
        row < n < 16,
        col < 8,
        vx < 256 && vy < 256,
        0 <= i,
        i + n <= mem.len(),
        byte == mem[i + row],
        draw_progress(
            old(screen)@,
            *old(overlap),
            old_screen,
            mem,
            i,
            vx as int,
            vy as int,
            n,
            row as int,
            col as int,
        ),
    ensures
        draw_progress(
            final(screen)@,
            *final(overlap),
            old_screen,
            mem,
            i,
            vx as int,
            vy as int,
            n,
            row as int,
            col + 1,
        ),
{
    let p = (vx + col) % SCREEN_WIDTH + ((vy + row) % SCREEN_HEIGHT) * SCREEN_WIDTH;
    let ghost before = screen@;
    let ghost was_overlap = *overlap;
    let ghost cx = vx as int;
    let ghost cy = vy as int;
    proof {
        lemma_sprite_pixel(cx, cy, row as int, col as int, 0);
        assert(p == sprite_pixel(cx, cy, row as int, col as int));
    }
    let set = (byte >> ((7 - col) as u8)) & 1u8 == 1u8;
    if set {
        if screen[p] {
            screen[p] = false;
            *overlap = true;
        } else {
            screen[p] = true;
        }
    }
    proof {
        assert(covered(mem, i, cx, cy, n, p as int) == set);
        assert forall|idx: int| 0 <= idx < SCREEN_BUF_SIZE implies #[trigger] screen@[idx] == (
        old_screen[idx] != (covered(mem, i, cx, cy, n, idx) && drawn_before(
            cx,
            cy,
            idx,
            row as int,
            col + 1,
        ))) by {
            lemma_sprite_pixel(cx, cy, row as int, col as int, idx);
            if idx != p {
                assert(before[idx] == screen@[idx]);
            }
        }
        if set && was_overlap {
            let w = choose|w: int|
                0 <= w < SCREEN_BUF_SIZE && #[trigger] covered(mem, i, cx, cy, n, w) && drawn_before(
                    cx,
                    cy,
                    w,
                    row as int,
                    col as int,
                ) && old_screen[w];
            assert(drawn_before(cx, cy, w, row as int, col + 1));
        } else if set && *overlap {
            assert(covered(mem, i, cx, cy, n, p as int) && drawn_before(
                cx,
                cy,
                p as int,
                row as int,
                col + 1,
            ) && old_screen[p as int]);
        }
        if !*overlap {
            assert forall|idx: int|
                0 <= idx < SCREEN_BUF_SIZE && #[trigger] covered(mem, i, cx, cy, n, idx)
                    && drawn_before(cx, cy, idx, row as int, col + 1) implies !old_screen[idx] by {
                lemma_sprite_pixel(cx, cy, row as int, col as int, idx);
                if idx != p {
                    assert(!(covered(mem, i, cx, cy, n, idx) && drawn_before(
                        cx,
                        cy,
                        idx,
                        row as int,
                        col as int,
                    ) && old_screen[idx]));
                }
            }
        }
    }
}

/// Drawn bits of a row lead to the start of the next row
proof fn lemma_next_row(
    screen: Seq<bool>,
    overlap: bool,
    old_screen: Seq<bool>,
    mem: Seq<u8>,
    i: int,
    vx: int,
    vy: int,
    n: int,
    r: int,
)
    requires
        draw_progress(screen, overlap, old_screen, mem, i, vx, vy, n, r, 8),
    ensures
        draw_progress(screen, overlap, old_screen, mem, i, vx, vy, n, r + 1, 0),
{
    assert forall|idx: int| 0 <= idx < SCREEN_BUF_SIZE implies (covered(mem, i, vx, vy, n, idx)
        && drawn_before(vx, vy, idx, r, 8)) == (covered(mem, i, vx, vy, n, idx) && drawn_before(
        vx,
        vy,
        idx,
        r + 1,
        0,
    )) by {}
    if overlap {
        let w = choose|w: int|
            0 <= w < SCREEN_BUF_SIZE && #[trigger] covered(mem, i, vx, vy, n, w) && drawn_before(
                vx,
                vy,
                w,
                r,
                8,
            ) && old_screen[w];
        assert(drawn_before(vx, vy, w, r + 1, 0));
    }
}

impl Emu {
    /// Draws an `n`-row sprite from `I` at `(Vx, Vy)`; a sprite that would read
    /// past the memory is an error
    pub fn screen_draw(&mut self, x: u8, y: u8, n: u8)
        requires
            x < REG_COUNT,
            y < REG_COUNT,
            n < 16,
        ensures
            old(self).becomes(*final(self), old(self).model().drawn(x as int, y as int, n as int)),
    {
        let vx = self.regs.get(x) as usize;
        let vy = self.regs.get(y) as usize;
        let i = self.index as usize;
        if i + n as usize > MEMORY_SIZE {
            self.error = true;
            return ;
        }
        let ghost old_screen = self.screen@;
        let ghost mem = self.memory@;
        let mut overlap = false;
        let mut row: usize = 0;
        proof {
            assert(self.screen@ =~= old_screen);
        }
        while row < n as usize
            invariant
                row <= n < 16,
                i + n <= MEMORY_SIZE,
                vx < 256 && vy < 256,
                mem == self.memory@,
                mem.len() == MEMORY_SIZE,
                draw_progress(
                    self.screen@,
                    overlap,
                    old_screen,
                    mem,
                    i as int,
                    vx as int,
                    vy as int,
                    n as int,
                    row as int,
                    0,
                ),
                old(self).same_but_screen(*self),
            decreases n - row,
        {
            let byte = self.memory[i + row];
            let mut col: usize = 0;
            while col < 8
                invariant
                    row < n < 16,
                    col <= 8,
                    i + n <= MEMORY_SIZE,
                    vx < 256 && vy < 256,
                    mem.len() == MEMORY_SIZE,
                    byte == mem[i + row],
                    draw_progress(
                        self.screen@,
                        overlap,
                        old_screen,
                        mem,
                        i as int,
                        vx as int,
                        vy as int,
                        n as int,
                        row as int,
                        col as int,
                    ),
                    old(self).same_but_screen(*self),
                decreases 8 - col,
            {
                draw_bit(
                    &mut self.screen,
                    &mut overlap,
                    byte,
                    vx,
                    vy,
                    row,
                    col,
                    Ghost(old_screen),
                    Ghost(mem),
                    Ghost(i as int),
                    Ghost(n as int),
                );
                col += 1;
            }
            proof {
                lemma_next_row(
                    self.screen@,
                    overlap,
                    old_screen,
                    mem,
                    i as int,
                    vx as int,
                    vy as int,
                    n as int,
                    row as int,
                );
            }
            row += 1;
        }
        let flag: u8 = if overlap {
            1
        } else {
            0
        };
        self.regs.set(0xf, flag);
        proof {
            let v = old(self).model();
            let d = v.drawn(x as int, y as int, n as int);
            let ci = i as int;
            let cx = vx as int;
            let cy = vy as int;
            let cn = n as int;
            assert forall|idx: int|
                0 <= idx < SCREEN_BUF_SIZE implies (covered(mem, ci, cx, cy, cn, idx)
                && drawn_before(cx, cy, idx, cn, 0)) == covered(mem, ci, cx, cy, cn, idx) by {}
            assert(self.screen@ =~= d.screen);
            assert(self.regs.regs@ =~= d.regs);
        }
    }
}


impl Emu {
    /// Turns every pixel off
    pub fn clear_screen(&mut self)
        ensures
            old(self).becomes(
                *final(self),
                EmuView {
                    screen: Seq::new(SCREEN_BUF_SIZE as nat, |i: int| false),
                    ..old(self).model()
                },
            ),
    {
        let mut i: usize = 0;
        while i < SCREEN_BUF_SIZE
            invariant
                i <= SCREEN_BUF_SIZE,
                old(self).same_but_screen(*self),
                self.screen@.len() == SCREEN_BUF_SIZE,
                forall|j: int| 0 <= j < i ==> !#[trigger] self.screen@[j],
            decreases SCREEN_BUF_SIZE - i,
        {
            self.screen[i] = false;
            i += 1;
        }
        assert(self.screen@ =~= Seq::new(SCREEN_BUF_SIZE as nat, |i: int| false));
    }

    /// Heats the CPU by the heat of one jump, up to the maximum
    pub fn heat_up(&mut self)
        ensures
            final(self).heat == heated(old(self).heat),
            old(self).same_but_heat(*final(self)),
    {
        if self.heat > MAX_HEAT - HEAT_SPEED {
            self.heat = MAX_HEAT;
        } else {
            self.heat = self.heat + HEAT_SPEED;
        }
    }

    /// Whether `o` differs from this emulator in the error and key check flags only
    pub open spec fn same_but_flags(&self, o: Emu) -> bool {
        &&& o.screen == self.screen
        &&& o.pc == self.pc
        &&& o.sp == self.sp
        &&& o.index == self.index
        &&& o.stack == self.stack
        &&& o.program == self.program
        &&& o.memory == self.memory
        &&& o.regs == self.regs
        &&& o.delay_timer == self.delay_timer
        &&& o.sound_timer == self.sound_timer
        &&& o.pressed_keys == self.pressed_keys
        &&& o.cur_ins == self.cur_ins
        &&& o.wait_for_keypress == self.wait_for_keypress
        &&& o.speed == self.speed
        &&& o.heat == self.heat
    }

    /// Whether `o` differs from this emulator in the heat only
    pub open spec fn same_but_heat(&self, o: Emu) -> bool {
        &&& o.screen == self.screen
        &&& o.pc == self.pc
        &&& o.sp == self.sp
        &&& o.index == self.index
        &&& o.stack == self.stack
        &&& o.program == self.program
        &&& o.memory == self.memory
        &&& o.regs == self.regs
        &&& o.delay_timer == self.delay_timer
        &&& o.sound_timer == self.sound_timer
        &&& o.pressed_keys == self.pressed_keys
        &&& o.cur_ins == self.cur_ins
        &&& o.wait_for_keypress == self.wait_for_keypress
        &&& o.key_checked == self.key_checked
        &&& o.speed == self.speed
        &&& o.error == self.error
    }

    /// Continues at `addr`; every jump heats the CPU a little
    pub fn jump(&mut self, addr: u16)
        ensures
            old(self).becomes(*final(self), old(self).model().jump(addr as int)),
    {
        self.heat_up();
        self.pc = addr;
    }

    fn skip_if(&mut self, cond: bool)
        requires
            old(self).pc <= MEMORY_SIZE,
        ensures
            old(self).becomes(*final(self), old(self).model().skip_if(cond)),
    {
        if cond {
            self.pc = self.pc + 2;
        }
    }

    /// Whether `key` (modulo the key count) is pressed; records that a key was checked
    pub fn is_key_pressed(&mut self, key: u8) -> (r: bool)
        ensures
            r == old(self).model().key_pressed(key),
            old(self).becomes(*final(self), EmuView { key_checked: true, ..old(self).model() }),
    {
        self.key_checked = true;
        self.pressed_keys[key as usize % KEYS_COUNT]
    }

    /// Byte at `addr`
    pub fn mem_get(&self, addr: u16) -> (r: u8)
        requires
            addr < MEMORY_SIZE,
        ensures
            r == self.memory@[addr as int],
    {
        self.memory[addr as usize]
    }

    /// `I = (I + addr) mod memory size`
    pub fn inc_index(&mut self, addr: u16)
        ensures
            old(self).becomes(
                *final(self),
                EmuView {
                    index: ((old(self).index + addr) % MEMORY_SIZE as int) as u16,
                    ..old(self).model()
                },
            ),
    {
        self.index = ((self.index as u32 + addr as u32) % MEMORY_SIZE as u32) as u16;
    }

    /// Pushes the program counter; an overflow wraps the stack and is an error
    pub fn stack_push(&mut self)
        requires
            old(self).sp < STACK_SIZE,
        ensures
            final(self).sp < STACK_SIZE,
            old(self).becomes(
                *final(self),
                if old(self).sp + 1 >= STACK_SIZE {
                    EmuView {
                        stack: old(self).model().stack.update(old(self).sp as int, old(self).pc),
                        sp: 0,
                        error: true,
                        ..old(self).model()
                    }
                } else {
                    EmuView {
                        stack: old(self).model().stack.update(old(self).sp as int, old(self).pc),
                        sp: (old(self).sp + 1) as u16,
                        ..old(self).model()
                    }
                },
            ),
    {
        self.stack[self.sp as usize] = self.pc;
        self.sp = self.sp + 1;
        if self.sp as usize >= STACK_SIZE {
            self.sp = 0;
            self.error = true;
        }
    }

    /// Pops the last address; an underflow is an error and gives the address
    /// `random` modulo the memory size
    pub fn stack_pop(&mut self, random: u32) -> (r: u16)
        requires
            old(self).sp < STACK_SIZE,
        ensures
            old(self).sp == 0 ==> r == random % MEMORY_SIZE as u32 && old(self).becomes(
                *final(self),
                EmuView { error: true, ..old(self).model() },
            ),
            old(self).sp > 0 ==> r == old(self).stack@[old(self).sp - 1] && old(self).becomes(
                *final(self),
                EmuView { sp: (old(self).sp - 1) as u16, ..old(self).model() },
            ),
    {
        if self.sp == 0 {
            self.error = true;
            return (random % MEMORY_SIZE as u32) as u16;
        }
        self.sp = self.sp - 1;
        self.stack[self.sp as usize]
    }

    /// Stores hundreds, tens and ones of `Vx` at `I`, `I + 1` and `I + 2`
    pub fn store_bcd(&mut self, x: u8)
        requires
            x < REG_COUNT,
        ensures
            old(self).becomes(*final(self), old(self).model().bcd_stored(x as int)),
    {
        let vx = self.regs.get(x);
        let i = self.index as usize;
        if i + 2 >= MEMORY_SIZE {
            self.error = true;
            return ;
        }
        self.memory[i] = vx / 100;
        self.memory[i + 1] = (vx % 100) / 10;
        self.memory[i + 2] = vx % 10;
    }

    /// Stores `V0..=Vx` at `I..=I + x`
    pub fn store_through(&mut self, x: u8)
        requires
            x < REG_COUNT,
        ensures
            old(self).becomes(*final(self), old(self).model().stored_through(x as int)),
    {
        let i = self.index as usize;
        if i + x as usize >= MEMORY_SIZE {
            self.error = true;
            return ;
        }
        let mut v: u8 = 0;
        while v <= x
            invariant
                x < REG_COUNT,
                v <= x + 1,
                i + x < MEMORY_SIZE,
                i == old(self).index,
                self.memory@.len() == MEMORY_SIZE,
                self.regs == old(self).regs,
                forall|j: int|
                    0 <= j < MEMORY_SIZE ==> #[trigger] self.memory@[j] == if i <= j < i + v {
                        self.regs.regs@[j - i]
                    } else {
                        old(self).memory@[j]
                    },
                self.screen == old(self).screen,
                self.pc == old(self).pc,
                self.sp == old(self).sp,
                self.index == old(self).index,
                self.stack == old(self).stack,
                self.program == old(self).program,
                self.delay_timer == old(self).delay_timer,
                self.sound_timer == old(self).sound_timer,
                self.pressed_keys == old(self).pressed_keys,
                self.cur_ins == old(self).cur_ins,
                self.wait_for_keypress == old(self).wait_for_keypress,
                self.key_checked == old(self).key_checked,
                self.speed == old(self).speed,
                self.error == old(self).error,
                self.heat == old(self).heat,
            decreases x + 1 - v,
        {
            self.memory[i + v as usize] = self.regs.get(v);
            v += 1;
        }
        assert(self.memory@ =~= old(self).model().stored_through(x as int).memory);
    }

    /// Reads `I..=I + x` into `V0..=Vx`
    pub fn read_through(&mut self, x: u8)
        requires
            x < REG_COUNT,
        ensures
            old(self).becomes(*final(self), old(self).model().read_through(x as int)),
    {
        let i = self.index as usize;
        if i + x as usize >= MEMORY_SIZE {
            self.error = true;
            return ;
        }
        let mut v: u8 = 0;
        while v <= x
            invariant
                x < REG_COUNT,
                v <= x + 1,
                i + x < MEMORY_SIZE,
                self.regs.regs@.len() == REG_COUNT,
                self.memory == old(self).memory,
                forall|j: int|
                    0 <= j < REG_COUNT ==> #[trigger] self.regs.regs@[j] == if j < v {
                        self.memory@[i + j]
                    } else {
                        old(self).regs.regs@[j]
                    },
                self.screen == old(self).screen,
                self.pc == old(self).pc,
                self.sp == old(self).sp,
                self.index == old(self).index,
                self.stack == old(self).stack,
                self.program == old(self).program,
                self.delay_timer == old(self).delay_timer,
                self.sound_timer == old(self).sound_timer,
                self.pressed_keys == old(self).pressed_keys,
                self.cur_ins == old(self).cur_ins,
                self.wait_for_keypress == old(self).wait_for_keypress,
                self.key_checked == old(self).key_checked,
                self.speed == old(self).speed,
                self.error == old(self).error,
                self.heat == old(self).heat,
            decreases x + 1 - v,
        {
            let b = self.memory[i + v as usize];
            self.regs.set(v, b);
            v += 1;
        }
        assert(self.regs.regs@ =~= old(self).model().read_through(x as int).regs);
    }
}


impl Emu {
    /// Executes the current instruction, with `random` as the random number it
    /// may draw; an unknown instruction is an error
    #[verifier::rlimit(50)]
    pub fn execute_with(&mut self, random: u32)
        requires
            old(self).wf(),
            old(self).pc <= MEMORY_SIZE,
        ensures
            final(self).wf(),
            old(self).becomes(*final(self), old(self).model().executed(random)),
    {
        let hi = self.cur_ins.0;
        let lo = self.cur_ins.1;
        let a = hi / 16;
        let x = hi % 16;
        let y = lo / 16;
        let n = lo % 16;
        let addr: u16 = x as u16 * 256 + lo as u16;
        let byte = lo;
        let vx = self.regs.get(x);
        let vy = self.regs.get(y);
        if a == 0 && x == 0 && y == 0xe && n == 0 {
            self.clear_screen();
        } else if a == 0xd {
            self.screen_draw(x, y, n);
        } else if a == 0 && x == 0 && y == 0xe && n == 0xe {
            let to = self.stack_pop(random);
            self.jump(to);
        } else if a == 1 {
            self.jump(addr);
        } else if a == 0xb {
            let v0 = self.regs.get(0);
            self.jump(addr + v0 as u16);
        } else if a == 2 {
            self.stack_push();
            self.jump(addr);
        } else if a == 3 {
            self.skip_if(vx == byte);
        } else if a == 4 {
            self.skip_if(vx != byte);
        } else if a == 5 && n == 0 {
            self.skip_if(vx == vy);
        } else if a == 9 && n == 0 {
            self.skip_if(vx != vy);
        } else if a == 0xf && y == 0 && n == 0xa {
            self.wait_for_keypress = Some(x);
        } else if a == 0xe && y == 9 && n == 0xe {
            let pressed = self.is_key_pressed(vx);
            self.skip_if(pressed);
        } else if a == 0xe && y == 0xa && n == 1 {
            let pressed = self.is_key_pressed(vx);
            self.skip_if(!pressed);
        } else if a == 6 {
            self.regs.set(x, byte);
        } else if a == 7 {
            self.regs.set(x, ((vx as u16 + byte as u16) % 256) as u8);
        } else if a == 8 && n == 0 {
            self.regs.set(x, vy);
        } else if a == 8 && n == 4 {
            self.add_vx_vy(x, y);
        } else if a == 8 && n == 5 {
            self.sub_vx_vy(x, y);
        } else if a == 0xc {
            self.set_rand(x, byte, random);
        } else if a == 8 && n == 1 {
            self.regs.set(x, vx | vy);
        } else if a == 8 && n == 2 {
            self.regs.set(x, vx & vy);
        } else if a == 8 && n == 3 {
            self.regs.set(x, vx ^ vy);
        } else if a == 8 && n == 6 {
            self.shift_right(x);
        } else if a == 8 && n == 7 {
            self.sub_vy_vx(y, x);
        } else if a == 8 && n == 0xe {
            self.shift_left(x);
        } else if a == 0xf && y == 0 && n == 7 {
            let dt = self.delay_timer;
            self.regs.set(x, dt);
        } else if a == 0xf && y == 1 && n == 5 {
            self.delay_timer = vx;
        } else if a == 0xf && y == 1 && n == 8 {
            self.sound_timer = vx;
        } else if a == 0xa {
            self.index = addr;
        } else if a == 0xf && y == 1 && n == 0xe {
            self.inc_index(vx as u16);
        } else if a == 0xf && y == 2 && n == 9 {
            self.set_index_sprite_addr(x);
        } else if a == 0xf && y == 3 && n == 3 {
            self.store_bcd(x);
        } else if a == 0xf && y == 5 && n == 5 {
            self.store_through(x);
        } else if a == 0xf && y == 6 && n == 5 {
            self.read_through(x);
        } else if a == 0 {
        } else {
            self.error = true;
        }
    }

    /// `Vx = Vx + Vy`, `VF` = carry
    pub fn add_vx_vy(&mut self, x: u8, y: u8)
        requires
            x < REG_COUNT,
            y < REG_COUNT,
        ensures
            ({
                let v = old(self).model();
                let vx = v.reg(x as int);
                let vy = v.reg(y as int);
                old(self).becomes(
                    *final(self),
                    v.with_reg(x as int, ((vx + vy) % 256) as u8).with_reg(
                        0xf,
                        if vx + vy > 255 {
                            1
                        } else {
                            0
                        },
                    ),
                )
            }),
    {
        let vx = self.regs.get(x);
        let vy = self.regs.get(y);
        let sum = vx as u16 + vy as u16;
        self.regs.set(x, (sum % 256) as u8);
        self.regs.set(
            0xf,
            if sum > 255 {
                1
            } else {
                0
            },
        );
    }

    /// `VF` = no borrow, then `Vx = Vx - Vy`
    pub fn sub_vx_vy(&mut self, x: u8, y: u8)
        requires
            x < REG_COUNT,
            y < REG_COUNT,
        ensures
            ({
                let v = old(self).model();
                let vx = v.reg(x as int);
                let vy = v.reg(y as int);
                old(self).becomes(
                    *final(self),
                    v.with_reg(
                        0xf,
                        if vx > vy {
                            1
                        } else {
                            0
                        },
                    ).with_reg(x as int, ((vx - vy + 256) % 256) as u8),
                )
            }),
    {
        let vx = self.regs.get(x);
        let vy = self.regs.get(y);
        self.regs.set(
            0xf,
            if vx > vy {
                1
            } else {
                0
            },
        );
        self.regs.set(x, ((vx as u16 + 256 - vy as u16) % 256) as u8);
    }

    /// `VF` = no borrow, then `Vx = Vy - Vx`
    pub fn sub_vy_vx(&mut self, x: u8, y: u8)
        requires
            x < REG_COUNT,
            y < REG_COUNT,
        ensures
            ({
                let v = old(self).model();
                let vx = v.reg(x as int);
                let vy = v.reg(y as int);
                old(self).becomes(
                    *final(self),
                    v.with_reg(
                        0xf,
                        if vy > vx {
                            1
                        } else {
                            0
                        },
                    ).with_reg(x as int, ((vy - vx + 256) % 256) as u8),
                )
            }),
    {
        let vx = self.regs.get(x);
        let vy = self.regs.get(y);
        self.regs.set(
            0xf,
            if vy > vx {
                1
            } else {
                0
            },
        );
        self.regs.set(x, ((vy as u16 + 256 - vx as u16) % 256) as u8);
    }

    /// `VF` = lowest bit of `Vx`, then `Vx = Vx / 2`
    pub fn shift_right(&mut self, x: u8)
        requires
            x < REG_COUNT,
        ensures
            ({
                let v = old(self).model();
                let f = v.with_reg(0xf, v.reg(x as int) & 1);
                old(self).becomes(*final(self), f.with_reg(x as int, f.reg(x as int) / 2))
            }),
    {
        let vx = self.regs.get(x);
        self.regs.set(0xf, vx & 1);
        let v = self.regs.get(x);
        self.regs.set(x, v / 2);
    }

    /// `VF` = highest bit of `Vx`, then `Vx = Vx * 2`
    pub fn shift_left(&mut self, x: u8)
        requires
            x < REG_COUNT,
        ensures
            ({
                let v = old(self).model();
                let f = v.with_reg(0xf, (v.reg(x as int) & 0x80) >> 7u8);
                old(self).becomes(
                    *final(self),
                    f.with_reg(x as int, ((f.reg(x as int) * 2) % 256) as u8),
                )
            }),
    {
        let vx = self.regs.get(x);
        self.regs.set(0xf, (vx & 0x80) >> 7u8);
        let v = self.regs.get(x);
        self.regs.set(x, ((v as u16 * 2) % 256) as u8);
    }

    /// `Vx = (random mod 255) & byte`
    pub fn set_rand(&mut self, x: u8, byte: u8, random: u32)
        requires
            x < REG_COUNT,
        ensures
            old(self).becomes(
                *final(self),
                old(self).model().with_reg(x as int, ((random % 255) as u8) & byte),
            ),
    {
        self.regs.set(x, ((random % 255) as u8) & byte);
    }

    /// `I` = address of the font glyph of `Vx`
    pub fn set_index_sprite_addr(&mut self, x: u8)
        requires
            x < REG_COUNT,
        ensures
            old(self).becomes(
                *final(self),
                EmuView {
                    index: (old(self).model().reg(x as int) * CHAR_HEIGHT) as u16,
                    ..old(self).model()
                },
            ),
    {
        self.index = self.regs.get(x) as u16 * CHAR_HEIGHT;
    }
}


/// The state of a reset emulator with the given heat
pub open spec fn reset_view(heat: u32) -> EmuView {
    EmuView {
        screen: Seq::new(SCREEN_BUF_SIZE as nat, |i: int| false),
        pc: 0,
        sp: 0,
        index: 0,
        stack: Seq::new(STACK_SIZE as nat, |i: int| 0u16),
        memory: Seq::new(MEMORY_SIZE as nat, |i: int| 0u8),
        regs: Seq::new(REG_COUNT as nat, |i: int| 0u8),
        delay_timer: 0,
        sound_timer: 0,
        pressed_keys: Seq::new(KEYS_COUNT as nat, |i: int| false),
        cur_ins: (0, 0),
        wait_for_keypress: None,
        key_checked: false,
        error: false,
        heat,
    }
}

/// Memory after setup: the font, then zeros, then the program from its start address
pub open spec fn setup_memory(program: Seq<u8>) -> Seq<u8> {
    Seq::new(
        MEMORY_SIZE as nat,
        |j: int|
            if j < FONT_SIZE {
                font()[j]
            } else if j < PROGRAM_START_ADDR {
                0u8
            } else {
                program[j - PROGRAM_START_ADDR]
            },
    )
}

/// The state after steps drawing `randoms`, in order
pub open spec fn run_steps(v: EmuView, randoms: Seq<u32>) -> EmuView
    decreases randoms.len(),
{
    if randoms.len() == 0 {
        v
    } else {
        run_steps(v, randoms.drop_last()).stepped(randoms.last())
    }
}

/// Number of steps per frame at `speed`, rounded
pub open spec fn steps_at(speed: i32) -> int {
    (STEPS_PER_FRAME * speed + ONE / 2) / (ONE as int)
}

impl Default for Emu {
    fn default() -> (r: Emu)
        ensures
            r.wf(),
            r.model() == reset_view(0),
            r.program@ == Seq::new(PROGRAM_SIZE as nat, |i: int| 0u8),
            r.speed == ONE,
    {
        Emu::new()
    }
}

impl Emu {
    pub fn new() -> (r: Emu)
        ensures
            r.wf(),
            r.model() == reset_view(0),
            r.program@ == Seq::new(PROGRAM_SIZE as nat, |i: int| 0u8),
            r.speed == ONE,
    {
        let r = Emu {
            screen: [false; SCREEN_BUF_SIZE],
            pc: 0,
            sp: 0,
            index: 0,
            stack: [0; STACK_SIZE],
            program: [0; PROGRAM_SIZE],
            memory: [0; MEMORY_SIZE],
            regs: Registers::new(),
            delay_timer: 0,
            sound_timer: 0,
            pressed_keys: [false; KEYS_COUNT],
            cur_ins: (0, 0),
            wait_for_keypress: None,
            key_checked: false,
            speed: ONE,
            error: false,
            heat: 0,
        };
        assert(r.model() =~= reset_view(0)) by {
            assert(r.screen@ =~= reset_view(0).screen);
            assert(r.stack@ =~= reset_view(0).stack);
            assert(r.memory@ =~= reset_view(0).memory);
            assert(r.pressed_keys@ =~= reset_view(0).pressed_keys);
        }
        assert(r.program@ =~= Seq::new(PROGRAM_SIZE as nat, |i: int| 0u8));
        r
    }

    /// Resets everything but the program, the speed and the heat
    pub fn reset(&mut self)
        requires
            old(self).wf(),
        ensures
            final(self).wf(),
            old(self).becomes(*final(self), reset_view(old(self).heat)),
    {
        let mut fresh = Emu::new();
        std::mem::swap(&mut fresh.program, &mut self.program);
        fresh.speed = self.speed;
        fresh.heat = self.heat;
        *self = fresh;
    }

    /// Resets, then loads the font and the program into the memory and starts
    /// at the program start address
    pub fn setup(&mut self)
        requires
            old(self).wf(),
        ensures
            final(self).wf(),
            old(self).becomes(
                *final(self),
                EmuView {
                    memory: setup_memory(old(self).program@),
                    pc: PROGRAM_START_ADDR as u16,
                    ..reset_view(old(self).heat)
                },
            ),
    {
        self.reset();
        let glyphs = font_bytes();
        let mut j: usize = 0;
        while j < FONT_SIZE
            invariant
                j <= FONT_SIZE,
                glyphs@ == font(),
                self.memory@.len() == MEMORY_SIZE,
                forall|k: int|
                    0 <= k < MEMORY_SIZE ==> #[trigger] self.memory@[k] == if k < j {
                        font()[k]
                    } else {
                        0u8
                    },
                self.wf(),
                old(self).becomes(*self, EmuView { memory: self.memory@, ..reset_view(old(self).heat) }),
            decreases FONT_SIZE - j,
        {
            self.memory[j] = glyphs[j];
            j += 1;
        }
        let mut k: usize = 0;
        while k < PROGRAM_SIZE
            invariant
                k <= PROGRAM_SIZE,
                self.memory@.len() == MEMORY_SIZE,
                forall|m: int|
                    0 <= m < MEMORY_SIZE ==> #[trigger] self.memory@[m] == if m < FONT_SIZE {
                        font()[m]
                    } else if m < PROGRAM_START_ADDR + k {
                        setup_memory(old(self).program@)[m]
                    } else {
                        0u8
                    },
                self.wf(),
                old(self).becomes(*self, EmuView { memory: self.memory@, ..reset_view(old(self).heat) }),
            decreases PROGRAM_SIZE - k,
        {
            self.memory[PROGRAM_START_ADDR + k] = self.program[k];
            k += 1;
        }
        assert(self.memory@ =~= setup_memory(old(self).program@));
        self.pc = PROGRAM_START_ADDR as u16;
    }

    /// Stores a program, cropped to `PROGRAM_SIZE` bytes, and sets up the emulator
    pub fn load(&mut self, program: &[u8])
        requires
            old(self).wf(),
        ensures
            final(self).wf(),
            final(self).program@ == Seq::new(
                PROGRAM_SIZE as nat,
                |j: int|
                    if j < program@.len() {
                        program@[j]
                    } else {
                        old(self).program@[j]
                    },
            ),
            final(self).speed == old(self).speed,
            final(self).model() == (EmuView {
                memory: setup_memory(final(self).program@),
                pc: PROGRAM_START_ADDR as u16,
                ..reset_view(old(self).heat)
            }),
    {
        let len = if program.len() < PROGRAM_SIZE {
            program.len()
        } else {
            PROGRAM_SIZE
        };
        let mut j: usize = 0;
        while j < len
            invariant
                j <= len,
                len <= PROGRAM_SIZE,
                len <= program@.len(),
                len == program@.len() || len == PROGRAM_SIZE,
                self.wf(),
                self.program@.len() == PROGRAM_SIZE,
                self.speed == old(self).speed,
                self.heat == old(self).heat,
                forall|m: int|
                    0 <= m < PROGRAM_SIZE ==> #[trigger] self.program@[m] == if m < j {
                        program@[m]
                    } else {
                        old(self).program@[m]
                    },
            decreases len - j,
        {
            self.program[j] = program[j];
            j += 1;
        }
        assert(self.program@ =~= Seq::new(
            PROGRAM_SIZE as nat,
            |j: int|
                if j < program@.len() {
                    program@[j]
                } else {
                    old(self).program@[j]
                },
        ));
        self.setup();
    }

    /// Counts both timers down by one, stopping at zero
    pub fn update_timers(&mut self)
        ensures
            old(self).becomes(
                *final(self),
                EmuView {
                    delay_timer: if old(self).delay_timer > 0 {
                        (old(self).delay_timer - 1) as u8
                    } else {
                        0
                    },
                    sound_timer: if old(self).sound_timer > 0 {
                        (old(self).sound_timer - 1) as u8
                    } else {
                        0
                    },
                    ..old(self).model()
                },
            ),
    {
        self.delay_timer = self.delay_timer.saturating_sub(1);
        self.sound_timer = self.sound_timer.saturating_sub(1);
    }

    /// Fetches the next instruction and executes it with `random` as the
    /// random number it may draw
    pub fn step_with(&mut self, random: u32)
        requires
            old(self).wf(),
        ensures
            final(self).wf(),
            old(self).becomes(*final(self), old(self).model().stepped(random)),
    {
        if self.pc as usize >= MEMORY_SIZE - 1 {
            self.pc = PROGRAM_START_ADDR as u16;
        }
        if self.wait_for_keypress.is_some() {
            return ;
        }
        let pc = self.pc as usize;
        self.cur_ins = (self.memory[pc], self.memory[pc + 1]);
        self.pc = self.pc + 2;
        self.execute_with(random);
    }

    /// Fetches the next instruction and executes it, drawing a random number
    /// only for an instruction that needs one
    pub fn step(&mut self)
        requires
            old(self).wf(),
        ensures
            final(self).wf(),
            exists|random: u32| old(self).becomes(*final(self), #[trigger] old(self).model().stepped(random)),
    {
        let pc = if self.pc as usize >= MEMORY_SIZE - 1 {
            PROGRAM_START_ADDR
        } else {
            self.pc as usize
        };
        let hi = self.memory[pc];
        let lo = self.memory[pc + 1];
        let needs = hi / 16 == 0xc || (hi == 0 && lo == 0xee && self.sp == 0);
        let random = if needs {
            quad_rand::rand()
        } else {
            0
        };
        self.step_with(random);
    }

    /// Runs one frame: timers count down, then `steps_at(speed)` steps
    pub fn update(&mut self)
        requires
            old(self).wf(),
        ensures
            final(self).wf(),
            final(self).program == old(self).program,
            final(self).speed == old(self).speed,
            exists|randoms: Seq<u32>|
                randoms.len() == steps_at(old(self).speed) && final(self).model() == #[trigger] run_steps(
                    old(self).model().timers_counted(),
                    randoms,
                ),
    {
        self.update_timers();
        proof {
            assert(self.model() =~= old(self).model().timers_counted());
        }
        let ghost start = self.model();
        let n = ((STEPS_PER_FRAME as i64 * self.speed as i64 + (ONE / 2) as i64) / ONE as i64) as u8;
        proof {
            assert(0 <= steps_at(self.speed) <= 100) by (nonlinear_arith)
                requires
                    0 <= self.speed <= MAX_SPEED,
            ;
        }
        let ghost mut randoms: Seq<u32> = Seq::empty();
        let mut k: u8 = 0;
        while k < n
            invariant
                self.wf(),
                self.program == old(self).program,
                self.speed == old(self).speed,
                k <= n,
                n == steps_at(old(self).speed),
                randoms.len() == k,
                self.model() == run_steps(start, randoms),
            decreases n - k,
        {
            let ghost before = self.model();
            self.step();
            proof {
                assert(exists|r: u32| self.model() == #[trigger] before.stepped(r));
                let r = choose|r: u32| self.model() == #[trigger] before.stepped(r);
                let prev = randoms;
                randoms = randoms.push(r);
                assert(randoms.drop_last() =~= prev);
                assert(randoms.last() == r);
            }
            k += 1;
        }
    }

    /// Cools the CPU by `multiplier` times the cooling of one frame, down to zero
    pub fn cool_down(&mut self, multiplier: u32)
        ensures
            final(self).heat == (if old(self).heat > COOL_SPEED * multiplier {
                old(self).heat - COOL_SPEED * multiplier
            } else {
                0
            }),
            old(self).same_but_heat(*final(self)),
    {
        let cooling = COOL_SPEED as u64 * multiplier as u64;
        if self.heat as u64 > cooling {
            self.heat = (self.heat as u64 - cooling) as u32;
        } else {
            self.heat = 0;
        }
    }

    /// Sets the speed, clamped to `MIN_SPEED..=MAX_SPEED`
    pub fn set_speed(&mut self, speed: i32)
        ensures
            final(self).speed == (if speed < MIN_SPEED {
                MIN_SPEED
            } else if speed > MAX_SPEED {
                MAX_SPEED
            } else {
                speed
            }),
            final(self).model() == old(self).model(),
            final(self).program == old(self).program,
    {
        self.speed = if speed < MIN_SPEED {
            MIN_SPEED
        } else if speed > MAX_SPEED {
            MAX_SPEED
        } else {
            speed
        };
    }

    /// Changes the speed by `diff`, clamped to `MIN_SPEED..=MAX_SPEED`
    pub fn inc_speed(&mut self, diff: i32)
        requires
            MIN_SPEED <= old(self).speed <= MAX_SPEED,
        ensures
            final(self).speed == (if old(self).speed + diff < MIN_SPEED {
                MIN_SPEED
            } else if old(self).speed + diff > MAX_SPEED {
                MAX_SPEED
            } else {
                (old(self).speed + diff) as i32
            }),
            final(self).model() == old(self).model(),
            final(self).program == old(self).program,
    {
        let sum = self.speed as i64 + diff as i64;
        let clamped: i32 = if sum < MIN_SPEED as i64 {
            MIN_SPEED
        } else if sum > MAX_SPEED as i64 {
            MAX_SPEED
        } else {
            sum as i32
        };
        self.set_speed(clamped);
    }

    /// Records a key state; a fresh press ends a wait for a keypress, storing
    /// the key in the waiting register
    pub fn set_pressed_key(&mut self, key: u8, is_pressed: bool, just_pressed: bool)
        requires
            old(self).wf(),
            key < KEYS_COUNT,
        ensures
            final(self).wf(),
            ({
                let v = EmuView {
                    pressed_keys: old(self).model().pressed_keys.update(key as int, is_pressed),
                    ..old(self).model()
                };
                old(self).becomes(
                    *final(self),
                    match old(self).wait_for_keypress {
                        Some(x) if just_pressed => EmuView {
                            wait_for_keypress: None,
                            ..v.with_reg(x as int, key)
                        },
                        _ => v,
                    },
                )
            }),
    {
        self.pressed_keys[key as usize] = is_pressed;
        if just_pressed {
            if let Some(x) = self.wait_for_keypress {
                self.regs.set(x, key);
                self.wait_for_keypress = None;
            }
        }
    }

    /// Whether the CPU is hot
    pub fn is_hot(&self) -> (r: bool)
        ensures
            r == (self.heat >= HOT_LEVEL),
    {
        self.heat >= HOT_LEVEL
    }

    /// Whether the CPU is about to explode
    pub fn is_critical_heat(&self) -> (r: bool)
        ensures
            r == (self.heat >= CRITICAL_HEAT_LEVEL),
    {
        self.heat >= CRITICAL_HEAT_LEVEL
    }
}

} // verus!
