use chip_maximator::emu::{Emu, MEMORY_SIZE, PROGRAM_START_ADDR, SCREEN_WIDTH};
use chip_maximator::math::ONE;
use chip_maximator::state_leds::StateLeds;
use chip_maximator::timer::Time;

fn run(program: &[u8], steps: usize) -> Emu {
    let mut emu = Box::new(Emu::new());
    emu.load(program);
    for _ in 0..steps {
        emu.step();
    }
    *emu
}

#[test]
fn load_places_font_and_program() {
    let emu = run(&[0x12, 0x34], 0);
    assert_eq!(emu.pc as usize, PROGRAM_START_ADDR);
    assert_eq!(&emu.memory[..5], &[0xF0, 0x90, 0x90, 0x90, 0xF0]);
    assert_eq!(&emu.memory[75..80], &[0xF0, 0x80, 0xF0, 0x80, 0x80]);
    assert_eq!(emu.memory[80], 0);
    assert_eq!(&emu.memory[PROGRAM_START_ADDR..PROGRAM_START_ADDR + 2], &[0x12, 0x34]);
}

#[test]
fn registers_and_arithmetic() {
    // V0 = 0xF0, V1 = 0x20, V0 += V1 (carry), V2 = 5, V2 -= V1 (borrow)
    let emu = run(&[0x60, 0xF0, 0x61, 0x20, 0x80, 0x14, 0x62, 0x05, 0x82, 0x15], 5);
    assert_eq!(emu.regs.regs[0], 0x10);
    assert_eq!(emu.regs.regs[2], 0xE5);
    assert_eq!(emu.regs.regs[0xF], 0);
    let emu = run(&[0x60, 0xF0, 0x61, 0x20, 0x80, 0x14], 3);
    assert_eq!(emu.regs.regs[0xF], 1);
}

#[test]
fn jumps_calls_and_returns() {
    // 200: CALL 206; 202: V0 = 1; 204: JP 204; 206: V1 = 2; 208: RET
    let emu = run(&[0x22, 0x06, 0x60, 0x01, 0x12, 0x04, 0x61, 0x02, 0x00, 0xEE], 4);
    assert_eq!(emu.regs.regs[1], 2);
    assert_eq!(emu.regs.regs[0], 1);
    assert_eq!(emu.pc, 0x204);
    assert!(emu.heat > 0);
    assert!(!emu.error);
}

#[test]
fn return_on_empty_stack_is_an_error() {
    let emu = run(&[0x00, 0xEE], 1);
    assert!(emu.error);
    assert!((emu.pc as usize) < MEMORY_SIZE);
}

#[test]
fn skips_compare_registers() {
    // V0 = 3; skip if V0 == 3; V1 = 1 (skipped); V2 = 2
    let emu = run(&[0x60, 0x03, 0x30, 0x03, 0x61, 0x01, 0x62, 0x02], 3);
    assert_eq!(emu.regs.regs[1], 0);
    assert_eq!(emu.regs.regs[2], 2);
}

#[test]
fn draw_toggles_and_reports_collision() {
    // I = glyph 0; draw it at (0, 0) twice
    let emu = run(&[0x60, 0x00, 0xF0, 0x29, 0xD0, 0x05], 3);
    assert!(emu.screen[0] && emu.screen[3] && !emu.screen[4]);
    assert!(emu.screen[SCREEN_WIDTH] && !emu.screen[SCREEN_WIDTH + 1]);
    assert_eq!(emu.regs.regs[0xF], 0);
    let emu = run(&[0x60, 0x00, 0xF0, 0x29, 0xD0, 0x05, 0xD0, 0x05], 4);
    assert!(emu.screen.iter().all(|p| !p));
    assert_eq!(emu.regs.regs[0xF], 1);
}

#[test]
fn draw_wraps_around_the_screen() {
    // V0 = 62, V1 = 0, I = glyph 0, draw its first row at (V0, V1): bits 0..4 land on 62, 63, 0, 1
    let emu = run(&[0x60, 62, 0x61, 0x00, 0xA0, 0x00, 0xD0, 0x11], 4);
    assert!(emu.screen[62] && emu.screen[63] && emu.screen[0] && emu.screen[1]);
    assert!(!emu.screen[2]);
}

#[test]
fn bcd_and_memory_transfers() {
    // V0 = 254, I = 0x300, store BCD, read it back into V0..=V2
    let emu = run(&[0x60, 254, 0xA3, 0x00, 0xF0, 0x33, 0xF2, 0x65], 4);
    assert_eq!(&emu.memory[0x300..0x303], &[2, 5, 4]);
    assert_eq!(&emu.regs.regs[..3], &[2, 5, 4]);
}

#[test]
fn waits_for_keypress() {
    let mut emu = Box::new(Emu::new());
    emu.load(&[0xF3, 0x0A, 0x60, 0x07]);
    emu.step();
    assert_eq!(emu.wait_for_keypress, Some(3));
    emu.step();
    assert_eq!(emu.regs.regs[0], 0);
    emu.set_pressed_key(0xB, true, true);
    assert_eq!(emu.regs.regs[3], 0xB);
    assert_eq!(emu.wait_for_keypress, None);
    emu.step();
    assert_eq!(emu.regs.regs[0], 7);
    assert!(emu.pressed_keys[0xB]);
}

#[test]
fn unknown_instruction_is_an_error() {
    let emu = run(&[0x5A, 0xB1], 1);
    assert!(emu.error);
}

#[test]
fn timers_speed_and_heat() {
    let mut emu = Box::new(Emu::new());
    emu.load(&[0x60, 0x09, 0xF0, 0x15, 0x12, 0x04]);
    emu.update();
    assert_eq!(emu.delay_timer, 9);
    emu.update();
    assert_eq!(emu.delay_timer, 8);
    emu.set_speed(10 * ONE);
    assert_eq!(emu.speed, 5 * ONE);
    emu.inc_speed(-6 * ONE);
    assert_eq!(emu.speed, 0);
    assert!(!emu.is_hot());
    emu.heat = 60_000;
    assert!(emu.is_hot());
    emu.cool_down(4);
    assert_eq!(emu.heat, 56_000);
    emu.cool_down(100);
    assert_eq!(emu.heat, 0);
    assert!(!emu.is_critical_heat());
}

#[test]
fn reset_keeps_program_and_speed() {
    let mut emu = Box::new(Emu::new());
    emu.load(&[0x60, 0x09]);
    emu.set_speed(2 * ONE);
    emu.step();
    emu.reset();
    assert_eq!(emu.regs.regs[0], 0);
    assert_eq!(emu.pc, 0);
    assert_eq!(emu.program[0], 0x60);
    assert_eq!(emu.speed, 2 * ONE);
    emu.setup();
    assert_eq!(emu.pc as usize, PROGRAM_START_ADDR);
    assert_eq!(emu.memory[PROGRAM_START_ADDR], 0x60);
}

#[test]
fn state_leds_take_emulator_flags() {
    let mut leds = StateLeds::default();
    let mut emu = Box::new(Emu::new());
    emu.load(&[0x5A, 0xB1]);
    emu.step();
    assert!(emu.error);
    let mut t = Time::new();
    t.update(16);
    leds.update(&t, &mut emu);
    assert!(!emu.error);
    assert!(leds.error_lit());
    assert!(!leds.used_lit());
    assert_eq!(leds.show_error_timer.time, 600);
    t.update(700);
    leds.update(&t, &mut emu);
    assert!(!leds.error_lit());
}
