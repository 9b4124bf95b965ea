use chip_maximator::anim::{Anim, AnimWait};
use chip_maximator::icon::IconKind;
use chip_maximator::math::Color;
use chip_maximator::state::{BoardSide, BoardState};
use chip_maximator::timer::{Time, Timer};
use chip_maximator::tooltip::{Tooltip, MAX_LEN};

fn frame(delta: u64) -> Time {
    let mut t = Time::new();
    t.update(delta);
    t
}

#[test]
fn timer_counts_down_and_saturates() {
    let mut t = Timer::from_millis(100);
    assert!(t.finished());
    t.start();
    assert_eq!(t.time, 100);
    t.update(&frame(30));
    assert_eq!(t.time, 70);
    assert_eq!(t.left(), 30);
    assert!(!t.finished());
    t.update(&frame(500));
    assert_eq!(t.time, 0);
    assert!(t.finished());
    t.start_duration(40);
    assert_eq!((t.duration, t.time), (40, 40));
    assert_eq!(Timer::new(7), Timer { duration: 7, time: 0 });
}

#[test]
fn time_counts_frames_and_fps() {
    let mut t = Time::new();
    t.update(5);
    t.update(10);
    assert_eq!(t.elapsed, 2);
    assert_eq!(t.delta, 10);
    assert_eq!(t.fps(), 36);
    t.elapsed = u32::MAX;
    t.update(1);
    assert_eq!(t.elapsed, 0);
    assert_eq!(t.fps(), 3);
}

#[test]
fn anim_steps_and_stops() {
    let mut a = Anim::new(10, 0..3);
    assert_eq!(a.frame_timer.duration, 100);
    a.update(&frame(100));
    assert_eq!(a.frame, 0);
    a.play(false);
    assert!(a.playing);
    a.update(&frame(50));
    assert_eq!(a.frame, 0);
    a.update(&frame(50));
    assert_eq!(a.frame, 1);
    a.update(&frame(100));
    assert_eq!(a.frame, 2);
    a.update(&frame(100));
    assert_eq!(a.frame, 3);
    assert!(!a.playing);
}

#[test]
fn anim_loops_and_reverses() {
    let mut a = Anim::new(10, 0..3).with_looped().with_playing();
    a.update(&frame(100));
    a.update(&frame(100));
    a.update(&frame(100));
    assert_eq!(a.frame, 0);
    assert!(a.playing);
    a.stop();
    a.play(true);
    assert_eq!(a.frame, 2);
    a.update(&frame(100));
    assert_eq!(a.frame, 1);
    // playing again does not restart
    a.play(false);
    assert!(a.reversed);
    assert_eq!(a.frame, 1);
    assert_ne!(AnimWait::Finish, AnimWait::Frame(3));
}

#[test]
fn tooltip_crops_and_yields_to_errors() {
    let mut t = Tooltip::default();
    t.set(b"hello");
    assert!(t.is_tooltip_visible);
    assert_eq!(&t.tooltip[..6], b"hello\0");
    let long = [b'x'; 100];
    t.set_error(&long);
    assert_eq!(t.error, [b'x'; MAX_LEN]);
    assert_eq!(t.error_timer.time, 2000);
    t.update(&frame(16));
    assert!(!t.is_tooltip_visible);
    t.set(b"ignored");
    assert!(!t.is_tooltip_visible);
    assert_eq!(&t.tooltip[..6], b"hello\0");
    t.update(&frame(5000));
    t.set(b"back");
    assert!(t.is_tooltip_visible);
    assert_eq!(&t.tooltip[..5], b"back\0");
}

#[test]
fn icons_colors_and_board() {
    assert_eq!(IconKind::Flip.into_frame(), 0);
    assert_eq!(IconKind::Pointer.into_frame(), 1);
    let c = Color::hex(0x12ab9f);
    assert_eq!((c.red, c.green, c.blue, c.alpha), (0x12, 0xab, 0x9f, 255));
    assert_eq!(Color::transparent().alpha, 0);
    assert_eq!(Color::white().alpha(7).alpha, 7);
    let b = BoardState::default();
    assert!(!b.power);
    assert_eq!(b.side, BoardSide::Front);
}
