use chip_maximator::cli::{Cli, CliExit};
use chip_maximator::emu::{MAX_SPEED, SCREEN_BUF_SIZE};
use chip_maximator::game_display::{progress_text, update_buffer, BUF_SIZE, PROGRESS_WIDTH};
use chip_maximator::math::ONE;

fn args(list: &[&str]) -> Vec<String> {
    list.iter().map(|s| s.to_string()).collect()
}

#[test]
fn cli_reads_rom_and_mute() {
    let cli = Cli::parse(&args(&["--muted", "game.ch8"])).unwrap();
    assert!(cli.muted);
    assert_eq!(cli.rom_path.as_deref(), Some("game.ch8"));
    let cli = Cli::parse(&args(&[])).unwrap();
    assert!(!cli.muted);
    assert_eq!(cli.rom_path, None);
}

#[test]
fn cli_stops_on_help_hello_and_errors() {
    assert!(matches!(Cli::parse(&args(&["-h", "--bogus"])), Err(CliExit::Help)));
    assert!(matches!(Cli::parse(&args(&["--help"])), Err(CliExit::Help)));
    assert!(matches!(Cli::parse(&args(&["--hello"])), Err(CliExit::Hello)));
    assert!(matches!(Cli::parse(&args(&["a.ch8", "b.ch8"])), Err(CliExit::ManyRoms)));
    match Cli::parse(&args(&["--loud", "-h"])) {
        Err(CliExit::UnknownOption(opt)) => assert_eq!(opt, "--loud"),
        other => panic!("unexpected {other:?}"),
    }
}

#[test]
fn display_lights_and_fades() {
    let mut buffer = [0u8; BUF_SIZE];
    let mut screen = [false; SCREEN_BUF_SIZE];
    screen[1] = true;
    update_buffer(&mut buffer, &screen);
    assert_eq!(&buffer[3..6], &[178, 204, 178]);
    assert_eq!(&buffer[0..3], &[25, 25, 25]);
    screen[1] = false;
    update_buffer(&mut buffer, &screen);
    assert_eq!(&buffer[3..6], &[118, 118, 118]);
    update_buffer(&mut buffer, &screen);
    assert_eq!(&buffer[3..6], &[78, 78, 78]);
}

#[test]
fn speed_bar_marks() {
    let bar = progress_text(ONE);
    assert_eq!(bar.len(), PROGRESS_WIDTH);
    assert_eq!(bar[2], 197);
    assert_eq!(bar[0], 196);
    let bar = progress_text(MAX_SPEED);
    assert_eq!(bar[13], 197);
    assert_eq!(bar[2], 215);
    let bar = progress_text(0);
    assert_eq!(bar[0], 197);
}
