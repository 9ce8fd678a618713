use mandelbrot::controls::{command_for, step, Command, Event, Flow, Key};
use mandelbrot::fractal::FractalKind;
use mandelbrot::settings::Settings;

fn key(k: Key) -> Event {
    Event::KeyDown(k)
}

#[test]
fn every_key_maps_to_its_command() {
    let table = [
        (Key::Escape, Command::Exit),
        (Key::N, Command::PrintSettings),
        (Key::Tab, Command::SwitchFractal),
        (Key::T, Command::Tweak),
        (Key::D, Command::MoveRight),
        (Key::Right, Command::MoveRight),
        (Key::Q, Command::MoveLeft),
        (Key::Left, Command::MoveLeft),
        (Key::Z, Command::MoveDown),
        (Key::Up, Command::MoveDown),
        (Key::S, Command::MoveUp),
        (Key::Down, Command::MoveUp),
        (Key::I, Command::ZoomIn),
        (Key::O, Command::ZoomOut),
        (Key::U, Command::Upscale),
        (Key::P, Command::Downscale),
        (Key::K, Command::SmallZoomIn),
        (Key::J, Command::SmallUpscale),
        (Key::Other, Command::Nothing),
    ];
    for (k, c) in table {
        assert_eq!(command_for(key(k)), c);
    }
    assert_eq!(command_for(Event::Quit), Command::Exit);
    assert_eq!(command_for(Event::Other), Command::Nothing);
}

#[test]
fn quit_and_escape_end_the_loop() {
    let mut s = Settings::new();
    assert_eq!(step(&mut s, true, Event::Quit), Flow::Quit);
    assert_eq!(step(&mut s, false, key(Key::Escape)), Flow::Quit);
    assert_eq!(s.nb_iterations, 100);
    assert_eq!(s.fractal, FractalKind::Newton);
}

#[test]
fn first_poll_draws_even_when_idle() {
    let mut s = Settings::new();
    assert_eq!(
        step(&mut s, true, Event::Other),
        Flow::Continue { command: Command::Nothing, draw: true }
    );
    assert_eq!(
        step(&mut s, false, Event::Other),
        Flow::Continue { command: Command::Nothing, draw: false }
    );
    assert_eq!(
        step(&mut s, false, key(Key::Other)),
        Flow::Continue { command: Command::Nothing, draw: false }
    );
}

#[test]
fn view_keys_redraw_and_keep_settings() {
    let mut s = Settings::new();
    for k in [Key::N, Key::T, Key::D, Key::Up, Key::S, Key::I, Key::O, Key::K, Key::Left] {
        let f = step(&mut s, false, key(k));
        assert_eq!(f, Flow::Continue { command: command_for(key(k)), draw: true });
    }
    assert_eq!((s.nb_iterations, s.nb_divisions), (100, 100));
    assert_eq!(s.fractal, FractalKind::Newton);
}

#[test]
fn tab_switches_the_family() {
    let mut s = Settings::new();
    s.upscale(10, 10);
    let f = step(&mut s, false, key(Key::Tab));
    assert_eq!(f, Flow::Continue { command: Command::SwitchFractal, draw: true });
    assert_eq!(s.fractal, FractalKind::Mandelbrot);
    assert_eq!((s.nb_iterations, s.nb_divisions), (100, 100));
}

#[test]
fn u_adds_fifty_iterations_and_half_the_divisions() {
    let mut s = Settings::new();
    step(&mut s, false, key(Key::U));
    assert_eq!((s.nb_iterations, s.nb_divisions), (150, 150));
    step(&mut s, false, key(Key::U));
    assert_eq!((s.nb_iterations, s.nb_divisions), (200, 225));
}

#[test]
fn p_removes_fifty_iterations_and_a_third_of_the_divisions() {
    let mut s = Settings::new();
    step(&mut s, false, key(Key::P));
    assert_eq!((s.nb_iterations, s.nb_divisions), (50, 67));
    step(&mut s, false, key(Key::P));
    assert_eq!((s.nb_iterations, s.nb_divisions), (0, 45));
    assert!(!s.can_apply(Command::Downscale));
}

#[test]
fn j_adds_twenty_iterations_and_a_fifth_of_them_as_divisions() {
    let mut s = Settings::new();
    step(&mut s, false, key(Key::J));
    assert_eq!((s.nb_iterations, s.nb_divisions), (120, 120));
    step(&mut s, false, key(Key::J));
    assert_eq!((s.nb_iterations, s.nb_divisions), (140, 144));
}

#[test]
fn can_apply_guards_the_u32_range() {
    let mut s = Settings::new();
    assert!(s.can_apply(Command::Upscale));
    assert!(s.can_apply(Command::Downscale));
    assert!(s.can_apply(Command::SmallUpscale));
    assert!(s.can_apply(Command::ZoomIn));
    s.upscale(u32::MAX - 150, 0);
    assert_eq!(s.nb_iterations, u32::MAX - 50);
    assert!(s.can_apply(Command::Upscale));
    assert!(s.can_apply(Command::SmallUpscale));
    s.upscale(1, 0);
    assert!(!s.can_apply(Command::Upscale));
    s.upscale(30, 0);
    assert_eq!(s.nb_iterations, u32::MAX - 19);
    assert!(!s.can_apply(Command::SmallUpscale));
    let mut t = Settings::new();
    t.upscale(0, u32::MAX - 100);
    assert!(!t.can_apply(Command::Upscale));
    assert!(t.can_apply(Command::Downscale));
    let mut d = Settings::new();
    d.downscale(51, 0);
    assert!(!d.can_apply(Command::Downscale));
    d.upscale(1, 0);
    assert!(d.can_apply(Command::Downscale));
}

#[test]
fn apply_changes_only_the_integer_commands() {
    let mut s = Settings::new();
    s.apply(Command::MoveRight);
    s.apply(Command::Tweak);
    assert_eq!((s.nb_iterations, s.nb_divisions), (100, 100));
    s.apply(Command::SmallUpscale);
    assert_eq!((s.nb_iterations, s.nb_divisions), (120, 120));
    s.apply(Command::Downscale);
    assert_eq!((s.nb_iterations, s.nb_divisions), (70, 80));
    s.apply(Command::SwitchFractal);
    assert_eq!(s.fractal, FractalKind::Mandelbrot);
    assert_eq!((s.nb_iterations, s.nb_divisions), (100, 100));
}
