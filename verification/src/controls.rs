use vstd::prelude::*;

use crate::fractal::FractalKind;
use crate::settings::Settings;

verus! {

/// The keys that the viewer tells apart; every other key is `Other`.
#[derive(PartialEq, Eq, Structural, Clone, Copy, Debug)]
pub enum Key {
    Escape,
    N,
    Tab,
    T,
    D,
    Right,
    Q,
    Left,
    Z,
    Up,
    S,
    Down,
    I,
    O,
    U,
    P,
    K,
    J,
    Other,
}

/// What the window reports on one poll.
#[derive(PartialEq, Eq, Structural, Clone, Copy, Debug)]
pub enum Event {
    /// The window was closed.
    Quit,
    /// A key was pressed.
    KeyDown(Key),
    /// Nothing happened, or something the viewer ignores.
    Other,
}

/// What the viewer does in answer to an event.
#[derive(PartialEq, Eq, Structural, Clone, Copy, Debug)]
pub enum Command {
    /// Leave the viewer.
    Exit,
    /// Print the current position and image size.
    PrintSettings,
    /// Go on to the next fractal family and reset the view.
    SwitchFractal,
    /// Rotate the parameter of the current family (see `Settings::tweak`).
    Tweak,
    /// Add `dx` to the horizontal offset.
    MoveRight,
    /// Subtract `dx` from the horizontal offset.
    MoveLeft,
    /// Add `dy` to the vertical offset.
    MoveUp,
    /// Subtract `dy` from the vertical offset.
    MoveDown,
    /// Zoom in by a factor of 2.
    ZoomIn,
    /// Zoom out by a factor of 2.
    ZoomOut,
    /// Zoom in by a factor of 1.1.
    SmallZoomIn,
    /// 50 more iterations, half as many divisions more.
    Upscale,
    /// 50 fewer iterations, a third of the divisions fewer.
    Downscale,
    /// 20 more iterations, a fifth of the iteration limit more divisions.
    SmallUpscale,
    /// Ignore the event.
    Nothing,
}

/// The command that answers an event. Note that the up arrow and `Z` lower
/// the vertical offset, and the down arrow and `S` raise it.
pub open spec fn command_of(event: Event) -> Command {
    match event {
        Event::Quit => Command::Exit,
        Event::Other => Command::Nothing,
        Event::KeyDown(key) => match key {
            Key::Escape => Command::Exit,
            Key::N => Command::PrintSettings,
            Key::Tab => Command::SwitchFractal,
            Key::T => Command::Tweak,
            Key::D | Key::Right => Command::MoveRight,
            Key::Q | Key::Left => Command::MoveLeft,
            Key::Z | Key::Up => Command::MoveDown,
            Key::S | Key::Down => Command::MoveUp,
            Key::I => Command::ZoomIn,
            Key::O => Command::ZoomOut,
            Key::U => Command::Upscale,
            Key::P => Command::Downscale,
            Key::K => Command::SmallZoomIn,
            Key::J => Command::SmallUpscale,
            Key::Other => Command::Nothing,
        },
    }
}

/// The command that answers an event.
pub fn command_for(event: Event) -> (c: Command)
    ensures
        c == command_of(event),
{
    match event {
        Event::Quit => Command::Exit,
        Event::Other => Command::Nothing,
        Event::KeyDown(key) => match key {
            Key::Escape => Command::Exit,
            Key::N => Command::PrintSettings,
            Key::Tab => Command::SwitchFractal,
            Key::T => Command::Tweak,
            Key::D | Key::Right => Command::MoveRight,
            Key::Q | Key::Left => Command::MoveLeft,
            Key::Z | Key::Up => Command::MoveDown,
            Key::S | Key::Down => Command::MoveUp,
            Key::I => Command::ZoomIn,
            Key::O => Command::ZoomOut,
            Key::U => Command::Upscale,
            Key::P => Command::Downscale,
            Key::K => Command::SmallZoomIn,
            Key::J => Command::SmallUpscale,
            Key::Other => Command::Nothing,
        },
    }
}

/// Where the viewer goes after one event.
#[derive(PartialEq, Eq, Structural, Clone, Copy, Debug)]
pub enum Flow {
    /// Leave the event loop.
    Quit,
    /// Carry out `command` on the floating-point view (the integer settings
    /// have already been updated), then redraw if `draw` holds.
    Continue { command: Command, draw: bool },
}

impl Settings {
    /// Whether carrying out `command` keeps the iteration limit and the
    /// divisions within `u32`.
    pub open spec fn fits(self, command: Command) -> bool {
        match command {
            Command::Upscale => self.upscale_fits(50, (self.nb_divisions / 2) as u32),
            Command::Downscale => self.downscale_fits(50, (self.nb_divisions / 3) as u32),
            Command::SmallUpscale => self.upscale_fits(20, (self.nb_iterations / 5) as u32),
            _ => true,
        }
    }

    /// `self` is what carrying out `command` makes of the settings `before`.
    pub open spec fn is_result_of(self, before: Settings, command: Command) -> bool {
        match command {
            Command::SwitchFractal => self.is_default_for(before.fractal.successor()),
            Command::Upscale => self.is_upscale_of(before, 50, (before.nb_divisions / 2) as u32),
            Command::Downscale => self.is_downscale_of(before, 50, (before.nb_divisions / 3) as u32),
            Command::SmallUpscale => self.is_upscale_of(
                before,
                20,
                (before.nb_iterations / 5) as u32,
            ),
            _ => self.same_as(before),
        }
    }

    /// Whether `apply(command)` can be carried out without leaving `u32`.
    pub fn can_apply(&self, command: Command) -> (b: bool)
        ensures
            b == self.fits(command),
            command == Command::Upscale ==> (b <==> (self.nb_iterations + 50 <= u32::MAX
                && self.nb_divisions + self.nb_divisions / 2 <= u32::MAX)),
            command == Command::Downscale ==> (b <==> 50 <= self.nb_iterations),
            command == Command::SmallUpscale ==> (b <==> (self.nb_iterations + 20 <= u32::MAX
                && self.nb_divisions + self.nb_iterations / 5 <= u32::MAX)),
            command != Command::Upscale && command != Command::Downscale && command
                != Command::SmallUpscale ==> b,
    {
        match command {
            Command::Upscale => self.nb_iterations <= u32::MAX - 50 && self.nb_divisions
                <= u32::MAX - self.nb_divisions / 2,
            Command::Downscale => 50 <= self.nb_iterations,
            Command::SmallUpscale => self.nb_iterations <= u32::MAX - 20 && self.nb_divisions
                <= u32::MAX - self.nb_iterations / 5,
            _ => true,
        }
    }

    /// Carry out the integer side of `command`: switching family, upscaling
    /// and downscaling. Every other command leaves the settings as they are.
    pub fn apply(&mut self, command: Command)
        requires
            old(self).fits(command),
        ensures
            final(self).is_result_of(*old(self), command),
            command == Command::Upscale ==> {
                &&& final(self).nb_iterations == old(self).nb_iterations + 50
                &&& final(self).nb_divisions == old(self).nb_divisions + old(self).nb_divisions / 2
                &&& final(self).fractal == old(self).fractal
                &&& final(self).colors@ == old(self).colors@
            },
            command == Command::Downscale ==> {
                &&& final(self).nb_iterations == old(self).nb_iterations - 50
                &&& final(self).nb_divisions == old(self).nb_divisions - old(self).nb_divisions / 3
                &&& final(self).fractal == old(self).fractal
                &&& final(self).colors@ == old(self).colors@
            },
            command == Command::SmallUpscale ==> {
                &&& final(self).nb_iterations == old(self).nb_iterations + 20
                &&& final(self).nb_divisions == old(self).nb_divisions + old(self).nb_iterations / 5
                &&& final(self).fractal == old(self).fractal
                &&& final(self).colors@ == old(self).colors@
            },
            command == Command::SwitchFractal ==> {
                &&& (old(self).fractal == FractalKind::Mandelbrot ==> final(self).fractal
                    == FractalKind::Julia)
                &&& (old(self).fractal == FractalKind::Julia ==> final(self).fractal
                    == FractalKind::Newton)
                &&& (old(self).fractal == FractalKind::Newton ==> final(self).fractal
                    == FractalKind::Mandelbrot)
                &&& final(self).nb_iterations == 100
                &&& final(self).nb_divisions == 100
                &&& final(self).colors@ == seq![[0u8, 0u8, 0u8], [255u8, 255u8, 255u8]]
            },
            command != Command::Upscale && command != Command::Downscale && command
                != Command::SmallUpscale && command != Command::SwitchFractal ==> {
                &&& final(self).nb_iterations == old(self).nb_iterations
                &&& final(self).nb_divisions == old(self).nb_divisions
                &&& final(self).fractal == old(self).fractal
                &&& final(self).colors@ == old(self).colors@
            },
    {
        match command {
            Command::SwitchFractal => self.switch_fractal(),
            Command::Upscale => {
                let divisions = self.nb_divisions / 2;
                self.upscale(50, divisions);
            },
            Command::Downscale => {
                let divisions = self.nb_divisions / 3;
                self.downscale(50, divisions);
            },
            Command::SmallUpscale => {
                let divisions = self.nb_iterations / 5;
                self.upscale(20, divisions);
            },
            _ => {},
        }
    }
}

/// The answer to one event: the command, and whether the image is redrawn.
/// A redraw is owed when one was pending or the event was not ignored.
pub open spec fn flow_of(pending_redraw: bool, event: Event) -> Flow {
    let command = command_of(event);
    if command == Command::Exit {
        Flow::Quit
    } else {
        Flow::Continue { command, draw: pending_redraw || command != Command::Nothing }
    }
}

/// One turn of the viewer's event loop: decide the command for `event`,
/// carry out its integer side on `settings`, and say whether to leave the
/// loop or what to do next. `pending_redraw` holds before the first image
/// has been drawn.
pub fn step(settings: &mut Settings, pending_redraw: bool, event: Event) -> (f: Flow)
    requires
        old(settings).fits(command_of(event)),
    ensures
        f == flow_of(pending_redraw, event),
        final(settings).is_result_of(*old(settings), command_of(event)),
        (f == Flow::Quit) <==> (event == Event::Quit || event == Event::KeyDown(Key::Escape)),
        f != Flow::Quit ==> f == (Flow::Continue {
            command: command_of(event),
            draw: pending_redraw || command_of(event) != Command::Nothing,
        }),
{
    let command = command_for(event);
    if command == Command::Exit {
        return Flow::Quit;
    }
    settings.apply(command);
    let draw = pending_redraw || command != Command::Nothing;
    Flow::Continue { command, draw }
}

/// What each command does to the integer settings, whatever the fractal
/// family: U adds 50 iterations and half the current divisions, P removes 50
/// iterations and a third of the current divisions, J adds 20 iterations and
/// a fifth of the current iteration limit as divisions, Tab goes on to the
/// next family with 100 iterations, 100 divisions and the colours black and
/// white, and every other command changes nothing.
pub proof fn lemma_command_effects(before: Settings, after: Settings, command: Command)
    requires
        after.is_result_of(before, command),
    ensures
        command == Command::Upscale ==> {
            &&& after.nb_iterations == before.nb_iterations + 50
            &&& after.nb_divisions == before.nb_divisions + before.nb_divisions / 2
            &&& after.fractal == before.fractal
            &&& after.colors@ == before.colors@
        },
        command == Command::Downscale ==> {
            &&& after.nb_iterations == before.nb_iterations - 50
            &&& after.nb_divisions == before.nb_divisions - before.nb_divisions / 3
            &&& after.fractal == before.fractal
            &&& after.colors@ == before.colors@
        },
        command == Command::SmallUpscale ==> {
            &&& after.nb_iterations == before.nb_iterations + 20
            &&& after.nb_divisions == before.nb_divisions + before.nb_iterations / 5
            &&& after.fractal == before.fractal
            &&& after.colors@ == before.colors@
        },
        command == Command::SwitchFractal ==> {
            &&& (before.fractal == FractalKind::Mandelbrot ==> after.fractal == FractalKind::Julia)
            &&& (before.fractal == FractalKind::Julia ==> after.fractal == FractalKind::Newton)
            &&& (before.fractal == FractalKind::Newton ==> after.fractal == FractalKind::Mandelbrot)
            &&& after.nb_iterations == 100
            &&& after.nb_divisions == 100
            &&& after.colors@ == seq![[0u8, 0u8, 0u8], [255u8, 255u8, 255u8]]
        },
        command != Command::Upscale && command != Command::Downscale && command
            != Command::SmallUpscale && command != Command::SwitchFractal ==> {
            &&& after.nb_iterations == before.nb_iterations
            &&& after.nb_divisions == before.nb_divisions
            &&& after.fractal == before.fractal
            &&& after.colors@ == before.colors@
        },
{
}

/// A command can be carried out exactly when its integer effect stays within
/// `u32`: U needs room for 50 iterations and half the divisions, P needs at
/// least 50 iterations, J needs room for 20 iterations and a fifth of the
/// iteration limit as divisions; every other command can always be done.
pub proof fn lemma_fits_exactly(s: Settings, command: Command)
    ensures
        command == Command::Upscale ==> (s.fits(command) <==> (s.nb_iterations + 50 <= u32::MAX
            && s.nb_divisions + s.nb_divisions / 2 <= u32::MAX)),
        command == Command::Downscale ==> (s.fits(command) <==> 50 <= s.nb_iterations),
        command == Command::SmallUpscale ==> (s.fits(command) <==> (s.nb_iterations + 20
            <= u32::MAX && s.nb_divisions + s.nb_iterations / 5 <= u32::MAX)),
        command != Command::Upscale && command != Command::Downscale && command
            != Command::SmallUpscale ==> s.fits(command),
{
}

/// The whole key table: which command every key and event leads to.
pub proof fn lemma_key_table()
    ensures
        command_of(Event::Quit) == Command::Exit,
        command_of(Event::Other) == Command::Nothing,
        command_of(Event::KeyDown(Key::Escape)) == Command::Exit,
        command_of(Event::KeyDown(Key::N)) == Command::PrintSettings,
        command_of(Event::KeyDown(Key::Tab)) == Command::SwitchFractal,
        command_of(Event::KeyDown(Key::T)) == Command::Tweak,
        command_of(Event::KeyDown(Key::D)) == Command::MoveRight,
        command_of(Event::KeyDown(Key::Right)) == Command::MoveRight,
        command_of(Event::KeyDown(Key::Q)) == Command::MoveLeft,
        command_of(Event::KeyDown(Key::Left)) == Command::MoveLeft,
        command_of(Event::KeyDown(Key::Z)) == Command::MoveDown,
        command_of(Event::KeyDown(Key::Up)) == Command::MoveDown,
        command_of(Event::KeyDown(Key::S)) == Command::MoveUp,
        command_of(Event::KeyDown(Key::Down)) == Command::MoveUp,
        command_of(Event::KeyDown(Key::I)) == Command::ZoomIn,
        command_of(Event::KeyDown(Key::O)) == Command::ZoomOut,
        command_of(Event::KeyDown(Key::U)) == Command::Upscale,
        command_of(Event::KeyDown(Key::P)) == Command::Downscale,
        command_of(Event::KeyDown(Key::K)) == Command::SmallZoomIn,
        command_of(Event::KeyDown(Key::J)) == Command::SmallUpscale,
        command_of(Event::KeyDown(Key::Other)) == Command::Nothing,
{
}

/// Only closing the window or pressing Escape ends the event loop.
pub proof fn lemma_only_quit_and_escape_end(pending_redraw: bool, event: Event)
    ensures
        (flow_of(pending_redraw, event) == Flow::Quit) <==> (event == Event::Quit || event
            == Event::KeyDown(Key::Escape)),
{
}

/// Every event that the viewer does not ignore, and that does not end the
/// loop, is followed by a redraw; an ignored event redraws only when a redraw
/// was pending, and leaves the settings as they are.
pub proof fn lemma_redraw_after_handled_events(pending_redraw: bool, event: Event, before: Settings, after: Settings)
    requires
        after.is_result_of(before, command_of(event)),
    ensures
        command_of(event) != Command::Exit && command_of(event) != Command::Nothing
            ==> flow_of(pending_redraw, event) == (Flow::Continue {
            command: command_of(event),
            draw: true,
        }),
        command_of(event) == Command::Nothing ==> flow_of(pending_redraw, event) == (Flow::Continue {
            command: Command::Nothing,
            draw: pending_redraw,
        }) && after.same_as(before),
{
}

/// Each arrow key does what its letter key does: `D` and right, `Q` and left,
/// `Z` and up, `S` and down.
pub proof fn lemma_arrow_keys_match_letters()
    ensures
        command_of(Event::KeyDown(Key::D)) == command_of(Event::KeyDown(Key::Right)),
        command_of(Event::KeyDown(Key::Q)) == command_of(Event::KeyDown(Key::Left)),
        command_of(Event::KeyDown(Key::Z)) == command_of(Event::KeyDown(Key::Up)),
        command_of(Event::KeyDown(Key::S)) == command_of(Event::KeyDown(Key::Down)),
{
}

/// Commands that only move, zoom, tweak or print leave the integer settings
/// as they are; only switching, upscaling and downscaling change them.
pub proof fn lemma_view_commands_keep_settings(before: Settings, after: Settings, command: Command)
    requires
        after.is_result_of(before, command),
        command != Command::SwitchFractal,
        command != Command::Upscale,
        command != Command::Downscale,
        command != Command::SmallUpscale,
    ensures
        after.same_as(before),
{
}

/// Whatever event comes in, the fractal family changes only on Tab, and then
/// to the next family in the cycle.
pub proof fn lemma_family_changes_only_on_tab(event: Event, before: Settings, after: Settings)
    requires
        after.is_result_of(before, command_of(event)),
    ensures
        event == Event::KeyDown(Key::Tab) ==> after.fractal == before.fractal.successor(),
        event != Event::KeyDown(Key::Tab) ==> after.fractal == before.fractal,
{
}

} // verus!
