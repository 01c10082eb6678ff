use vstd::prelude::*;

use crate::geometry::Point;

verus! {

/// Keys the render loop tells apart.
#[derive(Clone, Copy, Debug, PartialEq, Eq, Structural)]
pub enum Key {
    Space,
    R,
    Other,
}

/// One input event, as handed over by the windowing layer.
#[derive(Clone, Copy, Debug, PartialEq, Eq, Structural)]
pub enum InputEvent {
    Quit,
    KeyDown(Key),
    MouseButtonDown { x: i32, y: i32 },
    Other,
}

/// What the render loop does with the scene it holds after one event.
#[derive(Clone, Copy, Debug, PartialEq, Eq, Structural)]
pub enum Command {
    /// Stop the program.
    Quit,
    /// Leave the scene as it is.
    Keep,
    /// Replace the scene with an empty one.
    Clear,
    /// Add a new particle at the given point.
    Spawn(Point),
}

/// The command that `event` gives.
pub open spec fn command_of(event: InputEvent) -> Command {
    match event {
        InputEvent::Quit => Command::Quit,
        InputEvent::KeyDown(Key::R) => Command::Clear,
        InputEvent::MouseButtonDown { x, y } => Command::Spawn(Point { x, y }),
        _ => Command::Keep,
    }
}

/// The pause flag after `event`: the space key flips it, the reset key clears
/// it, anything else leaves it.
pub open spec fn pause_after(pause: bool, event: InputEvent) -> bool {
    match event {
        InputEvent::KeyDown(Key::Space) => !pause,
        InputEvent::KeyDown(Key::R) => false,
        _ => pause,
    }
}

/// Decides one input event for the render loop: updates the pause flag and
/// says what becomes of the scene.
pub fn handle_event(pause: &mut bool, event: InputEvent) -> (c: Command)
    ensures
        c == command_of(event),
        *final(pause) == pause_after(*old(pause), event),
{
    match event {
        InputEvent::Quit => Command::Quit,
        InputEvent::KeyDown(key) => match key {
            Key::Space => {
                *pause = !*pause;
                Command::Keep
            },
            Key::R => {
                *pause = false;
                Command::Clear
            },
            Key::Other => Command::Keep,
        },
        InputEvent::MouseButtonDown { x, y } => Command::Spawn(Point::new(x, y)),
        InputEvent::Other => Command::Keep,
    }
}

/// A fresh, empty scene.
pub fn reset_scene<T>() -> (s: Vec<T>)
    ensures
        s@ == Seq::<T>::empty(),
{
    Vec::new()
}

/// The reset key always leaves an empty scene and an unpaused simulation,
/// whatever the scene held and whether it was paused.
pub proof fn lemma_reset_clears(pause: bool)
    ensures
        command_of(InputEvent::KeyDown(Key::R)) == Command::Clear,
        pause_after(pause, InputEvent::KeyDown(Key::R)) == false,
{
}

/// Pressing the pause key twice leaves the pause flag as it was.
pub proof fn lemma_pause_toggle_twice(pause: bool)
    ensures
        pause_after(pause_after(pause, InputEvent::KeyDown(Key::Space)), InputEvent::KeyDown(Key::Space))
            == pause,
{
}

} // verus!
