//! Keyboard controls: which command each window event gives.

use vstd::prelude::*;

verus! {

/// The keys the game reacts to; every other key is `Other`.
#[derive(PartialEq, Eq, Structural, Clone, Copy, Debug)]
pub enum Key {
    Left,
    Right,
    Up,
    Down,
    Q,
    H,
    F,
    Other,
}

/// The window events the game reacts to; every other event is `Other`.
#[derive(PartialEq, Eq, Structural, Clone, Copy, Debug)]
pub enum InputEvent {
    Quit,
    KeyDown(Key),
    KeyUp(Key),
    Other,
}

/// A value for one component of the player's velocity: the fixed speed
/// against the axis, none, or the fixed speed along the axis.
#[derive(PartialEq, Eq, Structural, Clone, Copy, Debug)]
pub enum Steer {
    Negative,
    Stop,
    Positive,
}

/// What the game does in answer to an event.
#[derive(PartialEq, Eq, Structural, Clone, Copy, Debug)]
pub enum Command {
    /// Leave the main loop.
    Quit,
    /// Set the horizontal velocity of the player.
    SetVelocityX(Steer),
    /// Set the vertical velocity of the player.
    SetVelocityY(Steer),
    /// Leave fullscreen mode.
    FullscreenOff,
    /// Switch to fullscreen on the desktop's resolution.
    FullscreenDesktop,
    /// Do nothing.
    Ignore,
}

/// The command for `event`: closing the window or pressing Q quits; the
/// arrow keys set the player's velocity while they are held (left and up
/// are the negative directions) and stop it on the axis when released;
/// H and F leave and enter fullscreen; anything else is ignored.
pub fn command_for(event: InputEvent) -> (c: Command)
    ensures
        event == InputEvent::Quit ==> c == Command::Quit,
        event == InputEvent::KeyDown(Key::Q) ==> c == Command::Quit,
        event == InputEvent::KeyDown(Key::Left) ==> c == Command::SetVelocityX(Steer::Negative),
        event == InputEvent::KeyDown(Key::Right) ==> c == Command::SetVelocityX(Steer::Positive),
        event == InputEvent::KeyDown(Key::Up) ==> c == Command::SetVelocityY(Steer::Negative),
        event == InputEvent::KeyDown(Key::Down) ==> c == Command::SetVelocityY(Steer::Positive),
        event == InputEvent::KeyDown(Key::H) ==> c == Command::FullscreenOff,
        event == InputEvent::KeyDown(Key::F) ==> c == Command::FullscreenDesktop,
        event == InputEvent::KeyUp(Key::Left) ==> c == Command::SetVelocityX(Steer::Stop),
        event == InputEvent::KeyUp(Key::Right) ==> c == Command::SetVelocityX(Steer::Stop),
        event == InputEvent::KeyUp(Key::Up) ==> c == Command::SetVelocityY(Steer::Stop),
        event == InputEvent::KeyUp(Key::Down) ==> c == Command::SetVelocityY(Steer::Stop),
        event == InputEvent::KeyDown(Key::Other) ==> c == Command::Ignore,
        event == InputEvent::KeyUp(Key::Q) ==> c == Command::Ignore,
        event == InputEvent::KeyUp(Key::H) ==> c == Command::Ignore,
        event == InputEvent::KeyUp(Key::F) ==> c == Command::Ignore,
        event == InputEvent::KeyUp(Key::Other) ==> c == Command::Ignore,
        event == InputEvent::Other ==> c == Command::Ignore,
{
    match event {
        InputEvent::Quit => Command::Quit,
        InputEvent::KeyDown(key) => match key {
            Key::Q => Command::Quit,
            Key::Left => Command::SetVelocityX(Steer::Negative),
            Key::Right => Command::SetVelocityX(Steer::Positive),
            Key::Up => Command::SetVelocityY(Steer::Negative),
            Key::Down => Command::SetVelocityY(Steer::Positive),
            Key::H => Command::FullscreenOff,
            Key::F => Command::FullscreenDesktop,
            Key::Other => Command::Ignore,
        },
        InputEvent::KeyUp(key) => match key {
            Key::Left => Command::SetVelocityX(Steer::Stop),
            Key::Right => Command::SetVelocityX(Steer::Stop),
            Key::Up => Command::SetVelocityY(Steer::Stop),
            Key::Down => Command::SetVelocityY(Steer::Stop),
            _ => Command::Ignore,
        },
        InputEvent::Other => Command::Ignore,
    }
}

} // verus!
