use sprite_game::controls::{command_for, Command, InputEvent, Key, Steer};
use sprite_game::render_gl::whitespace_buffer_with_len;

#[test]
fn quit_on_close_or_q() {
    assert_eq!(command_for(InputEvent::Quit), Command::Quit);
    assert_eq!(command_for(InputEvent::KeyDown(Key::Q)), Command::Quit);
    assert_eq!(command_for(InputEvent::KeyUp(Key::Q)), Command::Ignore);
}

#[test]
fn arrows_steer_while_held() {
    assert_eq!(command_for(InputEvent::KeyDown(Key::Left)), Command::SetVelocityX(Steer::Negative));
    assert_eq!(command_for(InputEvent::KeyDown(Key::Right)), Command::SetVelocityX(Steer::Positive));
    assert_eq!(command_for(InputEvent::KeyDown(Key::Up)), Command::SetVelocityY(Steer::Negative));
    assert_eq!(command_for(InputEvent::KeyDown(Key::Down)), Command::SetVelocityY(Steer::Positive));
}

#[test]
fn releasing_an_arrow_stops_its_axis() {
    assert_eq!(command_for(InputEvent::KeyUp(Key::Left)), Command::SetVelocityX(Steer::Stop));
    assert_eq!(command_for(InputEvent::KeyUp(Key::Right)), Command::SetVelocityX(Steer::Stop));
    assert_eq!(command_for(InputEvent::KeyUp(Key::Up)), Command::SetVelocityY(Steer::Stop));
    assert_eq!(command_for(InputEvent::KeyUp(Key::Down)), Command::SetVelocityY(Steer::Stop));
}

#[test]
fn fullscreen_keys() {
    assert_eq!(command_for(InputEvent::KeyDown(Key::H)), Command::FullscreenOff);
    assert_eq!(command_for(InputEvent::KeyDown(Key::F)), Command::FullscreenDesktop);
    assert_eq!(command_for(InputEvent::KeyUp(Key::F)), Command::Ignore);
}

#[test]
fn other_input_is_ignored() {
    assert_eq!(command_for(InputEvent::Other), Command::Ignore);
    assert_eq!(command_for(InputEvent::KeyDown(Key::Other)), Command::Ignore);
    assert_eq!(command_for(InputEvent::KeyUp(Key::Other)), Command::Ignore);
}

#[test]
fn whitespace_buffer_holds_spaces() {
    assert_eq!(whitespace_buffer_with_len(0), Vec::<u8>::new());
    assert_eq!(whitespace_buffer_with_len(5), b"     ".to_vec());
    let b = whitespace_buffer_with_len(1000);
    assert_eq!(b.len(), 1000);
    assert!(b.capacity() >= 1001);
    assert!(b.iter().all(|&c| c == b' '));
}
