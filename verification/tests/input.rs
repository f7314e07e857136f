use benzene::scene::input::{FrameInput, InputState, WindowInput};
use winit::keyboard::KeyCode;

fn key(code: KeyCode) -> u32 {
    code as u32
}

fn look(delta: (u32, u32)) -> (f32, f32) {
    (f32::from_bits(delta.0), f32::from_bits(delta.1))
}

/// Feeds a cursor move and adds the movement to the look delta, as the
/// window loop does.
fn move_cursor(input: &mut InputState, x: f64, y: f64) {
    let moved_from = input.handle_window_event(WindowInput::CursorMoved { x: x.to_bits(), y: y.to_bits() });
    if let Some((last_x, last_y)) = moved_from {
        let (pitch, yaw) = look(input.look_delta());
        let yaw = yaw + (x - f64::from_bits(last_x)) as f32;
        let pitch = pitch + (y - f64::from_bits(last_y)) as f32;
        input.set_look_delta((pitch.to_bits(), yaw.to_bits()));
    }
}

fn left_button(input: &mut InputState, pressed: bool) {
    input.handle_window_event(WindowInput::MouseButton { left: true, pressed });
}

#[test]
fn input_state_only_accumulates_look_delta_when_captured() {
    let mut input = InputState::new();

    move_cursor(&mut input, 10.0, 20.0);
    assert_eq!(look(input.frame_input().look_delta()), (0.0, 0.0));

    left_button(&mut input, true);
    move_cursor(&mut input, 10.0, 20.0);
    move_cursor(&mut input, 14.0, 32.0);

    let frame = input.frame_input();
    assert_eq!(look(frame.look_delta()), (12.0, 4.0));
}

#[test]
fn frame_input_reports_pressed_keys() {
    let mut input = InputState::new();
    input.handle_window_event(WindowInput::Key { code: Some(key(KeyCode::KeyW)), pressed: true });

    assert!(input.frame_input().is_key_pressed(key(KeyCode::KeyW)));
}

#[test]
fn releasing_a_key_clears_it() {
    let mut input = InputState::new();
    let w: u32 = key(KeyCode::KeyW);
    let a: u32 = key(KeyCode::KeyA);
    input.handle_window_event(WindowInput::Key { code: Some(w), pressed: true });
    input.handle_window_event(WindowInput::Key { code: Some(a), pressed: true });
    input.handle_window_event(WindowInput::Key { code: Some(w), pressed: false });
    assert!(!input.is_key_pressed(w));
    assert!(input.is_key_pressed(a));
    let frame = input.frame_input();
    assert!(!frame.is_key_pressed(w));
    assert!(frame.is_key_pressed(a));
}

#[test]
fn keys_without_code_are_ignored() {
    let mut input = InputState::new();
    let r = input.handle_window_event(WindowInput::Key { code: None, pressed: true });
    assert_eq!(r, None);
    assert!(!input.is_key_pressed(0));
    assert!(!input.cursor_captured());
}

#[test]
fn uncaptured_cursor_moves_report_nothing() {
    let mut input = InputState::new();
    let r = input.handle_window_event(WindowInput::CursorMoved { x: 1.0f64.to_bits(), y: 2.0f64.to_bits() });
    assert_eq!(r, None);
    let r = input.handle_window_event(WindowInput::CursorMoved { x: 3.0f64.to_bits(), y: 4.0f64.to_bits() });
    assert_eq!(r, None);
}

#[test]
fn captured_cursor_reports_previous_position() {
    let mut input = InputState::new();
    left_button(&mut input, true);
    assert!(input.cursor_captured());
    let first = input.handle_window_event(WindowInput::CursorMoved { x: 1.0f64.to_bits(), y: 2.0f64.to_bits() });
    assert_eq!(first, None);
    let second = input.handle_window_event(WindowInput::CursorMoved { x: 5.0f64.to_bits(), y: 7.0f64.to_bits() });
    assert_eq!(second, Some((1.0f64.to_bits(), 2.0f64.to_bits())));
}

#[test]
fn right_button_does_not_capture() {
    let mut input = InputState::new();
    input.handle_window_event(WindowInput::MouseButton { left: false, pressed: true });
    assert!(!input.cursor_captured());
}

#[test]
fn releasing_the_left_button_releases_the_cursor() {
    let mut input = InputState::new();
    left_button(&mut input, true);
    move_cursor(&mut input, 0.0, 0.0);
    move_cursor(&mut input, 3.0, 5.0);
    left_button(&mut input, false);
    assert!(!input.cursor_captured());
    assert_eq!(look(input.frame_input().look_delta()), (0.0, 0.0));
}

#[test]
fn focus_loss_releases_cursor_and_drops_look_delta() {
    let mut input = InputState::new();
    input.handle_window_event(WindowInput::Key { code: Some(key(KeyCode::KeyD)), pressed: true });
    left_button(&mut input, true);
    move_cursor(&mut input, 0.0, 0.0);
    move_cursor(&mut input, 2.0, 9.0);
    input.handle_window_event(WindowInput::Focused(false));
    assert!(!input.cursor_captured());
    let r = input.handle_window_event(WindowInput::CursorMoved { x: 8.0f64.to_bits(), y: 8.0f64.to_bits() });
    assert_eq!(r, None);
    let frame = input.frame_input();
    assert_eq!(look(frame.look_delta()), (0.0, 0.0));
    assert!(frame.is_key_pressed(key(KeyCode::KeyD)));
}

#[test]
fn focus_gain_changes_nothing() {
    let mut input = InputState::new();
    left_button(&mut input, true);
    input.handle_window_event(WindowInput::Focused(true));
    assert!(input.cursor_captured());
}

#[test]
fn frame_input_starts_the_look_delta_again() {
    let mut input = InputState::new();
    left_button(&mut input, true);
    move_cursor(&mut input, 0.0, 0.0);
    move_cursor(&mut input, 1.0, 2.0);
    assert_eq!(look(input.frame_input().look_delta()), (2.0, 1.0));
    assert_eq!(look(input.frame_input().look_delta()), (0.0, 0.0));
}

#[test]
fn other_events_change_nothing() {
    let mut input = InputState::new();
    let r = input.handle_window_event(WindowInput::Other);
    assert_eq!(r, None);
    assert!(!input.cursor_captured());
}

#[test]
fn default_frame_input_is_empty() {
    let frame = FrameInput::default();
    assert!(!frame.is_key_pressed(key(KeyCode::KeyW)));
    assert_eq!(frame.look_delta(), (0, 0));
    let input = InputState::default();
    assert!(!input.cursor_captured());
}
