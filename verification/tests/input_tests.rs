use venn_deduction::geometry::Point;
use venn_deduction::input::{ButtonState, InputEvent, MouseButton, VennInput};

fn press(button: MouseButton) -> InputEvent {
    InputEvent::MouseInput { button, state: ButtonState::Pressed }
}

fn lift(button: MouseButton) -> InputEvent {
    InputEvent::MouseInput { button, state: ButtonState::Released }
}

#[test]
fn new_input_is_at_rest() {
    let input = VennInput::new();
    assert_eq!(input.cursor_position, Point { x: 0, y: 0 });
    assert!(!input.is_cursor_taken);
    assert!(!input.is_mouse_pressed);
}

#[test]
fn cursor_move_sets_the_position_only() {
    let mut input = VennInput::new();
    input.update(press(MouseButton::Left));
    input.update(InputEvent::CursorMoved { x: 12, y: -7 });
    assert_eq!(input.cursor_position, Point { x: 12, y: -7 });
    assert!(input.is_mouse_pressed);
    assert!(!input.is_cursor_taken);
}

#[test]
fn left_button_presses_and_releases() {
    let mut input = VennInput::new();
    input.update(press(MouseButton::Left));
    assert!(input.is_mouse_pressed);
    input.update(lift(MouseButton::Left));
    assert!(!input.is_mouse_pressed);
}

#[test]
fn press_while_cursor_is_taken_does_not_hold() {
    let mut input = VennInput::new();
    input.update(InputEvent::CursorTaken);
    assert!(input.is_cursor_taken);
    input.update(press(MouseButton::Left));
    assert!(!input.is_mouse_pressed);
    input.update(InputEvent::CursorReturned);
    assert!(!input.is_cursor_taken);
    assert!(!input.is_mouse_pressed);
    input.update(press(MouseButton::Left));
    assert!(input.is_mouse_pressed);
}

#[test]
fn taking_the_cursor_does_not_release_a_held_button() {
    let mut input = VennInput::new();
    input.update(press(MouseButton::Left));
    input.update(InputEvent::CursorTaken);
    assert!(input.is_mouse_pressed);
    input.update(press(MouseButton::Left));
    assert!(!input.is_mouse_pressed);
}

#[test]
fn other_buttons_and_events_change_nothing() {
    let mut input = VennInput::new();
    input.update(InputEvent::CursorMoved { x: 3, y: 4 });
    input.update(press(MouseButton::Left));
    let before = input;
    for event in [
        press(MouseButton::Right),
        lift(MouseButton::Right),
        press(MouseButton::Middle),
        lift(MouseButton::Middle),
        press(MouseButton::Other(7)),
        lift(MouseButton::Other(7)),
        InputEvent::Other,
    ] {
        input.update(event);
        assert_eq!(input, before);
    }
}

#[test]
fn clear_keeps_the_state() {
    let mut input = VennInput::new();
    input.update(InputEvent::CursorMoved { x: 3, y: 4 });
    input.update(press(MouseButton::Left));
    let before = input;
    input.clear();
    assert_eq!(input, before);
}
