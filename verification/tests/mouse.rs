use remote_control::dispatch::Dispatch;
use remote_control::error::{Argument, CommandError};
use remote_control::input::{HostEvent, MouseButton};
use remote_control::mouse::{execute_mouse_command, MouseCommand, DOUBLE_CLICK_DELAY_MS};

fn command(x: i32, y: i32, button: &str, action: &str) -> MouseCommand {
    MouseCommand { x, y, button: button.to_string(), action: action.to_string() }
}

fn done(events: Vec<HostEvent>) -> Dispatch {
    Dispatch { events, outcome: Ok("Comando de mouse ejecutado".to_string()) }
}

fn invalid(what: Argument, value: &str) -> Dispatch {
    Dispatch {
        events: vec![],
        outcome: Err(CommandError::InvalidArgument { what, value: value.to_string() }),
    }
}

#[test]
fn click_moves_then_clicks_the_button() {
    for (name, button) in [
        ("left", MouseButton::Left),
        ("right", MouseButton::Right),
        ("middle", MouseButton::Middle),
    ] {
        assert_eq!(
            execute_mouse_command(&command(10, 20, name, "click")),
            done(vec![HostEvent::MoveTo { x: 10, y: 20 }, HostEvent::Click { button }])
        );
    }
}

#[test]
fn press_moves_then_holds_the_button() {
    assert_eq!(
        execute_mouse_command(&command(1, 2, "right", "press")),
        done(vec![
            HostEvent::MoveTo { x: 1, y: 2 },
            HostEvent::ButtonDown { button: MouseButton::Right },
        ])
    );
}

#[test]
fn release_moves_then_lets_go_of_the_button() {
    assert_eq!(
        execute_mouse_command(&command(3, 4, "middle", "release")),
        done(vec![
            HostEvent::MoveTo { x: 3, y: 4 },
            HostEvent::ButtonUp { button: MouseButton::Middle },
        ])
    );
}

#[test]
fn double_click_is_two_left_clicks_with_a_pause() {
    let dispatch = execute_mouse_command(&command(100, 200, "left", "double_click"));
    assert_eq!(
        dispatch,
        done(vec![
            HostEvent::MoveTo { x: 100, y: 200 },
            HostEvent::Click { button: MouseButton::Left },
            HostEvent::Delay { millis: 50 },
            HostEvent::Click { button: MouseButton::Left },
        ])
    );
    let clicks = dispatch
        .events
        .iter()
        .filter(|event| matches!(event, HostEvent::Click { button: MouseButton::Left }))
        .count();
    assert_eq!(clicks, 2);
    assert_eq!(DOUBLE_CLICK_DELAY_MS, 50);
    assert_ne!(DOUBLE_CLICK_DELAY_MS, 0);
}

#[test]
fn double_click_with_the_right_button_fails_without_events() {
    assert_eq!(
        execute_mouse_command(&command(100, 200, "right", "double_click")),
        invalid(Argument::DoubleClickButton, "right")
    );
    assert_eq!(
        execute_mouse_command(&command(100, 200, "middle", "double_click")),
        invalid(Argument::DoubleClickButton, "middle")
    );
}

#[test]
fn double_click_judges_the_button_by_the_left_name_alone() {
    assert_eq!(
        execute_mouse_command(&command(0, 0, "nonsense", "double_click")),
        invalid(Argument::DoubleClickButton, "nonsense")
    );
}

#[test]
fn unknown_button_is_rejected_without_events() {
    for action in ["click", "press", "release"] {
        assert_eq!(
            execute_mouse_command(&command(5, 5, "side", action)),
            invalid(Argument::MouseButton, "side")
        );
    }
}

#[test]
fn unknown_action_is_rejected_before_the_button_is_looked_at() {
    assert_eq!(
        execute_mouse_command(&command(5, 5, "left", "drag")),
        invalid(Argument::MouseAction, "drag")
    );
    assert_eq!(
        execute_mouse_command(&command(5, 5, "side", "drag")),
        invalid(Argument::MouseAction, "drag")
    );
}

#[test]
fn names_are_matched_exactly() {
    assert_eq!(
        execute_mouse_command(&command(5, 5, "Left", "click")),
        invalid(Argument::MouseButton, "Left")
    );
    assert_eq!(
        execute_mouse_command(&command(5, 5, "left", "Click")),
        invalid(Argument::MouseAction, "Click")
    );
    assert_eq!(
        execute_mouse_command(&command(5, 5, "left ", "click")),
        invalid(Argument::MouseButton, "left ")
    );
    assert_eq!(
        execute_mouse_command(&command(5, 5, "", "")),
        invalid(Argument::MouseAction, "")
    );
}

#[test]
fn coordinates_are_passed_on_unchecked() {
    assert_eq!(
        execute_mouse_command(&command(i32::MIN, i32::MAX, "left", "click")),
        done(vec![
            HostEvent::MoveTo { x: i32::MIN, y: i32::MAX },
            HostEvent::Click { button: MouseButton::Left },
        ])
    );
    assert_eq!(
        execute_mouse_command(&command(-1, -1, "left", "press")),
        done(vec![
            HostEvent::MoveTo { x: -1, y: -1 },
            HostEvent::ButtonDown { button: MouseButton::Left },
        ])
    );
}
