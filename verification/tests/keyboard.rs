use remote_control::dispatch::Dispatch;
use remote_control::error::{Argument, CommandError};
use remote_control::input::{HostEvent, Key};
use remote_control::keyboard::{execute_keyboard_command, KeyboardCommand};

fn command(key: &str, action: &str, modifiers: &[&str]) -> KeyboardCommand {
    KeyboardCommand {
        key: key.to_string(),
        action: action.to_string(),
        modifiers: modifiers.iter().map(|name| name.to_string()).collect(),
    }
}

fn done(events: Vec<HostEvent>) -> Dispatch {
    Dispatch { events, outcome: Ok("Comando de teclado ejecutado".to_string()) }
}

fn invalid(events: Vec<HostEvent>, what: Argument, value: &str) -> Dispatch {
    Dispatch {
        events,
        outcome: Err(CommandError::InvalidArgument { what, value: value.to_string() }),
    }
}

fn down(key: Key) -> HostEvent {
    HostEvent::KeyDown { key }
}

fn up(key: Key) -> HostEvent {
    HostEvent::KeyUp { key }
}

fn text(text: &str) -> HostEvent {
    HostEvent::Text { text: text.to_string() }
}

#[test]
fn named_key_under_ctrl_and_shift() {
    assert_eq!(
        execute_keyboard_command(&command("Enter", "press", &["ctrl", "shift"])),
        done(vec![
            down(Key::Control),
            down(Key::Shift),
            down(Key::Return),
            up(Key::Return),
            up(Key::Control),
            up(Key::Shift),
        ])
    );
}

#[test]
fn unrecognized_key_releases_every_modifier_it_engaged() {
    let dispatch = execute_keyboard_command(&command("NoSuchKey", "press", &["ctrl", "alt", "shift"]));
    assert_eq!(
        dispatch,
        invalid(
            vec![
                down(Key::Control),
                down(Key::Alt),
                down(Key::Shift),
                up(Key::Control),
                up(Key::Alt),
                up(Key::Shift),
            ],
            Argument::Key,
            "NoSuchKey"
        )
    );
    let downs = dispatch.events.iter().filter(|e| matches!(e, HostEvent::KeyDown { .. })).count();
    let ups = dispatch.events.iter().filter(|e| matches!(e, HostEvent::KeyUp { .. })).count();
    assert_eq!((downs, ups), (3, 3));
}

#[test]
fn unrecognized_key_without_modifiers_issues_nothing() {
    assert_eq!(
        execute_keyboard_command(&command("NoSuchKey", "press", &[])),
        invalid(vec![], Argument::Key, "NoSuchKey")
    );
    assert_eq!(
        execute_keyboard_command(&command("", "press", &[])),
        invalid(vec![], Argument::Key, "")
    );
}

#[test]
fn every_named_key_resolves() {
    let keys = [
        ("Enter", Key::Return),
        ("Escape", Key::Escape),
        ("Space", Key::Space),
        ("Tab", Key::Tab),
        ("Backspace", Key::Backspace),
        ("Delete", Key::Delete),
        ("ArrowUp", Key::UpArrow),
        ("ArrowDown", Key::DownArrow),
        ("ArrowLeft", Key::LeftArrow),
        ("ArrowRight", Key::RightArrow),
        ("F1", Key::F1),
        ("F2", Key::F2),
        ("F3", Key::F3),
        ("F4", Key::F4),
        ("F5", Key::F5),
        ("F6", Key::F6),
        ("F7", Key::F7),
        ("F8", Key::F8),
        ("F9", Key::F9),
        ("F10", Key::F10),
        ("F11", Key::F11),
        ("F12", Key::F12),
    ];
    for (name, key) in keys {
        assert_eq!(
            execute_keyboard_command(&command(name, "press", &[])),
            done(vec![down(key), up(key)])
        );
    }
}

#[test]
fn single_character_is_injected_as_text() {
    assert_eq!(execute_keyboard_command(&command("a", "press", &[])), done(vec![text("a")]));
    assert_eq!(
        execute_keyboard_command(&command("c", "press", &["ctrl"])),
        done(vec![down(Key::Control), text("c"), up(Key::Control)])
    );
}

#[test]
fn single_character_beyond_ascii_is_one_character() {
    assert_eq!(
        execute_keyboard_command(&command("ñ", "press", &["shift"])),
        done(vec![down(Key::Shift), text("ñ"), up(Key::Shift)])
    );
}

#[test]
fn two_characters_are_no_key() {
    assert_eq!(
        execute_keyboard_command(&command("ab", "press", &["alt"])),
        invalid(vec![down(Key::Alt), up(Key::Alt)], Argument::Key, "ab")
    );
    assert_eq!(
        execute_keyboard_command(&command("enter", "press", &[])),
        invalid(vec![], Argument::Key, "enter")
    );
    assert_eq!(
        execute_keyboard_command(&command("F13", "press", &[])),
        invalid(vec![], Argument::Key, "F13")
    );
}

#[test]
fn modifiers_go_down_and_up_in_the_order_given() {
    assert_eq!(
        execute_keyboard_command(&command("Tab", "press", &["shift", "alt", "ctrl"])),
        done(vec![
            down(Key::Shift),
            down(Key::Alt),
            down(Key::Control),
            down(Key::Tab),
            up(Key::Tab),
            up(Key::Shift),
            up(Key::Alt),
            up(Key::Control),
        ])
    );
}

#[test]
fn repeated_modifier_is_engaged_and_released_each_time() {
    assert_eq!(
        execute_keyboard_command(&command("F5", "press", &["ctrl", "ctrl"])),
        done(vec![
            down(Key::Control),
            down(Key::Control),
            down(Key::F5),
            up(Key::F5),
            up(Key::Control),
            up(Key::Control),
        ])
    );
}

#[test]
fn type_injects_the_descriptor_as_text() {
    assert_eq!(
        execute_keyboard_command(&command("hola, mundo", "type", &[])),
        done(vec![text("hola, mundo")])
    );
    assert_eq!(execute_keyboard_command(&command("Enter", "type", &[])), done(vec![text("Enter")]));
    assert_eq!(execute_keyboard_command(&command("", "type", &[])), done(vec![text("")]));
}

#[test]
fn type_applies_no_modifier() {
    assert_eq!(
        execute_keyboard_command(&command("abc", "type", &["ctrl", "shift"])),
        done(vec![text("abc")])
    );
}

#[test]
fn unknown_modifier_is_rejected_without_events() {
    assert_eq!(
        execute_keyboard_command(&command("Enter", "press", &["ctrl", "meta", "shift"])),
        invalid(vec![], Argument::Modifier, "meta")
    );
    assert_eq!(
        execute_keyboard_command(&command("abc", "type", &["super"])),
        invalid(vec![], Argument::Modifier, "super")
    );
}

#[test]
fn first_unknown_modifier_is_the_one_named() {
    assert_eq!(
        execute_keyboard_command(&command("Enter", "press", &["hyper", "meta"])),
        invalid(vec![], Argument::Modifier, "hyper")
    );
    assert_eq!(
        execute_keyboard_command(&command("Enter", "press", &["alt", "Ctrl", "meta"])),
        invalid(vec![], Argument::Modifier, "Ctrl")
    );
}

#[test]
fn unknown_action_is_rejected_first() {
    assert_eq!(
        execute_keyboard_command(&command("Enter", "release", &["ctrl"])),
        invalid(vec![], Argument::KeyboardAction, "release")
    );
    assert_eq!(
        execute_keyboard_command(&command("NoSuchKey", "hold", &["meta"])),
        invalid(vec![], Argument::KeyboardAction, "hold")
    );
}

#[test]
fn every_key_down_is_matched_by_a_key_up() {
    let commands = [
        command("Enter", "press", &["ctrl", "shift"]),
        command("x", "press", &["alt"]),
        command("NoSuchKey", "press", &["ctrl", "alt", "shift", "ctrl"]),
        command("text", "type", &["shift"]),
        command("F1", "press", &["bogus"]),
    ];
    for command in &commands {
        let dispatch = execute_keyboard_command(command);
        for key in [Key::Control, Key::Alt, Key::Shift, Key::Return, Key::F1] {
            let downs = dispatch.events.iter().filter(|e| **e == down(key)).count();
            let ups = dispatch.events.iter().filter(|e| **e == up(key)).count();
            assert_eq!(downs, ups);
        }
    }
}
