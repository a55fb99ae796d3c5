use remote_control::error::{Argument, CommandError};
use remote_control::input::{Key, KeyAction, Modifier, MouseAction, MouseButton};
use remote_control::text::str_eq;

#[test]
fn button_names() {
    assert_eq!(MouseButton::parse("left"), Some(MouseButton::Left));
    assert_eq!(MouseButton::parse("right"), Some(MouseButton::Right));
    assert_eq!(MouseButton::parse("middle"), Some(MouseButton::Middle));
    for name in ["", "Left", "LEFT", "left ", " left", "lef", "back", "centre"] {
        assert_eq!(MouseButton::parse(name), None);
    }
}

#[test]
fn mouse_action_names() {
    assert_eq!(MouseAction::parse("click"), Some(MouseAction::Click));
    assert_eq!(MouseAction::parse("double_click"), Some(MouseAction::DoubleClick));
    assert_eq!(MouseAction::parse("press"), Some(MouseAction::Press));
    assert_eq!(MouseAction::parse("release"), Some(MouseAction::Release));
    for name in ["", "Click", "doubleclick", "double-click", "double_click ", "type", "move"] {
        assert_eq!(MouseAction::parse(name), None);
    }
}

#[test]
fn key_action_names() {
    assert_eq!(KeyAction::parse("type"), Some(KeyAction::Type));
    assert_eq!(KeyAction::parse("press"), Some(KeyAction::Press));
    for name in ["", "Type", "release", "click", "press\n"] {
        assert_eq!(KeyAction::parse(name), None);
    }
}

#[test]
fn modifier_names_and_keys() {
    assert_eq!(Modifier::parse("ctrl"), Some(Modifier::Ctrl));
    assert_eq!(Modifier::parse("alt"), Some(Modifier::Alt));
    assert_eq!(Modifier::parse("shift"), Some(Modifier::Shift));
    for name in ["", "Ctrl", "control", "meta", "cmd", "altgr"] {
        assert_eq!(Modifier::parse(name), None);
    }
    assert_eq!(Modifier::Ctrl.key(), Key::Control);
    assert_eq!(Modifier::Alt.key(), Key::Alt);
    assert_eq!(Modifier::Shift.key(), Key::Shift);
}

#[test]
fn named_keys() {
    assert_eq!(Key::parse("Enter"), Some(Key::Return));
    assert_eq!(Key::parse("Escape"), Some(Key::Escape));
    assert_eq!(Key::parse("Space"), Some(Key::Space));
    assert_eq!(Key::parse("Tab"), Some(Key::Tab));
    assert_eq!(Key::parse("Backspace"), Some(Key::Backspace));
    assert_eq!(Key::parse("Delete"), Some(Key::Delete));
    assert_eq!(Key::parse("ArrowUp"), Some(Key::UpArrow));
    assert_eq!(Key::parse("ArrowDown"), Some(Key::DownArrow));
    assert_eq!(Key::parse("ArrowLeft"), Some(Key::LeftArrow));
    assert_eq!(Key::parse("ArrowRight"), Some(Key::RightArrow));
    assert_eq!(Key::parse("F1"), Some(Key::F1));
    assert_eq!(Key::parse("F2"), Some(Key::F2));
    assert_eq!(Key::parse("F9"), Some(Key::F9));
    assert_eq!(Key::parse("F10"), Some(Key::F10));
    assert_eq!(Key::parse("F11"), Some(Key::F11));
    assert_eq!(Key::parse("F12"), Some(Key::F12));
}

#[test]
fn names_outside_the_closed_set_are_no_keys() {
    for name in [
        "", "enter", "Return", "Esc", " ", "space", "Up", "F0", "F13", "F", "f1", "Control",
        "Shift", "Alt", "ctrl", "a", "Enter ",
    ] {
        assert_eq!(Key::parse(name), None);
    }
}

#[test]
fn strings_are_equal_when_their_characters_are() {
    assert!(str_eq("", ""));
    assert!(str_eq("left", "left"));
    assert!(str_eq("Sesión", "Sesión"));
    assert!(!str_eq("left", "lefT"));
    assert!(!str_eq("left", "lef"));
    assert!(!str_eq("lef", "left"));
    assert!(!str_eq("", "x"));
    assert!(!str_eq("Sesión", "Sesion"));
    assert!(!str_eq("ab", "ba"));
}

#[test]
fn every_error_has_its_message() {
    let invalid = |what: Argument| CommandError::InvalidArgument { what, value: "xyz".to_string() };
    assert_eq!(invalid(Argument::MouseButton).message(), "Botón de mouse no válido: xyz");
    assert_eq!(invalid(Argument::MouseAction).message(), "Acción de mouse no válida: xyz");
    assert_eq!(
        invalid(Argument::DoubleClickButton).message(),
        "Double click solo soportado para botón izquierdo: xyz"
    );
    assert_eq!(invalid(Argument::KeyboardAction).message(), "Acción de teclado no válida: xyz");
    assert_eq!(invalid(Argument::Modifier).message(), "Modificador no válido: xyz");
    assert_eq!(invalid(Argument::Key).message(), "Tecla no reconocida: xyz");
    assert_eq!(CommandError::NotFound.message(), "Sesión no encontrada");
    assert_eq!(CommandError::DuplicateSession.message(), "Identificador de sesión duplicado");
    assert_eq!(CommandError::CaptureUnavailable.message(), "Captura de pantalla no disponible");
    assert_eq!(
        CommandError::DisplayEnumerationFailed { detail: "sin pantallas".to_string() }.message(),
        "Error obteniendo pantallas: sin pantallas"
    );
    assert_eq!(
        CommandError::EncodingFailure { detail: "formato".to_string() }.message(),
        "Error codificando imagen: formato"
    );
}

#[test]
fn labels_introduce_the_offending_value() {
    assert_eq!(Argument::MouseButton.label(), "Botón de mouse no válido: ");
    assert_eq!(Argument::Key.label(), "Tecla no reconocida: ");
    assert_eq!(
        CommandError::InvalidArgument { what: Argument::Key, value: String::new() }.message(),
        Argument::Key.label()
    );
}
