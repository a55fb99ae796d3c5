//! The input command translator: the closed sets of buttons, actions,
//! modifiers and named keys that a command may mention, the exact-match
//! decoding of their wire names, and the host input events that stand for
//! what a command does.
//!
//! Decoding never falls back to a default: a name outside the closed set
//! decodes to `None`, and the dispatchers turn that into an error.

use vstd::prelude::*;
use crate::text::str_eq;

verus! {

/// A mouse button that a command can address.
#[derive(Clone, Copy, Debug, PartialEq, Eq, Structural)]
pub enum MouseButton {
    Left,
    Right,
    Middle,
}

/// What a mouse command does with its button.
#[derive(Clone, Copy, Debug, PartialEq, Eq, Structural)]
pub enum MouseAction {
    Click,
    DoubleClick,
    Press,
    Release,
}

/// What a keyboard command does with its key descriptor.
#[derive(Clone, Copy, Debug, PartialEq, Eq, Structural)]
pub enum KeyAction {
    /// Inject the descriptor as literal text.
    Type,
    /// Press the key that the descriptor names, under the given modifiers.
    Press,
}

/// A modifier that is held down around a key press.
#[derive(Clone, Copy, Debug, PartialEq, Eq, Structural)]
pub enum Modifier {
    Ctrl,
    Alt,
    Shift,
}

/// A key of the host keyboard: the named keys and the three modifier keys.
#[derive(Clone, Copy, Debug, PartialEq, Eq, Structural)]
pub enum Key {
    Return,
    Escape,
    Space,
    Tab,
    Backspace,
    Delete,
    UpArrow,
    DownArrow,
    LeftArrow,
    RightArrow,
    F1,
    F2,
    F3,
    F4,
    F5,
    F6,
    F7,
    F8,
    F9,
    F10,
    F11,
    F12,
    Control,
    Alt,
    Shift,
}

/// One primitive of host input injection. A dispatcher hands out a sequence
/// of these; whoever owns the host input device performs them in order.
#[derive(Debug, PartialEq, Eq)]
pub enum HostEvent {
    /// Move the pointer to absolute coordinates.
    MoveTo { x: i32, y: i32 },
    /// Press and release a mouse button.
    Click { button: MouseButton },
    /// Press a mouse button and hold it.
    ButtonDown { button: MouseButton },
    /// Release a mouse button.
    ButtonUp { button: MouseButton },
    /// Press a key and hold it.
    KeyDown { key: Key },
    /// Release a key.
    KeyUp { key: Key },
    /// Inject literal text, character by character.
    Text { text: String },
    /// Block for a fixed number of milliseconds.
    Delay { millis: u64 },
}

/// The mathematical content of a [`HostEvent`].
pub enum HostEventView {
    MoveTo { x: i32, y: i32 },
    Click { button: MouseButton },
    ButtonDown { button: MouseButton },
    ButtonUp { button: MouseButton },
    KeyDown { key: Key },
    KeyUp { key: Key },
    Text { text: Seq<char> },
    Delay { millis: u64 },
}

impl View for HostEvent {
    type V = HostEventView;

    open spec fn view(&self) -> HostEventView {
        match *self {
            HostEvent::MoveTo { x, y } => HostEventView::MoveTo { x, y },
            HostEvent::Click { button } => HostEventView::Click { button },
            HostEvent::ButtonDown { button } => HostEventView::ButtonDown { button },
            HostEvent::ButtonUp { button } => HostEventView::ButtonUp { button },
            HostEvent::KeyDown { key } => HostEventView::KeyDown { key },
            HostEvent::KeyUp { key } => HostEventView::KeyUp { key },
            HostEvent::Text { text } => HostEventView::Text { text: text@ },
            HostEvent::Delay { millis } => HostEventView::Delay { millis },
        }
    }
}

/// The contents of a sequence of events, one by one.
pub open spec fn events_view(events: Seq<HostEvent>) -> Seq<HostEventView> {
    events.map_values(|event: HostEvent| event@)
}

/// The button that the wire name `name` stands for.
pub open spec fn mouse_button_named(name: Seq<char>) -> Option<MouseButton> {
    if name == "left"@ {
        Some(MouseButton::Left)
    } else if name == "right"@ {
        Some(MouseButton::Right)
    } else if name == "middle"@ {
        Some(MouseButton::Middle)
    } else {
        None
    }
}

/// The mouse action that the wire name `name` stands for.
pub open spec fn mouse_action_named(name: Seq<char>) -> Option<MouseAction> {
    if name == "click"@ {
        Some(MouseAction::Click)
    } else if name == "double_click"@ {
        Some(MouseAction::DoubleClick)
    } else if name == "press"@ {
        Some(MouseAction::Press)
    } else if name == "release"@ {
        Some(MouseAction::Release)
    } else {
        None
    }
}

/// The keyboard action that the wire name `name` stands for.
pub open spec fn key_action_named(name: Seq<char>) -> Option<KeyAction> {
    if name == "type"@ {
        Some(KeyAction::Type)
    } else if name == "press"@ {
        Some(KeyAction::Press)
    } else {
        None
    }
}

/// The modifier that the wire name `name` stands for.
pub open spec fn modifier_named(name: Seq<char>) -> Option<Modifier> {
    if name == "ctrl"@ {
        Some(Modifier::Ctrl)
    } else if name == "alt"@ {
        Some(Modifier::Alt)
    } else if name == "shift"@ {
        Some(Modifier::Shift)
    } else {
        None
    }
}

/// The host key that holds down the modifier `m`.
pub open spec fn modifier_key(m: Modifier) -> Key {
    match m {
        Modifier::Ctrl => Key::Control,
        Modifier::Alt => Key::Alt,
        Modifier::Shift => Key::Shift,
    }
}

/// The named key that the descriptor `name` stands for. The set is closed:
/// Enter, Escape, Space, Tab, Backspace, Delete, the four arrows and F1 to
/// F12, each matched exactly.
pub open spec fn key_named(name: Seq<char>) -> Option<Key> {
    if name == "Enter"@ {
        Some(Key::Return)
    } else if name == "Escape"@ {
        Some(Key::Escape)
    } else if name == "Space"@ {
        Some(Key::Space)
    } else if name == "Tab"@ {
        Some(Key::Tab)
    } else if name == "Backspace"@ {
        Some(Key::Backspace)
    } else if name == "Delete"@ {
        Some(Key::Delete)
    } else if name == "ArrowUp"@ {
        Some(Key::UpArrow)
    } else if name == "ArrowDown"@ {
        Some(Key::DownArrow)
    } else if name == "ArrowLeft"@ {
        Some(Key::LeftArrow)
    } else if name == "ArrowRight"@ {
        Some(Key::RightArrow)
    } else if name == "F1"@ {
        Some(Key::F1)
    } else if name == "F2"@ {
        Some(Key::F2)
    } else if name == "F3"@ {
        Some(Key::F3)
    } else if name == "F4"@ {
        Some(Key::F4)
    } else if name == "F5"@ {
        Some(Key::F5)
    } else if name == "F6"@ {
        Some(Key::F6)
    } else if name == "F7"@ {
        Some(Key::F7)
    } else if name == "F8"@ {
        Some(Key::F8)
    } else if name == "F9"@ {
        Some(Key::F9)
    } else if name == "F10"@ {
        Some(Key::F10)
    } else if name == "F11"@ {
        Some(Key::F11)
    } else if name == "F12"@ {
        Some(Key::F12)
    } else {
        None
    }
}

impl MouseButton {
    /// Decodes a button name; `None` for anything but `left`, `right` and
    /// `middle`.
    pub fn parse(name: &str) -> (button: Option<MouseButton>)
        ensures
            button == mouse_button_named(name@),
    {
        if str_eq(name, "left") {
            Some(MouseButton::Left)
        } else if str_eq(name, "right") {
            Some(MouseButton::Right)
        } else if str_eq(name, "middle") {
            Some(MouseButton::Middle)
        } else {
            None
        }
    }
}

impl MouseAction {
    /// Decodes a mouse action name; `None` for anything but `click`,
    /// `double_click`, `press` and `release`.
    pub fn parse(name: &str) -> (action: Option<MouseAction>)
        ensures
            action == mouse_action_named(name@),
    {
        if str_eq(name, "click") {
            Some(MouseAction::Click)
        } else if str_eq(name, "double_click") {
            Some(MouseAction::DoubleClick)
        } else if str_eq(name, "press") {
            Some(MouseAction::Press)
        } else if str_eq(name, "release") {
            Some(MouseAction::Release)
        } else {
            None
        }
    }
}

impl KeyAction {
    /// Decodes a keyboard action name; `None` for anything but `type` and
    /// `press`.
    pub fn parse(name: &str) -> (action: Option<KeyAction>)
        ensures
            action == key_action_named(name@),
    {
        if str_eq(name, "type") {
            Some(KeyAction::Type)
        } else if str_eq(name, "press") {
            Some(KeyAction::Press)
        } else {
            None
        }
    }
}

impl Modifier {
    /// Decodes a modifier name; `None` for anything but `ctrl`, `alt` and
    /// `shift`.
    pub fn parse(name: &str) -> (modifier: Option<Modifier>)
        ensures
            modifier == modifier_named(name@),
    {
        if str_eq(name, "ctrl") {
            Some(Modifier::Ctrl)
        } else if str_eq(name, "alt") {
            Some(Modifier::Alt)
        } else if str_eq(name, "shift") {
            Some(Modifier::Shift)
        } else {
            None
        }
    }

    /// The host key that holds this modifier down.
    pub fn key(self) -> (key: Key)
        ensures
            key == modifier_key(self),
    {
        match self {
            Modifier::Ctrl => Key::Control,
            Modifier::Alt => Key::Alt,
            Modifier::Shift => Key::Shift,
        }
    }
}

impl Key {
    /// Resolves a named key; `None` for a descriptor outside the closed set.
    pub fn parse(name: &str) -> (key: Option<Key>)
        ensures
            key == key_named(name@),
    {
        if str_eq(name, "Enter") {
            Some(Key::Return)
        } else if str_eq(name, "Escape") {
            Some(Key::Escape)
        } else if str_eq(name, "Space") {
            Some(Key::Space)
        } else if str_eq(name, "Tab") {
            Some(Key::Tab)
        } else if str_eq(name, "Backspace") {
            Some(Key::Backspace)
        } else if str_eq(name, "Delete") {
            Some(Key::Delete)
        } else if str_eq(name, "ArrowUp") {
            Some(Key::UpArrow)
        } else if str_eq(name, "ArrowDown") {
            Some(Key::DownArrow)
        } else if str_eq(name, "ArrowLeft") {
            Some(Key::LeftArrow)
        } else if str_eq(name, "ArrowRight") {
            Some(Key::RightArrow)
        } else if str_eq(name, "F1") {
            Some(Key::F1)
        } else if str_eq(name, "F2") {
            Some(Key::F2)
        } else if str_eq(name, "F3") {
            Some(Key::F3)
        } else if str_eq(name, "F4") {
            Some(Key::F4)
        } else if str_eq(name, "F5") {
            Some(Key::F5)
        } else if str_eq(name, "F6") {
            Some(Key::F6)
        } else if str_eq(name, "F7") {
            Some(Key::F7)
        } else if str_eq(name, "F8") {
            Some(Key::F8)
        } else if str_eq(name, "F9") {
            Some(Key::F9)
        } else if str_eq(name, "F10") {
            Some(Key::F10)
        } else if str_eq(name, "F11") {
            Some(Key::F11)
        } else if str_eq(name, "F12") {
            Some(Key::F12)
        } else {
            None
        }
    }
}

} // verus!
