//! Dispatch of mouse commands.

use vstd::prelude::*;
use vstd::string::StringExecFns;
use crate::dispatch::{rejected, Dispatch, DispatchView};
use crate::error::{Argument, CommandError, CommandErrorView};
use crate::input::{
    mouse_action_named,
    mouse_button_named,
    HostEvent,
    HostEventView,
    MouseAction,
    MouseButton,
};
use crate::text::str_eq;

verus! {

/// A mouse command as it arrives: target coordinates, and the button and
/// the action by their wire names.
#[derive(Debug, PartialEq, Eq)]
pub struct MouseCommand {
    pub x: i32,
    pub y: i32,
    /// `left`, `right` or `middle`.
    pub button: String,
    /// `click`, `double_click`, `press` or `release`.
    pub action: String,
}

/// The mathematical content of a [`MouseCommand`].
pub struct MouseCommandView {
    pub x: i32,
    pub y: i32,
    pub button: Seq<char>,
    pub action: Seq<char>,
}

impl View for MouseCommand {
    type V = MouseCommandView;

    open spec fn view(&self) -> MouseCommandView {
        MouseCommandView { x: self.x, y: self.y, button: self.button@, action: self.action@ }
    }
}

/// The pause between the two clicks of a double click, in milliseconds.
pub const DOUBLE_CLICK_DELAY_MS: u64 = 50;

/// What the caller is told after a mouse command was carried out.
pub open spec fn mouse_done_message() -> Seq<char> {
    "Comando de mouse ejecutado"@
}

/// The events of a double click: two clicks of the left button with a pause
/// between them.
pub open spec fn double_click_events() -> Seq<HostEventView> {
    seq![
        HostEventView::Click { button: MouseButton::Left },
        HostEventView::Delay { millis: DOUBLE_CLICK_DELAY_MS },
        HostEventView::Click { button: MouseButton::Left },
    ]
}

/// The dispatch of a mouse command.
///
/// The action is decoded first. A double click is defined for the left
/// button only; every other action decodes its button and applies to that
/// one button. A command that decodes moves the pointer to its target and
/// then performs the action; one that does not issues no event at all.
pub open spec fn mouse_dispatch(command: MouseCommandView) -> DispatchView {
    let target = HostEventView::MoveTo { x: command.x, y: command.y };
    let done = Ok::<Seq<char>, CommandErrorView>(mouse_done_message());
    match mouse_action_named(command.action) {
        None => rejected(
            CommandErrorView::InvalidArgument {
                what: Argument::MouseAction,
                value: command.action,
            },
        ),
        Some(MouseAction::DoubleClick) => if command.button == "left"@ {
            DispatchView { events: seq![target] + double_click_events(), outcome: done }
        } else {
            rejected(
                CommandErrorView::InvalidArgument {
                    what: Argument::DoubleClickButton,
                    value: command.button,
                },
            )
        },
        Some(action) => match mouse_button_named(command.button) {
            None => rejected(
                CommandErrorView::InvalidArgument {
                    what: Argument::MouseButton,
                    value: command.button,
                },
            ),
            Some(button) => DispatchView {
                events: seq![
                    target,
                    match action {
                        MouseAction::Press => HostEventView::ButtonDown { button },
                        MouseAction::Release => HostEventView::ButtonUp { button },
                        _ => HostEventView::Click { button },
                    },
                ],
                outcome: done,
            },
        },
    }
}

/// Dispatches a mouse command: decides the host events that carry it out
/// and the answer to give.
pub fn execute_mouse_command(command: &MouseCommand) -> (d: Dispatch)
    ensures
        d@ == mouse_dispatch(command@),
{
    let action = match MouseAction::parse(command.action.as_str()) {
        Some(action) => action,
        None => {
            return Dispatch::rejected(
                CommandError::InvalidArgument {
                    what: Argument::MouseAction,
                    value: command.action.clone(),
                },
            );
        },
    };
    let mut events: Vec<HostEvent> = Vec::new();
    match action {
        MouseAction::DoubleClick => {
            if !str_eq(command.button.as_str(), "left") {
                return Dispatch::rejected(
                    CommandError::InvalidArgument {
                        what: Argument::DoubleClickButton,
                        value: command.button.clone(),
                    },
                );
            }
            events.push(HostEvent::MoveTo { x: command.x, y: command.y });
            events.push(HostEvent::Click { button: MouseButton::Left });
            events.push(HostEvent::Delay { millis: DOUBLE_CLICK_DELAY_MS });
            events.push(HostEvent::Click { button: MouseButton::Left });
        },
        _ => {
            let button = match MouseButton::parse(command.button.as_str()) {
                Some(button) => button,
                None => {
                    return Dispatch::rejected(
                        CommandError::InvalidArgument {
                            what: Argument::MouseButton,
                            value: command.button.clone(),
                        },
                    );
                },
            };
            events.push(HostEvent::MoveTo { x: command.x, y: command.y });
            events.push(
                match action {
                    MouseAction::Press => HostEvent::ButtonDown { button },
                    MouseAction::Release => HostEvent::ButtonUp { button },
                    _ => HostEvent::Click { button },
                },
            );
        },
    }
    let d = Dispatch { events, outcome: Ok(String::from_str("Comando de mouse ejecutado")) };
    assert(d@.events =~= mouse_dispatch(command@).events);
    d
}

/// A double click is two clicks of the left button with a pause between
/// them, after the pointer was moved; asked of any other button, the right
/// one among them, it fails and issues no event.
pub proof fn law_double_click(command: MouseCommandView)
    requires
        command.action == "double_click"@,
    ensures
        DOUBLE_CLICK_DELAY_MS > 0,
        command.button == "left"@ ==> mouse_dispatch(command) == (DispatchView {
            events: seq![
                HostEventView::MoveTo { x: command.x, y: command.y },
                HostEventView::Click { button: MouseButton::Left },
                HostEventView::Delay { millis: DOUBLE_CLICK_DELAY_MS },
                HostEventView::Click { button: MouseButton::Left },
            ],
            outcome: Ok(mouse_done_message()),
        }),
        command.button != "left"@ ==> mouse_dispatch(command) == rejected(
            CommandErrorView::InvalidArgument {
                what: Argument::DoubleClickButton,
                value: command.button,
            },
        ),
        "right"@ != "left"@,
{
    reveal_strlit("click");
    reveal_strlit("double_click");
    reveal_strlit("left");
    reveal_strlit("right");
    assert("double_click"@ != "click"@) by {
        assert("click"@.len() == 5);
    }
    assert("right"@ != "left"@) by {
        assert("left"@.len() == 4);
    }
    if command.button == "left"@ {
        assert(mouse_dispatch(command).events =~= seq![
            HostEventView::MoveTo { x: command.x, y: command.y },
            HostEventView::Click { button: MouseButton::Left },
            HostEventView::Delay { millis: DOUBLE_CLICK_DELAY_MS },
            HostEventView::Click { button: MouseButton::Left },
        ]);
    }
}

/// A mouse command that fails issues no event, and one that succeeds
/// starts by moving the pointer to its target.
pub proof fn law_mouse_failure_issues_nothing(command: MouseCommandView)
    ensures
        mouse_dispatch(command).outcome is Err ==> mouse_dispatch(command).events.len() == 0,
        mouse_dispatch(command).outcome is Ok ==> mouse_dispatch(command).events.len() >= 2
            && mouse_dispatch(command).events[0] == (HostEventView::MoveTo {
            x: command.x,
            y: command.y,
        }),
{
}

} // verus!
