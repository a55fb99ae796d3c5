//! Dispatch of keyboard commands.

use vstd::prelude::*;
use vstd::string::StringExecFns;
use crate::dispatch::{rejected, Dispatch, DispatchView};
use crate::error::{Argument, CommandError, CommandErrorView};
use crate::input::{
    events_view,
    key_action_named,
    key_named,
    modifier_key,
    modifier_named,
    HostEvent,
    HostEventView,
    Key,
    KeyAction,
    Modifier,
};

verus! {

/// A keyboard command as it arrives: the key descriptor, and the action and
/// the modifiers by their wire names.
#[derive(Debug, PartialEq, Eq)]
pub struct KeyboardCommand {
    /// A named key, a single character, or the text to type.
    pub key: String,
    /// `type` or `press`.
    pub action: String,
    /// Any of `ctrl`, `alt` and `shift`, in the order in which they are
    /// to be engaged.
    pub modifiers: Vec<String>,
}

/// The mathematical content of a [`KeyboardCommand`].
pub struct KeyboardCommandView {
    pub key: Seq<char>,
    pub action: Seq<char>,
    pub modifiers: Seq<Seq<char>>,
}

/// The contents of a list of names, one by one.
pub open spec fn names_view(names: Seq<String>) -> Seq<Seq<char>> {
    names.map_values(|name: String| name@)
}

impl View for KeyboardCommand {
    type V = KeyboardCommandView;

    open spec fn view(&self) -> KeyboardCommandView {
        KeyboardCommandView {
            key: self.key@,
            action: self.action@,
            modifiers: names_view(self.modifiers@),
        }
    }
}

/// What the caller is told after a keyboard command was carried out.
pub open spec fn keyboard_done_message() -> Seq<char> {
    "Comando de teclado ejecutado"@
}

/// The first of `names` that is not the name of a modifier, if there is one.
pub open spec fn first_unknown_modifier(names: Seq<Seq<char>>) -> Option<Seq<char>>
    decreases names.len(),
{
    if names.len() == 0 {
        None
    } else if modifier_named(names.first()) is None {
        Some(names.first())
    } else {
        first_unknown_modifier(names.drop_first())
    }
}

/// The host keys that hold down the modifiers `names`, in the same order.
/// Meant for names that are all modifiers.
pub open spec fn held_keys(names: Seq<Seq<char>>) -> Seq<Key> {
    names.map_values(|name: Seq<char>| modifier_key(modifier_named(name).unwrap()))
}

/// One key-down for each of `keys`, in order.
pub open spec fn key_downs(keys: Seq<Key>) -> Seq<HostEventView> {
    keys.map_values(|key: Key| HostEventView::KeyDown { key })
}

/// One key-up for each of `keys`, in order.
pub open spec fn key_ups(keys: Seq<Key>) -> Seq<HostEventView> {
    keys.map_values(|key: Key| HostEventView::KeyUp { key })
}

/// The dispatch of a key press under the held keys `held`.
///
/// The held keys go down first, in order, and come up last, in the same
/// order, whatever the descriptor is. Between the two a named key goes down
/// and up, a single character is injected as text, and anything else issues
/// nothing and fails.
pub open spec fn press_dispatch(held: Seq<Key>, key: Seq<char>) -> DispatchView {
    let done = Ok::<Seq<char>, CommandErrorView>(keyboard_done_message());
    match key_named(key) {
        Some(named) => DispatchView {
            events: key_downs(held) + seq![
                HostEventView::KeyDown { key: named },
                HostEventView::KeyUp { key: named },
            ] + key_ups(held),
            outcome: done,
        },
        None => if key.len() == 1 {
            DispatchView {
                events: key_downs(held) + seq![HostEventView::Text { text: key }] + key_ups(held),
                outcome: done,
            }
        } else {
            DispatchView {
                events: key_downs(held) + key_ups(held),
                outcome: Err(CommandErrorView::InvalidArgument { what: Argument::Key, value: key }),
            }
        },
    }
}

/// The dispatch of a keyboard command.
///
/// The action is decoded first, then every modifier; a command that does
/// not decode issues no event. `type` injects the descriptor as literal
/// text and applies no modifier; `press` is [`press_dispatch`].
pub open spec fn keyboard_dispatch(command: KeyboardCommandView) -> DispatchView {
    match key_action_named(command.action) {
        None => rejected(
            CommandErrorView::InvalidArgument {
                what: Argument::KeyboardAction,
                value: command.action,
            },
        ),
        Some(action) => match first_unknown_modifier(command.modifiers) {
            Some(name) => rejected(
                CommandErrorView::InvalidArgument { what: Argument::Modifier, value: name },
            ),
            None => match action {
                KeyAction::Type => DispatchView {
                    events: seq![HostEventView::Text { text: command.key }],
                    outcome: Ok(keyboard_done_message()),
                },
                KeyAction::Press => press_dispatch(held_keys(command.modifiers), command.key),
            },
        },
    }
}

/// Decodes the modifiers of a command into the keys that hold them down, or
/// reports the first name that is no modifier.
fn decode_modifiers(names: &Vec<String>) -> (decoded: Result<Vec<Key>, CommandError>)
    ensures
        match decoded {
            Ok(keys) => first_unknown_modifier(names_view(names@)) is None && keys@ == held_keys(
                names_view(names@),
            ),
            Err(error) => first_unknown_modifier(names_view(names@)) matches Some(name) && error@
                == (CommandErrorView::InvalidArgument { what: Argument::Modifier, value: name }),
        },
{
    let ghost all = names_view(names@);
    let mut keys: Vec<Key> = Vec::new();
    let mut i: usize = 0;
    assert(all.skip(0) =~= all);
    while i < names.len()
        invariant
            i <= names.len(),
            all == names_view(names@),
            first_unknown_modifier(all) == first_unknown_modifier(all.skip(i as int)),
            keys@.len() == i,
            forall|j: int| 0 <= j < i ==> keys@[j] == modifier_key(modifier_named(all[j]).unwrap()),
        decreases names.len() - i,
    {
        let ghost rest = all.skip(i as int);
        assert(rest.first() == names@[i as int]@);
        assert(rest.drop_first() =~= all.skip(i + 1));
        match Modifier::parse(names[i].as_str()) {
            Some(modifier) => {
                keys.push(modifier.key());
            },
            None => {
                return Err(
                    CommandError::InvalidArgument {
                        what: Argument::Modifier,
                        value: names[i].clone(),
                    },
                );
            },
        }
        i += 1;
    }
    assert(all.skip(i as int).len() == 0);
    assert(keys@ =~= held_keys(all));
    Ok(keys)
}

/// Appends one key-down for each of `keys`.
fn hold(events: &mut Vec<HostEvent>, keys: &Vec<Key>)
    ensures
        events_view(final(events)@) == events_view(old(events)@) + key_downs(keys@),
{
    let ghost before = events@;
    let mut i: usize = 0;
    while i < keys.len()
        invariant
            i <= keys.len(),
            events@.len() == before.len() + i,
            forall|j: int| 0 <= j < before.len() ==> events@[j] == before[j],
            forall|j: int|
                0 <= j < i ==> events@[before.len() + j] == (HostEvent::KeyDown { key: keys@[j] }),
        decreases keys.len() - i,
    {
        events.push(HostEvent::KeyDown { key: keys[i] });
        i += 1;
    }
    assert(events_view(events@) =~= events_view(before) + key_downs(keys@));
}

/// Appends one key-up for each of `keys`.
fn release(events: &mut Vec<HostEvent>, keys: &Vec<Key>)
    ensures
        events_view(final(events)@) == events_view(old(events)@) + key_ups(keys@),
{
    let ghost before = events@;
    let mut i: usize = 0;
    while i < keys.len()
        invariant
            i <= keys.len(),
            events@.len() == before.len() + i,
            forall|j: int| 0 <= j < before.len() ==> events@[j] == before[j],
            forall|j: int|
                0 <= j < i ==> events@[before.len() + j] == (HostEvent::KeyUp { key: keys@[j] }),
        decreases keys.len() - i,
    {
        events.push(HostEvent::KeyUp { key: keys[i] });
        i += 1;
    }
    assert(events_view(events@) =~= events_view(before) + key_ups(keys@));
}

/// Presses the key that `key` describes while `held` are held down.
fn press(held: &Vec<Key>, key: &String) -> (d: Dispatch)
    ensures
        d@ == press_dispatch(held@, key@),
{
    let mut events: Vec<HostEvent> = Vec::new();
    assert(events_view(events@) =~= Seq::empty());
    hold(&mut events, held);
    let outcome = match Key::parse(key.as_str()) {
        Some(named) => {
            events.push(HostEvent::KeyDown { key: named });
            events.push(HostEvent::KeyUp { key: named });
            assert(events_view(events@) =~= key_downs(held@) + seq![
                HostEventView::KeyDown { key: named },
                HostEventView::KeyUp { key: named },
            ]);
            Ok(String::from_str("Comando de teclado ejecutado"))
        },
        None => {
            if key.as_str().unicode_len() == 1 {
                events.push(HostEvent::Text { text: key.clone() });
                assert(events_view(events@) =~= key_downs(held@) + seq![
                    HostEventView::Text { text: key@ },
                ]);
                Ok(String::from_str("Comando de teclado ejecutado"))
            } else {
                assert(events_view(events@) =~= key_downs(held@));
                Err(CommandError::InvalidArgument { what: Argument::Key, value: key.clone() })
            }
        },
    };
    release(&mut events, held);
    Dispatch { events, outcome }
}

/// Dispatches a keyboard command: decides the host events that carry it out
/// and the answer to give.
pub fn execute_keyboard_command(command: &KeyboardCommand) -> (d: Dispatch)
    ensures
        d@ == keyboard_dispatch(command@),
{
    let action = match KeyAction::parse(command.action.as_str()) {
        Some(action) => action,
        None => {
            return Dispatch::rejected(
                CommandError::InvalidArgument {
                    what: Argument::KeyboardAction,
                    value: command.action.clone(),
                },
            );
        },
    };
    let held = match decode_modifiers(&command.modifiers) {
        Ok(held) => held,
        Err(error) => {
            return Dispatch::rejected(error);
        },
    };
    match action {
        KeyAction::Type => {
            let mut events: Vec<HostEvent> = Vec::new();
            events.push(HostEvent::Text { text: command.key.clone() });
            let d = Dispatch {
                events,
                outcome: Ok(String::from_str("Comando de teclado ejecutado")),
            };
            assert(d@.events =~= seq![HostEventView::Text { text: command.key@ }]);
            d
        },
        KeyAction::Press => press(&held, &command.key),
    }
}

/// How many times `event` occurs in `events`.
pub open spec fn occurrences(events: Seq<HostEventView>, event: HostEventView) -> nat
    decreases events.len(),
{
    if events.len() == 0 {
        0
    } else {
        occurrences(events.drop_last(), event) + if events.last() == event {
            1nat
        } else {
            0nat
        }
    }
}

/// Occurrences add up over concatenation.
proof fn lemma_occurrences_add(
    front: Seq<HostEventView>,
    back: Seq<HostEventView>,
    event: HostEventView,
)
    ensures
        occurrences(front + back, event) == occurrences(front, event) + occurrences(back, event),
    decreases back.len(),
{
    if back.len() == 0 {
        assert(front + back =~= front);
    } else {
        assert((front + back).drop_last() =~= front + back.drop_last());
        lemma_occurrences_add(front, back.drop_last(), event);
    }
}

/// Among the key-downs of `keys` a key goes down as often as it comes up
/// among their key-ups, and neither list holds an event of the other kind.
proof fn lemma_held_keys_balance(keys: Seq<Key>, key: Key)
    ensures
        occurrences(key_downs(keys), HostEventView::KeyDown { key }) == occurrences(
            key_ups(keys),
            HostEventView::KeyUp { key },
        ),
        occurrences(key_downs(keys), HostEventView::KeyUp { key }) == 0,
        occurrences(key_ups(keys), HostEventView::KeyDown { key }) == 0,
    decreases keys.len(),
{
    if keys.len() > 0 {
        assert(key_downs(keys).drop_last() =~= key_downs(keys.drop_last()));
        assert(key_ups(keys).drop_last() =~= key_ups(keys.drop_last()));
        lemma_held_keys_balance(keys.drop_last(), key);
    }
}

/// Every key-down that a keyboard command issues is matched by a key-up:
/// whatever the command, and whether it succeeds or fails, each key goes
/// down exactly as often as it comes up.
pub proof fn law_key_downs_are_matched(command: KeyboardCommandView, key: Key)
    ensures
        occurrences(keyboard_dispatch(command).events, HostEventView::KeyDown { key })
            == occurrences(keyboard_dispatch(command).events, HostEventView::KeyUp { key }),
{
    let events = keyboard_dispatch(command).events;
    let down = HostEventView::KeyDown { key };
    let up = HostEventView::KeyUp { key };
    let held = held_keys(command.modifiers);
    let between = match key_named(command.key) {
        Some(named) => seq![
            HostEventView::KeyDown { key: named },
            HostEventView::KeyUp { key: named },
        ],
        None => if command.key.len() == 1 {
            seq![HostEventView::Text { text: command.key }]
        } else {
            Seq::<HostEventView>::empty()
        },
    };
    assert(occurrences(between, down) == occurrences(between, up)) by {
        reveal_with_fuel(occurrences, 3);
        if key_named(command.key) is Some {
            assert(between.drop_last() =~= seq![between[0]]);
        }
    }
    if key_action_named(command.action) == Some(KeyAction::Press) && first_unknown_modifier(
        command.modifiers,
    ) is None {
        assert(events =~= key_downs(held) + between + key_ups(held));
        lemma_held_keys_balance(held, key);
        lemma_occurrences_add(key_downs(held), between, down);
        lemma_occurrences_add(key_downs(held), between, up);
        lemma_occurrences_add(key_downs(held) + between, key_ups(held), down);
        lemma_occurrences_add(key_downs(held) + between, key_ups(held), up);
    } else {
        reveal_with_fuel(occurrences, 2);
    }
}

/// A press of an unrecognized key under `n` modifiers issues exactly `n`
/// key-downs, then `n` key-ups of the same keys in the same order, and
/// nothing else, and fails naming the key.
///
/// This is stated for commands whose modifiers are all recognized; one
/// with an unknown modifier is rejected before any event.
pub proof fn law_unrecognized_key_releases_modifiers(command: KeyboardCommandView)
    requires
        key_action_named(command.action) == Some(KeyAction::Press),
        first_unknown_modifier(command.modifiers) is None,
        key_named(command.key) is None,
        command.key.len() != 1,
    ensures
        ({
            let d = keyboard_dispatch(command);
            let n = command.modifiers.len() as int;
            let held = held_keys(command.modifiers);
            &&& d.outcome == Err::<Seq<char>, CommandErrorView>(
                CommandErrorView::InvalidArgument { what: Argument::Key, value: command.key },
            )
            &&& d.events.len() == 2 * n
            &&& forall|i: int|
                0 <= i < n ==> d.events[i] == (HostEventView::KeyDown { key: held[i] })
            &&& forall|i: int|
                0 <= i < n ==> d.events[n + i] == (HostEventView::KeyUp { key: held[i] })
        }),
{
}

/// No name is the first unknown modifier exactly when every name is a
/// modifier, and a first unknown modifier is one of the names.
pub proof fn lemma_first_unknown_modifier(names: Seq<Seq<char>>)
    ensures
        first_unknown_modifier(names) is None <==> forall|i: int|
            0 <= i < names.len() ==> modifier_named(#[trigger] names[i]) is Some,
        first_unknown_modifier(names) matches Some(name) ==> modifier_named(name) is None
            && names.contains(name),
    decreases names.len(),
{
    if names.len() > 0 {
        let rest = names.drop_first();
        lemma_first_unknown_modifier(rest);
        assert forall|i: int| 0 <= i < rest.len() implies rest[i] == names[i + 1] by {}
        if modifier_named(names.first()) is Some {
            if first_unknown_modifier(rest) is None {
                assert forall|i: int| 0 <= i < names.len() implies modifier_named(
                    #[trigger] names[i],
                ) is Some by {
                    if i > 0 {
                        assert(names[i] == rest[i - 1]);
                    }
                }
            } else {
                let name = first_unknown_modifier(rest)->0;
                let k = choose|k: int| 0 <= k < rest.len() && rest[k] == name;
                assert(names[k + 1] == name);
            }
        } else {
            assert(names[0] == names.first());
        }
    }
}

/// A named key pressed under `ctrl` and `shift`: control down, shift down,
/// the key down, the key up, control up, shift up.
pub proof fn law_named_key_under_ctrl_and_shift(command: KeyboardCommandView, named: Key)
    requires
        command.action == "press"@,
        command.modifiers == seq!["ctrl"@, "shift"@],
        key_named(command.key) == Some(named),
    ensures
        keyboard_dispatch(command).events == seq![
            HostEventView::KeyDown { key: Key::Control },
            HostEventView::KeyDown { key: Key::Shift },
            HostEventView::KeyDown { key: named },
            HostEventView::KeyUp { key: named },
            HostEventView::KeyUp { key: Key::Control },
            HostEventView::KeyUp { key: Key::Shift },
        ],
        keyboard_dispatch(command).outcome == Ok::<Seq<char>, CommandErrorView>(
            keyboard_done_message(),
        ),
{
    reveal_strlit("type");
    reveal_strlit("press");
    reveal_strlit("ctrl");
    reveal_strlit("alt");
    reveal_strlit("shift");
    assert("press"@ != "type"@) by {
        assert("press"@.len() != "type"@.len());
    }
    assert("shift"@ != "ctrl"@ && "shift"@ != "alt"@) by {
        assert("shift"@.len() == 5);
    }
    let names = command.modifiers;
    assert(modifier_named(names[0]) == Some(Modifier::Ctrl));
    assert(modifier_named(names[1]) == Some(Modifier::Shift));
    lemma_first_unknown_modifier(names);
    let held = held_keys(names);
    assert(held =~= seq![Key::Control, Key::Shift]);
    assert(keyboard_dispatch(command).events =~= seq![
        HostEventView::KeyDown { key: Key::Control },
        HostEventView::KeyDown { key: Key::Shift },
        HostEventView::KeyDown { key: named },
        HostEventView::KeyUp { key: named },
        HostEventView::KeyUp { key: Key::Control },
        HostEventView::KeyUp { key: Key::Shift },
    ]);
}

} // verus!
