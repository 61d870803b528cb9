//! Keyboard and mouse events.

use crate::linux_wayland::keymap::Key;
use crate::text;
use crate::text::join;
use vstd::prelude::*;

verus! {

/// A mouse button. `Unknown` carries the number of a button without a name.
#[derive(Clone, Copy, Debug, PartialEq, Eq, Hash, Structural)]
pub enum Button {
    Left,
    Right,
    Middle,
    Unknown(u8),
}

/// What happened, with coordinates of the type `C`.
#[derive(Debug, PartialEq, Eq)]
pub enum EventType<C> {
    KeyPress(Key),
    KeyRelease(Key),
    ButtonPress(Button),
    ButtonRelease(Button),
    MouseMove { x: C, y: C },
    Wheel { delta_x: i64, delta_y: i64 },
}

/// An event that was captured: what happened, and the name that the system gave with it, if
/// it gave one.
#[derive(Debug, PartialEq, Eq)]
pub struct Event<C> {
    pub event_type: EventType<C>,
    pub name: Option<String>,
}

/// The kind of an event.
#[derive(Clone, Copy, Debug, PartialEq, Eq, Hash, Structural)]
pub enum EventTypeValue {
    KeyPress,
    KeyRelease,
    ButtonPress,
    ButtonRelease,
    MouseMove,
    Wheel,
}

#[derive(Debug, PartialEq, Eq)]
pub struct KeyPressEvent {
    pub key: Key,
}

#[derive(Debug, PartialEq, Eq)]
pub struct KeyReleaseEvent {
    pub key: Key,
}

#[derive(Debug, PartialEq, Eq)]
pub struct ButtonPressEvent {
    pub button: Button,
}

#[derive(Debug, PartialEq, Eq)]
pub struct ButtonReleaseEvent {
    pub button: Button,
}

#[derive(Debug, PartialEq, Eq)]
pub struct MouseMoveEvent<C> {
    pub x: C,
    pub y: C,
}

#[derive(Debug, PartialEq, Eq)]
pub struct WheelEvent {
    pub delta_x: i64,
    pub delta_y: i64,
}

/// An event as scripts see it: its kind says which of its payloads counts.
///
/// `time` is the whole number of milliseconds that the event carries; there is none where
/// it carries no whole number. `name` is that of a captured event; it does not matter for
/// simulation.
#[derive(Debug, PartialEq, Eq)]
pub struct InputEvent<C> {
    pub event_type: EventTypeValue,
    pub time: Option<i128>,
    pub name: Option<String>,
    pub key_press: Option<KeyPressEvent>,
    pub key_release: Option<KeyReleaseEvent>,
    pub button_press: Option<ButtonPressEvent>,
    pub button_release: Option<ButtonReleaseEvent>,
    pub mouse_move: Option<MouseMoveEvent<C>>,
    pub wheel: Option<WheelEvent>,
}

/// The times that a number of a script can tell exactly are below this one.
pub const TIME_LIMIT: i128 = 9_007_199_254_740_992;

/// Why an event cannot be simulated as it stands.
#[derive(Clone, Copy, Debug, PartialEq, Eq, Structural)]
pub enum EventDataError {
    /// The payload of its kind is missing.
    MissingPayload,
    /// Its time is no whole number, negative, or too large.
    InvalidTime,
    /// Its key has no name.
    UnknownKey,
    /// Its button has no name.
    UnknownButton,
}

impl<C> InputEvent<C> {
    /// What the payload of its kind says, if it is there.
    pub open spec fn content(self) -> Option<EventType<C>> {
        match self.event_type {
            EventTypeValue::KeyPress => match self.key_press {
                Some(p) => Some(EventType::KeyPress(p.key)),
                None => None,
            },
            EventTypeValue::KeyRelease => match self.key_release {
                Some(p) => Some(EventType::KeyRelease(p.key)),
                None => None,
            },
            EventTypeValue::ButtonPress => match self.button_press {
                Some(p) => Some(EventType::ButtonPress(p.button)),
                None => None,
            },
            EventTypeValue::ButtonRelease => match self.button_release {
                Some(p) => Some(EventType::ButtonRelease(p.button)),
                None => None,
            },
            EventTypeValue::MouseMove => match self.mouse_move {
                Some(p) => Some(EventType::MouseMove { x: p.x, y: p.y }),
                None => None,
            },
            EventTypeValue::Wheel => match self.wheel {
                Some(p) => Some(EventType::Wheel { delta_x: p.delta_x, delta_y: p.delta_y }),
                None => None,
            },
        }
    }

    /// The time is a whole number of milliseconds that a number of a script can tell
    /// exactly, and not negative.
    pub open spec fn time_is_valid(self) -> bool {
        self.time matches Some(t) && 0 <= t < TIME_LIMIT
    }
}

/// The key or the button of the event has no name.
pub open spec fn nameless<C>(event: EventType<C>) -> Option<EventDataError> {
    match event {
        EventType::KeyPress(Key::Unknown(_)) | EventType::KeyRelease(Key::Unknown(_)) => Some(
            EventDataError::UnknownKey,
        ),
        EventType::ButtonPress(Button::Unknown(_))
        | EventType::ButtonRelease(Button::Unknown(_)) => Some(EventDataError::UnknownButton),
        _ => None,
    }
}

/// What is to be simulated for `event`.
pub open spec fn requested<C>(event: InputEvent<C>) -> Result<EventType<C>, EventDataError> {
    match event.content() {
        None => Err(EventDataError::MissingPayload),
        Some(content) => if !event.time_is_valid() {
            Err(EventDataError::InvalidTime)
        } else {
            match nameless(content) {
                Some(e) => Err(e),
                None => Ok(content),
            }
        },
    }
}

/// What the payload of the kind of `event` says, if it is there.
fn content<C>(event: InputEvent<C>) -> (r: Option<EventType<C>>)
    ensures
        r == event.content(),
{
    match event.event_type {
        EventTypeValue::KeyPress => match event.key_press {
            Some(p) => Some(EventType::KeyPress(p.key)),
            None => None,
        },
        EventTypeValue::KeyRelease => match event.key_release {
            Some(p) => Some(EventType::KeyRelease(p.key)),
            None => None,
        },
        EventTypeValue::ButtonPress => match event.button_press {
            Some(p) => Some(EventType::ButtonPress(p.button)),
            None => None,
        },
        EventTypeValue::ButtonRelease => match event.button_release {
            Some(p) => Some(EventType::ButtonRelease(p.button)),
            None => None,
        },
        EventTypeValue::MouseMove => match event.mouse_move {
            Some(p) => Some(EventType::MouseMove { x: p.x, y: p.y }),
            None => None,
        },
        EventTypeValue::Wheel => match event.wheel {
            Some(p) => Some(EventType::Wheel { delta_x: p.delta_x, delta_y: p.delta_y }),
            None => None,
        },
    }
}

/// What is to be simulated for `event`: it needs the payload of its kind, a time that is
/// valid, and a key or a button that has a name.
pub fn simulate_event<C>(event: InputEvent<C>) -> (r: Result<EventType<C>, EventDataError>)
    ensures
        r == requested(event),
{
    let time_is_valid = match event.time {
        Some(t) => 0 <= t && t < TIME_LIMIT,
        None => false,
    };
    match content(event) {
        None => Err(EventDataError::MissingPayload),
        Some(content) => {
            if !time_is_valid {
                return Err(EventDataError::InvalidTime);
            }
            match content {
                EventType::KeyPress(Key::Unknown(_)) | EventType::KeyRelease(Key::Unknown(_)) => Err(
                    EventDataError::UnknownKey,
                ),
                EventType::ButtonPress(Button::Unknown(_))
                | EventType::ButtonRelease(Button::Unknown(_)) => Err(
                    EventDataError::UnknownButton,
                ),
                content => Ok(content),
            }
        },
    }
}

impl EventDataError {
    /// What is wrong, in words.
    pub open spec fn words(self) -> Seq<char> {
        match self {
            EventDataError::MissingPayload => "the payload of the event type is missing"@,
            EventDataError::InvalidTime => "time must be a non-negative integer below 2^53"@,
            EventDataError::UnknownKey => "an unknown key cannot be simulated"@,
            EventDataError::UnknownButton => "an unknown button cannot be simulated"@,
        }
    }

    /// The message for an event that cannot be simulated as it stands.
    pub fn message(self) -> (r: String)
        ensures
            r@ == "Invalid event data: "@ + self.words(),
    {
        let words: &str = match self {
            EventDataError::MissingPayload => "the payload of the event type is missing",
            EventDataError::InvalidTime => "time must be a non-negative integer below 2^53",
            EventDataError::UnknownKey => "an unknown key cannot be simulated",
            EventDataError::UnknownButton => "an unknown button cannot be simulated",
        };
        join("Invalid event data: ", words)
    }
}

/// What simulating an event returns, where `outcome` says how the backend fared.
pub fn simulated(outcome: Result<(), String>) -> (r: Result<(), String>)
    ensures
        text::told(r) == match outcome {
            Ok(()) => Ok::<(), Seq<char>>(()),
            Err(e) => Err("Failed to simulate event: "@ + e@),
        },
{
    match outcome {
        Ok(()) => Ok(()),
        Err(e) => Err(join("Failed to simulate event: ", e.as_str())),
    }
}

/// The kind of an event.
pub open spec fn kind_of<C>(event: EventType<C>) -> EventTypeValue {
    match event {
        EventType::KeyPress(_) => EventTypeValue::KeyPress,
        EventType::KeyRelease(_) => EventTypeValue::KeyRelease,
        EventType::ButtonPress(_) => EventTypeValue::ButtonPress,
        EventType::ButtonRelease(_) => EventTypeValue::ButtonRelease,
        EventType::MouseMove { .. } => EventTypeValue::MouseMove,
        EventType::Wheel { .. } => EventTypeValue::Wheel,
    }
}

/// The event as scripts see it: with its name, the payload of its kind, and no other.
pub open spec fn shown<C>(event: Event<C>, time: i128) -> InputEvent<C> {
    InputEvent {
        event_type: kind_of(event.event_type),
        time: Some(time),
        name: event.name,
        key_press: match event.event_type {
            EventType::KeyPress(key) => Some(KeyPressEvent { key }),
            _ => None,
        },
        key_release: match event.event_type {
            EventType::KeyRelease(key) => Some(KeyReleaseEvent { key }),
            _ => None,
        },
        button_press: match event.event_type {
            EventType::ButtonPress(button) => Some(ButtonPressEvent { button }),
            _ => None,
        },
        button_release: match event.event_type {
            EventType::ButtonRelease(button) => Some(ButtonReleaseEvent { button }),
            _ => None,
        },
        mouse_move: match event.event_type {
            EventType::MouseMove { x, y } => Some(MouseMoveEvent { x, y }),
            _ => None,
        },
        wheel: match event.event_type {
            EventType::Wheel { delta_x, delta_y } => Some(WheelEvent { delta_x, delta_y }),
            _ => None,
        },
    }
}

/// The event as scripts see it, at `time`.
pub fn input_event<C>(event: Event<C>, time: i128) -> (r: InputEvent<C>)
    ensures
        r == shown(event, time),
{
    let mut r = InputEvent {
        event_type: EventTypeValue::Wheel,
        time: Some(time),
        name: event.name,
        key_press: None,
        key_release: None,
        button_press: None,
        button_release: None,
        mouse_move: None,
        wheel: None,
    };
    match event.event_type {
        EventType::KeyPress(key) => {
            r.event_type = EventTypeValue::KeyPress;
            r.key_press = Some(KeyPressEvent { key });
        },
        EventType::KeyRelease(key) => {
            r.event_type = EventTypeValue::KeyRelease;
            r.key_release = Some(KeyReleaseEvent { key });
        },
        EventType::ButtonPress(button) => {
            r.event_type = EventTypeValue::ButtonPress;
            r.button_press = Some(ButtonPressEvent { button });
        },
        EventType::ButtonRelease(button) => {
            r.event_type = EventTypeValue::ButtonRelease;
            r.button_release = Some(ButtonReleaseEvent { button });
        },
        EventType::MouseMove { x, y } => {
            r.event_type = EventTypeValue::MouseMove;
            r.mouse_move = Some(MouseMoveEvent { x, y });
        },
        EventType::Wheel { delta_x, delta_y } => {
            r.wheel = Some(WheelEvent { delta_x, delta_y });
        },
    }
    r
}

/// An event that has been shown to a script can be simulated as it was, whatever its name,
/// unless its time is not valid, or its key or its button has no name.
pub proof fn shown_events_can_be_simulated<C>(event: Event<C>, time: i128)
    ensures
        shown(event, time).content() == Some(event.event_type),
        0 <= time < TIME_LIMIT && nameless(event.event_type) is None ==> requested(
            shown(event, time),
        ) == Ok::<EventType<C>, EventDataError>(event.event_type),
        nameless(event.event_type) is Some ==> requested(shown(event, time)) is Err,
{
}

/// What an event comes to is the payload of its kind, whatever it holds, and nothing else:
/// it needs a time from zero up to, and without, two to the power of fifty-three, and a key or
/// a button that is not unknown.
pub proof fn a_request_is_its_payload<C>(
    event: InputEvent<C>,
    key: Key,
    button: Button,
    x: C,
    y: C,
    delta_x: i64,
    delta_y: i64,
)
    ensures
        ({
            let timed = event.time matches Some(t) && 0 <= t && t < 0x20_0000_0000_0000;
            let r = requested(event);
            &&& r == Ok::<EventType<C>, EventDataError>(EventType::KeyPress(key)) <==> timed
                && event.event_type is KeyPress && (event.key_press matches Some(p) && p.key == key)
                && !(key is Unknown)
            &&& r == Ok::<EventType<C>, EventDataError>(EventType::KeyRelease(key)) <==> timed
                && event.event_type is KeyRelease && (event.key_release matches Some(p) && p.key
                == key) && !(key is Unknown)
            &&& r == Ok::<EventType<C>, EventDataError>(EventType::ButtonPress(button)) <==> timed
                && event.event_type is ButtonPress && (event.button_press matches Some(p)
                && p.button == button) && !(button is Unknown)
            &&& r == Ok::<EventType<C>, EventDataError>(EventType::ButtonRelease(button))
                <==> timed && event.event_type is ButtonRelease && (event.button_release matches
                Some(p) && p.button == button) && !(button is Unknown)
            &&& r == Ok::<EventType<C>, EventDataError>(EventType::MouseMove { x, y }) <==> timed
                && event.event_type is MouseMove && (event.mouse_move matches Some(p) && p.x == x
                && p.y == y)
            &&& r == Ok::<EventType<C>, EventDataError>(EventType::Wheel { delta_x, delta_y })
                <==> timed && event.event_type is Wheel && (event.wheel matches Some(p)
                && p.delta_x == delta_x && p.delta_y == delta_y)
        }),
{
}

/// An event is refused for its payload before its time, and for its time before its name; and
/// for no other reason.
pub proof fn a_refusal_has_its_reason<C>(event: InputEvent<C>)
    ensures
        ({
            let missing = match event.event_type {
                EventTypeValue::KeyPress => event.key_press is None,
                EventTypeValue::KeyRelease => event.key_release is None,
                EventTypeValue::ButtonPress => event.button_press is None,
                EventTypeValue::ButtonRelease => event.button_release is None,
                EventTypeValue::MouseMove => event.mouse_move is None,
                EventTypeValue::Wheel => event.wheel is None,
            };
            let timed = event.time matches Some(t) && 0 <= t && t < 0x20_0000_0000_0000;
            let unknown_key = event.event_type is KeyPress && (event.key_press matches Some(p)
                && p.key is Unknown) || event.event_type is KeyRelease && (
            event.key_release matches Some(p) && p.key is Unknown);
            let unknown_button = event.event_type is ButtonPress && (
            event.button_press matches Some(p) && p.button is Unknown) || event.event_type
                is ButtonRelease && (event.button_release matches Some(p) && p.button is Unknown);
            let r = requested(event);
            &&& r is Ok <==> !missing && timed && !unknown_key && !unknown_button
            &&& r == Err::<EventType<C>, EventDataError>(EventDataError::MissingPayload)
                <==> missing
            &&& r == Err::<EventType<C>, EventDataError>(EventDataError::InvalidTime)
                <==> !missing && !timed
            &&& r == Err::<EventType<C>, EventDataError>(EventDataError::UnknownKey) <==> timed
                && unknown_key
            &&& r == Err::<EventType<C>, EventDataError>(EventDataError::UnknownButton) <==> timed
                && unknown_button
        }),
{
}

/// Neither the name of an event nor the payloads of other kinds matter.
pub proof fn only_the_payload_of_its_kind_counts<C>(a: InputEvent<C>, b: InputEvent<C>)
    requires
        a.event_type == b.event_type,
        a.time == b.time,
        a.event_type is KeyPress ==> a.key_press == b.key_press,
        a.event_type is KeyRelease ==> a.key_release == b.key_release,
        a.event_type is ButtonPress ==> a.button_press == b.button_press,
        a.event_type is ButtonRelease ==> a.button_release == b.button_release,
        a.event_type is MouseMove ==> a.mouse_move == b.mouse_move,
        a.event_type is Wheel ==> a.wheel == b.wheel,
    ensures
        requested(a) == requested(b),
{
}

/// What scripts see of an event tells it completely, whatever it holds: two that look alike
/// happened alike, at one time and under one name.
pub proof fn different_events_look_different<C>(a: Event<C>, at: i128, b: Event<C>, bt: i128)
    requires
        shown(a, at) == shown(b, bt),
    ensures
        a == b,
        at == bt,
{
}

/// What scripts see of an event has its time, its name and its payload, and no payload of
/// another kind.
pub proof fn an_event_is_shown_as_it_is<C>(event: Event<C>, time: i128)
    ensures
        ({
            let s = shown(event, time);
            &&& s.time == Some(time)
            &&& s.name == event.name
            &&& match event.event_type {
                EventType::KeyPress(key) => s.event_type is KeyPress && (s.key_press matches Some(
                    p,
                ) && p.key == key),
                EventType::KeyRelease(key) => s.event_type is KeyRelease && (
                s.key_release matches Some(p) && p.key == key),
                EventType::ButtonPress(button) => s.event_type is ButtonPress && (
                s.button_press matches Some(p) && p.button == button),
                EventType::ButtonRelease(button) => s.event_type is ButtonRelease && (
                s.button_release matches Some(p) && p.button == button),
                EventType::MouseMove { x, y } => s.event_type is MouseMove && (
                s.mouse_move matches Some(p) && p.x == x && p.y == y),
                EventType::Wheel { delta_x, delta_y } => s.event_type is Wheel && (
                s.wheel matches Some(p) && p.delta_x == delta_x && p.delta_y == delta_y),
            }
            &&& !(event.event_type is KeyPress) ==> s.key_press is None
            &&& !(event.event_type is KeyRelease) ==> s.key_release is None
            &&& !(event.event_type is ButtonPress) ==> s.button_press is None
            &&& !(event.event_type is ButtonRelease) ==> s.button_release is None
            &&& !(event.event_type is MouseMove) ==> s.mouse_move is None
            &&& !(event.event_type is Wheel) ==> s.wheel is None
        }),
{
}

/// Each reason for a refusal has words of its own.
pub proof fn refusals_are_told_apart(e: EventDataError)
    ensures
        match e {
            EventDataError::MissingPayload => e.words()
                == "the payload of the event type is missing"@,
            EventDataError::InvalidTime => e.words()
                == "time must be a non-negative integer below 2^53"@,
            EventDataError::UnknownKey => e.words() == "an unknown key cannot be simulated"@,
            EventDataError::UnknownButton => e.words() == "an unknown button cannot be simulated"@,
        },
{
}

} // verus!
