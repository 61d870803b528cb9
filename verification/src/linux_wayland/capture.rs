//! What an event of an input device means.

use super::codes::{
    RawEvent, ABS_X, ABS_Y, BTN_LAST, BTN_LEFT, BTN_MIDDLE, BTN_MISC, BTN_RIGHT, BTN_TASK, EV_ABS,
    EV_KEY, EV_REL, REL_HWHEEL, REL_WHEEL, REL_X, REL_Y,
};
use super::keymap;
use crate::events::{Button, Event, EventType};
use vstd::prelude::*;

verus! {

/// What an event of a device comes to.
#[derive(Debug, PartialEq, Eq)]
pub enum Meaning<C> {
    /// Nothing that is reported.
    Nothing,
    /// The event that is reported.
    Event(EventType<C>),
    /// The pointer moved: where it is now has to be asked for.
    PointerMoved,
}

/// The mouse button with the code `code`.
pub open spec fn button_of(code: u16) -> Button {
    if code == BTN_LEFT {
        Button::Left
    } else if code == BTN_RIGHT {
        Button::Right
    } else if code == BTN_MIDDLE {
        Button::Middle
    } else {
        Button::Unknown((code - BTN_LEFT) as u8)
    }
}

/// The event is one of a mouse button.
pub open spec fn is_mouse_button(e: RawEvent) -> bool {
    e.kind == EV_KEY && BTN_LEFT <= e.code <= BTN_TASK
}

/// The event is one of a button that is no mouse button: of a touch screen, a stylus, a
/// joystick or a gamepad.
pub open spec fn is_other_button(e: RawEvent) -> bool {
    e.kind == EV_KEY && BTN_MISC <= e.code <= BTN_LAST && !is_mouse_button(e)
}

/// The event tells that the pointer moved.
pub open spec fn is_motion(e: RawEvent) -> bool {
    ||| e.kind == EV_REL && (e.code == REL_X || e.code == REL_Y)
    ||| e.kind == EV_ABS && (e.code == ABS_X || e.code == ABS_Y)
}

/// What `e` means.
pub open spec fn meaning_of<C>(e: RawEvent) -> Meaning<C> {
    if is_motion(e) {
        Meaning::PointerMoved
    } else if is_mouse_button(e) {
        let button = button_of(e.code);
        Meaning::Event(
            if e.value != 0 {
                EventType::ButtonPress(button)
            } else {
                EventType::ButtonRelease(button)
            },
        )
    } else if e.kind == EV_KEY && !is_other_button(e) {
        let key = keymap::key_of(e.code);
        Meaning::Event(
            if e.value != 0 {
                EventType::KeyPress(key)
            } else {
                EventType::KeyRelease(key)
            },
        )
    } else if e.kind == EV_REL && e.code == REL_WHEEL {
        Meaning::Event(EventType::Wheel { delta_x: 0, delta_y: e.value as i64 })
    } else if e.kind == EV_REL && e.code == REL_HWHEEL {
        Meaning::Event(EventType::Wheel { delta_x: e.value as i64, delta_y: 0 })
    } else {
        Meaning::Nothing
    }
}

/// The event as it is captured here: a device gives no name.
pub open spec fn unnamed<C>(event_type: EventType<C>) -> Event<C> {
    Event { event_type, name: None }
}

/// What is reported of `e`, where `location` is what asking for the place of the pointer
/// gives.
pub open spec fn captured<C>(e: RawEvent, location: Result<(C, C), String>) -> Result<
    Option<Event<C>>,
    String,
> {
    match meaning_of::<C>(e) {
        Meaning::Nothing => Ok(None),
        Meaning::Event(event) => Ok(Some(unnamed(event))),
        Meaning::PointerMoved => match location {
            Ok((x, y)) => Ok(Some(unnamed(EventType::MouseMove { x, y }))),
            Err(message) => Err(message),
        },
    }
}

/// Tells what `e` means.
pub fn interpret<C>(e: RawEvent) -> (r: Meaning<C>)
    ensures
        r == meaning_of::<C>(e),
{
    if e.kind == EV_KEY {
        let pressed = e.value != 0;
        if BTN_LEFT <= e.code && e.code <= BTN_TASK {
            let button = if e.code == BTN_LEFT {
                Button::Left
            } else if e.code == BTN_RIGHT {
                Button::Right
            } else if e.code == BTN_MIDDLE {
                Button::Middle
            } else {
                Button::Unknown((e.code - BTN_LEFT) as u8)
            };
            Meaning::Event(
                if pressed {
                    EventType::ButtonPress(button)
                } else {
                    EventType::ButtonRelease(button)
                },
            )
        } else if BTN_MISC <= e.code && e.code <= BTN_LAST {
            Meaning::Nothing
        } else {
            let key = keymap::from_evdev(e.code);
            Meaning::Event(
                if pressed {
                    EventType::KeyPress(key)
                } else {
                    EventType::KeyRelease(key)
                },
            )
        }
    } else if e.kind == EV_REL {
        if e.code == REL_X || e.code == REL_Y {
            Meaning::PointerMoved
        } else if e.code == REL_WHEEL {
            Meaning::Event(EventType::Wheel { delta_x: 0, delta_y: e.value as i64 })
        } else if e.code == REL_HWHEEL {
            Meaning::Event(EventType::Wheel { delta_x: e.value as i64, delta_y: 0 })
        } else {
            Meaning::Nothing
        }
    } else if e.kind == EV_ABS && (e.code == ABS_X || e.code == ABS_Y) {
        Meaning::PointerMoved
    } else {
        Meaning::Nothing
    }
}

/// What is reported of `event`. The place of the pointer is asked for only where the
/// pointer moved.
pub fn capture_event<C, F: Fn() -> Result<(C, C), String>>(
    event: RawEvent,
    pointer_location: &F,
) -> (r: Result<Option<Event<C>>, String>)
    requires
        is_motion(event) ==> pointer_location.requires(()),
    ensures
        if is_motion(event) {
            exists|location: Result<(C, C), String>| #[trigger]
                pointer_location.ensures((), location) && r == captured(event, location)
        } else {
            forall|location: Result<(C, C), String>| r == #[trigger] captured(event, location)
        },
        (event.kind == 0x02 || event.kind == 0x03) && (event.code == 0x00 || event.code == 0x01)
            ==> exists|location: Result<(C, C), String>| #[trigger]
            pointer_location.ensures((), location) && match location {
                Ok((x, y)) => r matches Ok(Some(e)) && e.event_type == (EventType::MouseMove {
                    x,
                    y,
                }) && e.name is None,
                Err(message) => r == Err::<Option<Event<C>>, String>(message),
            },
{
    match interpret::<C>(event) {
        Meaning::Nothing => Ok(None),
        Meaning::Event(event_type) => Ok(Some(Event { event_type, name: None })),
        Meaning::PointerMoved => {
            let location = pointer_location();
            match location {
                Ok((x, y)) => Ok(
                    Some(Event { event_type: EventType::MouseMove { x, y }, name: None }),
                ),
                Err(message) => Err(message),
            }
        },
    }
}

/// Relative and absolute motion along either axis, whatever its length and direction, is
/// reported as the pointer being where it is then; where that cannot be told, the failure to
/// tell it is what comes of the event.
pub proof fn every_motion_is_reported_at_its_place<C>(
    e: RawEvent,
    location: Result<(C, C), String>,
)
    requires
        e.kind == 0x02 || e.kind == 0x03,
        e.code == 0x00 || e.code == 0x01,
    ensures
        is_motion(e),
        meaning_of::<C>(e) is PointerMoved,
        match location {
            Ok((x, y)) => captured(e, location) matches Ok(Some(event)) && event.event_type == (
            EventType::MouseMove { x, y }) && event.name is None,
            Err(message) => captured(e, location) == Err::<Option<Event<C>>, String>(message),
        },
{
}

/// Nothing but motion asks where the pointer is: of every other event it does not matter.
pub proof fn only_motion_needs_the_pointer<C>(
    e: RawEvent,
    here: Result<(C, C), String>,
    there: Result<(C, C), String>,
)
    requires
        !((e.kind == 0x02 || e.kind == 0x03) && (e.code == 0x00 || e.code == 0x01)),
    ensures
        !is_motion(e),
        !(meaning_of::<C>(e) is PointerMoved),
        captured(e, here) == captured(e, there),
        captured(e, here) is Ok,
        captured(e, here) matches Ok(Some(event)) ==> meaning_of::<C>(e) == Meaning::Event(
            event.event_type,
        ) && event.name is None && !(event.event_type is MouseMove),
        captured(e, here) matches Ok(None) ==> meaning_of::<C>(e) is Nothing,
{
}

/// A key or a mouse button is reported as pressed for every value but zero, and as released
/// for zero, and as the same key or button either way.
pub proof fn presses_and_releases_are_told_by_the_value<C>(code: u16, value: i32)
    requires
        code < 0x100 || code > 0x15f || 0x110 <= code <= 0x117,
    ensures
        ({
            let e = RawEvent { kind: 0x01, code, value };
            let key = keymap::key_of(code);
            let button = if code == 0x110 {
                Button::Left
            } else if code == 0x111 {
                Button::Right
            } else if code == 0x112 {
                Button::Middle
            } else {
                Button::Unknown((code - 0x110) as u8)
            };
            meaning_of::<C>(e) == Meaning::Event(
                if 0x110 <= code <= 0x117 {
                    if value == 0 {
                        EventType::<C>::ButtonRelease(button)
                    } else {
                        EventType::<C>::ButtonPress(button)
                    }
                } else {
                    if value == 0 {
                        EventType::<C>::KeyRelease(key)
                    } else {
                        EventType::<C>::KeyPress(key)
                    }
                },
            )
        }),
{
}

/// No two mouse buttons are reported as the same one.
pub proof fn buttons_are_told_apart<C>(a: u16, b: u16, value: i32)
    requires
        0x110 <= a <= 0x117,
        0x110 <= b <= 0x117,
        meaning_of::<C>(RawEvent { kind: 0x01, code: a, value }) == meaning_of::<C>(
            RawEvent { kind: 0x01, code: b, value },
        ),
    ensures
        a == b,
{
}

/// A wheel is reported with the value of the event, whatever it is, in the direction of its
/// axis and in no other.
pub proof fn wheels_are_reported_as_they_turn<C>(value: i32)
    ensures
        meaning_of::<C>(RawEvent { kind: 0x02, code: 0x08, value }) == Meaning::Event(
            EventType::<C>::Wheel { delta_x: 0, delta_y: value as i64 },
        ),
        meaning_of::<C>(RawEvent { kind: 0x02, code: 0x06, value }) == Meaning::Event(
            EventType::<C>::Wheel { delta_x: value as i64, delta_y: 0 },
        ),
{
}

/// What is no key, no mouse button, no wheel and no motion is not reported.
pub proof fn other_events_are_not_reported<C>(e: RawEvent)
    requires
        e.kind == 0x01 ==> 0x100 <= e.code <= 0x15f && !(0x110 <= e.code <= 0x117),
        e.kind == 0x02 ==> e.code != 0x00 && e.code != 0x01 && e.code != 0x06 && e.code != 0x08,
        e.kind == 0x03 ==> e.code != 0x00 && e.code != 0x01,
    ensures
        meaning_of::<C>(e) is Nothing,
{
}

} // verus!
