use evdev::{
    AbsoluteAxisCode, EventType as EvType, InputEvent as EvEvent, KeyCode as EvKey,
    RelativeAxisCode,
};
use rdev_node::events::{Button, Event, EventType};
use rdev_node::linux_wayland::capture::capture_event;
use rdev_node::linux_wayland::codes::{
    RawEvent, ABS_X, ABS_Y, BTN_LEFT, BTN_MIDDLE, BTN_RIGHT, BTN_TASK, EV_ABS, EV_KEY, EV_REL,
    KEY_A, KEY_ENTER, REL_HWHEEL, REL_WHEEL, REL_X, REL_Y,
};
use rdev_node::linux_wayland::keymap::Key;

fn raw(event: EvEvent) -> RawEvent {
    RawEvent {
        kind: event.event_type().0,
        code: event.code(),
        value: event.value(),
    }
}

fn capture(kind: u16, code: u16, value: i32) -> Option<EventType<f64>> {
    let event = capture_event(RawEvent { kind, code, value }, &|| Ok((10.0, 20.0))).unwrap()?;
    assert_eq!(event.name, None);
    Some(event.event_type)
}

#[test]
fn evdev_events_cover_public_event_variants() {
    let location = || Ok((10.0, 20.0));
    let cases = [
        (
            EvEvent::new(EvType::KEY.0, EvKey::KEY_A.code(), 1),
            EventType::KeyPress(Key::KeyA),
        ),
        (
            EvEvent::new(EvType::KEY.0, EvKey::KEY_A.code(), 0),
            EventType::KeyRelease(Key::KeyA),
        ),
        (
            EvEvent::new(EvType::KEY.0, EvKey::BTN_LEFT.code(), 1),
            EventType::ButtonPress(Button::Left),
        ),
        (
            EvEvent::new(EvType::KEY.0, EvKey::BTN_LEFT.code(), 0),
            EventType::ButtonRelease(Button::Left),
        ),
        (
            EvEvent::new(EvType::RELATIVE.0, RelativeAxisCode::REL_X.0, 3),
            EventType::MouseMove { x: 10.0, y: 20.0 },
        ),
        (
            EvEvent::new(EvType::RELATIVE.0, RelativeAxisCode::REL_WHEEL.0, -2),
            EventType::Wheel {
                delta_x: 0,
                delta_y: -2,
            },
        ),
    ];
    for (input, expected) in cases {
        let actual = capture_event(raw(input), &location).unwrap().unwrap();
        assert_eq!(actual.event_type, expected);
    }
}

#[test]
fn codes_are_those_of_linux() {
    assert_eq!(EV_KEY, EvType::KEY.0);
    assert_eq!(EV_REL, EvType::RELATIVE.0);
    assert_eq!(EV_ABS, EvType::ABSOLUTE.0);
    assert_eq!(KEY_A, EvKey::KEY_A.code());
    assert_eq!(KEY_ENTER, EvKey::KEY_ENTER.code());
    assert_eq!(BTN_LEFT, EvKey::BTN_LEFT.code());
    assert_eq!(BTN_RIGHT, EvKey::BTN_RIGHT.code());
    assert_eq!(BTN_MIDDLE, EvKey::BTN_MIDDLE.code());
    assert_eq!(BTN_TASK, EvKey::BTN_TASK.code());
    assert_eq!(REL_X, RelativeAxisCode::REL_X.0);
    assert_eq!(REL_Y, RelativeAxisCode::REL_Y.0);
    assert_eq!(REL_WHEEL, RelativeAxisCode::REL_WHEEL.0);
    assert_eq!(REL_HWHEEL, RelativeAxisCode::REL_HWHEEL.0);
    assert_eq!(ABS_X, AbsoluteAxisCode::ABS_X.0);
    assert_eq!(ABS_Y, AbsoluteAxisCode::ABS_Y.0);
}

#[test]
fn mouse_buttons_have_names_or_numbers() {
    assert_eq!(
        capture(EV_KEY, BTN_RIGHT, 1),
        Some(EventType::ButtonPress(Button::Right))
    );
    assert_eq!(
        capture(EV_KEY, BTN_MIDDLE, 0),
        Some(EventType::ButtonRelease(Button::Middle))
    );
    assert_eq!(
        capture(EV_KEY, EvKey::BTN_SIDE.code(), 1),
        Some(EventType::ButtonPress(Button::Unknown(3)))
    );
    assert_eq!(
        capture(EV_KEY, BTN_TASK, 1),
        Some(EventType::ButtonPress(Button::Unknown(7)))
    );
}

#[test]
fn other_buttons_are_not_reported() {
    for code in (0x100..0x110).chain(0x118..0x160) {
        assert_eq!(capture(EV_KEY, code, 1), None);
    }
    assert_eq!(
        capture(EV_KEY, 0xff, 1),
        Some(EventType::KeyPress(Key::Unknown(0xff)))
    );
    assert_eq!(
        capture(EV_KEY, 0x160, 1),
        Some(EventType::KeyPress(Key::Unknown(0x160)))
    );
}

#[test]
fn a_repeated_key_is_a_press() {
    assert_eq!(
        capture(EV_KEY, KEY_ENTER, 2),
        Some(EventType::KeyPress(Key::Return))
    );
}

#[test]
fn wheels_and_motion() {
    assert_eq!(
        capture(EV_REL, REL_HWHEEL, 5),
        Some(EventType::Wheel {
            delta_x: 5,
            delta_y: 0
        })
    );
    let here = Some(EventType::MouseMove { x: 10.0, y: 20.0 });
    assert_eq!(capture(EV_REL, REL_Y, 1), here);
    assert_eq!(capture(EV_ABS, ABS_X, 1), here);
    assert_eq!(capture(EV_ABS, ABS_Y, 1), here);
    assert_eq!(capture(EV_REL, 0x0b, 120), None);
    assert_eq!(capture(EV_ABS, 2, 1), None);
    assert_eq!(capture(EvType::SYNCHRONIZATION.0, 0, 0), None);
    assert_eq!(capture(EvType::MISC.0, 4, 30), None);
}

#[test]
fn the_pointer_is_asked_for_only_when_it_moved() {
    let unreachable = || -> Result<(f64, f64), String> { Err("no pointer".to_string()) };
    let motion = RawEvent {
        kind: EV_REL,
        code: REL_X,
        value: 1,
    };
    let key = RawEvent {
        kind: EV_KEY,
        code: KEY_A,
        value: 1,
    };
    assert_eq!(
        capture_event(motion, &unreachable),
        Err("no pointer".to_string())
    );
    assert_eq!(
        capture_event(key, &unreachable),
        Ok(Some(Event {
            event_type: EventType::KeyPress(Key::KeyA),
            name: None
        }))
    );
}
