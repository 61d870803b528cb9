use rdev_node::events::{
    input_event, simulate_event, simulated, Button, Event, EventDataError, EventType, EventTypeValue,
    InputEvent, KeyPressEvent, MouseMoveEvent, WheelEvent,
};
use rdev_node::linux_wayland::keymap::Key;
use rdev_node::text::to_decimal;
use rdev_node::{get_display_size, init_simulation};

fn bare(event_type: EventTypeValue, time: Option<i128>) -> InputEvent<f64> {
    InputEvent {
        event_type,
        time,
        name: None,
        key_press: None,
        key_release: None,
        button_press: None,
        button_release: None,
        mouse_move: None,
        wheel: None,
    }
}

fn unnamed(event_type: EventType<f64>) -> Event<f64> {
    Event {
        event_type,
        name: None,
    }
}

#[test]
fn shown_events_can_be_simulated_as_they_were() {
    let events = || -> Vec<EventType<f64>> {
        vec![
            EventType::KeyPress(Key::KeyA),
            EventType::KeyRelease(Key::Function),
            EventType::ButtonPress(Button::Left),
            EventType::ButtonRelease(Button::Middle),
            EventType::MouseMove { x: 1.25, y: -3.5 },
            EventType::Wheel {
                delta_x: 1,
                delta_y: i64::MIN,
            },
        ]
    };
    for (shown, expected) in events().into_iter().zip(events()) {
        assert_eq!(simulate_event(input_event(unnamed(shown), 1234)), Ok(expected));
    }
}

#[test]
fn an_event_carries_the_payload_of_its_kind_alone() {
    let event = input_event(unnamed(EventType::KeyPress(Key::Tab)), 9);
    let mut expected = bare(EventTypeValue::KeyPress, Some(9));
    expected.key_press = Some(KeyPressEvent { key: Key::Tab });
    assert_eq!(event, expected);
    let event = input_event(unnamed(EventType::MouseMove { x: 1.0, y: 2.0 }), 9);
    let mut expected = bare(EventTypeValue::MouseMove, Some(9));
    expected.mouse_move = Some(MouseMoveEvent { x: 1.0, y: 2.0 });
    assert_eq!(event, expected);
}

#[test]
fn the_payload_must_match_the_kind() {
    for kind in [
        EventTypeValue::KeyPress,
        EventTypeValue::KeyRelease,
        EventTypeValue::ButtonPress,
        EventTypeValue::ButtonRelease,
        EventTypeValue::MouseMove,
    ] {
        let mut event = bare(kind, Some(0));
        event.wheel = Some(WheelEvent {
            delta_x: 0,
            delta_y: 0,
        });
        assert_eq!(simulate_event(event), Err(EventDataError::MissingPayload));
    }
    assert_eq!(
        simulate_event(bare(EventTypeValue::Wheel, Some(0))),
        Err(EventDataError::MissingPayload)
    );
}

#[test]
fn times_are_whole_and_small_enough() {
    let wheel = |time: Option<i128>| {
        let mut event = bare(EventTypeValue::Wheel, time);
        event.wheel = Some(WheelEvent {
            delta_x: 1,
            delta_y: 2,
        });
        simulate_event(event)
    };
    let limit = 1i128 << 53;
    assert!(wheel(Some(0)).is_ok());
    assert!(wheel(Some(limit - 1)).is_ok());
    for time in [Some(limit), Some(-1), None] {
        assert_eq!(wheel(time), Err(EventDataError::InvalidTime));
    }
}

#[test]
fn nameless_keys_and_buttons_cannot_be_simulated() {
    assert_eq!(
        simulate_event(input_event(
            unnamed(EventType::KeyPress(Key::Unknown(1))),
            0
        )),
        Err(EventDataError::UnknownKey)
    );
    assert_eq!(
        simulate_event(input_event(
            unnamed(EventType::ButtonRelease(Button::Unknown(1))),
            0
        )),
        Err(EventDataError::UnknownButton)
    );
}

#[test]
fn refusals_are_put_in_words() {
    assert_eq!(
        EventDataError::MissingPayload.message(),
        "Invalid event data: the payload of the event type is missing"
    );
    assert_eq!(
        EventDataError::InvalidTime.message(),
        "Invalid event data: time must be a non-negative integer below 2^53"
    );
    assert_eq!(
        EventDataError::UnknownKey.message(),
        "Invalid event data: an unknown key cannot be simulated"
    );
    assert_eq!(
        EventDataError::UnknownButton.message(),
        "Invalid event data: an unknown button cannot be simulated"
    );
    assert_eq!(simulated(Ok(())), Ok(()));
    assert_eq!(
        simulated(Err("SimulateError".to_string())),
        Err("Failed to simulate event: SimulateError".to_string())
    );
}

#[test]
fn the_display_decides_on_simulation() {
    assert_eq!(init_simulation(Ok((800, 600))), Ok(()));
    assert_eq!(
        init_simulation(Err("NoDisplay".to_string())),
        Err("Input simulation is not available: NoDisplay".to_string())
    );
    assert_eq!(get_display_size(Ok((800, 600))), Ok((800, 600)));
    assert_eq!(
        get_display_size(Err("NoDisplay".to_string())),
        Err("Failed to get display size: NoDisplay".to_string())
    );
}

#[test]
fn numbers_are_written_in_decimal() {
    for n in [0, 7, 10, 99, 100, 12_345, u64::MAX] {
        assert_eq!(to_decimal(n), format!("{n}"));
    }
}

#[test]
fn names_are_shown_and_do_not_matter_for_simulation() {
    let event = input_event(
        Event {
            event_type: EventType::<f64>::KeyPress(Key::KeyA),
            name: Some("a".to_string()),
        },
        5,
    );
    assert_eq!(event.name, Some("a".to_string()));
    assert_eq!(simulate_event(event), Ok(EventType::KeyPress(Key::KeyA)));
}
