use evdev::{KeyCode, RelativeAxisCode};
use rdev_node::events::{Button, EventType};
use rdev_node::linux_wayland::capture::capture_event;
use rdev_node::linux_wayland::codes::RawEvent;
use rdev_node::linux_wayland::keymap::{from_evdev, supported_keys, Key};
use rdev_node::linux_wayland::session::is_wayland;
use rdev_node::linux_wayland::simulate::{
    create_virtual_device, emitted, init_simulation, plan, simulate, virtual_axes, virtual_keys,
    BuildAction, BuildReply, BuildStep, Simulation, VIRTUAL_DEVICE_NAME,
};

type Action = BuildAction<u8, u16>;
type Reply = BuildReply<u8, u16>;

fn events(event: EventType<f64>) -> Result<Vec<RawEvent>, String> {
    match plan(event) {
        Ok(Simulation::Emit(events)) => Ok(events),
        Ok(Simulation::MovePointer { .. }) => panic!("no move"),
        Err(message) => Err(message),
    }
}

fn captured(raw: RawEvent) -> EventType<f64> {
    capture_event(raw, &|| Ok((0.0, 0.0)))
        .unwrap()
        .unwrap()
        .event_type
}

#[test]
fn the_virtual_device_supports_named_keys_and_buttons() {
    let keys = virtual_keys();
    let supported = supported_keys();
    for code in 0..0x300u16 {
        let expected = supported.contains(&code) || (0x110..=0x112).contains(&code);
        assert_eq!(keys.attributes().contains(KeyCode(code)), expected);
    }
}

#[test]
fn the_virtual_device_supports_pointer_and_wheels() {
    let axes = virtual_axes();
    for code in 0..0x10u16 {
        let axis = RelativeAxisCode(code);
        let expected = [
            RelativeAxisCode::REL_X,
            RelativeAxisCode::REL_Y,
            RelativeAxisCode::REL_WHEEL,
            RelativeAxisCode::REL_HWHEEL,
        ]
        .contains(&axis);
        assert_eq!(axes.attributes().contains(axis), expected);
    }
}

#[test]
fn the_virtual_device_is_made_step_by_step() {
    assert_eq!(VIRTUAL_DEVICE_NAME, "rdev-node virtual input");
    let mut step = BuildStep::Opening;
    match create_virtual_device(&mut step, Reply::Builder(Ok(1))) {
        Action::AddKeys {
            builder,
            name,
            keys,
        } => {
            assert_eq!(builder, 1);
            assert_eq!(name, "rdev-node virtual input");
            assert!(keys.attributes().contains(KeyCode::KEY_A));
        }
        _ => panic!("keys come first"),
    }
    match create_virtual_device(&mut step, Reply::Builder(Ok(2))) {
        Action::AddAxes { builder, axes } => {
            assert_eq!(builder, 2);
            assert!(axes.attributes().contains(RelativeAxisCode::REL_X));
        }
        _ => panic!("axes come second"),
    }
    assert!(matches!(
        create_virtual_device(&mut step, Reply::Builder(Ok(3))),
        Action::Create(3)
    ));
    assert!(matches!(
        create_virtual_device(&mut step, Reply::Device(Ok(4))),
        Action::Return(Ok(4))
    ));
    assert_eq!(step, BuildStep::Finished);
}

#[test]
fn making_the_virtual_device_says_what_failed() {
    let message = |mut step: BuildStep, reply: Reply| {
        let action = create_virtual_device(&mut step, reply);
        assert_eq!(step, BuildStep::Finished);
        match action {
            Action::Return(Err(message)) => message,
            _ => panic!("it did not fail"),
        }
    };
    let builder = || Reply::Builder(Err("no".to_string()));
    assert_eq!(
        message(BuildStep::Opening, builder()),
        "Cannot open /dev/uinput: no"
    );
    assert_eq!(
        message(BuildStep::AddingKeys, builder()),
        "Cannot configure virtual keys: no"
    );
    assert_eq!(
        message(BuildStep::AddingAxes, builder()),
        "Cannot configure virtual pointer: no"
    );
    assert_eq!(
        message(BuildStep::Creating, Reply::Device(Err("no".to_string()))),
        "Cannot create virtual input device: no"
    );
}

#[test]
fn the_virtual_device_is_made_once() {
    let mut slot: Option<u8> = None;
    assert_eq!(
        init_simulation(&mut slot, || Err("denied".to_string())),
        Err("denied".to_string())
    );
    assert_eq!(slot, None);
    assert_eq!(init_simulation(&mut slot, || Ok(5)), Ok(()));
    assert_eq!(slot, Some(5));
    assert_eq!(
        init_simulation(&mut slot, || panic!("it is there")),
        Ok(())
    );
    assert_eq!(slot, Some(5));
}

#[test]
fn simulation_needs_the_virtual_device() {
    let mut slot: Option<u8> = None;
    let key = || EventType::<f64>::KeyPress(Key::KeyA);
    match simulate(&mut slot, || Err("denied".to_string()), key()) {
        Err(message) => assert_eq!(message, "denied"),
        Ok(_) => panic!("there is no device"),
    }
    match simulate(&mut slot, || Ok(5), key()) {
        Ok(Simulation::Emit(events)) => {
            assert_eq!(events, vec![RawEvent { kind: 1, code: 30, value: 1 }])
        }
        _ => panic!("a key is emitted"),
    }
    assert_eq!(slot, Some(5));
    match simulate(
        &mut slot,
        || panic!("it is there"),
        EventType::MouseMove { x: 1.5, y: 2.5 },
    ) {
        Ok(Simulation::MovePointer { x, y }) => assert_eq!((x, y), (1.5, 2.5)),
        _ => panic!("the pointer moves"),
    }
}

#[test]
fn simulated_keys_and_buttons_are_captured_again() {
    for code in supported_keys() {
        let key = from_evdev(code);
        let press = events(EventType::KeyPress(key)).unwrap();
        assert_eq!(press, vec![RawEvent { kind: 1, code, value: 1 }]);
        assert_eq!(captured(press[0]), EventType::KeyPress(key));
        let release = events(EventType::KeyRelease(key)).unwrap();
        assert_eq!(captured(release[0]), EventType::KeyRelease(key));
    }
    for button in [Button::Left, Button::Right, Button::Middle] {
        let press = events(EventType::ButtonPress(button)).unwrap();
        assert_eq!(captured(press[0]), EventType::ButtonPress(button));
        let release = events(EventType::ButtonRelease(button)).unwrap();
        assert_eq!(captured(release[0]), EventType::ButtonRelease(button));
    }
}

#[test]
fn simulated_wheels_are_captured_in_two_parts() {
    let raw = events(EventType::Wheel {
        delta_x: -3,
        delta_y: 4,
    })
    .unwrap();
    assert_eq!(
        raw,
        vec![
            RawEvent { kind: 2, code: 6, value: -3 },
            RawEvent { kind: 2, code: 8, value: 4 },
        ]
    );
    assert_eq!(
        captured(raw[0]),
        EventType::Wheel {
            delta_x: -3,
            delta_y: 0
        }
    );
    assert_eq!(
        captured(raw[1]),
        EventType::Wheel {
            delta_x: 0,
            delta_y: 4
        }
    );
}

#[test]
fn what_cannot_be_simulated_is_refused() {
    let no_code = Err("This key has no Linux input code".to_string());
    assert_eq!(events(EventType::KeyPress(Key::Unknown(30))), no_code);
    assert_eq!(events(EventType::KeyRelease(Key::Function)), no_code);
    let no_button = Err("Unknown button cannot be simulated".to_string());
    assert_eq!(events(EventType::ButtonPress(Button::Unknown(3))), no_button);
    assert_eq!(
        events(EventType::ButtonRelease(Button::Unknown(0))),
        no_button
    );
    let wheel = |delta_x: i64, delta_y: i64| events(EventType::Wheel { delta_x, delta_y });
    let limit = i64::from(i32::MAX);
    let least = i64::from(i32::MIN);
    assert!(wheel(limit, least).is_ok());
    assert_eq!(
        wheel(limit + 1, limit + 1),
        Err("Wheel delta_x is out of range".to_string())
    );
    assert_eq!(
        wheel(0, least - 1),
        Err("Wheel delta_y is out of range".to_string())
    );
}

#[test]
fn a_report_that_fails_is_told() {
    assert_eq!(emitted(Ok(())), Ok(()));
    assert_eq!(
        emitted(Err("no".to_string())),
        Err("Cannot emit virtual input event: no".to_string())
    );
}

#[test]
fn wayland_sessions_are_told_by_their_environment() {
    let kind = |kind: &str| Some(kind.to_string());
    assert!(is_wayland(true, &kind("wayland")));
    assert!(!is_wayland(false, &kind("wayland")));
    assert!(!is_wayland(true, &kind("x11")));
    assert!(!is_wayland(true, &kind("Wayland")));
    assert!(!is_wayland(true, &None));
}
