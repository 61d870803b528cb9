use evdev::KeyCode;
use rdev_node::linux_wayland::keymap::{from_evdev, supported_keys, to_evdev, Key};

#[test]
fn key_map_round_trip() {
    for code in supported_keys() {
        assert_eq!(to_evdev(from_evdev(code)), Some(code));
    }
    assert!(matches!(
        from_evdev(KeyCode::KEY_F13.code()),
        Key::Unknown(_)
    ));
}

#[test]
fn supported_keys_ascend_and_are_named() {
    let codes = supported_keys();
    assert_eq!(codes.len(), 104);
    assert!(codes.windows(2).all(|pair| pair[0] < pair[1]));
    for code in 0..0x300u16 {
        let named = !matches!(from_evdev(code), Key::Unknown(_));
        assert_eq!(codes.contains(&code), named);
    }
}

#[test]
fn keys_have_the_codes_of_their_places() {
    let expected = [
        (Key::Alt, KeyCode::KEY_LEFTALT),
        (Key::AltGr, KeyCode::KEY_RIGHTALT),
        (Key::Backspace, KeyCode::KEY_BACKSPACE),
        (Key::CapsLock, KeyCode::KEY_CAPSLOCK),
        (Key::ControlLeft, KeyCode::KEY_LEFTCTRL),
        (Key::ControlRight, KeyCode::KEY_RIGHTCTRL),
        (Key::Delete, KeyCode::KEY_DELETE),
        (Key::DownArrow, KeyCode::KEY_DOWN),
        (Key::End, KeyCode::KEY_END),
        (Key::Escape, KeyCode::KEY_ESC),
        (Key::F1, KeyCode::KEY_F1),
        (Key::F10, KeyCode::KEY_F10),
        (Key::F11, KeyCode::KEY_F11),
        (Key::F12, KeyCode::KEY_F12),
        (Key::Home, KeyCode::KEY_HOME),
        (Key::LeftArrow, KeyCode::KEY_LEFT),
        (Key::MetaLeft, KeyCode::KEY_LEFTMETA),
        (Key::MetaRight, KeyCode::KEY_RIGHTMETA),
        (Key::PageDown, KeyCode::KEY_PAGEDOWN),
        (Key::PageUp, KeyCode::KEY_PAGEUP),
        (Key::Return, KeyCode::KEY_ENTER),
        (Key::RightArrow, KeyCode::KEY_RIGHT),
        (Key::ShiftLeft, KeyCode::KEY_LEFTSHIFT),
        (Key::ShiftRight, KeyCode::KEY_RIGHTSHIFT),
        (Key::Space, KeyCode::KEY_SPACE),
        (Key::Tab, KeyCode::KEY_TAB),
        (Key::UpArrow, KeyCode::KEY_UP),
        (Key::PrintScreen, KeyCode::KEY_SYSRQ),
        (Key::ScrollLock, KeyCode::KEY_SCROLLLOCK),
        (Key::Pause, KeyCode::KEY_PAUSE),
        (Key::NumLock, KeyCode::KEY_NUMLOCK),
        (Key::BackQuote, KeyCode::KEY_GRAVE),
        (Key::Num1, KeyCode::KEY_1),
        (Key::Num0, KeyCode::KEY_0),
        (Key::Minus, KeyCode::KEY_MINUS),
        (Key::Equal, KeyCode::KEY_EQUAL),
        (Key::KeyQ, KeyCode::KEY_Q),
        (Key::KeyA, KeyCode::KEY_A),
        (Key::KeyZ, KeyCode::KEY_Z),
        (Key::LeftBracket, KeyCode::KEY_LEFTBRACE),
        (Key::RightBracket, KeyCode::KEY_RIGHTBRACE),
        (Key::SemiColon, KeyCode::KEY_SEMICOLON),
        (Key::Quote, KeyCode::KEY_APOSTROPHE),
        (Key::BackSlash, KeyCode::KEY_BACKSLASH),
        (Key::IntlBackslash, KeyCode::KEY_102ND),
        (Key::Comma, KeyCode::KEY_COMMA),
        (Key::Dot, KeyCode::KEY_DOT),
        (Key::Slash, KeyCode::KEY_SLASH),
        (Key::Insert, KeyCode::KEY_INSERT),
        (Key::KpReturn, KeyCode::KEY_KPENTER),
        (Key::KpMinus, KeyCode::KEY_KPMINUS),
        (Key::KpPlus, KeyCode::KEY_KPPLUS),
        (Key::KpMultiply, KeyCode::KEY_KPASTERISK),
        (Key::KpDivide, KeyCode::KEY_KPSLASH),
        (Key::Kp0, KeyCode::KEY_KP0),
        (Key::Kp5, KeyCode::KEY_KP5),
        (Key::Kp9, KeyCode::KEY_KP9),
        (Key::KpDelete, KeyCode::KEY_KPDOT),
    ];
    for (key, code) in expected {
        assert_eq!(to_evdev(key), Some(code.code()));
        assert_eq!(from_evdev(code.code()), key);
    }
}

#[test]
fn keys_without_a_code() {
    assert_eq!(to_evdev(Key::Function), None);
    assert_eq!(to_evdev(Key::Unknown(30)), None);
    assert_eq!(
        from_evdev(KeyCode::KEY_F13.code()),
        Key::Unknown(u32::from(KeyCode::KEY_F13.code()))
    );
}
