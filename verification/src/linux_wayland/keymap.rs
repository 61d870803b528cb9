//! Which key a Linux input code stands for, and back.

use vstd::prelude::*;

verus! {

/// A key, named by its place on a keyboard with the QWERTY layout.
///
/// `Unknown` carries the code of a key that has no name here.
#[derive(Clone, Copy, Debug, PartialEq, Eq, Hash, Structural)]
pub enum Key {
    Alt,
    AltGr,
    Backspace,
    CapsLock,
    ControlLeft,
    ControlRight,
    Delete,
    DownArrow,
    End,
    Escape,
    F1,
    F10,
    F11,
    F12,
    F2,
    F3,
    F4,
    F5,
    F6,
    F7,
    F8,
    F9,
    Home,
    LeftArrow,
    MetaLeft,
    MetaRight,
    PageDown,
    PageUp,
    Return,
    RightArrow,
    ShiftLeft,
    ShiftRight,
    Space,
    Tab,
    UpArrow,
    PrintScreen,
    ScrollLock,
    Pause,
    NumLock,
    BackQuote,
    Num1,
    Num2,
    Num3,
    Num4,
    Num5,
    Num6,
    Num7,
    Num8,
    Num9,
    Num0,
    Minus,
    Equal,
    KeyQ,
    KeyW,
    KeyE,
    KeyR,
    KeyT,
    KeyY,
    KeyU,
    KeyI,
    KeyO,
    KeyP,
    LeftBracket,
    RightBracket,
    KeyA,
    KeyS,
    KeyD,
    KeyF,
    KeyG,
    KeyH,
    KeyJ,
    KeyK,
    KeyL,
    SemiColon,
    Quote,
    BackSlash,
    IntlBackslash,
    KeyZ,
    KeyX,
    KeyC,
    KeyV,
    KeyB,
    KeyN,
    KeyM,
    Comma,
    Dot,
    Slash,
    Insert,
    KpReturn,
    KpMinus,
    KpPlus,
    KpMultiply,
    KpDivide,
    Kp0,
    Kp1,
    Kp2,
    Kp3,
    Kp4,
    Kp5,
    Kp6,
    Kp7,
    Kp8,
    Kp9,
    KpDelete,
    Function,
    Unknown(u32),
}

/// No code above this one stands for a named key.
pub const LAST_KEY_CODE: u16 = 126;

/// The Linux input code of a named key.
pub open spec fn key_code(key: Key) -> Option<u16> {
    match key {
        Key::Alt => Some(56),
        Key::AltGr => Some(100),
        Key::Backspace => Some(14),
        Key::CapsLock => Some(58),
        Key::ControlLeft => Some(29),
        Key::ControlRight => Some(97),
        Key::Delete => Some(111),
        Key::DownArrow => Some(108),
        Key::End => Some(107),
        Key::Escape => Some(1),
        Key::F1 => Some(59),
        Key::F10 => Some(68),
        Key::F11 => Some(87),
        Key::F12 => Some(88),
        Key::F2 => Some(60),
        Key::F3 => Some(61),
        Key::F4 => Some(62),
        Key::F5 => Some(63),
        Key::F6 => Some(64),
        Key::F7 => Some(65),
        Key::F8 => Some(66),
        Key::F9 => Some(67),
        Key::Home => Some(102),
        Key::LeftArrow => Some(105),
        Key::MetaLeft => Some(125),
        Key::MetaRight => Some(126),
        Key::PageDown => Some(109),
        Key::PageUp => Some(104),
        Key::Return => Some(28),
        Key::RightArrow => Some(106),
        Key::ShiftLeft => Some(42),
        Key::ShiftRight => Some(54),
        Key::Space => Some(57),
        Key::Tab => Some(15),
        Key::UpArrow => Some(103),
        Key::PrintScreen => Some(99),
        Key::ScrollLock => Some(70),
        Key::Pause => Some(119),
        Key::NumLock => Some(69),
        Key::BackQuote => Some(41),
        Key::Num1 => Some(2),
        Key::Num2 => Some(3),
        Key::Num3 => Some(4),
        Key::Num4 => Some(5),
        Key::Num5 => Some(6),
        Key::Num6 => Some(7),
        Key::Num7 => Some(8),
        Key::Num8 => Some(9),
        Key::Num9 => Some(10),
        Key::Num0 => Some(11),
        Key::Minus => Some(12),
        Key::Equal => Some(13),
        Key::KeyQ => Some(16),
        Key::KeyW => Some(17),
        Key::KeyE => Some(18),
        Key::KeyR => Some(19),
        Key::KeyT => Some(20),
        Key::KeyY => Some(21),
        Key::KeyU => Some(22),
        Key::KeyI => Some(23),
        Key::KeyO => Some(24),
        Key::KeyP => Some(25),
        Key::LeftBracket => Some(26),
        Key::RightBracket => Some(27),
        Key::KeyA => Some(30),
        Key::KeyS => Some(31),
        Key::KeyD => Some(32),
        Key::KeyF => Some(33),
        Key::KeyG => Some(34),
        Key::KeyH => Some(35),
        Key::KeyJ => Some(36),
        Key::KeyK => Some(37),
        Key::KeyL => Some(38),
        Key::SemiColon => Some(39),
        Key::Quote => Some(40),
        Key::BackSlash => Some(43),
        Key::IntlBackslash => Some(86),
        Key::KeyZ => Some(44),
        Key::KeyX => Some(45),
        Key::KeyC => Some(46),
        Key::KeyV => Some(47),
        Key::KeyB => Some(48),
        Key::KeyN => Some(49),
        Key::KeyM => Some(50),
        Key::Comma => Some(51),
        Key::Dot => Some(52),
        Key::Slash => Some(53),
        Key::Insert => Some(110),
        Key::KpReturn => Some(96),
        Key::KpMinus => Some(74),
        Key::KpPlus => Some(78),
        Key::KpMultiply => Some(55),
        Key::KpDivide => Some(98),
        Key::Kp0 => Some(82),
        Key::Kp1 => Some(79),
        Key::Kp2 => Some(80),
        Key::Kp3 => Some(81),
        Key::Kp4 => Some(75),
        Key::Kp5 => Some(76),
        Key::Kp6 => Some(77),
        Key::Kp7 => Some(71),
        Key::Kp8 => Some(72),
        Key::Kp9 => Some(73),
        Key::KpDelete => Some(83),
        _ => None,
    }
}

/// The key that the Linux input code `code` stands for.
pub open spec fn key_of(code: u16) -> Key {
    match code {
        1 => Key::Escape,
        2 => Key::Num1,
        3 => Key::Num2,
        4 => Key::Num3,
        5 => Key::Num4,
        6 => Key::Num5,
        7 => Key::Num6,
        8 => Key::Num7,
        9 => Key::Num8,
        10 => Key::Num9,
        11 => Key::Num0,
        12 => Key::Minus,
        13 => Key::Equal,
        14 => Key::Backspace,
        15 => Key::Tab,
        16 => Key::KeyQ,
        17 => Key::KeyW,
        18 => Key::KeyE,
        19 => Key::KeyR,
        20 => Key::KeyT,
        21 => Key::KeyY,
        22 => Key::KeyU,
        23 => Key::KeyI,
        24 => Key::KeyO,
        25 => Key::KeyP,
        26 => Key::LeftBracket,
        27 => Key::RightBracket,
        28 => Key::Return,
        29 => Key::ControlLeft,
        30 => Key::KeyA,
        31 => Key::KeyS,
        32 => Key::KeyD,
        33 => Key::KeyF,
        34 => Key::KeyG,
        35 => Key::KeyH,
        36 => Key::KeyJ,
        37 => Key::KeyK,
        38 => Key::KeyL,
        39 => Key::SemiColon,
        40 => Key::Quote,
        41 => Key::BackQuote,
        42 => Key::ShiftLeft,
        43 => Key::BackSlash,
        44 => Key::KeyZ,
        45 => Key::KeyX,
        46 => Key::KeyC,
        47 => Key::KeyV,
        48 => Key::KeyB,
        49 => Key::KeyN,
        50 => Key::KeyM,
        51 => Key::Comma,
        52 => Key::Dot,
        53 => Key::Slash,
        54 => Key::ShiftRight,
        55 => Key::KpMultiply,
        56 => Key::Alt,
        57 => Key::Space,
        58 => Key::CapsLock,
        59 => Key::F1,
        60 => Key::F2,
        61 => Key::F3,
        62 => Key::F4,
        63 => Key::F5,
        64 => Key::F6,
        65 => Key::F7,
        66 => Key::F8,
        67 => Key::F9,
        68 => Key::F10,
        69 => Key::NumLock,
        70 => Key::ScrollLock,
        71 => Key::Kp7,
        72 => Key::Kp8,
        73 => Key::Kp9,
        74 => Key::KpMinus,
        75 => Key::Kp4,
        76 => Key::Kp5,
        77 => Key::Kp6,
        78 => Key::KpPlus,
        79 => Key::Kp1,
        80 => Key::Kp2,
        81 => Key::Kp3,
        82 => Key::Kp0,
        83 => Key::KpDelete,
        86 => Key::IntlBackslash,
        87 => Key::F11,
        88 => Key::F12,
        96 => Key::KpReturn,
        97 => Key::ControlRight,
        98 => Key::KpDivide,
        99 => Key::PrintScreen,
        100 => Key::AltGr,
        102 => Key::Home,
        103 => Key::UpArrow,
        104 => Key::PageUp,
        105 => Key::LeftArrow,
        106 => Key::RightArrow,
        107 => Key::End,
        108 => Key::DownArrow,
        109 => Key::PageDown,
        110 => Key::Insert,
        111 => Key::Delete,
        119 => Key::Pause,
        125 => Key::MetaLeft,
        126 => Key::MetaRight,
        _ => Key::Unknown(code as u32),
    }
}

/// The code stands for a key that has a name.
pub open spec fn is_named(code: u16) -> bool {
    !(key_of(code) is Unknown)
}

/// The two tables are inverse to each other: the code of a named key stands for that key,
/// and a code that stands for a named key is its code. No two keys share a code, and keys
/// without a name have none.
pub proof fn key_map_round_trips(code: u16, key: Key)
    ensures
        is_named(code) ==> key_code(key_of(code)) == Some(code),
        !is_named(code) ==> key_of(code) == Key::Unknown(code as u32) && key_code(key_of(code))
            is None,
        key_code(key) == Some(code) <==> is_named(code) && key_of(code) == key,
{
}

/// The Linux input code of `key`: none for a key without a name, nor for `Function`.
pub fn to_evdev(key: Key) -> (r: Option<u16>)
    ensures
        r == key_code(key),
{
    match key {
        Key::Alt => Some(56),
        Key::AltGr => Some(100),
        Key::Backspace => Some(14),
        Key::CapsLock => Some(58),
        Key::ControlLeft => Some(29),
        Key::ControlRight => Some(97),
        Key::Delete => Some(111),
        Key::DownArrow => Some(108),
        Key::End => Some(107),
        Key::Escape => Some(1),
        Key::F1 => Some(59),
        Key::F10 => Some(68),
        Key::F11 => Some(87),
        Key::F12 => Some(88),
        Key::F2 => Some(60),
        Key::F3 => Some(61),
        Key::F4 => Some(62),
        Key::F5 => Some(63),
        Key::F6 => Some(64),
        Key::F7 => Some(65),
        Key::F8 => Some(66),
        Key::F9 => Some(67),
        Key::Home => Some(102),
        Key::LeftArrow => Some(105),
        Key::MetaLeft => Some(125),
        Key::MetaRight => Some(126),
        Key::PageDown => Some(109),
        Key::PageUp => Some(104),
        Key::Return => Some(28),
        Key::RightArrow => Some(106),
        Key::ShiftLeft => Some(42),
        Key::ShiftRight => Some(54),
        Key::Space => Some(57),
        Key::Tab => Some(15),
        Key::UpArrow => Some(103),
        Key::PrintScreen => Some(99),
        Key::ScrollLock => Some(70),
        Key::Pause => Some(119),
        Key::NumLock => Some(69),
        Key::BackQuote => Some(41),
        Key::Num1 => Some(2),
        Key::Num2 => Some(3),
        Key::Num3 => Some(4),
        Key::Num4 => Some(5),
        Key::Num5 => Some(6),
        Key::Num6 => Some(7),
        Key::Num7 => Some(8),
        Key::Num8 => Some(9),
        Key::Num9 => Some(10),
        Key::Num0 => Some(11),
        Key::Minus => Some(12),
        Key::Equal => Some(13),
        Key::KeyQ => Some(16),
        Key::KeyW => Some(17),
        Key::KeyE => Some(18),
        Key::KeyR => Some(19),
        Key::KeyT => Some(20),
        Key::KeyY => Some(21),
        Key::KeyU => Some(22),
        Key::KeyI => Some(23),
        Key::KeyO => Some(24),
        Key::KeyP => Some(25),
        Key::LeftBracket => Some(26),
        Key::RightBracket => Some(27),
        Key::KeyA => Some(30),
        Key::KeyS => Some(31),
        Key::KeyD => Some(32),
        Key::KeyF => Some(33),
        Key::KeyG => Some(34),
        Key::KeyH => Some(35),
        Key::KeyJ => Some(36),
        Key::KeyK => Some(37),
        Key::KeyL => Some(38),
        Key::SemiColon => Some(39),
        Key::Quote => Some(40),
        Key::BackSlash => Some(43),
        Key::IntlBackslash => Some(86),
        Key::KeyZ => Some(44),
        Key::KeyX => Some(45),
        Key::KeyC => Some(46),
        Key::KeyV => Some(47),
        Key::KeyB => Some(48),
        Key::KeyN => Some(49),
        Key::KeyM => Some(50),
        Key::Comma => Some(51),
        Key::Dot => Some(52),
        Key::Slash => Some(53),
        Key::Insert => Some(110),
        Key::KpReturn => Some(96),
        Key::KpMinus => Some(74),
        Key::KpPlus => Some(78),
        Key::KpMultiply => Some(55),
        Key::KpDivide => Some(98),
        Key::Kp0 => Some(82),
        Key::Kp1 => Some(79),
        Key::Kp2 => Some(80),
        Key::Kp3 => Some(81),
        Key::Kp4 => Some(75),
        Key::Kp5 => Some(76),
        Key::Kp6 => Some(77),
        Key::Kp7 => Some(71),
        Key::Kp8 => Some(72),
        Key::Kp9 => Some(73),
        Key::KpDelete => Some(83),
        _ => None,
    }
}

/// The key that the Linux input code `code` stands for.
pub fn from_evdev(code: u16) -> (r: Key)
    ensures
        r == key_of(code),
{
    match code {
        1 => Key::Escape,
        2 => Key::Num1,
        3 => Key::Num2,
        4 => Key::Num3,
        5 => Key::Num4,
        6 => Key::Num5,
        7 => Key::Num6,
        8 => Key::Num7,
        9 => Key::Num8,
        10 => Key::Num9,
        11 => Key::Num0,
        12 => Key::Minus,
        13 => Key::Equal,
        14 => Key::Backspace,
        15 => Key::Tab,
        16 => Key::KeyQ,
        17 => Key::KeyW,
        18 => Key::KeyE,
        19 => Key::KeyR,
        20 => Key::KeyT,
        21 => Key::KeyY,
        22 => Key::KeyU,
        23 => Key::KeyI,
        24 => Key::KeyO,
        25 => Key::KeyP,
        26 => Key::LeftBracket,
        27 => Key::RightBracket,
        28 => Key::Return,
        29 => Key::ControlLeft,
        30 => Key::KeyA,
        31 => Key::KeyS,
        32 => Key::KeyD,
        33 => Key::KeyF,
        34 => Key::KeyG,
        35 => Key::KeyH,
        36 => Key::KeyJ,
        37 => Key::KeyK,
        38 => Key::KeyL,
        39 => Key::SemiColon,
        40 => Key::Quote,
        41 => Key::BackQuote,
        42 => Key::ShiftLeft,
        43 => Key::BackSlash,
        44 => Key::KeyZ,
        45 => Key::KeyX,
        46 => Key::KeyC,
        47 => Key::KeyV,
        48 => Key::KeyB,
        49 => Key::KeyN,
        50 => Key::KeyM,
        51 => Key::Comma,
        52 => Key::Dot,
        53 => Key::Slash,
        54 => Key::ShiftRight,
        55 => Key::KpMultiply,
        56 => Key::Alt,
        57 => Key::Space,
        58 => Key::CapsLock,
        59 => Key::F1,
        60 => Key::F2,
        61 => Key::F3,
        62 => Key::F4,
        63 => Key::F5,
        64 => Key::F6,
        65 => Key::F7,
        66 => Key::F8,
        67 => Key::F9,
        68 => Key::F10,
        69 => Key::NumLock,
        70 => Key::ScrollLock,
        71 => Key::Kp7,
        72 => Key::Kp8,
        73 => Key::Kp9,
        74 => Key::KpMinus,
        75 => Key::Kp4,
        76 => Key::Kp5,
        77 => Key::Kp6,
        78 => Key::KpPlus,
        79 => Key::Kp1,
        80 => Key::Kp2,
        81 => Key::Kp3,
        82 => Key::Kp0,
        83 => Key::KpDelete,
        86 => Key::IntlBackslash,
        87 => Key::F11,
        88 => Key::F12,
        96 => Key::KpReturn,
        97 => Key::ControlRight,
        98 => Key::KpDivide,
        99 => Key::PrintScreen,
        100 => Key::AltGr,
        102 => Key::Home,
        103 => Key::UpArrow,
        104 => Key::PageUp,
        105 => Key::LeftArrow,
        106 => Key::RightArrow,
        107 => Key::End,
        108 => Key::DownArrow,
        109 => Key::PageDown,
        110 => Key::Insert,
        111 => Key::Delete,
        119 => Key::Pause,
        125 => Key::MetaLeft,
        126 => Key::MetaRight,
        _ => Key::Unknown(code as u32),
    }
}

/// `codes` is ascending, without repetitions.
pub open spec fn ascending(codes: Seq<u16>) -> bool {
    forall|i: int, j: int| 0 <= i < j < codes.len() ==> codes[i] < codes[j]
}

/// The codes of all named keys, in ascending order.
pub fn supported_keys() -> (r: Vec<u16>)
    ensures
        ascending(r@),
        forall|code: u16| #[trigger] r@.contains(code) <==> is_named(code),
{
    let mut r: Vec<u16> = Vec::new();
    let mut code: u16 = 0;
    while code <= LAST_KEY_CODE
        invariant
            code <= LAST_KEY_CODE + 1,
            ascending(r@),
            forall|i: int| 0 <= i < r.len() ==> r[i] < code,
            forall|c: u16| #[trigger] r@.contains(c) <==> c < code && is_named(c),
        decreases LAST_KEY_CODE + 1 - code,
    {
        let key = from_evdev(code);
        let ghost before = r@;
        if to_evdev(key).is_some() {
            proof {
                key_map_round_trips(code, key);
            }
            r.push(code);
            assert(r@[before.len() as int] == code);
        } else {
            assert(!is_named(code));
        }
        assert forall|c: u16| #[trigger] r@.contains(c) <==> c < code + 1 && is_named(c) by {
            if before.contains(c) {
                let i = before.index_of(c);
                assert(r@[i] == c);
            }
            if r@.contains(c) {
                let i = r@.index_of(c);
                assert(c == code || before[i] == c);
            }
        }
        code = code + 1;
    }
    assert forall|c: u16| #[trigger] r@.contains(c) <==> is_named(c) by {
        if is_named(c) {
            assert(c <= LAST_KEY_CODE);
        }
    }
    r
}

/// The keys have consecutive codes, of which the first is `first`.
pub open spec fn is_row(keys: Seq<Key>, first: int) -> bool {
    forall|i: int|
        0 <= i < keys.len() ==> {
            &&& key_code(#[trigger] keys[i]) == Some((first + i) as u16)
            &&& key_of((first + i) as u16) == keys[i]
        }
}

/// The keys of each row of a keyboard, from left to right, have consecutive codes.
pub proof fn rows_of_keys_have_consecutive_codes()
    ensures
        is_row(
            seq![
                Key::Escape,
                Key::Num1,
                Key::Num2,
                Key::Num3,
                Key::Num4,
                Key::Num5,
                Key::Num6,
                Key::Num7,
                Key::Num8,
                Key::Num9,
                Key::Num0,
                Key::Minus,
                Key::Equal,
                Key::Backspace,
            ],
            1,
        ),
        is_row(
            seq![
                Key::Tab,
                Key::KeyQ,
                Key::KeyW,
                Key::KeyE,
                Key::KeyR,
                Key::KeyT,
                Key::KeyY,
                Key::KeyU,
                Key::KeyI,
                Key::KeyO,
                Key::KeyP,
                Key::LeftBracket,
                Key::RightBracket,
                Key::Return,
            ],
            15,
        ),
        is_row(
            seq![
                Key::ControlLeft,
                Key::KeyA,
                Key::KeyS,
                Key::KeyD,
                Key::KeyF,
                Key::KeyG,
                Key::KeyH,
                Key::KeyJ,
                Key::KeyK,
                Key::KeyL,
                Key::SemiColon,
                Key::Quote,
                Key::BackQuote,
            ],
            29,
        ),
        is_row(
            seq![
                Key::ShiftLeft,
                Key::BackSlash,
                Key::KeyZ,
                Key::KeyX,
                Key::KeyC,
                Key::KeyV,
                Key::KeyB,
                Key::KeyN,
                Key::KeyM,
                Key::Comma,
                Key::Dot,
                Key::Slash,
                Key::ShiftRight,
            ],
            42,
        ),
        is_row(seq![Key::KpMultiply, Key::Alt, Key::Space, Key::CapsLock], 55),
        is_row(
            seq![
                Key::F1,
                Key::F2,
                Key::F3,
                Key::F4,
                Key::F5,
                Key::F6,
                Key::F7,
                Key::F8,
                Key::F9,
                Key::F10,
                Key::NumLock,
                Key::ScrollLock,
            ],
            59,
        ),
        is_row(seq![Key::Kp7, Key::Kp8, Key::Kp9, Key::KpMinus], 71),
        is_row(seq![Key::Kp4, Key::Kp5, Key::Kp6, Key::KpPlus], 75),
        is_row(seq![Key::Kp1, Key::Kp2, Key::Kp3, Key::Kp0, Key::KpDelete], 79),
        is_row(seq![Key::IntlBackslash, Key::F11, Key::F12], 86),
        is_row(
            seq![
                Key::KpReturn,
                Key::ControlRight,
                Key::KpDivide,
                Key::PrintScreen,
                Key::AltGr,
            ],
            96,
        ),
        is_row(
            seq![
                Key::Home,
                Key::UpArrow,
                Key::PageUp,
                Key::LeftArrow,
                Key::RightArrow,
                Key::End,
                Key::DownArrow,
                Key::PageDown,
                Key::Insert,
                Key::Delete,
            ],
            102,
        ),
        is_row(seq![Key::Pause], 119),
        is_row(seq![Key::MetaLeft, Key::MetaRight], 125),
{
}

/// The codes beside those rows stand for no named key, each for an unknown one that carries
/// it; and no unknown key has a code.
pub proof fn other_codes_stand_for_unknown_keys(code: u16, n: u32)
    ensures
        code == 0 || code == 84 || code == 85 || 88 < code < 96 || code == 101 || 111 < code < 119
            || 119 < code < 125 || 126 < code ==> key_of(code) == Key::Unknown(code as u32),
        is_named(code) <==> !(code == 0 || code == 84 || code == 85 || 88 < code < 96 || code == 101
            || 111 < code < 119 || 119 < code < 125 || 126 < code),
        key_code(Key::Unknown(n)) is None,
        key_code(Key::Function) is None,
{
}

} // verus!
