//! Keyboard keys: their numbers, their codes on each platform, and what a change of the
//! pressed keys means.

use vstd::prelude::*;

verus! {

/// The bytes of a set of pressed keys, one bit for each key.
pub const KEYBOARD_STATE_BYTES: usize = 16;

/// A physical key.
#[derive(Clone, Copy, Debug, PartialEq, Eq, Structural)]
pub enum KeyboardKey {
    Escape,
    Tab,
    Backspace,
    Enter,
    Space,
    Insert,
    Delete,
    Home,
    End,
    PageUp,
    PageDown,
    ArrowUp,
    ArrowDown,
    ArrowLeft,
    ArrowRight,
    Minus,
    Equals,
    OpenBracket,
    CloseBracket,
    Backslash,
    Semicolon,
    Quote,
    Backtick,
    Comma,
    Period,
    Slash,
    Num0,
    Num1,
    Num2,
    Num3,
    Num4,
    Num5,
    Num6,
    Num7,
    Num8,
    Num9,
    A,
    B,
    C,
    D,
    E,
    F,
    G,
    H,
    I,
    J,
    K,
    L,
    M,
    N,
    O,
    P,
    Q,
    R,
    S,
    T,
    U,
    V,
    W,
    X,
    Y,
    Z,
    F1,
    F2,
    F3,
    F4,
    F5,
    F6,
    F7,
    F8,
    F9,
    F10,
    F11,
    F12,
    LeftShift,
    LeftCtrl,
    LeftAlt,
    LeftMeta,
    RightShift,
    RightCtrl,
    RightAlt,
    RightMeta,
    CapsLock,
    NumLock,
    ScrollLock,
    PrintScreen,
    Pause,
    Application,
    Numpad0,
    Numpad1,
    Numpad2,
    Numpad3,
    Numpad4,
    Numpad5,
    Numpad6,
    Numpad7,
    Numpad8,
    Numpad9,
    NumpadDecimal,
    NumpadDivide,
    NumpadMultiply,
    NumpadSubtract,
    NumpadAdd,
    NumpadEnter,
    NumpadEquals,
    NumpadComma,
    F13,
    F14,
    F15,
    F16,
    F17,
    F18,
    F19,
    F20,
    F21,
    F22,
    F23,
    F24,
    VolumeMute,
    VolumeDown,
    VolumeUp,
    MediaPrevious,
    MediaNext,
    MediaPlayPause,
    MediaStop,
    IntlBackslash,
}

impl KeyboardKey {
    /// The number of keys.
    pub const COUNT: usize = 126;

    /// The number of the key.
    pub open spec fn number(self) -> u8 {
        match self {
            KeyboardKey::Escape => 0,
            KeyboardKey::Tab => 1,
            KeyboardKey::Backspace => 2,
            KeyboardKey::Enter => 3,
            KeyboardKey::Space => 4,
            KeyboardKey::Insert => 5,
            KeyboardKey::Delete => 6,
            KeyboardKey::Home => 7,
            KeyboardKey::End => 8,
            KeyboardKey::PageUp => 9,
            KeyboardKey::PageDown => 10,
            KeyboardKey::ArrowUp => 11,
            KeyboardKey::ArrowDown => 12,
            KeyboardKey::ArrowLeft => 13,
            KeyboardKey::ArrowRight => 14,
            KeyboardKey::Minus => 15,
            KeyboardKey::Equals => 16,
            KeyboardKey::OpenBracket => 17,
            KeyboardKey::CloseBracket => 18,
            KeyboardKey::Backslash => 19,
            KeyboardKey::Semicolon => 20,
            KeyboardKey::Quote => 21,
            KeyboardKey::Backtick => 22,
            KeyboardKey::Comma => 23,
            KeyboardKey::Period => 24,
            KeyboardKey::Slash => 25,
            KeyboardKey::Num0 => 26,
            KeyboardKey::Num1 => 27,
            KeyboardKey::Num2 => 28,
            KeyboardKey::Num3 => 29,
            KeyboardKey::Num4 => 30,
            KeyboardKey::Num5 => 31,
            KeyboardKey::Num6 => 32,
            KeyboardKey::Num7 => 33,
            KeyboardKey::Num8 => 34,
            KeyboardKey::Num9 => 35,
            KeyboardKey::A => 36,
            KeyboardKey::B => 37,
            KeyboardKey::C => 38,
            KeyboardKey::D => 39,
            KeyboardKey::E => 40,
            KeyboardKey::F => 41,
            KeyboardKey::G => 42,
            KeyboardKey::H => 43,
            KeyboardKey::I => 44,
            KeyboardKey::J => 45,
            KeyboardKey::K => 46,
            KeyboardKey::L => 47,
            KeyboardKey::M => 48,
            KeyboardKey::N => 49,
            KeyboardKey::O => 50,
            KeyboardKey::P => 51,
            KeyboardKey::Q => 52,
            KeyboardKey::R => 53,
            KeyboardKey::S => 54,
            KeyboardKey::T => 55,
            KeyboardKey::U => 56,
            KeyboardKey::V => 57,
            KeyboardKey::W => 58,
            KeyboardKey::X => 59,
            KeyboardKey::Y => 60,
            KeyboardKey::Z => 61,
            KeyboardKey::F1 => 62,
            KeyboardKey::F2 => 63,
            KeyboardKey::F3 => 64,
            KeyboardKey::F4 => 65,
            KeyboardKey::F5 => 66,
            KeyboardKey::F6 => 67,
            KeyboardKey::F7 => 68,
            KeyboardKey::F8 => 69,
            KeyboardKey::F9 => 70,
            KeyboardKey::F10 => 71,
            KeyboardKey::F11 => 72,
            KeyboardKey::F12 => 73,
            KeyboardKey::LeftShift => 74,
            KeyboardKey::LeftCtrl => 75,
            KeyboardKey::LeftAlt => 76,
            KeyboardKey::LeftMeta => 77,
            KeyboardKey::RightShift => 78,
            KeyboardKey::RightCtrl => 79,
            KeyboardKey::RightAlt => 80,
            KeyboardKey::RightMeta => 81,
            KeyboardKey::CapsLock => 82,
            KeyboardKey::NumLock => 83,
            KeyboardKey::ScrollLock => 84,
            KeyboardKey::PrintScreen => 85,
            KeyboardKey::Pause => 86,
            KeyboardKey::Application => 87,
            KeyboardKey::Numpad0 => 88,
            KeyboardKey::Numpad1 => 89,
            KeyboardKey::Numpad2 => 90,
            KeyboardKey::Numpad3 => 91,
            KeyboardKey::Numpad4 => 92,
            KeyboardKey::Numpad5 => 93,
            KeyboardKey::Numpad6 => 94,
            KeyboardKey::Numpad7 => 95,
            KeyboardKey::Numpad8 => 96,
            KeyboardKey::Numpad9 => 97,
            KeyboardKey::NumpadDecimal => 98,
            KeyboardKey::NumpadDivide => 99,
            KeyboardKey::NumpadMultiply => 100,
            KeyboardKey::NumpadSubtract => 101,
            KeyboardKey::NumpadAdd => 102,
            KeyboardKey::NumpadEnter => 103,
            KeyboardKey::NumpadEquals => 104,
            KeyboardKey::NumpadComma => 105,
            KeyboardKey::F13 => 106,
            KeyboardKey::F14 => 107,
            KeyboardKey::F15 => 108,
            KeyboardKey::F16 => 109,
            KeyboardKey::F17 => 110,
            KeyboardKey::F18 => 111,
            KeyboardKey::F19 => 112,
            KeyboardKey::F20 => 113,
            KeyboardKey::F21 => 114,
            KeyboardKey::F22 => 115,
            KeyboardKey::F23 => 116,
            KeyboardKey::F24 => 117,
            KeyboardKey::VolumeMute => 118,
            KeyboardKey::VolumeDown => 119,
            KeyboardKey::VolumeUp => 120,
            KeyboardKey::MediaPrevious => 121,
            KeyboardKey::MediaNext => 122,
            KeyboardKey::MediaPlayPause => 123,
            KeyboardKey::MediaStop => 124,
            KeyboardKey::IntlBackslash => 125,
        }
    }

    /// The key of a number.
    pub open spec fn numbered(number: int) -> Option<KeyboardKey> {
        if 0 <= number < KeyboardKey::COUNT {
            Some(choose|key: KeyboardKey| #[trigger] key.number() == number)
        } else {
            None
        }
    }

    /// The number of the key.
    pub fn index(self) -> (out: u8)
        ensures
            out == self.number(),
            out < KeyboardKey::COUNT,
    {
        match self {
            KeyboardKey::Escape => 0,
            KeyboardKey::Tab => 1,
            KeyboardKey::Backspace => 2,
            KeyboardKey::Enter => 3,
            KeyboardKey::Space => 4,
            KeyboardKey::Insert => 5,
            KeyboardKey::Delete => 6,
            KeyboardKey::Home => 7,
            KeyboardKey::End => 8,
            KeyboardKey::PageUp => 9,
            KeyboardKey::PageDown => 10,
            KeyboardKey::ArrowUp => 11,
            KeyboardKey::ArrowDown => 12,
            KeyboardKey::ArrowLeft => 13,
            KeyboardKey::ArrowRight => 14,
            KeyboardKey::Minus => 15,
            KeyboardKey::Equals => 16,
            KeyboardKey::OpenBracket => 17,
            KeyboardKey::CloseBracket => 18,
            KeyboardKey::Backslash => 19,
            KeyboardKey::Semicolon => 20,
            KeyboardKey::Quote => 21,
            KeyboardKey::Backtick => 22,
            KeyboardKey::Comma => 23,
            KeyboardKey::Period => 24,
            KeyboardKey::Slash => 25,
            KeyboardKey::Num0 => 26,
            KeyboardKey::Num1 => 27,
            KeyboardKey::Num2 => 28,
            KeyboardKey::Num3 => 29,
            KeyboardKey::Num4 => 30,
            KeyboardKey::Num5 => 31,
            KeyboardKey::Num6 => 32,
            KeyboardKey::Num7 => 33,
            KeyboardKey::Num8 => 34,
            KeyboardKey::Num9 => 35,
            KeyboardKey::A => 36,
            KeyboardKey::B => 37,
            KeyboardKey::C => 38,
            KeyboardKey::D => 39,
            KeyboardKey::E => 40,
            KeyboardKey::F => 41,
            KeyboardKey::G => 42,
            KeyboardKey::H => 43,
            KeyboardKey::I => 44,
            KeyboardKey::J => 45,
            KeyboardKey::K => 46,
            KeyboardKey::L => 47,
            KeyboardKey::M => 48,
            KeyboardKey::N => 49,
            KeyboardKey::O => 50,
            KeyboardKey::P => 51,
            KeyboardKey::Q => 52,
            KeyboardKey::R => 53,
            KeyboardKey::S => 54,
            KeyboardKey::T => 55,
            KeyboardKey::U => 56,
            KeyboardKey::V => 57,
            KeyboardKey::W => 58,
            KeyboardKey::X => 59,
            KeyboardKey::Y => 60,
            KeyboardKey::Z => 61,
            KeyboardKey::F1 => 62,
            KeyboardKey::F2 => 63,
            KeyboardKey::F3 => 64,
            KeyboardKey::F4 => 65,
            KeyboardKey::F5 => 66,
            KeyboardKey::F6 => 67,
            KeyboardKey::F7 => 68,
            KeyboardKey::F8 => 69,
            KeyboardKey::F9 => 70,
            KeyboardKey::F10 => 71,
            KeyboardKey::F11 => 72,
            KeyboardKey::F12 => 73,
            KeyboardKey::LeftShift => 74,
            KeyboardKey::LeftCtrl => 75,
            KeyboardKey::LeftAlt => 76,
            KeyboardKey::LeftMeta => 77,
            KeyboardKey::RightShift => 78,
            KeyboardKey::RightCtrl => 79,
            KeyboardKey::RightAlt => 80,
            KeyboardKey::RightMeta => 81,
            KeyboardKey::CapsLock => 82,
            KeyboardKey::NumLock => 83,
            KeyboardKey::ScrollLock => 84,
            KeyboardKey::PrintScreen => 85,
            KeyboardKey::Pause => 86,
            KeyboardKey::Application => 87,
            KeyboardKey::Numpad0 => 88,
            KeyboardKey::Numpad1 => 89,
            KeyboardKey::Numpad2 => 90,
            KeyboardKey::Numpad3 => 91,
            KeyboardKey::Numpad4 => 92,
            KeyboardKey::Numpad5 => 93,
            KeyboardKey::Numpad6 => 94,
            KeyboardKey::Numpad7 => 95,
            KeyboardKey::Numpad8 => 96,
            KeyboardKey::Numpad9 => 97,
            KeyboardKey::NumpadDecimal => 98,
            KeyboardKey::NumpadDivide => 99,
            KeyboardKey::NumpadMultiply => 100,
            KeyboardKey::NumpadSubtract => 101,
            KeyboardKey::NumpadAdd => 102,
            KeyboardKey::NumpadEnter => 103,
            KeyboardKey::NumpadEquals => 104,
            KeyboardKey::NumpadComma => 105,
            KeyboardKey::F13 => 106,
            KeyboardKey::F14 => 107,
            KeyboardKey::F15 => 108,
            KeyboardKey::F16 => 109,
            KeyboardKey::F17 => 110,
            KeyboardKey::F18 => 111,
            KeyboardKey::F19 => 112,
            KeyboardKey::F20 => 113,
            KeyboardKey::F21 => 114,
            KeyboardKey::F22 => 115,
            KeyboardKey::F23 => 116,
            KeyboardKey::F24 => 117,
            KeyboardKey::VolumeMute => 118,
            KeyboardKey::VolumeDown => 119,
            KeyboardKey::VolumeUp => 120,
            KeyboardKey::MediaPrevious => 121,
            KeyboardKey::MediaNext => 122,
            KeyboardKey::MediaPlayPause => 123,
            KeyboardKey::MediaStop => 124,
            KeyboardKey::IntlBackslash => 125,
        }
    }

    /// The key of a number.
    pub fn from_u8(number: u8) -> (out: Option<KeyboardKey>)
        ensures
            out == KeyboardKey::numbered(number as int),
            match out {
                Some(key) => key.number() == number,
                None => number >= KeyboardKey::COUNT,
            },
    {
        let key = match number {
            0 => KeyboardKey::Escape,
            1 => KeyboardKey::Tab,
            2 => KeyboardKey::Backspace,
            3 => KeyboardKey::Enter,
            4 => KeyboardKey::Space,
            5 => KeyboardKey::Insert,
            6 => KeyboardKey::Delete,
            7 => KeyboardKey::Home,
            8 => KeyboardKey::End,
            9 => KeyboardKey::PageUp,
            10 => KeyboardKey::PageDown,
            11 => KeyboardKey::ArrowUp,
            12 => KeyboardKey::ArrowDown,
            13 => KeyboardKey::ArrowLeft,
            14 => KeyboardKey::ArrowRight,
            15 => KeyboardKey::Minus,
            16 => KeyboardKey::Equals,
            17 => KeyboardKey::OpenBracket,
            18 => KeyboardKey::CloseBracket,
            19 => KeyboardKey::Backslash,
            20 => KeyboardKey::Semicolon,
            21 => KeyboardKey::Quote,
            22 => KeyboardKey::Backtick,
            23 => KeyboardKey::Comma,
            24 => KeyboardKey::Period,
            25 => KeyboardKey::Slash,
            26 => KeyboardKey::Num0,
            27 => KeyboardKey::Num1,
            28 => KeyboardKey::Num2,
            29 => KeyboardKey::Num3,
            30 => KeyboardKey::Num4,
            31 => KeyboardKey::Num5,
            32 => KeyboardKey::Num6,
            33 => KeyboardKey::Num7,
            34 => KeyboardKey::Num8,
            35 => KeyboardKey::Num9,
            36 => KeyboardKey::A,
            37 => KeyboardKey::B,
            38 => KeyboardKey::C,
            39 => KeyboardKey::D,
            40 => KeyboardKey::E,
            41 => KeyboardKey::F,
            42 => KeyboardKey::G,
            43 => KeyboardKey::H,
            44 => KeyboardKey::I,
            45 => KeyboardKey::J,
            46 => KeyboardKey::K,
            47 => KeyboardKey::L,
            48 => KeyboardKey::M,
            49 => KeyboardKey::N,
            50 => KeyboardKey::O,
            51 => KeyboardKey::P,
            52 => KeyboardKey::Q,
            53 => KeyboardKey::R,
            54 => KeyboardKey::S,
            55 => KeyboardKey::T,
            56 => KeyboardKey::U,
            57 => KeyboardKey::V,
            58 => KeyboardKey::W,
            59 => KeyboardKey::X,
            60 => KeyboardKey::Y,
            61 => KeyboardKey::Z,
            62 => KeyboardKey::F1,
            63 => KeyboardKey::F2,
            64 => KeyboardKey::F3,
            65 => KeyboardKey::F4,
            66 => KeyboardKey::F5,
            67 => KeyboardKey::F6,
            68 => KeyboardKey::F7,
            69 => KeyboardKey::F8,
            70 => KeyboardKey::F9,
            71 => KeyboardKey::F10,
            72 => KeyboardKey::F11,
            73 => KeyboardKey::F12,
            74 => KeyboardKey::LeftShift,
            75 => KeyboardKey::LeftCtrl,
            76 => KeyboardKey::LeftAlt,
            77 => KeyboardKey::LeftMeta,
            78 => KeyboardKey::RightShift,
            79 => KeyboardKey::RightCtrl,
            80 => KeyboardKey::RightAlt,
            81 => KeyboardKey::RightMeta,
            82 => KeyboardKey::CapsLock,
            83 => KeyboardKey::NumLock,
            84 => KeyboardKey::ScrollLock,
            85 => KeyboardKey::PrintScreen,
            86 => KeyboardKey::Pause,
            87 => KeyboardKey::Application,
            88 => KeyboardKey::Numpad0,
            89 => KeyboardKey::Numpad1,
            90 => KeyboardKey::Numpad2,
            91 => KeyboardKey::Numpad3,
            92 => KeyboardKey::Numpad4,
            93 => KeyboardKey::Numpad5,
            94 => KeyboardKey::Numpad6,
            95 => KeyboardKey::Numpad7,
            96 => KeyboardKey::Numpad8,
            97 => KeyboardKey::Numpad9,
            98 => KeyboardKey::NumpadDecimal,
            99 => KeyboardKey::NumpadDivide,
            100 => KeyboardKey::NumpadMultiply,
            101 => KeyboardKey::NumpadSubtract,
            102 => KeyboardKey::NumpadAdd,
            103 => KeyboardKey::NumpadEnter,
            104 => KeyboardKey::NumpadEquals,
            105 => KeyboardKey::NumpadComma,
            106 => KeyboardKey::F13,
            107 => KeyboardKey::F14,
            108 => KeyboardKey::F15,
            109 => KeyboardKey::F16,
            110 => KeyboardKey::F17,
            111 => KeyboardKey::F18,
            112 => KeyboardKey::F19,
            113 => KeyboardKey::F20,
            114 => KeyboardKey::F21,
            115 => KeyboardKey::F22,
            116 => KeyboardKey::F23,
            117 => KeyboardKey::F24,
            118 => KeyboardKey::VolumeMute,
            119 => KeyboardKey::VolumeDown,
            120 => KeyboardKey::VolumeUp,
            121 => KeyboardKey::MediaPrevious,
            122 => KeyboardKey::MediaNext,
            123 => KeyboardKey::MediaPlayPause,
            124 => KeyboardKey::MediaStop,
            125 => KeyboardKey::IntlBackslash,
            _ => {
                return None;
            },
        };
        proof {
            assert(key.number() == number);
            let chosen = choose|k: KeyboardKey| #[trigger] k.number() == number as int;
            assert(chosen.number() == number);
            numbers_tell_keys_apart(key, chosen);
        }
        Some(key)
    }
}

/// Every number below the count is the number of a key.
pub proof fn every_number_has_a_key(number: int)
    requires
        0 <= number < KeyboardKey::COUNT,
    ensures
        KeyboardKey::numbered(number) matches Some(key) && key.number() == number,
{
    let witness = key_at(number);
    assert(witness.number() == number);
}

spec fn key_at(number: int) -> KeyboardKey {
    if number == 0 {
        KeyboardKey::Escape
    } else if number == 1 {
        KeyboardKey::Tab
    } else if number == 2 {
        KeyboardKey::Backspace
    } else if number == 3 {
        KeyboardKey::Enter
    } else if number == 4 {
        KeyboardKey::Space
    } else if number == 5 {
        KeyboardKey::Insert
    } else if number == 6 {
        KeyboardKey::Delete
    } else if number == 7 {
        KeyboardKey::Home
    } else if number == 8 {
        KeyboardKey::End
    } else if number == 9 {
        KeyboardKey::PageUp
    } else if number == 10 {
        KeyboardKey::PageDown
    } else if number == 11 {
        KeyboardKey::ArrowUp
    } else if number == 12 {
        KeyboardKey::ArrowDown
    } else if number == 13 {
        KeyboardKey::ArrowLeft
    } else if number == 14 {
        KeyboardKey::ArrowRight
    } else if number == 15 {
        KeyboardKey::Minus
    } else if number == 16 {
        KeyboardKey::Equals
    } else if number == 17 {
        KeyboardKey::OpenBracket
    } else if number == 18 {
        KeyboardKey::CloseBracket
    } else if number == 19 {
        KeyboardKey::Backslash
    } else if number == 20 {
        KeyboardKey::Semicolon
    } else if number == 21 {
        KeyboardKey::Quote
    } else if number == 22 {
        KeyboardKey::Backtick
    } else if number == 23 {
        KeyboardKey::Comma
    } else if number == 24 {
        KeyboardKey::Period
    } else if number == 25 {
        KeyboardKey::Slash
    } else if number == 26 {
        KeyboardKey::Num0
    } else if number == 27 {
        KeyboardKey::Num1
    } else if number == 28 {
        KeyboardKey::Num2
    } else if number == 29 {
        KeyboardKey::Num3
    } else if number == 30 {
        KeyboardKey::Num4
    } else if number == 31 {
        KeyboardKey::Num5
    } else if number == 32 {
        KeyboardKey::Num6
    } else if number == 33 {
        KeyboardKey::Num7
    } else if number == 34 {
        KeyboardKey::Num8
    } else if number == 35 {
        KeyboardKey::Num9
    } else if number == 36 {
        KeyboardKey::A
    } else if number == 37 {
        KeyboardKey::B
    } else if number == 38 {
        KeyboardKey::C
    } else if number == 39 {
        KeyboardKey::D
    } else if number == 40 {
        KeyboardKey::E
    } else if number == 41 {
        KeyboardKey::F
    } else if number == 42 {
        KeyboardKey::G
    } else if number == 43 {
        KeyboardKey::H
    } else if number == 44 {
        KeyboardKey::I
    } else if number == 45 {
        KeyboardKey::J
    } else if number == 46 {
        KeyboardKey::K
    } else if number == 47 {
        KeyboardKey::L
    } else if number == 48 {
        KeyboardKey::M
    } else if number == 49 {
        KeyboardKey::N
    } else if number == 50 {
        KeyboardKey::O
    } else if number == 51 {
        KeyboardKey::P
    } else if number == 52 {
        KeyboardKey::Q
    } else if number == 53 {
        KeyboardKey::R
    } else if number == 54 {
        KeyboardKey::S
    } else if number == 55 {
        KeyboardKey::T
    } else if number == 56 {
        KeyboardKey::U
    } else if number == 57 {
        KeyboardKey::V
    } else if number == 58 {
        KeyboardKey::W
    } else if number == 59 {
        KeyboardKey::X
    } else if number == 60 {
        KeyboardKey::Y
    } else if number == 61 {
        KeyboardKey::Z
    } else if number == 62 {
        KeyboardKey::F1
    } else if number == 63 {
        KeyboardKey::F2
    } else if number == 64 {
        KeyboardKey::F3
    } else if number == 65 {
        KeyboardKey::F4
    } else if number == 66 {
        KeyboardKey::F5
    } else if number == 67 {
        KeyboardKey::F6
    } else if number == 68 {
        KeyboardKey::F7
    } else if number == 69 {
        KeyboardKey::F8
    } else if number == 70 {
        KeyboardKey::F9
    } else if number == 71 {
        KeyboardKey::F10
    } else if number == 72 {
        KeyboardKey::F11
    } else if number == 73 {
        KeyboardKey::F12
    } else if number == 74 {
        KeyboardKey::LeftShift
    } else if number == 75 {
        KeyboardKey::LeftCtrl
    } else if number == 76 {
        KeyboardKey::LeftAlt
    } else if number == 77 {
        KeyboardKey::LeftMeta
    } else if number == 78 {
        KeyboardKey::RightShift
    } else if number == 79 {
        KeyboardKey::RightCtrl
    } else if number == 80 {
        KeyboardKey::RightAlt
    } else if number == 81 {
        KeyboardKey::RightMeta
    } else if number == 82 {
        KeyboardKey::CapsLock
    } else if number == 83 {
        KeyboardKey::NumLock
    } else if number == 84 {
        KeyboardKey::ScrollLock
    } else if number == 85 {
        KeyboardKey::PrintScreen
    } else if number == 86 {
        KeyboardKey::Pause
    } else if number == 87 {
        KeyboardKey::Application
    } else if number == 88 {
        KeyboardKey::Numpad0
    } else if number == 89 {
        KeyboardKey::Numpad1
    } else if number == 90 {
        KeyboardKey::Numpad2
    } else if number == 91 {
        KeyboardKey::Numpad3
    } else if number == 92 {
        KeyboardKey::Numpad4
    } else if number == 93 {
        KeyboardKey::Numpad5
    } else if number == 94 {
        KeyboardKey::Numpad6
    } else if number == 95 {
        KeyboardKey::Numpad7
    } else if number == 96 {
        KeyboardKey::Numpad8
    } else if number == 97 {
        KeyboardKey::Numpad9
    } else if number == 98 {
        KeyboardKey::NumpadDecimal
    } else if number == 99 {
        KeyboardKey::NumpadDivide
    } else if number == 100 {
        KeyboardKey::NumpadMultiply
    } else if number == 101 {
        KeyboardKey::NumpadSubtract
    } else if number == 102 {
        KeyboardKey::NumpadAdd
    } else if number == 103 {
        KeyboardKey::NumpadEnter
    } else if number == 104 {
        KeyboardKey::NumpadEquals
    } else if number == 105 {
        KeyboardKey::NumpadComma
    } else if number == 106 {
        KeyboardKey::F13
    } else if number == 107 {
        KeyboardKey::F14
    } else if number == 108 {
        KeyboardKey::F15
    } else if number == 109 {
        KeyboardKey::F16
    } else if number == 110 {
        KeyboardKey::F17
    } else if number == 111 {
        KeyboardKey::F18
    } else if number == 112 {
        KeyboardKey::F19
    } else if number == 113 {
        KeyboardKey::F20
    } else if number == 114 {
        KeyboardKey::F21
    } else if number == 115 {
        KeyboardKey::F22
    } else if number == 116 {
        KeyboardKey::F23
    } else if number == 117 {
        KeyboardKey::F24
    } else if number == 118 {
        KeyboardKey::VolumeMute
    } else if number == 119 {
        KeyboardKey::VolumeDown
    } else if number == 120 {
        KeyboardKey::VolumeUp
    } else if number == 121 {
        KeyboardKey::MediaPrevious
    } else if number == 122 {
        KeyboardKey::MediaNext
    } else if number == 123 {
        KeyboardKey::MediaPlayPause
    } else if number == 124 {
        KeyboardKey::MediaStop
    } else {
        KeyboardKey::IntlBackslash
    }
}

/// The number of a key is below the count.
pub proof fn numbers_are_small(key: KeyboardKey)
    ensures
        key.number() < KeyboardKey::COUNT,
{
}

/// No two keys have the same number.
pub proof fn numbers_tell_keys_apart(a: KeyboardKey, b: KeyboardKey)
    requires
        a.number() == b.number(),
    ensures
        a == b,
{
}

/// The event code of a key on Linux.
pub open spec fn linux_code(key: KeyboardKey) -> Option<u16> {
    match key {
        KeyboardKey::Escape => Some(1),
        KeyboardKey::Tab => Some(15),
        KeyboardKey::Backspace => Some(14),
        KeyboardKey::Enter => Some(28),
        KeyboardKey::Space => Some(57),
        KeyboardKey::Insert => Some(110),
        KeyboardKey::Delete => Some(111),
        KeyboardKey::Home => Some(102),
        KeyboardKey::End => Some(107),
        KeyboardKey::PageUp => Some(104),
        KeyboardKey::PageDown => Some(109),
        KeyboardKey::ArrowUp => Some(103),
        KeyboardKey::ArrowDown => Some(108),
        KeyboardKey::ArrowLeft => Some(105),
        KeyboardKey::ArrowRight => Some(106),
        KeyboardKey::Minus => Some(12),
        KeyboardKey::Equals => Some(13),
        KeyboardKey::OpenBracket => Some(26),
        KeyboardKey::CloseBracket => Some(27),
        KeyboardKey::Backslash => Some(43),
        KeyboardKey::Semicolon => Some(39),
        KeyboardKey::Quote => Some(40),
        KeyboardKey::Backtick => Some(41),
        KeyboardKey::Comma => Some(51),
        KeyboardKey::Period => Some(52),
        KeyboardKey::Slash => Some(53),
        KeyboardKey::Num0 => Some(11),
        KeyboardKey::Num1 => Some(2),
        KeyboardKey::Num2 => Some(3),
        KeyboardKey::Num3 => Some(4),
        KeyboardKey::Num4 => Some(5),
        KeyboardKey::Num5 => Some(6),
        KeyboardKey::Num6 => Some(7),
        KeyboardKey::Num7 => Some(8),
        KeyboardKey::Num8 => Some(9),
        KeyboardKey::Num9 => Some(10),
        KeyboardKey::A => Some(30),
        KeyboardKey::B => Some(48),
        KeyboardKey::C => Some(46),
        KeyboardKey::D => Some(32),
        KeyboardKey::E => Some(18),
        KeyboardKey::F => Some(33),
        KeyboardKey::G => Some(34),
        KeyboardKey::H => Some(35),
        KeyboardKey::I => Some(23),
        KeyboardKey::J => Some(36),
        KeyboardKey::K => Some(37),
        KeyboardKey::L => Some(38),
        KeyboardKey::M => Some(50),
        KeyboardKey::N => Some(49),
        KeyboardKey::O => Some(24),
        KeyboardKey::P => Some(25),
        KeyboardKey::Q => Some(16),
        KeyboardKey::R => Some(19),
        KeyboardKey::S => Some(31),
        KeyboardKey::T => Some(20),
        KeyboardKey::U => Some(22),
        KeyboardKey::V => Some(47),
        KeyboardKey::W => Some(17),
        KeyboardKey::X => Some(45),
        KeyboardKey::Y => Some(21),
        KeyboardKey::Z => Some(44),
        KeyboardKey::F1 => Some(59),
        KeyboardKey::F2 => Some(60),
        KeyboardKey::F3 => Some(61),
        KeyboardKey::F4 => Some(62),
        KeyboardKey::F5 => Some(63),
        KeyboardKey::F6 => Some(64),
        KeyboardKey::F7 => Some(65),
        KeyboardKey::F8 => Some(66),
        KeyboardKey::F9 => Some(67),
        KeyboardKey::F10 => Some(68),
        KeyboardKey::F11 => Some(87),
        KeyboardKey::F12 => Some(88),
        KeyboardKey::LeftShift => Some(42),
        KeyboardKey::LeftCtrl => Some(29),
        KeyboardKey::LeftAlt => Some(56),
        KeyboardKey::LeftMeta => Some(125),
        KeyboardKey::RightShift => Some(54),
        KeyboardKey::RightCtrl => Some(97),
        KeyboardKey::RightAlt => Some(100),
        KeyboardKey::RightMeta => Some(126),
        KeyboardKey::CapsLock => Some(58),
        KeyboardKey::NumLock => Some(69),
        KeyboardKey::ScrollLock => Some(70),
        KeyboardKey::PrintScreen => Some(99),
        KeyboardKey::Pause => Some(119),
        KeyboardKey::Application => Some(139),
        KeyboardKey::Numpad0 => Some(82),
        KeyboardKey::Numpad1 => Some(79),
        KeyboardKey::Numpad2 => Some(80),
        KeyboardKey::Numpad3 => Some(81),
        KeyboardKey::Numpad4 => Some(75),
        KeyboardKey::Numpad5 => Some(76),
        KeyboardKey::Numpad6 => Some(77),
        KeyboardKey::Numpad7 => Some(71),
        KeyboardKey::Numpad8 => Some(72),
        KeyboardKey::Numpad9 => Some(73),
        KeyboardKey::NumpadDecimal => Some(83),
        KeyboardKey::NumpadDivide => Some(98),
        KeyboardKey::NumpadMultiply => Some(55),
        KeyboardKey::NumpadSubtract => Some(74),
        KeyboardKey::NumpadAdd => Some(78),
        KeyboardKey::NumpadEnter => Some(96),
        KeyboardKey::NumpadEquals => Some(117),
        KeyboardKey::NumpadComma => Some(121),
        KeyboardKey::F13 => Some(183),
        KeyboardKey::F14 => Some(184),
        KeyboardKey::F15 => Some(185),
        KeyboardKey::F16 => Some(186),
        KeyboardKey::F17 => Some(187),
        KeyboardKey::F18 => Some(188),
        KeyboardKey::F19 => Some(189),
        KeyboardKey::F20 => Some(190),
        KeyboardKey::F21 => Some(191),
        KeyboardKey::F22 => Some(192),
        KeyboardKey::F23 => Some(193),
        KeyboardKey::F24 => Some(194),
        KeyboardKey::VolumeMute => Some(113),
        KeyboardKey::VolumeDown => Some(114),
        KeyboardKey::VolumeUp => Some(115),
        KeyboardKey::MediaPrevious => Some(165),
        KeyboardKey::MediaNext => Some(163),
        KeyboardKey::MediaPlayPause => Some(164),
        KeyboardKey::MediaStop => Some(166),
        KeyboardKey::IntlBackslash => Some(86),
    }
}

/// The event code of a key on Linux.
pub fn linux_key_code(key: KeyboardKey) -> (out: Option<u16>)
    ensures
        out == linux_code(key),
{
    match key {
        KeyboardKey::Escape => Some(1),
        KeyboardKey::Tab => Some(15),
        KeyboardKey::Backspace => Some(14),
        KeyboardKey::Enter => Some(28),
        KeyboardKey::Space => Some(57),
        KeyboardKey::Insert => Some(110),
        KeyboardKey::Delete => Some(111),
        KeyboardKey::Home => Some(102),
        KeyboardKey::End => Some(107),
        KeyboardKey::PageUp => Some(104),
        KeyboardKey::PageDown => Some(109),
        KeyboardKey::ArrowUp => Some(103),
        KeyboardKey::ArrowDown => Some(108),
        KeyboardKey::ArrowLeft => Some(105),
        KeyboardKey::ArrowRight => Some(106),
        KeyboardKey::Minus => Some(12),
        KeyboardKey::Equals => Some(13),
        KeyboardKey::OpenBracket => Some(26),
        KeyboardKey::CloseBracket => Some(27),
        KeyboardKey::Backslash => Some(43),
        KeyboardKey::Semicolon => Some(39),
        KeyboardKey::Quote => Some(40),
        KeyboardKey::Backtick => Some(41),
        KeyboardKey::Comma => Some(51),
        KeyboardKey::Period => Some(52),
        KeyboardKey::Slash => Some(53),
        KeyboardKey::Num0 => Some(11),
        KeyboardKey::Num1 => Some(2),
        KeyboardKey::Num2 => Some(3),
        KeyboardKey::Num3 => Some(4),
        KeyboardKey::Num4 => Some(5),
        KeyboardKey::Num5 => Some(6),
        KeyboardKey::Num6 => Some(7),
        KeyboardKey::Num7 => Some(8),
        KeyboardKey::Num8 => Some(9),
        KeyboardKey::Num9 => Some(10),
        KeyboardKey::A => Some(30),
        KeyboardKey::B => Some(48),
        KeyboardKey::C => Some(46),
        KeyboardKey::D => Some(32),
        KeyboardKey::E => Some(18),
        KeyboardKey::F => Some(33),
        KeyboardKey::G => Some(34),
        KeyboardKey::H => Some(35),
        KeyboardKey::I => Some(23),
        KeyboardKey::J => Some(36),
        KeyboardKey::K => Some(37),
        KeyboardKey::L => Some(38),
        KeyboardKey::M => Some(50),
        KeyboardKey::N => Some(49),
        KeyboardKey::O => Some(24),
        KeyboardKey::P => Some(25),
        KeyboardKey::Q => Some(16),
        KeyboardKey::R => Some(19),
        KeyboardKey::S => Some(31),
        KeyboardKey::T => Some(20),
        KeyboardKey::U => Some(22),
        KeyboardKey::V => Some(47),
        KeyboardKey::W => Some(17),
        KeyboardKey::X => Some(45),
        KeyboardKey::Y => Some(21),
        KeyboardKey::Z => Some(44),
        KeyboardKey::F1 => Some(59),
        KeyboardKey::F2 => Some(60),
        KeyboardKey::F3 => Some(61),
        KeyboardKey::F4 => Some(62),
        KeyboardKey::F5 => Some(63),
        KeyboardKey::F6 => Some(64),
        KeyboardKey::F7 => Some(65),
        KeyboardKey::F8 => Some(66),
        KeyboardKey::F9 => Some(67),
        KeyboardKey::F10 => Some(68),
        KeyboardKey::F11 => Some(87),
        KeyboardKey::F12 => Some(88),
        KeyboardKey::LeftShift => Some(42),
        KeyboardKey::LeftCtrl => Some(29),
        KeyboardKey::LeftAlt => Some(56),
        KeyboardKey::LeftMeta => Some(125),
        KeyboardKey::RightShift => Some(54),
        KeyboardKey::RightCtrl => Some(97),
        KeyboardKey::RightAlt => Some(100),
        KeyboardKey::RightMeta => Some(126),
        KeyboardKey::CapsLock => Some(58),
        KeyboardKey::NumLock => Some(69),
        KeyboardKey::ScrollLock => Some(70),
        KeyboardKey::PrintScreen => Some(99),
        KeyboardKey::Pause => Some(119),
        KeyboardKey::Application => Some(139),
        KeyboardKey::Numpad0 => Some(82),
        KeyboardKey::Numpad1 => Some(79),
        KeyboardKey::Numpad2 => Some(80),
        KeyboardKey::Numpad3 => Some(81),
        KeyboardKey::Numpad4 => Some(75),
        KeyboardKey::Numpad5 => Some(76),
        KeyboardKey::Numpad6 => Some(77),
        KeyboardKey::Numpad7 => Some(71),
        KeyboardKey::Numpad8 => Some(72),
        KeyboardKey::Numpad9 => Some(73),
        KeyboardKey::NumpadDecimal => Some(83),
        KeyboardKey::NumpadDivide => Some(98),
        KeyboardKey::NumpadMultiply => Some(55),
        KeyboardKey::NumpadSubtract => Some(74),
        KeyboardKey::NumpadAdd => Some(78),
        KeyboardKey::NumpadEnter => Some(96),
        KeyboardKey::NumpadEquals => Some(117),
        KeyboardKey::NumpadComma => Some(121),
        KeyboardKey::F13 => Some(183),
        KeyboardKey::F14 => Some(184),
        KeyboardKey::F15 => Some(185),
        KeyboardKey::F16 => Some(186),
        KeyboardKey::F17 => Some(187),
        KeyboardKey::F18 => Some(188),
        KeyboardKey::F19 => Some(189),
        KeyboardKey::F20 => Some(190),
        KeyboardKey::F21 => Some(191),
        KeyboardKey::F22 => Some(192),
        KeyboardKey::F23 => Some(193),
        KeyboardKey::F24 => Some(194),
        KeyboardKey::VolumeMute => Some(113),
        KeyboardKey::VolumeDown => Some(114),
        KeyboardKey::VolumeUp => Some(115),
        KeyboardKey::MediaPrevious => Some(165),
        KeyboardKey::MediaNext => Some(163),
        KeyboardKey::MediaPlayPause => Some(164),
        KeyboardKey::MediaStop => Some(166),
        KeyboardKey::IntlBackslash => Some(86),
    }
}

/// The scan code of a key on Windows, and whether it is an extended one.
pub open spec fn windows_scan(key: KeyboardKey) -> Option<(u16, bool)> {
    match key {
        KeyboardKey::Escape => Some((0x01, false)),
        KeyboardKey::Tab => Some((0x0F, false)),
        KeyboardKey::Backspace => Some((0x0E, false)),
        KeyboardKey::Enter => Some((0x1C, false)),
        KeyboardKey::Space => Some((0x39, false)),
        KeyboardKey::Insert => Some((0x52, true)),
        KeyboardKey::Delete => Some((0x53, true)),
        KeyboardKey::Home => Some((0x47, true)),
        KeyboardKey::End => Some((0x4F, true)),
        KeyboardKey::PageUp => Some((0x49, true)),
        KeyboardKey::PageDown => Some((0x51, true)),
        KeyboardKey::ArrowUp => Some((0x48, true)),
        KeyboardKey::ArrowDown => Some((0x50, true)),
        KeyboardKey::ArrowLeft => Some((0x4B, true)),
        KeyboardKey::ArrowRight => Some((0x4D, true)),
        KeyboardKey::Minus => Some((0x0C, false)),
        KeyboardKey::Equals => Some((0x0D, false)),
        KeyboardKey::OpenBracket => Some((0x1A, false)),
        KeyboardKey::CloseBracket => Some((0x1B, false)),
        KeyboardKey::Backslash => Some((0x2B, false)),
        KeyboardKey::Semicolon => Some((0x27, false)),
        KeyboardKey::Quote => Some((0x28, false)),
        KeyboardKey::Backtick => Some((0x29, false)),
        KeyboardKey::Comma => Some((0x33, false)),
        KeyboardKey::Period => Some((0x34, false)),
        KeyboardKey::Slash => Some((0x35, false)),
        KeyboardKey::Num0 => Some((0x0B, false)),
        KeyboardKey::Num1 => Some((0x02, false)),
        KeyboardKey::Num2 => Some((0x03, false)),
        KeyboardKey::Num3 => Some((0x04, false)),
        KeyboardKey::Num4 => Some((0x05, false)),
        KeyboardKey::Num5 => Some((0x06, false)),
        KeyboardKey::Num6 => Some((0x07, false)),
        KeyboardKey::Num7 => Some((0x08, false)),
        KeyboardKey::Num8 => Some((0x09, false)),
        KeyboardKey::Num9 => Some((0x0A, false)),
        KeyboardKey::A => Some((0x1E, false)),
        KeyboardKey::B => Some((0x30, false)),
        KeyboardKey::C => Some((0x2E, false)),
        KeyboardKey::D => Some((0x20, false)),
        KeyboardKey::E => Some((0x12, false)),
        KeyboardKey::F => Some((0x21, false)),
        KeyboardKey::G => Some((0x22, false)),
        KeyboardKey::H => Some((0x23, false)),
        KeyboardKey::I => Some((0x17, false)),
        KeyboardKey::J => Some((0x24, false)),
        KeyboardKey::K => Some((0x25, false)),
        KeyboardKey::L => Some((0x26, false)),
        KeyboardKey::M => Some((0x32, false)),
        KeyboardKey::N => Some((0x31, false)),
        KeyboardKey::O => Some((0x18, false)),
        KeyboardKey::P => Some((0x19, false)),
        KeyboardKey::Q => Some((0x10, false)),
        KeyboardKey::R => Some((0x13, false)),
        KeyboardKey::S => Some((0x1F, false)),
        KeyboardKey::T => Some((0x14, false)),
        KeyboardKey::U => Some((0x16, false)),
        KeyboardKey::V => Some((0x2F, false)),
        KeyboardKey::W => Some((0x11, false)),
        KeyboardKey::X => Some((0x2D, false)),
        KeyboardKey::Y => Some((0x15, false)),
        KeyboardKey::Z => Some((0x2C, false)),
        KeyboardKey::F1 => Some((0x3B, false)),
        KeyboardKey::F2 => Some((0x3C, false)),
        KeyboardKey::F3 => Some((0x3D, false)),
        KeyboardKey::F4 => Some((0x3E, false)),
        KeyboardKey::F5 => Some((0x3F, false)),
        KeyboardKey::F6 => Some((0x40, false)),
        KeyboardKey::F7 => Some((0x41, false)),
        KeyboardKey::F8 => Some((0x42, false)),
        KeyboardKey::F9 => Some((0x43, false)),
        KeyboardKey::F10 => Some((0x44, false)),
        KeyboardKey::F11 => Some((0x57, false)),
        KeyboardKey::F12 => Some((0x58, false)),
        KeyboardKey::LeftShift => Some((0x2A, false)),
        KeyboardKey::LeftCtrl => Some((0x1D, false)),
        KeyboardKey::LeftAlt => Some((0x38, false)),
        KeyboardKey::LeftMeta => Some((0x5B, true)),
        KeyboardKey::RightShift => Some((0x36, false)),
        KeyboardKey::RightCtrl => Some((0x1D, true)),
        KeyboardKey::RightAlt => Some((0x38, true)),
        KeyboardKey::RightMeta => Some((0x5C, true)),
        KeyboardKey::CapsLock => Some((0x3A, false)),
        KeyboardKey::NumLock => Some((0x45, false)),
        KeyboardKey::ScrollLock => Some((0x46, false)),
        KeyboardKey::PrintScreen => Some((0x37, true)),
        KeyboardKey::Pause => None,
        KeyboardKey::Application => Some((0x5D, true)),
        KeyboardKey::Numpad0 => Some((0x52, false)),
        KeyboardKey::Numpad1 => Some((0x4F, false)),
        KeyboardKey::Numpad2 => Some((0x50, false)),
        KeyboardKey::Numpad3 => Some((0x51, false)),
        KeyboardKey::Numpad4 => Some((0x4B, false)),
        KeyboardKey::Numpad5 => Some((0x4C, false)),
        KeyboardKey::Numpad6 => Some((0x4D, false)),
        KeyboardKey::Numpad7 => Some((0x47, false)),
        KeyboardKey::Numpad8 => Some((0x48, false)),
        KeyboardKey::Numpad9 => Some((0x49, false)),
        KeyboardKey::NumpadDecimal => Some((0x53, false)),
        KeyboardKey::NumpadDivide => Some((0x35, true)),
        KeyboardKey::NumpadMultiply => Some((0x37, false)),
        KeyboardKey::NumpadSubtract => Some((0x4A, false)),
        KeyboardKey::NumpadAdd => Some((0x4E, false)),
        KeyboardKey::NumpadEnter => Some((0x1C, true)),
        KeyboardKey::NumpadEquals => Some((0x59, false)),
        KeyboardKey::NumpadComma => Some((0x7E, false)),
        KeyboardKey::F13 => Some((0x64, false)),
        KeyboardKey::F14 => Some((0x65, false)),
        KeyboardKey::F15 => Some((0x66, false)),
        KeyboardKey::F16 => Some((0x67, false)),
        KeyboardKey::F17 => Some((0x68, false)),
        KeyboardKey::F18 => Some((0x69, false)),
        KeyboardKey::F19 => Some((0x6A, false)),
        KeyboardKey::F20 => Some((0x6B, false)),
        KeyboardKey::F21 => Some((0x6C, false)),
        KeyboardKey::F22 => Some((0x6D, false)),
        KeyboardKey::F23 => Some((0x6E, false)),
        KeyboardKey::F24 => Some((0x76, false)),
        KeyboardKey::VolumeMute => Some((0x20, true)),
        KeyboardKey::VolumeDown => Some((0x2E, true)),
        KeyboardKey::VolumeUp => Some((0x30, true)),
        KeyboardKey::MediaPrevious => Some((0x10, true)),
        KeyboardKey::MediaNext => Some((0x19, true)),
        KeyboardKey::MediaPlayPause => Some((0x22, true)),
        KeyboardKey::MediaStop => Some((0x24, true)),
        KeyboardKey::IntlBackslash => Some((0x56, false)),
    }
}

/// The scan code of a key on Windows, and whether it is an extended one.
pub fn windows_key_scan_code(key: KeyboardKey) -> (out: Option<(u16, bool)>)
    ensures
        out == windows_scan(key),
{
    match key {
        KeyboardKey::Escape => Some((0x01, false)),
        KeyboardKey::Tab => Some((0x0F, false)),
        KeyboardKey::Backspace => Some((0x0E, false)),
        KeyboardKey::Enter => Some((0x1C, false)),
        KeyboardKey::Space => Some((0x39, false)),
        KeyboardKey::Insert => Some((0x52, true)),
        KeyboardKey::Delete => Some((0x53, true)),
        KeyboardKey::Home => Some((0x47, true)),
        KeyboardKey::End => Some((0x4F, true)),
        KeyboardKey::PageUp => Some((0x49, true)),
        KeyboardKey::PageDown => Some((0x51, true)),
        KeyboardKey::ArrowUp => Some((0x48, true)),
        KeyboardKey::ArrowDown => Some((0x50, true)),
        KeyboardKey::ArrowLeft => Some((0x4B, true)),
        KeyboardKey::ArrowRight => Some((0x4D, true)),
        KeyboardKey::Minus => Some((0x0C, false)),
        KeyboardKey::Equals => Some((0x0D, false)),
        KeyboardKey::OpenBracket => Some((0x1A, false)),
        KeyboardKey::CloseBracket => Some((0x1B, false)),
        KeyboardKey::Backslash => Some((0x2B, false)),
        KeyboardKey::Semicolon => Some((0x27, false)),
        KeyboardKey::Quote => Some((0x28, false)),
        KeyboardKey::Backtick => Some((0x29, false)),
        KeyboardKey::Comma => Some((0x33, false)),
        KeyboardKey::Period => Some((0x34, false)),
        KeyboardKey::Slash => Some((0x35, false)),
        KeyboardKey::Num0 => Some((0x0B, false)),
        KeyboardKey::Num1 => Some((0x02, false)),
        KeyboardKey::Num2 => Some((0x03, false)),
        KeyboardKey::Num3 => Some((0x04, false)),
        KeyboardKey::Num4 => Some((0x05, false)),
        KeyboardKey::Num5 => Some((0x06, false)),
        KeyboardKey::Num6 => Some((0x07, false)),
        KeyboardKey::Num7 => Some((0x08, false)),
        KeyboardKey::Num8 => Some((0x09, false)),
        KeyboardKey::Num9 => Some((0x0A, false)),
        KeyboardKey::A => Some((0x1E, false)),
        KeyboardKey::B => Some((0x30, false)),
        KeyboardKey::C => Some((0x2E, false)),
        KeyboardKey::D => Some((0x20, false)),
        KeyboardKey::E => Some((0x12, false)),
        KeyboardKey::F => Some((0x21, false)),
        KeyboardKey::G => Some((0x22, false)),
        KeyboardKey::H => Some((0x23, false)),
        KeyboardKey::I => Some((0x17, false)),
        KeyboardKey::J => Some((0x24, false)),
        KeyboardKey::K => Some((0x25, false)),
        KeyboardKey::L => Some((0x26, false)),
        KeyboardKey::M => Some((0x32, false)),
        KeyboardKey::N => Some((0x31, false)),
        KeyboardKey::O => Some((0x18, false)),
        KeyboardKey::P => Some((0x19, false)),
        KeyboardKey::Q => Some((0x10, false)),
        KeyboardKey::R => Some((0x13, false)),
        KeyboardKey::S => Some((0x1F, false)),
        KeyboardKey::T => Some((0x14, false)),
        KeyboardKey::U => Some((0x16, false)),
        KeyboardKey::V => Some((0x2F, false)),
        KeyboardKey::W => Some((0x11, false)),
        KeyboardKey::X => Some((0x2D, false)),
        KeyboardKey::Y => Some((0x15, false)),
        KeyboardKey::Z => Some((0x2C, false)),
        KeyboardKey::F1 => Some((0x3B, false)),
        KeyboardKey::F2 => Some((0x3C, false)),
        KeyboardKey::F3 => Some((0x3D, false)),
        KeyboardKey::F4 => Some((0x3E, false)),
        KeyboardKey::F5 => Some((0x3F, false)),
        KeyboardKey::F6 => Some((0x40, false)),
        KeyboardKey::F7 => Some((0x41, false)),
        KeyboardKey::F8 => Some((0x42, false)),
        KeyboardKey::F9 => Some((0x43, false)),
        KeyboardKey::F10 => Some((0x44, false)),
        KeyboardKey::F11 => Some((0x57, false)),
        KeyboardKey::F12 => Some((0x58, false)),
        KeyboardKey::LeftShift => Some((0x2A, false)),
        KeyboardKey::LeftCtrl => Some((0x1D, false)),
        KeyboardKey::LeftAlt => Some((0x38, false)),
        KeyboardKey::LeftMeta => Some((0x5B, true)),
        KeyboardKey::RightShift => Some((0x36, false)),
        KeyboardKey::RightCtrl => Some((0x1D, true)),
        KeyboardKey::RightAlt => Some((0x38, true)),
        KeyboardKey::RightMeta => Some((0x5C, true)),
        KeyboardKey::CapsLock => Some((0x3A, false)),
        KeyboardKey::NumLock => Some((0x45, false)),
        KeyboardKey::ScrollLock => Some((0x46, false)),
        KeyboardKey::PrintScreen => Some((0x37, true)),
        KeyboardKey::Pause => None,
        KeyboardKey::Application => Some((0x5D, true)),
        KeyboardKey::Numpad0 => Some((0x52, false)),
        KeyboardKey::Numpad1 => Some((0x4F, false)),
        KeyboardKey::Numpad2 => Some((0x50, false)),
        KeyboardKey::Numpad3 => Some((0x51, false)),
        KeyboardKey::Numpad4 => Some((0x4B, false)),
        KeyboardKey::Numpad5 => Some((0x4C, false)),
        KeyboardKey::Numpad6 => Some((0x4D, false)),
        KeyboardKey::Numpad7 => Some((0x47, false)),
        KeyboardKey::Numpad8 => Some((0x48, false)),
        KeyboardKey::Numpad9 => Some((0x49, false)),
        KeyboardKey::NumpadDecimal => Some((0x53, false)),
        KeyboardKey::NumpadDivide => Some((0x35, true)),
        KeyboardKey::NumpadMultiply => Some((0x37, false)),
        KeyboardKey::NumpadSubtract => Some((0x4A, false)),
        KeyboardKey::NumpadAdd => Some((0x4E, false)),
        KeyboardKey::NumpadEnter => Some((0x1C, true)),
        KeyboardKey::NumpadEquals => Some((0x59, false)),
        KeyboardKey::NumpadComma => Some((0x7E, false)),
        KeyboardKey::F13 => Some((0x64, false)),
        KeyboardKey::F14 => Some((0x65, false)),
        KeyboardKey::F15 => Some((0x66, false)),
        KeyboardKey::F16 => Some((0x67, false)),
        KeyboardKey::F17 => Some((0x68, false)),
        KeyboardKey::F18 => Some((0x69, false)),
        KeyboardKey::F19 => Some((0x6A, false)),
        KeyboardKey::F20 => Some((0x6B, false)),
        KeyboardKey::F21 => Some((0x6C, false)),
        KeyboardKey::F22 => Some((0x6D, false)),
        KeyboardKey::F23 => Some((0x6E, false)),
        KeyboardKey::F24 => Some((0x76, false)),
        KeyboardKey::VolumeMute => Some((0x20, true)),
        KeyboardKey::VolumeDown => Some((0x2E, true)),
        KeyboardKey::VolumeUp => Some((0x30, true)),
        KeyboardKey::MediaPrevious => Some((0x10, true)),
        KeyboardKey::MediaNext => Some((0x19, true)),
        KeyboardKey::MediaPlayPause => Some((0x22, true)),
        KeyboardKey::MediaStop => Some((0x24, true)),
        KeyboardKey::IntlBackslash => Some((0x56, false)),
    }
}

/// The virtual key of a key on Windows that has no scan code of its own.
pub open spec fn windows_virtual(key: KeyboardKey) -> Option<u16> {
    if key == KeyboardKey::Pause {
        Some(0x13)
    } else {
        None
    }
}

/// The virtual key of a key on Windows that has no scan code of its own.
pub fn windows_key_virtual_key(key: KeyboardKey) -> (out: Option<u16>)
    ensures
        out == windows_virtual(key),
{
    match key {
        KeyboardKey::Pause => Some(0x13),
        _ => None,
    }
}

/// The virtual key code of a key on macOS.
pub open spec fn macos_code(key: KeyboardKey) -> Option<u16> {
    match key {
        KeyboardKey::Escape => Some(53),
        KeyboardKey::Tab => Some(48),
        KeyboardKey::Backspace => Some(51),
        KeyboardKey::Enter => Some(36),
        KeyboardKey::Space => Some(49),
        KeyboardKey::Insert => Some(114),
        KeyboardKey::Delete => Some(117),
        KeyboardKey::Home => Some(115),
        KeyboardKey::End => Some(119),
        KeyboardKey::PageUp => Some(116),
        KeyboardKey::PageDown => Some(121),
        KeyboardKey::ArrowUp => Some(126),
        KeyboardKey::ArrowDown => Some(125),
        KeyboardKey::ArrowLeft => Some(123),
        KeyboardKey::ArrowRight => Some(124),
        KeyboardKey::Minus => Some(27),
        KeyboardKey::Equals => Some(24),
        KeyboardKey::OpenBracket => Some(33),
        KeyboardKey::CloseBracket => Some(30),
        KeyboardKey::Backslash => Some(42),
        KeyboardKey::Semicolon => Some(41),
        KeyboardKey::Quote => Some(39),
        KeyboardKey::Backtick => Some(50),
        KeyboardKey::Comma => Some(43),
        KeyboardKey::Period => Some(47),
        KeyboardKey::Slash => Some(44),
        KeyboardKey::Num0 => Some(29),
        KeyboardKey::Num1 => Some(18),
        KeyboardKey::Num2 => Some(19),
        KeyboardKey::Num3 => Some(20),
        KeyboardKey::Num4 => Some(21),
        KeyboardKey::Num5 => Some(23),
        KeyboardKey::Num6 => Some(22),
        KeyboardKey::Num7 => Some(26),
        KeyboardKey::Num8 => Some(28),
        KeyboardKey::Num9 => Some(25),
        KeyboardKey::A => Some(0),
        KeyboardKey::B => Some(11),
        KeyboardKey::C => Some(8),
        KeyboardKey::D => Some(2),
        KeyboardKey::E => Some(14),
        KeyboardKey::F => Some(3),
        KeyboardKey::G => Some(5),
        KeyboardKey::H => Some(4),
        KeyboardKey::I => Some(34),
        KeyboardKey::J => Some(38),
        KeyboardKey::K => Some(40),
        KeyboardKey::L => Some(37),
        KeyboardKey::M => Some(46),
        KeyboardKey::N => Some(45),
        KeyboardKey::O => Some(31),
        KeyboardKey::P => Some(35),
        KeyboardKey::Q => Some(12),
        KeyboardKey::R => Some(15),
        KeyboardKey::S => Some(1),
        KeyboardKey::T => Some(17),
        KeyboardKey::U => Some(32),
        KeyboardKey::V => Some(9),
        KeyboardKey::W => Some(13),
        KeyboardKey::X => Some(7),
        KeyboardKey::Y => Some(16),
        KeyboardKey::Z => Some(6),
        KeyboardKey::F1 => Some(122),
        KeyboardKey::F2 => Some(120),
        KeyboardKey::F3 => Some(99),
        KeyboardKey::F4 => Some(118),
        KeyboardKey::F5 => Some(96),
        KeyboardKey::F6 => Some(97),
        KeyboardKey::F7 => Some(98),
        KeyboardKey::F8 => Some(100),
        KeyboardKey::F9 => Some(101),
        KeyboardKey::F10 => Some(109),
        KeyboardKey::F11 => Some(103),
        KeyboardKey::F12 => Some(111),
        KeyboardKey::LeftShift => Some(56),
        KeyboardKey::LeftCtrl => Some(59),
        KeyboardKey::LeftAlt => Some(58),
        KeyboardKey::LeftMeta => Some(55),
        KeyboardKey::RightShift => Some(60),
        KeyboardKey::RightCtrl => Some(62),
        KeyboardKey::RightAlt => Some(61),
        KeyboardKey::RightMeta => Some(54),
        KeyboardKey::CapsLock => Some(57),
        KeyboardKey::NumLock => None,
        KeyboardKey::ScrollLock => None,
        KeyboardKey::PrintScreen => None,
        KeyboardKey::Pause => None,
        KeyboardKey::Application => Some(110),
        KeyboardKey::Numpad0 => Some(82),
        KeyboardKey::Numpad1 => Some(83),
        KeyboardKey::Numpad2 => Some(84),
        KeyboardKey::Numpad3 => Some(85),
        KeyboardKey::Numpad4 => Some(86),
        KeyboardKey::Numpad5 => Some(87),
        KeyboardKey::Numpad6 => Some(88),
        KeyboardKey::Numpad7 => Some(89),
        KeyboardKey::Numpad8 => Some(91),
        KeyboardKey::Numpad9 => Some(92),
        KeyboardKey::NumpadDecimal => Some(65),
        KeyboardKey::NumpadDivide => Some(75),
        KeyboardKey::NumpadMultiply => Some(67),
        KeyboardKey::NumpadSubtract => Some(78),
        KeyboardKey::NumpadAdd => Some(69),
        KeyboardKey::NumpadEnter => Some(76),
        KeyboardKey::NumpadEquals => Some(81),
        KeyboardKey::NumpadComma => Some(95),
        KeyboardKey::F13 => Some(105),
        KeyboardKey::F14 => Some(107),
        KeyboardKey::F15 => Some(113),
        KeyboardKey::F16 => Some(106),
        KeyboardKey::F17 => Some(64),
        KeyboardKey::F18 => Some(79),
        KeyboardKey::F19 => Some(80),
        KeyboardKey::F20 => Some(90),
        KeyboardKey::F21 => None,
        KeyboardKey::F22 => None,
        KeyboardKey::F23 => None,
        KeyboardKey::F24 => None,
        KeyboardKey::VolumeMute => Some(74),
        KeyboardKey::VolumeDown => Some(73),
        KeyboardKey::VolumeUp => Some(72),
        KeyboardKey::MediaPrevious => None,
        KeyboardKey::MediaNext => None,
        KeyboardKey::MediaPlayPause => None,
        KeyboardKey::MediaStop => None,
        KeyboardKey::IntlBackslash => Some(10),
    }
}

/// The virtual key code of a key on macOS.
pub fn macos_key_code(key: KeyboardKey) -> (out: Option<u16>)
    ensures
        out == macos_code(key),
{
    match key {
        KeyboardKey::Escape => Some(53),
        KeyboardKey::Tab => Some(48),
        KeyboardKey::Backspace => Some(51),
        KeyboardKey::Enter => Some(36),
        KeyboardKey::Space => Some(49),
        KeyboardKey::Insert => Some(114),
        KeyboardKey::Delete => Some(117),
        KeyboardKey::Home => Some(115),
        KeyboardKey::End => Some(119),
        KeyboardKey::PageUp => Some(116),
        KeyboardKey::PageDown => Some(121),
        KeyboardKey::ArrowUp => Some(126),
        KeyboardKey::ArrowDown => Some(125),
        KeyboardKey::ArrowLeft => Some(123),
        KeyboardKey::ArrowRight => Some(124),
        KeyboardKey::Minus => Some(27),
        KeyboardKey::Equals => Some(24),
        KeyboardKey::OpenBracket => Some(33),
        KeyboardKey::CloseBracket => Some(30),
        KeyboardKey::Backslash => Some(42),
        KeyboardKey::Semicolon => Some(41),
        KeyboardKey::Quote => Some(39),
        KeyboardKey::Backtick => Some(50),
        KeyboardKey::Comma => Some(43),
        KeyboardKey::Period => Some(47),
        KeyboardKey::Slash => Some(44),
        KeyboardKey::Num0 => Some(29),
        KeyboardKey::Num1 => Some(18),
        KeyboardKey::Num2 => Some(19),
        KeyboardKey::Num3 => Some(20),
        KeyboardKey::Num4 => Some(21),
        KeyboardKey::Num5 => Some(23),
        KeyboardKey::Num6 => Some(22),
        KeyboardKey::Num7 => Some(26),
        KeyboardKey::Num8 => Some(28),
        KeyboardKey::Num9 => Some(25),
        KeyboardKey::A => Some(0),
        KeyboardKey::B => Some(11),
        KeyboardKey::C => Some(8),
        KeyboardKey::D => Some(2),
        KeyboardKey::E => Some(14),
        KeyboardKey::F => Some(3),
        KeyboardKey::G => Some(5),
        KeyboardKey::H => Some(4),
        KeyboardKey::I => Some(34),
        KeyboardKey::J => Some(38),
        KeyboardKey::K => Some(40),
        KeyboardKey::L => Some(37),
        KeyboardKey::M => Some(46),
        KeyboardKey::N => Some(45),
        KeyboardKey::O => Some(31),
        KeyboardKey::P => Some(35),
        KeyboardKey::Q => Some(12),
        KeyboardKey::R => Some(15),
        KeyboardKey::S => Some(1),
        KeyboardKey::T => Some(17),
        KeyboardKey::U => Some(32),
        KeyboardKey::V => Some(9),
        KeyboardKey::W => Some(13),
        KeyboardKey::X => Some(7),
        KeyboardKey::Y => Some(16),
        KeyboardKey::Z => Some(6),
        KeyboardKey::F1 => Some(122),
        KeyboardKey::F2 => Some(120),
        KeyboardKey::F3 => Some(99),
        KeyboardKey::F4 => Some(118),
        KeyboardKey::F5 => Some(96),
        KeyboardKey::F6 => Some(97),
        KeyboardKey::F7 => Some(98),
        KeyboardKey::F8 => Some(100),
        KeyboardKey::F9 => Some(101),
        KeyboardKey::F10 => Some(109),
        KeyboardKey::F11 => Some(103),
        KeyboardKey::F12 => Some(111),
        KeyboardKey::LeftShift => Some(56),
        KeyboardKey::LeftCtrl => Some(59),
        KeyboardKey::LeftAlt => Some(58),
        KeyboardKey::LeftMeta => Some(55),
        KeyboardKey::RightShift => Some(60),
        KeyboardKey::RightCtrl => Some(62),
        KeyboardKey::RightAlt => Some(61),
        KeyboardKey::RightMeta => Some(54),
        KeyboardKey::CapsLock => Some(57),
        KeyboardKey::NumLock => None,
        KeyboardKey::ScrollLock => None,
        KeyboardKey::PrintScreen => None,
        KeyboardKey::Pause => None,
        KeyboardKey::Application => Some(110),
        KeyboardKey::Numpad0 => Some(82),
        KeyboardKey::Numpad1 => Some(83),
        KeyboardKey::Numpad2 => Some(84),
        KeyboardKey::Numpad3 => Some(85),
        KeyboardKey::Numpad4 => Some(86),
        KeyboardKey::Numpad5 => Some(87),
        KeyboardKey::Numpad6 => Some(88),
        KeyboardKey::Numpad7 => Some(89),
        KeyboardKey::Numpad8 => Some(91),
        KeyboardKey::Numpad9 => Some(92),
        KeyboardKey::NumpadDecimal => Some(65),
        KeyboardKey::NumpadDivide => Some(75),
        KeyboardKey::NumpadMultiply => Some(67),
        KeyboardKey::NumpadSubtract => Some(78),
        KeyboardKey::NumpadAdd => Some(69),
        KeyboardKey::NumpadEnter => Some(76),
        KeyboardKey::NumpadEquals => Some(81),
        KeyboardKey::NumpadComma => Some(95),
        KeyboardKey::F13 => Some(105),
        KeyboardKey::F14 => Some(107),
        KeyboardKey::F15 => Some(113),
        KeyboardKey::F16 => Some(106),
        KeyboardKey::F17 => Some(64),
        KeyboardKey::F18 => Some(79),
        KeyboardKey::F19 => Some(80),
        KeyboardKey::F20 => Some(90),
        KeyboardKey::F21 => None,
        KeyboardKey::F22 => None,
        KeyboardKey::F23 => None,
        KeyboardKey::F24 => None,
        KeyboardKey::VolumeMute => Some(74),
        KeyboardKey::VolumeDown => Some(73),
        KeyboardKey::VolumeUp => Some(72),
        KeyboardKey::MediaPrevious => None,
        KeyboardKey::MediaNext => None,
        KeyboardKey::MediaPlayPause => None,
        KeyboardKey::MediaStop => None,
        KeyboardKey::IntlBackslash => Some(10),
    }
}

/// The name of a key for X11, where it has one that stands for this key alone.
pub open spec fn x11_name(key: KeyboardKey) -> Option<Seq<char>> {
    match key {
        KeyboardKey::Escape => Some("Escape"@),
        KeyboardKey::Tab => Some("Tab"@),
        KeyboardKey::Backspace => Some("BackSpace"@),
        KeyboardKey::Enter => Some("Return"@),
        KeyboardKey::Space => Some("space"@),
        KeyboardKey::Insert => Some("Insert"@),
        KeyboardKey::Delete => Some("Delete"@),
        KeyboardKey::Home => Some("Home"@),
        KeyboardKey::End => Some("End"@),
        KeyboardKey::PageUp => Some("Page_Up"@),
        KeyboardKey::PageDown => Some("Page_Down"@),
        KeyboardKey::ArrowUp => Some("Up"@),
        KeyboardKey::ArrowDown => Some("Down"@),
        KeyboardKey::ArrowLeft => Some("Left"@),
        KeyboardKey::ArrowRight => Some("Right"@),
        KeyboardKey::Minus => Some("minus"@),
        KeyboardKey::Equals => Some("equal"@),
        KeyboardKey::OpenBracket => Some("bracketleft"@),
        KeyboardKey::CloseBracket => Some("bracketright"@),
        KeyboardKey::Backslash => Some("backslash"@),
        KeyboardKey::Semicolon => Some("semicolon"@),
        KeyboardKey::Quote => Some("apostrophe"@),
        KeyboardKey::Backtick => Some("grave"@),
        KeyboardKey::Comma => Some("comma"@),
        KeyboardKey::Period => Some("period"@),
        KeyboardKey::Slash => Some("slash"@),
        KeyboardKey::Num0 => Some("0"@),
        KeyboardKey::Num1 => Some("1"@),
        KeyboardKey::Num2 => Some("2"@),
        KeyboardKey::Num3 => Some("3"@),
        KeyboardKey::Num4 => Some("4"@),
        KeyboardKey::Num5 => Some("5"@),
        KeyboardKey::Num6 => Some("6"@),
        KeyboardKey::Num7 => Some("7"@),
        KeyboardKey::Num8 => Some("8"@),
        KeyboardKey::Num9 => Some("9"@),
        KeyboardKey::A => Some("a"@),
        KeyboardKey::B => Some("b"@),
        KeyboardKey::C => Some("c"@),
        KeyboardKey::D => Some("d"@),
        KeyboardKey::E => Some("e"@),
        KeyboardKey::F => Some("f"@),
        KeyboardKey::G => Some("g"@),
        KeyboardKey::H => Some("h"@),
        KeyboardKey::I => Some("i"@),
        KeyboardKey::J => Some("j"@),
        KeyboardKey::K => Some("k"@),
        KeyboardKey::L => Some("l"@),
        KeyboardKey::M => Some("m"@),
        KeyboardKey::N => Some("n"@),
        KeyboardKey::O => Some("o"@),
        KeyboardKey::P => Some("p"@),
        KeyboardKey::Q => Some("q"@),
        KeyboardKey::R => Some("r"@),
        KeyboardKey::S => Some("s"@),
        KeyboardKey::T => Some("t"@),
        KeyboardKey::U => Some("u"@),
        KeyboardKey::V => Some("v"@),
        KeyboardKey::W => Some("w"@),
        KeyboardKey::X => Some("x"@),
        KeyboardKey::Y => Some("y"@),
        KeyboardKey::Z => Some("z"@),
        KeyboardKey::F1 => Some("F1"@),
        KeyboardKey::F2 => Some("F2"@),
        KeyboardKey::F3 => Some("F3"@),
        KeyboardKey::F4 => Some("F4"@),
        KeyboardKey::F5 => Some("F5"@),
        KeyboardKey::F6 => Some("F6"@),
        KeyboardKey::F7 => Some("F7"@),
        KeyboardKey::F8 => Some("F8"@),
        KeyboardKey::F9 => Some("F9"@),
        KeyboardKey::F10 => Some("F10"@),
        KeyboardKey::F11 => Some("F11"@),
        KeyboardKey::F12 => Some("F12"@),
        KeyboardKey::LeftShift => Some("Shift_L"@),
        KeyboardKey::LeftCtrl => Some("Control_L"@),
        KeyboardKey::LeftAlt => Some("Alt_L"@),
        KeyboardKey::LeftMeta => Some("Super_L"@),
        KeyboardKey::RightShift => Some("Shift_R"@),
        KeyboardKey::RightCtrl => Some("Control_R"@),
        KeyboardKey::RightAlt => Some("Alt_R"@),
        KeyboardKey::RightMeta => Some("Super_R"@),
        KeyboardKey::CapsLock => Some("Caps_Lock"@),
        KeyboardKey::NumLock => Some("Num_Lock"@),
        KeyboardKey::ScrollLock => Some("Scroll_Lock"@),
        KeyboardKey::PrintScreen => Some("Print"@),
        KeyboardKey::Pause => Some("Pause"@),
        KeyboardKey::Application => Some("Menu"@),
        KeyboardKey::Numpad0 => Some("KP_0"@),
        KeyboardKey::Numpad1 => Some("KP_1"@),
        KeyboardKey::Numpad2 => Some("KP_2"@),
        KeyboardKey::Numpad3 => Some("KP_3"@),
        KeyboardKey::Numpad4 => Some("KP_4"@),
        KeyboardKey::Numpad5 => Some("KP_5"@),
        KeyboardKey::Numpad6 => Some("KP_6"@),
        KeyboardKey::Numpad7 => Some("KP_7"@),
        KeyboardKey::Numpad8 => Some("KP_8"@),
        KeyboardKey::Numpad9 => Some("KP_9"@),
        KeyboardKey::NumpadDecimal => Some("KP_Decimal"@),
        KeyboardKey::NumpadDivide => Some("KP_Divide"@),
        KeyboardKey::NumpadMultiply => Some("KP_Multiply"@),
        KeyboardKey::NumpadSubtract => Some("KP_Subtract"@),
        KeyboardKey::NumpadAdd => Some("KP_Add"@),
        KeyboardKey::NumpadEnter => Some("KP_Enter"@),
        KeyboardKey::NumpadEquals => Some("KP_Equal"@),
        KeyboardKey::NumpadComma => Some("KP_Separator"@),
        KeyboardKey::F13 => Some("F13"@),
        KeyboardKey::F14 => Some("F14"@),
        KeyboardKey::F15 => Some("F15"@),
        KeyboardKey::F16 => Some("F16"@),
        KeyboardKey::F17 => Some("F17"@),
        KeyboardKey::F18 => Some("F18"@),
        KeyboardKey::F19 => Some("F19"@),
        KeyboardKey::F20 => Some("F20"@),
        KeyboardKey::F21 => Some("F21"@),
        KeyboardKey::F22 => Some("F22"@),
        KeyboardKey::F23 => Some("F23"@),
        KeyboardKey::F24 => Some("F24"@),
        KeyboardKey::VolumeMute => Some("XF86AudioMute"@),
        KeyboardKey::VolumeDown => Some("XF86AudioLowerVolume"@),
        KeyboardKey::VolumeUp => Some("XF86AudioRaiseVolume"@),
        KeyboardKey::MediaPrevious => Some("XF86AudioPrev"@),
        KeyboardKey::MediaNext => Some("XF86AudioNext"@),
        KeyboardKey::MediaPlayPause => Some("XF86AudioPlay"@),
        KeyboardKey::MediaStop => Some("XF86AudioStop"@),
        KeyboardKey::IntlBackslash => None,
    }
}

/// The name of a key for X11, where it has one that stands for this key alone.
pub fn x11_key_name(key: KeyboardKey) -> (out: Option<&'static str>)
    ensures
        match out {
            Some(name) => x11_name(key) == Some(name@),
            None => x11_name(key) is None,
        },
{
    match key {
        KeyboardKey::Escape => Some("Escape"),
        KeyboardKey::Tab => Some("Tab"),
        KeyboardKey::Backspace => Some("BackSpace"),
        KeyboardKey::Enter => Some("Return"),
        KeyboardKey::Space => Some("space"),
        KeyboardKey::Insert => Some("Insert"),
        KeyboardKey::Delete => Some("Delete"),
        KeyboardKey::Home => Some("Home"),
        KeyboardKey::End => Some("End"),
        KeyboardKey::PageUp => Some("Page_Up"),
        KeyboardKey::PageDown => Some("Page_Down"),
        KeyboardKey::ArrowUp => Some("Up"),
        KeyboardKey::ArrowDown => Some("Down"),
        KeyboardKey::ArrowLeft => Some("Left"),
        KeyboardKey::ArrowRight => Some("Right"),
        KeyboardKey::Minus => Some("minus"),
        KeyboardKey::Equals => Some("equal"),
        KeyboardKey::OpenBracket => Some("bracketleft"),
        KeyboardKey::CloseBracket => Some("bracketright"),
        KeyboardKey::Backslash => Some("backslash"),
        KeyboardKey::Semicolon => Some("semicolon"),
        KeyboardKey::Quote => Some("apostrophe"),
        KeyboardKey::Backtick => Some("grave"),
        KeyboardKey::Comma => Some("comma"),
        KeyboardKey::Period => Some("period"),
        KeyboardKey::Slash => Some("slash"),
        KeyboardKey::Num0 => Some("0"),
        KeyboardKey::Num1 => Some("1"),
        KeyboardKey::Num2 => Some("2"),
        KeyboardKey::Num3 => Some("3"),
        KeyboardKey::Num4 => Some("4"),
        KeyboardKey::Num5 => Some("5"),
        KeyboardKey::Num6 => Some("6"),
        KeyboardKey::Num7 => Some("7"),
        KeyboardKey::Num8 => Some("8"),
        KeyboardKey::Num9 => Some("9"),
        KeyboardKey::A => Some("a"),
        KeyboardKey::B => Some("b"),
        KeyboardKey::C => Some("c"),
        KeyboardKey::D => Some("d"),
        KeyboardKey::E => Some("e"),
        KeyboardKey::F => Some("f"),
        KeyboardKey::G => Some("g"),
        KeyboardKey::H => Some("h"),
        KeyboardKey::I => Some("i"),
        KeyboardKey::J => Some("j"),
        KeyboardKey::K => Some("k"),
        KeyboardKey::L => Some("l"),
        KeyboardKey::M => Some("m"),
        KeyboardKey::N => Some("n"),
        KeyboardKey::O => Some("o"),
        KeyboardKey::P => Some("p"),
        KeyboardKey::Q => Some("q"),
        KeyboardKey::R => Some("r"),
        KeyboardKey::S => Some("s"),
        KeyboardKey::T => Some("t"),
        KeyboardKey::U => Some("u"),
        KeyboardKey::V => Some("v"),
        KeyboardKey::W => Some("w"),
        KeyboardKey::X => Some("x"),
        KeyboardKey::Y => Some("y"),
        KeyboardKey::Z => Some("z"),
        KeyboardKey::F1 => Some("F1"),
        KeyboardKey::F2 => Some("F2"),
        KeyboardKey::F3 => Some("F3"),
        KeyboardKey::F4 => Some("F4"),
        KeyboardKey::F5 => Some("F5"),
        KeyboardKey::F6 => Some("F6"),
        KeyboardKey::F7 => Some("F7"),
        KeyboardKey::F8 => Some("F8"),
        KeyboardKey::F9 => Some("F9"),
        KeyboardKey::F10 => Some("F10"),
        KeyboardKey::F11 => Some("F11"),
        KeyboardKey::F12 => Some("F12"),
        KeyboardKey::LeftShift => Some("Shift_L"),
        KeyboardKey::LeftCtrl => Some("Control_L"),
        KeyboardKey::LeftAlt => Some("Alt_L"),
        KeyboardKey::LeftMeta => Some("Super_L"),
        KeyboardKey::RightShift => Some("Shift_R"),
        KeyboardKey::RightCtrl => Some("Control_R"),
        KeyboardKey::RightAlt => Some("Alt_R"),
        KeyboardKey::RightMeta => Some("Super_R"),
        KeyboardKey::CapsLock => Some("Caps_Lock"),
        KeyboardKey::NumLock => Some("Num_Lock"),
        KeyboardKey::ScrollLock => Some("Scroll_Lock"),
        KeyboardKey::PrintScreen => Some("Print"),
        KeyboardKey::Pause => Some("Pause"),
        KeyboardKey::Application => Some("Menu"),
        KeyboardKey::Numpad0 => Some("KP_0"),
        KeyboardKey::Numpad1 => Some("KP_1"),
        KeyboardKey::Numpad2 => Some("KP_2"),
        KeyboardKey::Numpad3 => Some("KP_3"),
        KeyboardKey::Numpad4 => Some("KP_4"),
        KeyboardKey::Numpad5 => Some("KP_5"),
        KeyboardKey::Numpad6 => Some("KP_6"),
        KeyboardKey::Numpad7 => Some("KP_7"),
        KeyboardKey::Numpad8 => Some("KP_8"),
        KeyboardKey::Numpad9 => Some("KP_9"),
        KeyboardKey::NumpadDecimal => Some("KP_Decimal"),
        KeyboardKey::NumpadDivide => Some("KP_Divide"),
        KeyboardKey::NumpadMultiply => Some("KP_Multiply"),
        KeyboardKey::NumpadSubtract => Some("KP_Subtract"),
        KeyboardKey::NumpadAdd => Some("KP_Add"),
        KeyboardKey::NumpadEnter => Some("KP_Enter"),
        KeyboardKey::NumpadEquals => Some("KP_Equal"),
        KeyboardKey::NumpadComma => Some("KP_Separator"),
        KeyboardKey::F13 => Some("F13"),
        KeyboardKey::F14 => Some("F14"),
        KeyboardKey::F15 => Some("F15"),
        KeyboardKey::F16 => Some("F16"),
        KeyboardKey::F17 => Some("F17"),
        KeyboardKey::F18 => Some("F18"),
        KeyboardKey::F19 => Some("F19"),
        KeyboardKey::F20 => Some("F20"),
        KeyboardKey::F21 => Some("F21"),
        KeyboardKey::F22 => Some("F22"),
        KeyboardKey::F23 => Some("F23"),
        KeyboardKey::F24 => Some("F24"),
        KeyboardKey::VolumeMute => Some("XF86AudioMute"),
        KeyboardKey::VolumeDown => Some("XF86AudioLowerVolume"),
        KeyboardKey::VolumeUp => Some("XF86AudioRaiseVolume"),
        KeyboardKey::MediaPrevious => Some("XF86AudioPrev"),
        KeyboardKey::MediaNext => Some("XF86AudioNext"),
        KeyboardKey::MediaPlayPause => Some("XF86AudioPlay"),
        KeyboardKey::MediaStop => Some("XF86AudioStop"),
        KeyboardKey::IntlBackslash => None,
    }
}

/// Every key has a Linux code, and no two have the same: a key keeps its identity.
pub proof fn linux_codes_tell_keys_apart(a: KeyboardKey, b: KeyboardKey)
    ensures
        linux_code(a) is Some,
        linux_code(a) == linux_code(b) ==> a == b,
{
}

/// Every key is known on Windows, by a virtual key or by a scan code, and no two by the
/// same.
pub proof fn windows_codes_tell_keys_apart(a: KeyboardKey, b: KeyboardKey)
    ensures
        windows_virtual(a) is Some != windows_scan(a) is Some,
        windows_virtual(a) == windows_virtual(b) && windows_scan(a) == windows_scan(b) ==> a == b,
{
}

/// A key that macOS knows has a code of its own.
pub proof fn macos_codes_tell_keys_apart(a: KeyboardKey, b: KeyboardKey)
    requires
        macos_code(a) is Some,
    ensures
        macos_code(a) == macos_code(b) ==> a == b,
{
}

} // verus!
