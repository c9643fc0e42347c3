//! That the names of keys for X11 tell them apart.

use vstd::prelude::*;
use crate::keys::{x11_name, KeyboardKey};

verus! {

/// The length of a name and its first, middle and last characters.
spec fn mark(name: Seq<char>) -> (nat, char, char, char) {
    (name.len(), name[0], name[name.len() as int / 2], name.last())
}

/// The mark of a key's name, for each key that has one.
spec fn key_mark(key: KeyboardKey) -> (nat, char, char, char) {
    match key {
        KeyboardKey::Escape => (6, 'E', 'a', 'e'),
        KeyboardKey::Tab => (3, 'T', 'a', 'b'),
        KeyboardKey::Backspace => (9, 'B', 'S', 'e'),
        KeyboardKey::Enter => (6, 'R', 'u', 'n'),
        KeyboardKey::Space => (5, 's', 'a', 'e'),
        KeyboardKey::Insert => (6, 'I', 'e', 't'),
        KeyboardKey::Delete => (6, 'D', 'e', 'e'),
        KeyboardKey::Home => (4, 'H', 'm', 'e'),
        KeyboardKey::End => (3, 'E', 'n', 'd'),
        KeyboardKey::PageUp => (7, 'P', 'e', 'p'),
        KeyboardKey::PageDown => (9, 'P', '_', 'n'),
        KeyboardKey::ArrowUp => (2, 'U', 'p', 'p'),
        KeyboardKey::ArrowDown => (4, 'D', 'w', 'n'),
        KeyboardKey::ArrowLeft => (4, 'L', 'f', 't'),
        KeyboardKey::ArrowRight => (5, 'R', 'g', 't'),
        KeyboardKey::Minus => (5, 'm', 'n', 's'),
        KeyboardKey::Equals => (5, 'e', 'u', 'l'),
        KeyboardKey::OpenBracket => (11, 'b', 'e', 't'),
        KeyboardKey::CloseBracket => (12, 'b', 't', 't'),
        KeyboardKey::Backslash => (9, 'b', 's', 'h'),
        KeyboardKey::Semicolon => (9, 's', 'c', 'n'),
        KeyboardKey::Quote => (10, 'a', 'r', 'e'),
        KeyboardKey::Backtick => (5, 'g', 'a', 'e'),
        KeyboardKey::Comma => (5, 'c', 'm', 'a'),
        KeyboardKey::Period => (6, 'p', 'i', 'd'),
        KeyboardKey::Slash => (5, 's', 'a', 'h'),
        KeyboardKey::Num0 => (1, '0', '0', '0'),
        KeyboardKey::Num1 => (1, '1', '1', '1'),
        KeyboardKey::Num2 => (1, '2', '2', '2'),
        KeyboardKey::Num3 => (1, '3', '3', '3'),
        KeyboardKey::Num4 => (1, '4', '4', '4'),
        KeyboardKey::Num5 => (1, '5', '5', '5'),
        KeyboardKey::Num6 => (1, '6', '6', '6'),
        KeyboardKey::Num7 => (1, '7', '7', '7'),
        KeyboardKey::Num8 => (1, '8', '8', '8'),
        KeyboardKey::Num9 => (1, '9', '9', '9'),
        KeyboardKey::A => (1, 'a', 'a', 'a'),
        KeyboardKey::B => (1, 'b', 'b', 'b'),
        KeyboardKey::C => (1, 'c', 'c', 'c'),
        KeyboardKey::D => (1, 'd', 'd', 'd'),
        KeyboardKey::E => (1, 'e', 'e', 'e'),
        KeyboardKey::F => (1, 'f', 'f', 'f'),
        KeyboardKey::G => (1, 'g', 'g', 'g'),
        KeyboardKey::H => (1, 'h', 'h', 'h'),
        KeyboardKey::I => (1, 'i', 'i', 'i'),
        KeyboardKey::J => (1, 'j', 'j', 'j'),
        KeyboardKey::K => (1, 'k', 'k', 'k'),
        KeyboardKey::L => (1, 'l', 'l', 'l'),
        KeyboardKey::M => (1, 'm', 'm', 'm'),
        KeyboardKey::N => (1, 'n', 'n', 'n'),
        KeyboardKey::O => (1, 'o', 'o', 'o'),
        KeyboardKey::P => (1, 'p', 'p', 'p'),
        KeyboardKey::Q => (1, 'q', 'q', 'q'),
        KeyboardKey::R => (1, 'r', 'r', 'r'),
        KeyboardKey::S => (1, 's', 's', 's'),
        KeyboardKey::T => (1, 't', 't', 't'),
        KeyboardKey::U => (1, 'u', 'u', 'u'),
        KeyboardKey::V => (1, 'v', 'v', 'v'),
        KeyboardKey::W => (1, 'w', 'w', 'w'),
        KeyboardKey::X => (1, 'x', 'x', 'x'),
        KeyboardKey::Y => (1, 'y', 'y', 'y'),
        KeyboardKey::Z => (1, 'z', 'z', 'z'),
        KeyboardKey::F1 => (2, 'F', '1', '1'),
        KeyboardKey::F2 => (2, 'F', '2', '2'),
        KeyboardKey::F3 => (2, 'F', '3', '3'),
        KeyboardKey::F4 => (2, 'F', '4', '4'),
        KeyboardKey::F5 => (2, 'F', '5', '5'),
        KeyboardKey::F6 => (2, 'F', '6', '6'),
        KeyboardKey::F7 => (2, 'F', '7', '7'),
        KeyboardKey::F8 => (2, 'F', '8', '8'),
        KeyboardKey::F9 => (2, 'F', '9', '9'),
        KeyboardKey::F10 => (3, 'F', '1', '0'),
        KeyboardKey::F11 => (3, 'F', '1', '1'),
        KeyboardKey::F12 => (3, 'F', '1', '2'),
        KeyboardKey::LeftShift => (7, 'S', 'f', 'L'),
        KeyboardKey::LeftCtrl => (9, 'C', 'r', 'L'),
        KeyboardKey::LeftAlt => (5, 'A', 't', 'L'),
        KeyboardKey::LeftMeta => (7, 'S', 'e', 'L'),
        KeyboardKey::RightShift => (7, 'S', 'f', 'R'),
        KeyboardKey::RightCtrl => (9, 'C', 'r', 'R'),
        KeyboardKey::RightAlt => (5, 'A', 't', 'R'),
        KeyboardKey::RightMeta => (7, 'S', 'e', 'R'),
        KeyboardKey::CapsLock => (9, 'C', '_', 'k'),
        KeyboardKey::NumLock => (8, 'N', 'L', 'k'),
        KeyboardKey::ScrollLock => (11, 'S', 'l', 'k'),
        KeyboardKey::PrintScreen => (5, 'P', 'i', 't'),
        KeyboardKey::Pause => (5, 'P', 'u', 'e'),
        KeyboardKey::Application => (4, 'M', 'n', 'u'),
        KeyboardKey::Numpad0 => (4, 'K', '_', '0'),
        KeyboardKey::Numpad1 => (4, 'K', '_', '1'),
        KeyboardKey::Numpad2 => (4, 'K', '_', '2'),
        KeyboardKey::Numpad3 => (4, 'K', '_', '3'),
        KeyboardKey::Numpad4 => (4, 'K', '_', '4'),
        KeyboardKey::Numpad5 => (4, 'K', '_', '5'),
        KeyboardKey::Numpad6 => (4, 'K', '_', '6'),
        KeyboardKey::Numpad7 => (4, 'K', '_', '7'),
        KeyboardKey::Numpad8 => (4, 'K', '_', '8'),
        KeyboardKey::Numpad9 => (4, 'K', '_', '9'),
        KeyboardKey::NumpadDecimal => (10, 'K', 'c', 'l'),
        KeyboardKey::NumpadDivide => (9, 'K', 'i', 'e'),
        KeyboardKey::NumpadMultiply => (11, 'K', 'l', 'y'),
        KeyboardKey::NumpadSubtract => (11, 'K', 'b', 't'),
        KeyboardKey::NumpadAdd => (6, 'K', 'A', 'd'),
        KeyboardKey::NumpadEnter => (8, 'K', 'n', 'r'),
        KeyboardKey::NumpadEquals => (8, 'K', 'q', 'l'),
        KeyboardKey::NumpadComma => (12, 'K', 'a', 'r'),
        KeyboardKey::F13 => (3, 'F', '1', '3'),
        KeyboardKey::F14 => (3, 'F', '1', '4'),
        KeyboardKey::F15 => (3, 'F', '1', '5'),
        KeyboardKey::F16 => (3, 'F', '1', '6'),
        KeyboardKey::F17 => (3, 'F', '1', '7'),
        KeyboardKey::F18 => (3, 'F', '1', '8'),
        KeyboardKey::F19 => (3, 'F', '1', '9'),
        KeyboardKey::F20 => (3, 'F', '2', '0'),
        KeyboardKey::F21 => (3, 'F', '2', '1'),
        KeyboardKey::F22 => (3, 'F', '2', '2'),
        KeyboardKey::F23 => (3, 'F', '2', '3'),
        KeyboardKey::F24 => (3, 'F', '2', '4'),
        KeyboardKey::VolumeMute => (13, 'X', 'd', 'e'),
        KeyboardKey::VolumeDown => (20, 'X', 'o', 'e'),
        KeyboardKey::VolumeUp => (20, 'X', 'a', 'e'),
        KeyboardKey::MediaPrevious => (13, 'X', 'd', 'v'),
        KeyboardKey::MediaNext => (13, 'X', 'd', 't'),
        KeyboardKey::MediaPlayPause => (13, 'X', 'd', 'y'),
        KeyboardKey::MediaStop => (13, 'X', 'd', 'p'),
        KeyboardKey::IntlBackslash => (0, ' ', ' ', ' '),
    }
}

proof fn lemma_marks(key: KeyboardKey)
    ensures
        x11_name(key) matches Some(name) ==> mark(name) == key_mark(key),
{
    match key {
        KeyboardKey::Escape => {
            reveal_strlit("Escape");
        },
        KeyboardKey::Tab => {
            reveal_strlit("Tab");
        },
        KeyboardKey::Backspace => {
            reveal_strlit("BackSpace");
        },
        KeyboardKey::Enter => {
            reveal_strlit("Return");
        },
        KeyboardKey::Space => {
            reveal_strlit("space");
        },
        KeyboardKey::Insert => {
            reveal_strlit("Insert");
        },
        KeyboardKey::Delete => {
            reveal_strlit("Delete");
        },
        KeyboardKey::Home => {
            reveal_strlit("Home");
        },
        KeyboardKey::End => {
            reveal_strlit("End");
        },
        KeyboardKey::PageUp => {
            reveal_strlit("Page_Up");
        },
        KeyboardKey::PageDown => {
            reveal_strlit("Page_Down");
        },
        KeyboardKey::ArrowUp => {
            reveal_strlit("Up");
        },
        KeyboardKey::ArrowDown => {
            reveal_strlit("Down");
        },
        KeyboardKey::ArrowLeft => {
            reveal_strlit("Left");
        },
        KeyboardKey::ArrowRight => {
            reveal_strlit("Right");
        },
        KeyboardKey::Minus => {
            reveal_strlit("minus");
        },
        KeyboardKey::Equals => {
            reveal_strlit("equal");
        },
        KeyboardKey::OpenBracket => {
            reveal_strlit("bracketleft");
        },
        KeyboardKey::CloseBracket => {
            reveal_strlit("bracketright");
        },
        KeyboardKey::Backslash => {
            reveal_strlit("backslash");
        },
        KeyboardKey::Semicolon => {
            reveal_strlit("semicolon");
        },
        KeyboardKey::Quote => {
            reveal_strlit("apostrophe");
        },
        KeyboardKey::Backtick => {
            reveal_strlit("grave");
        },
        KeyboardKey::Comma => {
            reveal_strlit("comma");
        },
        KeyboardKey::Period => {
            reveal_strlit("period");
        },
        KeyboardKey::Slash => {
            reveal_strlit("slash");
        },
        KeyboardKey::Num0 => {
            reveal_strlit("0");
        },
        KeyboardKey::Num1 => {
            reveal_strlit("1");
        },
        KeyboardKey::Num2 => {
            reveal_strlit("2");
        },
        KeyboardKey::Num3 => {
            reveal_strlit("3");
        },
        KeyboardKey::Num4 => {
            reveal_strlit("4");
        },
        KeyboardKey::Num5 => {
            reveal_strlit("5");
        },
        KeyboardKey::Num6 => {
            reveal_strlit("6");
        },
        KeyboardKey::Num7 => {
            reveal_strlit("7");
        },
        KeyboardKey::Num8 => {
            reveal_strlit("8");
        },
        KeyboardKey::Num9 => {
            reveal_strlit("9");
        },
        KeyboardKey::A => {
            reveal_strlit("a");
        },
        KeyboardKey::B => {
            reveal_strlit("b");
        },
        KeyboardKey::C => {
            reveal_strlit("c");
        },
        KeyboardKey::D => {
            reveal_strlit("d");
        },
        KeyboardKey::E => {
            reveal_strlit("e");
        },
        KeyboardKey::F => {
            reveal_strlit("f");
        },
        KeyboardKey::G => {
            reveal_strlit("g");
        },
        KeyboardKey::H => {
            reveal_strlit("h");
        },
        KeyboardKey::I => {
            reveal_strlit("i");
        },
        KeyboardKey::J => {
            reveal_strlit("j");
        },
        KeyboardKey::K => {
            reveal_strlit("k");
        },
        KeyboardKey::L => {
            reveal_strlit("l");
        },
        KeyboardKey::M => {
            reveal_strlit("m");
        },
        KeyboardKey::N => {
            reveal_strlit("n");
        },
        KeyboardKey::O => {
            reveal_strlit("o");
        },
        KeyboardKey::P => {
            reveal_strlit("p");
        },
        KeyboardKey::Q => {
            reveal_strlit("q");
        },
        KeyboardKey::R => {
            reveal_strlit("r");
        },
        KeyboardKey::S => {
            reveal_strlit("s");
        },
        KeyboardKey::T => {
            reveal_strlit("t");
        },
        KeyboardKey::U => {
            reveal_strlit("u");
        },
        KeyboardKey::V => {
            reveal_strlit("v");
        },
        KeyboardKey::W => {
            reveal_strlit("w");
        },
        KeyboardKey::X => {
            reveal_strlit("x");
        },
        KeyboardKey::Y => {
            reveal_strlit("y");
        },
        KeyboardKey::Z => {
            reveal_strlit("z");
        },
        KeyboardKey::F1 => {
            reveal_strlit("F1");
        },
        KeyboardKey::F2 => {
            reveal_strlit("F2");
        },
        KeyboardKey::F3 => {
            reveal_strlit("F3");
        },
        KeyboardKey::F4 => {
            reveal_strlit("F4");
        },
        KeyboardKey::F5 => {
            reveal_strlit("F5");
        },
        KeyboardKey::F6 => {
            reveal_strlit("F6");
        },
        KeyboardKey::F7 => {
            reveal_strlit("F7");
        },
        KeyboardKey::F8 => {
            reveal_strlit("F8");
        },
        KeyboardKey::F9 => {
            reveal_strlit("F9");
        },
        KeyboardKey::F10 => {
            reveal_strlit("F10");
        },
        KeyboardKey::F11 => {
            reveal_strlit("F11");
        },
        KeyboardKey::F12 => {
            reveal_strlit("F12");
        },
        KeyboardKey::LeftShift => {
            reveal_strlit("Shift_L");
        },
        KeyboardKey::LeftCtrl => {
            reveal_strlit("Control_L");
        },
        KeyboardKey::LeftAlt => {
            reveal_strlit("Alt_L");
        },
        KeyboardKey::LeftMeta => {
            reveal_strlit("Super_L");
        },
        KeyboardKey::RightShift => {
            reveal_strlit("Shift_R");
        },
        KeyboardKey::RightCtrl => {
            reveal_strlit("Control_R");
        },
        KeyboardKey::RightAlt => {
            reveal_strlit("Alt_R");
        },
        KeyboardKey::RightMeta => {
            reveal_strlit("Super_R");
        },
        KeyboardKey::CapsLock => {
            reveal_strlit("Caps_Lock");
        },
        KeyboardKey::NumLock => {
            reveal_strlit("Num_Lock");
        },
        KeyboardKey::ScrollLock => {
            reveal_strlit("Scroll_Lock");
        },
        KeyboardKey::PrintScreen => {
            reveal_strlit("Print");
        },
        KeyboardKey::Pause => {
            reveal_strlit("Pause");
        },
        KeyboardKey::Application => {
            reveal_strlit("Menu");
        },
        KeyboardKey::Numpad0 => {
            reveal_strlit("KP_0");
        },
        KeyboardKey::Numpad1 => {
            reveal_strlit("KP_1");
        },
        KeyboardKey::Numpad2 => {
            reveal_strlit("KP_2");
        },
        KeyboardKey::Numpad3 => {
            reveal_strlit("KP_3");
        },
        KeyboardKey::Numpad4 => {
            reveal_strlit("KP_4");
        },
        KeyboardKey::Numpad5 => {
            reveal_strlit("KP_5");
        },
        KeyboardKey::Numpad6 => {
            reveal_strlit("KP_6");
        },
        KeyboardKey::Numpad7 => {
            reveal_strlit("KP_7");
        },
        KeyboardKey::Numpad8 => {
            reveal_strlit("KP_8");
        },
        KeyboardKey::Numpad9 => {
            reveal_strlit("KP_9");
        },
        KeyboardKey::NumpadDecimal => {
            reveal_strlit("KP_Decimal");
        },
        KeyboardKey::NumpadDivide => {
            reveal_strlit("KP_Divide");
        },
        KeyboardKey::NumpadMultiply => {
            reveal_strlit("KP_Multiply");
        },
        KeyboardKey::NumpadSubtract => {
            reveal_strlit("KP_Subtract");
        },
        KeyboardKey::NumpadAdd => {
            reveal_strlit("KP_Add");
        },
        KeyboardKey::NumpadEnter => {
            reveal_strlit("KP_Enter");
        },
        KeyboardKey::NumpadEquals => {
            reveal_strlit("KP_Equal");
        },
        KeyboardKey::NumpadComma => {
            reveal_strlit("KP_Separator");
        },
        KeyboardKey::F13 => {
            reveal_strlit("F13");
        },
        KeyboardKey::F14 => {
            reveal_strlit("F14");
        },
        KeyboardKey::F15 => {
            reveal_strlit("F15");
        },
        KeyboardKey::F16 => {
            reveal_strlit("F16");
        },
        KeyboardKey::F17 => {
            reveal_strlit("F17");
        },
        KeyboardKey::F18 => {
            reveal_strlit("F18");
        },
        KeyboardKey::F19 => {
            reveal_strlit("F19");
        },
        KeyboardKey::F20 => {
            reveal_strlit("F20");
        },
        KeyboardKey::F21 => {
            reveal_strlit("F21");
        },
        KeyboardKey::F22 => {
            reveal_strlit("F22");
        },
        KeyboardKey::F23 => {
            reveal_strlit("F23");
        },
        KeyboardKey::F24 => {
            reveal_strlit("F24");
        },
        KeyboardKey::VolumeMute => {
            reveal_strlit("XF86AudioMute");
        },
        KeyboardKey::VolumeDown => {
            reveal_strlit("XF86AudioLowerVolume");
        },
        KeyboardKey::VolumeUp => {
            reveal_strlit("XF86AudioRaiseVolume");
        },
        KeyboardKey::MediaPrevious => {
            reveal_strlit("XF86AudioPrev");
        },
        KeyboardKey::MediaNext => {
            reveal_strlit("XF86AudioNext");
        },
        KeyboardKey::MediaPlayPause => {
            reveal_strlit("XF86AudioPlay");
        },
        KeyboardKey::MediaStop => {
            reveal_strlit("XF86AudioStop");
        },
        KeyboardKey::IntlBackslash => {},
    }
}

/// Every key but the one beside the left shift key has a name for X11, and no two have the
/// same: a key keeps its identity.
pub proof fn x11_names_tell_keys_apart(a: KeyboardKey, b: KeyboardKey)
    ensures
        x11_name(a) is None <==> a == KeyboardKey::IntlBackslash,
        x11_name(a) == x11_name(b) ==> a == b,
{
    lemma_marks(a);
    lemma_marks(b);
    if x11_name(a) == x11_name(b) {
        assert(key_mark(a) == key_mark(b));
    }
}

} // verus!
