use crate::input::{Buttons, Keys};
use vstd::prelude::*;

verus! {

/// X11 pointer button number of the left button.
pub const LEFT_MOUSE_BUTTON: u8 = 1;
/// X11 pointer button number of the middle button.
pub const MIDDLE_MOUSE_BUTTON: u8 = 2;
/// X11 pointer button number of the right button.
pub const RIGHT_MOUSE_BUTTON: u8 = 3;
/// X11 pointer button number of a wheel turn away from the user.
pub const SCROLL_WHEEL_UP: u8 = 4;
/// X11 pointer button number of a wheel turn towards the user.
pub const SCROLL_WHEEL_DOWN: u8 = 5;

/// The key an X11 keysym stands for; `KEYS_MAX_KEYS` for a keysym without one.
/// Letters map to the same key in either case.
pub open spec fn spec_translate_keycode(keysym: u32) -> Keys {
    match keysym {
        0xff08 => Keys::BACKSPACE,
        0xff0d => Keys::ENTER,
        0xff09 => Keys::TAB,
        0xff13 => Keys::PAUSE,
        0xffe5 => Keys::CAPITAL,
        0xff1b => Keys::ESCAPE,
        0xff7e => Keys::MODECHANGE,
        0x0020 => Keys::SPACE,
        0xff55 => Keys::PRIOR,
        0xff56 => Keys::NEXT,
        0xff57 => Keys::END,
        0xff50 => Keys::HOME,
        0xff51 => Keys::LEFT,
        0xff52 => Keys::UP,
        0xff53 => Keys::RIGHT,
        0xff54 => Keys::DOWN,
        0xff60 => Keys::SELECT,
        0xff61 => Keys::PRINT,
        0xff62 => Keys::EXECUTE,
        0xff63 => Keys::INSERT,
        0xffff => Keys::DELETE,
        0xff6a => Keys::HELP,
        0xffe7 => Keys::LWIN,
        0xffe8 => Keys::RWIN,
        0xffb0 => Keys::NUMPAD0,
        0xffb1 => Keys::NUMPAD1,
        0xffb2 => Keys::NUMPAD2,
        0xffb3 => Keys::NUMPAD3,
        0xffb4 => Keys::NUMPAD4,
        0xffb5 => Keys::NUMPAD5,
        0xffb6 => Keys::NUMPAD6,
        0xffb7 => Keys::NUMPAD7,
        0xffb8 => Keys::NUMPAD8,
        0xffb9 => Keys::NUMPAD9,
        0x00d7 => Keys::MULTIPLY,
        0xffab => Keys::ADD,
        0xffac => Keys::SEPARATOR,
        0xffad => Keys::SUBTRACT,
        0xffae => Keys::DECIMAL,
        0xffaf => Keys::DIVIDE,
        0xffbe => Keys::F1,
        0xffbf => Keys::F2,
        0xffc0 => Keys::F3,
        0xffc1 => Keys::F4,
        0xffc2 => Keys::F5,
        0xffc3 => Keys::F6,
        0xffc4 => Keys::F7,
        0xffc5 => Keys::F8,
        0xffc6 => Keys::F9,
        0xffc7 => Keys::F10,
        0xffc8 => Keys::F11,
        0xffc9 => Keys::F12,
        0xffca => Keys::F13,
        0xffcb => Keys::F14,
        0xffcc => Keys::F15,
        0xffcd => Keys::F16,
        0xffce => Keys::F17,
        0xffcf => Keys::F18,
        0xffd0 => Keys::F19,
        0xffd1 => Keys::F20,
        0xffd2 => Keys::F21,
        0xffd3 => Keys::F22,
        0xffd4 => Keys::F23,
        0xffd5 => Keys::F24,
        0xff7f => Keys::NUMLOCK,
        0xff14 => Keys::SCROLL,
        0xffbd => Keys::NUMPAD_EQUAL,
        0xffe1 => Keys::LSHIFT,
        0xffe2 => Keys::RSHIFT,
        0xffe3 => Keys::LCONTROL,
        0xffe4 => Keys::RCONTROL,
        0xff67 => Keys::RMENU,
        0x003b => Keys::SEMICOLON,
        0x002b => Keys::PLUS,
        0x002c => Keys::COMMA,
        0x002d => Keys::MINUS,
        0x002e => Keys::PERIOD,
        0x002f => Keys::SLASH,
        0x0060 => Keys::GRAVE,
        0x0061 | 0x0041 => Keys::A,
        0x0062 | 0x0042 => Keys::B,
        0x0063 | 0x0043 => Keys::C,
        0x0064 | 0x0044 => Keys::D,
        0x0065 | 0x0045 => Keys::E,
        0x0066 | 0x0046 => Keys::F,
        0x0067 | 0x0047 => Keys::G,
        0x0068 | 0x0048 => Keys::H,
        0x0069 | 0x0049 => Keys::I,
        0x006a | 0x004a => Keys::J,
        0x006b | 0x004b => Keys::K,
        0x006c | 0x004c => Keys::L,
        0x006d | 0x004d => Keys::M,
        0x006e | 0x004e => Keys::N,
        0x006f | 0x004f => Keys::O,
        0x0070 | 0x0050 => Keys::P,
        0x0071 | 0x0051 => Keys::Q,
        0x0072 | 0x0052 => Keys::R,
        0x0073 | 0x0053 => Keys::S,
        0x0074 | 0x0054 => Keys::T,
        0x0075 | 0x0055 => Keys::U,
        0x0076 | 0x0056 => Keys::V,
        0x0077 | 0x0057 => Keys::W,
        0x0078 | 0x0058 => Keys::X,
        0x0079 | 0x0059 => Keys::Y,
        0x007a | 0x005a => Keys::Z,
        _ => Keys::KEYS_MAX_KEYS,
    }
}

/// The key an X11 keysym stands for; `KEYS_MAX_KEYS` for a keysym without one.
pub fn translate_keycode(keysym: u32) -> (r: Keys)
    ensures
        r == spec_translate_keycode(keysym),
{
    match keysym {
        0xff08 => Keys::BACKSPACE,
        0xff0d => Keys::ENTER,
        0xff09 => Keys::TAB,
        0xff13 => Keys::PAUSE,
        0xffe5 => Keys::CAPITAL,
        0xff1b => Keys::ESCAPE,
        0xff7e => Keys::MODECHANGE,
        0x0020 => Keys::SPACE,
        0xff55 => Keys::PRIOR,
        0xff56 => Keys::NEXT,
        0xff57 => Keys::END,
        0xff50 => Keys::HOME,
        0xff51 => Keys::LEFT,
        0xff52 => Keys::UP,
        0xff53 => Keys::RIGHT,
        0xff54 => Keys::DOWN,
        0xff60 => Keys::SELECT,
        0xff61 => Keys::PRINT,
        0xff62 => Keys::EXECUTE,
        0xff63 => Keys::INSERT,
        0xffff => Keys::DELETE,
        0xff6a => Keys::HELP,
        0xffe7 => Keys::LWIN,
        0xffe8 => Keys::RWIN,
        0xffb0 => Keys::NUMPAD0,
        0xffb1 => Keys::NUMPAD1,
        0xffb2 => Keys::NUMPAD2,
        0xffb3 => Keys::NUMPAD3,
        0xffb4 => Keys::NUMPAD4,
        0xffb5 => Keys::NUMPAD5,
        0xffb6 => Keys::NUMPAD6,
        0xffb7 => Keys::NUMPAD7,
        0xffb8 => Keys::NUMPAD8,
        0xffb9 => Keys::NUMPAD9,
        0x00d7 => Keys::MULTIPLY,
        0xffab => Keys::ADD,
        0xffac => Keys::SEPARATOR,
        0xffad => Keys::SUBTRACT,
        0xffae => Keys::DECIMAL,
        0xffaf => Keys::DIVIDE,
        0xffbe => Keys::F1,
        0xffbf => Keys::F2,
        0xffc0 => Keys::F3,
        0xffc1 => Keys::F4,
        0xffc2 => Keys::F5,
        0xffc3 => Keys::F6,
        0xffc4 => Keys::F7,
        0xffc5 => Keys::F8,
        0xffc6 => Keys::F9,
        0xffc7 => Keys::F10,
        0xffc8 => Keys::F11,
        0xffc9 => Keys::F12,
        0xffca => Keys::F13,
        0xffcb => Keys::F14,
        0xffcc => Keys::F15,
        0xffcd => Keys::F16,
        0xffce => Keys::F17,
        0xffcf => Keys::F18,
        0xffd0 => Keys::F19,
        0xffd1 => Keys::F20,
        0xffd2 => Keys::F21,
        0xffd3 => Keys::F22,
        0xffd4 => Keys::F23,
        0xffd5 => Keys::F24,
        0xff7f => Keys::NUMLOCK,
        0xff14 => Keys::SCROLL,
        0xffbd => Keys::NUMPAD_EQUAL,
        0xffe1 => Keys::LSHIFT,
        0xffe2 => Keys::RSHIFT,
        0xffe3 => Keys::LCONTROL,
        0xffe4 => Keys::RCONTROL,
        0xff67 => Keys::RMENU,
        0x003b => Keys::SEMICOLON,
        0x002b => Keys::PLUS,
        0x002c => Keys::COMMA,
        0x002d => Keys::MINUS,
        0x002e => Keys::PERIOD,
        0x002f => Keys::SLASH,
        0x0060 => Keys::GRAVE,
        0x0061 | 0x0041 => Keys::A,
        0x0062 | 0x0042 => Keys::B,
        0x0063 | 0x0043 => Keys::C,
        0x0064 | 0x0044 => Keys::D,
        0x0065 | 0x0045 => Keys::E,
        0x0066 | 0x0046 => Keys::F,
        0x0067 | 0x0047 => Keys::G,
        0x0068 | 0x0048 => Keys::H,
        0x0069 | 0x0049 => Keys::I,
        0x006a | 0x004a => Keys::J,
        0x006b | 0x004b => Keys::K,
        0x006c | 0x004c => Keys::L,
        0x006d | 0x004d => Keys::M,
        0x006e | 0x004e => Keys::N,
        0x006f | 0x004f => Keys::O,
        0x0070 | 0x0050 => Keys::P,
        0x0071 | 0x0051 => Keys::Q,
        0x0072 | 0x0052 => Keys::R,
        0x0073 | 0x0053 => Keys::S,
        0x0074 | 0x0054 => Keys::T,
        0x0075 | 0x0055 => Keys::U,
        0x0076 | 0x0056 => Keys::V,
        0x0077 | 0x0057 => Keys::W,
        0x0078 | 0x0058 => Keys::X,
        0x0079 | 0x0059 => Keys::Y,
        0x007a | 0x005a => Keys::Z,
        _ => Keys::KEYS_MAX_KEYS,
    }
}

/// The button an X11 pointer button number stands for, if any.
pub open spec fn spec_translate_button(detail: u8) -> Option<Buttons> {
    if detail == LEFT_MOUSE_BUTTON {
        Some(Buttons::BUTTON_LEFT)
    } else if detail == MIDDLE_MOUSE_BUTTON {
        Some(Buttons::BUTTON_MIDDLE)
    } else if detail == RIGHT_MOUSE_BUTTON {
        Some(Buttons::BUTTON_RIGHT)
    } else if detail == SCROLL_WHEEL_UP {
        Some(Buttons::BUTTON_SCROLL_WHEEL_UP)
    } else if detail == SCROLL_WHEEL_DOWN {
        Some(Buttons::BUTTON_SCROLL_WHEEL_DOWN)
    } else {
        None
    }
}

/// The button an X11 pointer button number stands for, if any; never the
/// counting `BUTTON_MAX_BUTTONS`.
pub fn translate_button(detail: u8) -> (r: Option<Buttons>)
    ensures
        r == spec_translate_button(detail),
        r != Some(Buttons::BUTTON_MAX_BUTTONS),
{
    if detail == LEFT_MOUSE_BUTTON {
        Some(Buttons::BUTTON_LEFT)
    } else if detail == MIDDLE_MOUSE_BUTTON {
        Some(Buttons::BUTTON_MIDDLE)
    } else if detail == RIGHT_MOUSE_BUTTON {
        Some(Buttons::BUTTON_RIGHT)
    } else if detail == SCROLL_WHEEL_UP {
        Some(Buttons::BUTTON_SCROLL_WHEEL_UP)
    } else if detail == SCROLL_WHEEL_DOWN {
        Some(Buttons::BUTTON_SCROLL_WHEEL_DOWN)
    } else {
        None
    }
}

} // verus!
