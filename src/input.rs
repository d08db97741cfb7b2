use crate::context::EventContext;
use crate::event::{is_publish_i16_pair, is_publish_u16, Channel, Message, SystemEventCode};
use vstd::prelude::*;

verus! {

/// Number of entries of the keyboard table.
pub const KEY_SLOTS: usize = 258;

/// Number of entries of the mouse-button table.
pub const BUTTON_SLOTS: usize = 5;

/// Keyboard keys, by their virtual key code.
#[allow(non_camel_case_types)]
#[derive(Clone, Copy, Debug, PartialEq, Eq, Structural)]
pub enum Keys {
    BACKSPACE,
    ENTER,
    TAB,
    SHIFT,
    CONTROL,
    PAUSE,
    CAPITAL,
    ESCAPE,
    CONVERT,
    NONCONVERT,
    ACCEPT,
    MODECHANGE,
    SPACE,
    PRIOR,
    NEXT,
    END,
    HOME,
    LEFT,
    UP,
    RIGHT,
    DOWN,
    SELECT,
    PRINT,
    EXECUTE,
    SNAPSHOT,
    INSERT,
    DELETE,
    HELP,
    A,
    B,
    C,
    D,
    E,
    F,
    G,
    H,
    I,
    J,
    K,
    L,
    M,
    N,
    O,
    P,
    Q,
    R,
    S,
    T,
    U,
    V,
    W,
    X,
    Y,
    Z,
    LWIN,
    RWIN,
    APPS,
    SLEEP,
    NUMPAD0,
    NUMPAD1,
    NUMPAD2,
    NUMPAD3,
    NUMPAD4,
    NUMPAD5,
    NUMPAD6,
    NUMPAD7,
    NUMPAD8,
    NUMPAD9,
    MULTIPLY,
    ADD,
    SEPARATOR,
    SUBTRACT,
    DECIMAL,
    DIVIDE,
    F1,
    F2,
    F3,
    F4,
    F5,
    F6,
    F7,
    F8,
    F9,
    F10,
    F11,
    F12,
    F13,
    F14,
    F15,
    F16,
    F17,
    F18,
    F19,
    F20,
    F21,
    F22,
    F23,
    F24,
    NUMLOCK,
    SCROLL,
    NUMPAD_EQUAL,
    LSHIFT,
    RSHIFT,
    LCONTROL,
    RCONTROL,
    LMENU,
    RMENU,
    SEMICOLON,
    PLUS,
    COMMA,
    MINUS,
    PERIOD,
    SLASH,
    GRAVE,
    KEYS_MAX_KEYS,
}

impl Keys {
    pub open spec fn spec_code(self) -> u16 {
        match self {
            Keys::BACKSPACE => 0x08,
            Keys::ENTER => 0x0D,
            Keys::TAB => 0x09,
            Keys::SHIFT => 0x10,
            Keys::CONTROL => 0x11,
            Keys::PAUSE => 0x13,
            Keys::CAPITAL => 0x14,
            Keys::ESCAPE => 0x1B,
            Keys::CONVERT => 0x1C,
            Keys::NONCONVERT => 0x1D,
            Keys::ACCEPT => 0x1E,
            Keys::MODECHANGE => 0x1F,
            Keys::SPACE => 0x20,
            Keys::PRIOR => 0x21,
            Keys::NEXT => 0x22,
            Keys::END => 0x23,
            Keys::HOME => 0x24,
            Keys::LEFT => 0x25,
            Keys::UP => 0x26,
            Keys::RIGHT => 0x27,
            Keys::DOWN => 0x28,
            Keys::SELECT => 0x29,
            Keys::PRINT => 0x2A,
            Keys::EXECUTE => 0x2B,
            Keys::SNAPSHOT => 0x2C,
            Keys::INSERT => 0x2D,
            Keys::DELETE => 0x2E,
            Keys::HELP => 0x2F,
            Keys::A => 0x41,
            Keys::B => 0x42,
            Keys::C => 0x43,
            Keys::D => 0x44,
            Keys::E => 0x45,
            Keys::F => 0x46,
            Keys::G => 0x47,
            Keys::H => 0x48,
            Keys::I => 0x49,
            Keys::J => 0x4A,
            Keys::K => 0x4B,
            Keys::L => 0x4C,
            Keys::M => 0x4D,
            Keys::N => 0x4E,
            Keys::O => 0x4F,
            Keys::P => 0x50,
            Keys::Q => 0x51,
            Keys::R => 0x52,
            Keys::S => 0x53,
            Keys::T => 0x54,
            Keys::U => 0x55,
            Keys::V => 0x56,
            Keys::W => 0x57,
            Keys::X => 0x58,
            Keys::Y => 0x59,
            Keys::Z => 0x5A,
            Keys::LWIN => 0x5B,
            Keys::RWIN => 0x5C,
            Keys::APPS => 0x5D,
            Keys::SLEEP => 0x5F,
            Keys::NUMPAD0 => 0x60,
            Keys::NUMPAD1 => 0x61,
            Keys::NUMPAD2 => 0x62,
            Keys::NUMPAD3 => 0x63,
            Keys::NUMPAD4 => 0x64,
            Keys::NUMPAD5 => 0x65,
            Keys::NUMPAD6 => 0x66,
            Keys::NUMPAD7 => 0x67,
            Keys::NUMPAD8 => 0x68,
            Keys::NUMPAD9 => 0x69,
            Keys::MULTIPLY => 0x6A,
            Keys::ADD => 0x6B,
            Keys::SEPARATOR => 0x6C,
            Keys::SUBTRACT => 0x6D,
            Keys::DECIMAL => 0x6E,
            Keys::DIVIDE => 0x6F,
            Keys::F1 => 0x70,
            Keys::F2 => 0x71,
            Keys::F3 => 0x72,
            Keys::F4 => 0x73,
            Keys::F5 => 0x74,
            Keys::F6 => 0x75,
            Keys::F7 => 0x76,
            Keys::F8 => 0x77,
            Keys::F9 => 0x78,
            Keys::F10 => 0x79,
            Keys::F11 => 0x7A,
            Keys::F12 => 0x7B,
            Keys::F13 => 0x7C,
            Keys::F14 => 0x7D,
            Keys::F15 => 0x7E,
            Keys::F16 => 0x7F,
            Keys::F17 => 0x80,
            Keys::F18 => 0x81,
            Keys::F19 => 0x82,
            Keys::F20 => 0x83,
            Keys::F21 => 0x84,
            Keys::F22 => 0x85,
            Keys::F23 => 0x86,
            Keys::F24 => 0x87,
            Keys::NUMLOCK => 0x90,
            Keys::SCROLL => 0x91,
            Keys::NUMPAD_EQUAL => 0x92,
            Keys::LSHIFT => 0xA0,
            Keys::RSHIFT => 0xA1,
            Keys::LCONTROL => 0xA2,
            Keys::RCONTROL => 0xA3,
            Keys::LMENU => 0xA4,
            Keys::RMENU => 0xA5,
            Keys::SEMICOLON => 0xBA,
            Keys::PLUS => 0xBB,
            Keys::COMMA => 0xBC,
            Keys::MINUS => 0xBD,
            Keys::PERIOD => 0xBE,
            Keys::SLASH => 0xBF,
            Keys::GRAVE => 0xC0,
            Keys::KEYS_MAX_KEYS => 0xC1,
        }
    }

    /// The virtual key code.
    pub fn code(self) -> (r: u16)
        ensures
            r == self.spec_code(),
            (r as usize) < KEY_SLOTS,
    {
        match self {
            Keys::BACKSPACE => 0x08,
            Keys::ENTER => 0x0D,
            Keys::TAB => 0x09,
            Keys::SHIFT => 0x10,
            Keys::CONTROL => 0x11,
            Keys::PAUSE => 0x13,
            Keys::CAPITAL => 0x14,
            Keys::ESCAPE => 0x1B,
            Keys::CONVERT => 0x1C,
            Keys::NONCONVERT => 0x1D,
            Keys::ACCEPT => 0x1E,
            Keys::MODECHANGE => 0x1F,
            Keys::SPACE => 0x20,
            Keys::PRIOR => 0x21,
            Keys::NEXT => 0x22,
            Keys::END => 0x23,
            Keys::HOME => 0x24,
            Keys::LEFT => 0x25,
            Keys::UP => 0x26,
            Keys::RIGHT => 0x27,
            Keys::DOWN => 0x28,
            Keys::SELECT => 0x29,
            Keys::PRINT => 0x2A,
            Keys::EXECUTE => 0x2B,
            Keys::SNAPSHOT => 0x2C,
            Keys::INSERT => 0x2D,
            Keys::DELETE => 0x2E,
            Keys::HELP => 0x2F,
            Keys::A => 0x41,
            Keys::B => 0x42,
            Keys::C => 0x43,
            Keys::D => 0x44,
            Keys::E => 0x45,
            Keys::F => 0x46,
            Keys::G => 0x47,
            Keys::H => 0x48,
            Keys::I => 0x49,
            Keys::J => 0x4A,
            Keys::K => 0x4B,
            Keys::L => 0x4C,
            Keys::M => 0x4D,
            Keys::N => 0x4E,
            Keys::O => 0x4F,
            Keys::P => 0x50,
            Keys::Q => 0x51,
            Keys::R => 0x52,
            Keys::S => 0x53,
            Keys::T => 0x54,
            Keys::U => 0x55,
            Keys::V => 0x56,
            Keys::W => 0x57,
            Keys::X => 0x58,
            Keys::Y => 0x59,
            Keys::Z => 0x5A,
            Keys::LWIN => 0x5B,
            Keys::RWIN => 0x5C,
            Keys::APPS => 0x5D,
            Keys::SLEEP => 0x5F,
            Keys::NUMPAD0 => 0x60,
            Keys::NUMPAD1 => 0x61,
            Keys::NUMPAD2 => 0x62,
            Keys::NUMPAD3 => 0x63,
            Keys::NUMPAD4 => 0x64,
            Keys::NUMPAD5 => 0x65,
            Keys::NUMPAD6 => 0x66,
            Keys::NUMPAD7 => 0x67,
            Keys::NUMPAD8 => 0x68,
            Keys::NUMPAD9 => 0x69,
            Keys::MULTIPLY => 0x6A,
            Keys::ADD => 0x6B,
            Keys::SEPARATOR => 0x6C,
            Keys::SUBTRACT => 0x6D,
            Keys::DECIMAL => 0x6E,
            Keys::DIVIDE => 0x6F,
            Keys::F1 => 0x70,
            Keys::F2 => 0x71,
            Keys::F3 => 0x72,
            Keys::F4 => 0x73,
            Keys::F5 => 0x74,
            Keys::F6 => 0x75,
            Keys::F7 => 0x76,
            Keys::F8 => 0x77,
            Keys::F9 => 0x78,
            Keys::F10 => 0x79,
            Keys::F11 => 0x7A,
            Keys::F12 => 0x7B,
            Keys::F13 => 0x7C,
            Keys::F14 => 0x7D,
            Keys::F15 => 0x7E,
            Keys::F16 => 0x7F,
            Keys::F17 => 0x80,
            Keys::F18 => 0x81,
            Keys::F19 => 0x82,
            Keys::F20 => 0x83,
            Keys::F21 => 0x84,
            Keys::F22 => 0x85,
            Keys::F23 => 0x86,
            Keys::F24 => 0x87,
            Keys::NUMLOCK => 0x90,
            Keys::SCROLL => 0x91,
            Keys::NUMPAD_EQUAL => 0x92,
            Keys::LSHIFT => 0xA0,
            Keys::RSHIFT => 0xA1,
            Keys::LCONTROL => 0xA2,
            Keys::RCONTROL => 0xA3,
            Keys::LMENU => 0xA4,
            Keys::RMENU => 0xA5,
            Keys::SEMICOLON => 0xBA,
            Keys::PLUS => 0xBB,
            Keys::COMMA => 0xBC,
            Keys::MINUS => 0xBD,
            Keys::PERIOD => 0xBE,
            Keys::SLASH => 0xBF,
            Keys::GRAVE => 0xC0,
            Keys::KEYS_MAX_KEYS => 0xC1,
        }
    }

    /// The key with the given virtual key code, if there is one.
    pub fn from_code(code: u16) -> (r: Option<Keys>)
        ensures
            r matches Some(k) ==> k.spec_code() == code,
            r is None ==> forall|k: Keys| k.spec_code() != code,
    {
        match code {
            0x08 => Some(Keys::BACKSPACE),
            0x0D => Some(Keys::ENTER),
            0x09 => Some(Keys::TAB),
            0x10 => Some(Keys::SHIFT),
            0x11 => Some(Keys::CONTROL),
            0x13 => Some(Keys::PAUSE),
            0x14 => Some(Keys::CAPITAL),
            0x1B => Some(Keys::ESCAPE),
            0x1C => Some(Keys::CONVERT),
            0x1D => Some(Keys::NONCONVERT),
            0x1E => Some(Keys::ACCEPT),
            0x1F => Some(Keys::MODECHANGE),
            0x20 => Some(Keys::SPACE),
            0x21 => Some(Keys::PRIOR),
            0x22 => Some(Keys::NEXT),
            0x23 => Some(Keys::END),
            0x24 => Some(Keys::HOME),
            0x25 => Some(Keys::LEFT),
            0x26 => Some(Keys::UP),
            0x27 => Some(Keys::RIGHT),
            0x28 => Some(Keys::DOWN),
            0x29 => Some(Keys::SELECT),
            0x2A => Some(Keys::PRINT),
            0x2B => Some(Keys::EXECUTE),
            0x2C => Some(Keys::SNAPSHOT),
            0x2D => Some(Keys::INSERT),
            0x2E => Some(Keys::DELETE),
            0x2F => Some(Keys::HELP),
            0x41 => Some(Keys::A),
            0x42 => Some(Keys::B),
            0x43 => Some(Keys::C),
            0x44 => Some(Keys::D),
            0x45 => Some(Keys::E),
            0x46 => Some(Keys::F),
            0x47 => Some(Keys::G),
            0x48 => Some(Keys::H),
            0x49 => Some(Keys::I),
            0x4A => Some(Keys::J),
            0x4B => Some(Keys::K),
            0x4C => Some(Keys::L),
            0x4D => Some(Keys::M),
            0x4E => Some(Keys::N),
            0x4F => Some(Keys::O),
            0x50 => Some(Keys::P),
            0x51 => Some(Keys::Q),
            0x52 => Some(Keys::R),
            0x53 => Some(Keys::S),
            0x54 => Some(Keys::T),
            0x55 => Some(Keys::U),
            0x56 => Some(Keys::V),
            0x57 => Some(Keys::W),
            0x58 => Some(Keys::X),
            0x59 => Some(Keys::Y),
            0x5A => Some(Keys::Z),
            0x5B => Some(Keys::LWIN),
            0x5C => Some(Keys::RWIN),
            0x5D => Some(Keys::APPS),
            0x5F => Some(Keys::SLEEP),
            0x60 => Some(Keys::NUMPAD0),
            0x61 => Some(Keys::NUMPAD1),
            0x62 => Some(Keys::NUMPAD2),
            0x63 => Some(Keys::NUMPAD3),
            0x64 => Some(Keys::NUMPAD4),
            0x65 => Some(Keys::NUMPAD5),
            0x66 => Some(Keys::NUMPAD6),
            0x67 => Some(Keys::NUMPAD7),
            0x68 => Some(Keys::NUMPAD8),
            0x69 => Some(Keys::NUMPAD9),
            0x6A => Some(Keys::MULTIPLY),
            0x6B => Some(Keys::ADD),
            0x6C => Some(Keys::SEPARATOR),
            0x6D => Some(Keys::SUBTRACT),
            0x6E => Some(Keys::DECIMAL),
            0x6F => Some(Keys::DIVIDE),
            0x70 => Some(Keys::F1),
            0x71 => Some(Keys::F2),
            0x72 => Some(Keys::F3),
            0x73 => Some(Keys::F4),
            0x74 => Some(Keys::F5),
            0x75 => Some(Keys::F6),
            0x76 => Some(Keys::F7),
            0x77 => Some(Keys::F8),
            0x78 => Some(Keys::F9),
            0x79 => Some(Keys::F10),
            0x7A => Some(Keys::F11),
            0x7B => Some(Keys::F12),
            0x7C => Some(Keys::F13),
            0x7D => Some(Keys::F14),
            0x7E => Some(Keys::F15),
            0x7F => Some(Keys::F16),
            0x80 => Some(Keys::F17),
            0x81 => Some(Keys::F18),
            0x82 => Some(Keys::F19),
            0x83 => Some(Keys::F20),
            0x84 => Some(Keys::F21),
            0x85 => Some(Keys::F22),
            0x86 => Some(Keys::F23),
            0x87 => Some(Keys::F24),
            0x90 => Some(Keys::NUMLOCK),
            0x91 => Some(Keys::SCROLL),
            0x92 => Some(Keys::NUMPAD_EQUAL),
            0xA0 => Some(Keys::LSHIFT),
            0xA1 => Some(Keys::RSHIFT),
            0xA2 => Some(Keys::LCONTROL),
            0xA3 => Some(Keys::RCONTROL),
            0xA4 => Some(Keys::LMENU),
            0xA5 => Some(Keys::RMENU),
            0xBA => Some(Keys::SEMICOLON),
            0xBB => Some(Keys::PLUS),
            0xBC => Some(Keys::COMMA),
            0xBD => Some(Keys::MINUS),
            0xBE => Some(Keys::PERIOD),
            0xBF => Some(Keys::SLASH),
            0xC0 => Some(Keys::GRAVE),
            0xC1 => Some(Keys::KEYS_MAX_KEYS),
            _ => None,
        }
    }
}

/// Mouse buttons; `BUTTON_MAX_BUTTONS` only counts them and has no slot.
#[allow(non_camel_case_types)]
#[derive(Clone, Copy, Debug, PartialEq, Eq, Structural)]
pub enum Buttons {
    BUTTON_LEFT,
    BUTTON_RIGHT,
    BUTTON_MIDDLE,
    BUTTON_SCROLL_WHEEL_UP,
    BUTTON_SCROLL_WHEEL_DOWN,
    BUTTON_MAX_BUTTONS,
}

impl Buttons {
    pub open spec fn spec_index(self) -> u16 {
        match self {
            Buttons::BUTTON_LEFT => 0,
            Buttons::BUTTON_RIGHT => 1,
            Buttons::BUTTON_MIDDLE => 2,
            Buttons::BUTTON_SCROLL_WHEEL_UP => 3,
            Buttons::BUTTON_SCROLL_WHEEL_DOWN => 4,
            Buttons::BUTTON_MAX_BUTTONS => 5,
        }
    }

    /// The button's slot in the button table (and its id in event payloads).
    pub fn index(self) -> (r: u16)
        ensures
            r == self.spec_index(),
    {
        match self {
            Buttons::BUTTON_LEFT => 0,
            Buttons::BUTTON_RIGHT => 1,
            Buttons::BUTTON_MIDDLE => 2,
            Buttons::BUTTON_SCROLL_WHEEL_UP => 3,
            Buttons::BUTTON_SCROLL_WHEEL_DOWN => 4,
            Buttons::BUTTON_MAX_BUTTONS => 5,
        }
    }

    /// The button with the given id, if there is one.
    pub fn from_index(index: u16) -> (r: Option<Buttons>)
        ensures
            r matches Some(b) ==> b.spec_index() == index,
            r is None ==> forall|b: Buttons| b.spec_index() != index,
    {
        match index {
            0 => Some(Buttons::BUTTON_LEFT),
            1 => Some(Buttons::BUTTON_RIGHT),
            2 => Some(Buttons::BUTTON_MIDDLE),
            3 => Some(Buttons::BUTTON_SCROLL_WHEEL_UP),
            4 => Some(Buttons::BUTTON_SCROLL_WHEEL_DOWN),
            5 => Some(Buttons::BUTTON_MAX_BUTTONS),
            _ => None,
        }
    }
}

/// One snapshot of the keyboard: whether each key is down.
#[derive(Clone, Copy, Debug)]
pub struct KeyboardState {
    keys: [bool; 258],
}

/// One snapshot of the mouse: its position and whether each button is down.
#[derive(Clone, Copy, Debug)]
pub struct MouseState {
    x: i16,
    y: i16,
    buttons: [bool; 5],
}

/// The mathematical model of an input state: the current and the previous
/// snapshot of keys, buttons and mouse position.
pub struct InputView {
    pub keys: Seq<bool>,
    pub previous_keys: Seq<bool>,
    pub buttons: Seq<bool>,
    pub previous_buttons: Seq<bool>,
    pub x: i16,
    pub y: i16,
    pub previous_x: i16,
    pub previous_y: i16,
}

impl InputView {
    pub open spec fn wf(self) -> bool {
        &&& self.keys.len() == KEY_SLOTS
        &&& self.previous_keys.len() == KEY_SLOTS
        &&& self.buttons.len() == BUTTON_SLOTS
        &&& self.previous_buttons.len() == BUTTON_SLOTS
    }

    /// The event a key report publishes: none when the key is already in the
    /// reported position, otherwise a press or a release.
    pub open spec fn key_event(self, code: int, pressed: bool) -> Option<u16> {
        if self.keys[code] != pressed {
            Some(
                if pressed {
                    SystemEventCode::CODE_KEY_PRESSED.spec_code()
                } else {
                    SystemEventCode::CODE_KEY_RELEASED.spec_code()
                },
            )
        } else {
            None
        }
    }

    /// The model after a key report.
    pub open spec fn with_key(self, code: int, pressed: bool) -> InputView {
        InputView { keys: self.keys.update(code, pressed), ..self }
    }

    /// The event a button report publishes, as for keys.
    pub open spec fn button_event(self, index: int, pressed: bool) -> Option<u16> {
        if self.buttons[index] != pressed {
            Some(
                if pressed {
                    SystemEventCode::CODE_BUTTON_PRESSED.spec_code()
                } else {
                    SystemEventCode::CODE_BUTTON_RELEASED.spec_code()
                },
            )
        } else {
            None
        }
    }

    /// The model after a button report.
    pub open spec fn with_button(self, index: int, pressed: bool) -> InputView {
        InputView { buttons: self.buttons.update(index, pressed), ..self }
    }

    /// Whether a reported mouse position differs from the current one.
    pub open spec fn mouse_moves(self, x: i16, y: i16) -> bool {
        self.x != x || self.y != y
    }

    /// The model after a mouse position report.
    pub open spec fn with_mouse(self, x: i16, y: i16) -> InputView {
        InputView { x, y, ..self }
    }

    /// The model after a tick: the previous snapshot becomes the current one.
    pub open spec fn advanced(self) -> InputView {
        InputView {
            previous_keys: self.keys,
            previous_buttons: self.buttons,
            previous_x: self.x,
            previous_y: self.y,
            ..self
        }
    }
}

/// Double-buffered keyboard and mouse state. Reports that change the current
/// snapshot publish an event on the channel they are given; `update` copies the
/// current snapshot into the previous one once per tick.
#[derive(Clone, Copy, Debug)]
pub struct InputState {
    keyboard_current: KeyboardState,
    keyboard_previous: KeyboardState,
    mouse_current: MouseState,
    mouse_previous: MouseState,
}

impl View for InputState {
    type V = InputView;

    closed spec fn view(&self) -> InputView {
        InputView {
            keys: self.keyboard_current.keys@,
            previous_keys: self.keyboard_previous.keys@,
            buttons: self.mouse_current.buttons@,
            previous_buttons: self.mouse_previous.buttons@,
            x: self.mouse_current.x,
            y: self.mouse_current.y,
            previous_x: self.mouse_previous.x,
            previous_y: self.mouse_previous.y,
        }
    }
}

impl InputState {
    /// Every key and button up, the mouse at the origin, in both snapshots.
    pub fn new() -> (r: InputState)
        ensures
            r@.wf(),
            forall|i: int| 0 <= i < KEY_SLOTS ==> !r@.keys[i] && !r@.previous_keys[i],
            forall|i: int| 0 <= i < BUTTON_SLOTS ==> !r@.buttons[i] && !r@.previous_buttons[i],
            r@.x == 0 && r@.y == 0 && r@.previous_x == 0 && r@.previous_y == 0,
    {
        InputState {
            keyboard_current: KeyboardState { keys: [false; 258] },
            keyboard_previous: KeyboardState { keys: [false; 258] },
            mouse_current: MouseState { x: 0, y: 0, buttons: [false; 5] },
            mouse_previous: MouseState { x: 0, y: 0, buttons: [false; 5] },
        }
    }

    /// Copies the current snapshot into the previous one. Runs once per tick,
    /// after the previous tick's reports and before this tick's.
    pub fn update(&mut self)
        ensures
            final(self)@.wf(),
            final(self)@ == old(self)@.advanced(),
    {
        self.keyboard_previous = self.keyboard_current;
        self.mouse_previous = self.mouse_current;
    }

    /// Whether `key` is down in the current snapshot.
    pub fn is_key_down(&self, key: Keys) -> (r: bool)
        ensures
            r == self@.keys[key.spec_code() as int],
    {
        self.keyboard_current.keys[key.code() as usize]
    }

    /// Whether `key` was down in the previous snapshot.
    pub fn was_key_down(&self, key: Keys) -> (r: bool)
        ensures
            r == self@.previous_keys[key.spec_code() as int],
    {
        self.keyboard_previous.keys[key.code() as usize]
    }

    /// Reports the position of `key`. When it differs from the current
    /// snapshot, the snapshot is updated and a press or release carrying the key
    /// code is published; holding a key never publishes again.
    pub fn process_key<C>(&mut self, channel: &mut Channel<C>, key: Keys, pressed: bool)
        ensures
            final(self)@.wf(),
            final(self)@ == old(self)@.with_key(key.spec_code() as int, pressed),
            match old(self)@.key_event(key.spec_code() as int, pressed) {
                None => final(channel)@ == old(channel)@,
                Some(c) => {
                    &&& final(channel)@.len() == old(channel)@.len() + 1
                    &&& final(channel)@.drop_last() == old(channel)@
                    &&& is_publish_u16(final(channel)@.last(), c, key.spec_code())
                },
            },
    {
        let idx = key.code() as usize;
        if self.keyboard_current.keys[idx] != pressed {
            self.keyboard_current.keys[idx] = pressed;
            let context = EventContext::from_u16(key.code());
            let code = if pressed {
                SystemEventCode::CODE_KEY_PRESSED.code()
            } else {
                SystemEventCode::CODE_KEY_RELEASED.code()
            };
            channel.send(Message::Pub { code, sender: None, context });
            assert(channel@.drop_last() =~= old(channel)@);
        } else {
            assert(self@.keys =~= old(self)@.keys.update(key.spec_code() as int, pressed));
        }
    }

    /// Reports the position of `button`, as `process_key` does for keys; the
    /// payload carries the button id.
    pub fn process_button<C>(&mut self, channel: &mut Channel<C>, button: Buttons, pressed: bool)
        requires
            button != Buttons::BUTTON_MAX_BUTTONS,
        ensures
            final(self)@.wf(),
            final(self)@ == old(self)@.with_button(button.spec_index() as int, pressed),
            match old(self)@.button_event(button.spec_index() as int, pressed) {
                None => final(channel)@ == old(channel)@,
                Some(c) => {
                    &&& final(channel)@.len() == old(channel)@.len() + 1
                    &&& final(channel)@.drop_last() == old(channel)@
                    &&& is_publish_u16(final(channel)@.last(), c, button.spec_index())
                },
            },
    {
        let idx = button.index() as usize;
        if self.mouse_current.buttons[idx] != pressed {
            self.mouse_current.buttons[idx] = pressed;
            let context = EventContext::from_u16(button.index());
            let code = if pressed {
                SystemEventCode::CODE_BUTTON_PRESSED.code()
            } else {
                SystemEventCode::CODE_BUTTON_RELEASED.code()
            };
            channel.send(Message::Pub { code, sender: None, context });
            assert(channel@.drop_last() =~= old(channel)@);
        } else {
            assert(self@.buttons =~= old(self)@.buttons.update(button.spec_index() as int, pressed));
        }
    }

    /// Reports the mouse position. Moves are edge-triggered like keys and
    /// buttons: only a position that differs from the current one updates the
    /// snapshot and publishes a move carrying x and y.
    pub fn process_mouse_move<C>(&mut self, channel: &mut Channel<C>, x: i16, y: i16)
        ensures
            final(self)@ == old(self)@.with_mouse(x, y),
            !old(self)@.mouse_moves(x, y) ==> final(channel)@ == old(channel)@,
            old(self)@.mouse_moves(x, y) ==> {
                &&& final(channel)@.len() == old(channel)@.len() + 1
                &&& final(channel)@.drop_last() == old(channel)@
                &&& is_publish_i16_pair(
                    final(channel)@.last(),
                    SystemEventCode::CODE_MOUSE_MOVED.spec_code(),
                    x,
                    y,
                )
            },
    {
        if self.mouse_current.x != x || self.mouse_current.y != y {
            self.mouse_current.x = x;
            self.mouse_current.y = y;
            let context = EventContext::from_i16_pair(x, y);
            channel.send(
                Message::Pub {
                    code: SystemEventCode::CODE_MOUSE_MOVED.code(),
                    sender: None,
                    context,
                },
            );
            assert(channel@.drop_last() =~= old(channel)@);
        }
    }
}

/// The model of every input state is well formed: its tables have their full
/// sizes, so the contracts of the reporting methods apply to any state.
pub proof fn lemma_input_view_wf(s: InputState)
    ensures
        s@.wf(),
{
}

/// Holding a key publishes at most once: a second report of the same position,
/// without a tick in between, publishes nothing; the first publishes a press
/// exactly when the key was up.
pub proof fn lemma_held_key_publishes_once(v: InputView, key: Keys)
    requires
        v.wf(),
    ensures
        v.key_event(key.spec_code() as int, true) == (if v.keys[key.spec_code() as int] {
            None
        } else {
            Some(SystemEventCode::CODE_KEY_PRESSED.spec_code())
        }),
        v.with_key(key.spec_code() as int, true).key_event(key.spec_code() as int, true) is None,
{
}

/// Pressing then releasing a key that was up publishes a press and then a
/// release, in that order.
pub proof fn lemma_press_then_release(v: InputView, key: Keys)
    requires
        v.wf(),
        !v.keys[key.spec_code() as int],
    ensures
        v.key_event(key.spec_code() as int, true) == Some(
            SystemEventCode::CODE_KEY_PRESSED.spec_code(),
        ),
        v.with_key(key.spec_code() as int, true).key_event(key.spec_code() as int, false) == Some(
            SystemEventCode::CODE_KEY_RELEASED.spec_code(),
        ),
        !v.with_key(key.spec_code() as int, true).with_key(key.spec_code() as int, false).keys[key.spec_code() as int],
{
}

} // verus!
