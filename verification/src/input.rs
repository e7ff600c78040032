use vstd::prelude::*;

verus! {

/// Number of key codes tracked (evdev's `KEY_CNT`).
pub const KEY_CNT: usize = 768;

/// Number of mouse-button slots tracked.
pub const BTN_CNT: usize = 32;

/// evdev code of the left mouse button; the right and middle buttons follow.
pub const BTN_LEFT: u16 = 0x110;

/// A key as the global input listener (rdev) names it.
#[derive(Debug, Clone, Copy)]
pub enum Key {
    Alt,
    AltGr,
    Backspace,
    CapsLock,
    ControlLeft,
    ControlRight,
    Delete,
    DownArrow,
    End,
    Escape,
    F1,
    F2,
    F3,
    F4,
    F5,
    F6,
    F7,
    F8,
    F9,
    F10,
    F11,
    F12,
    Home,
    LeftArrow,
    MetaLeft,
    MetaRight,
    PageDown,
    PageUp,
    Return,
    RightArrow,
    ShiftLeft,
    ShiftRight,
    Space,
    Tab,
    UpArrow,
    PrintScreen,
    ScrollLock,
    Pause,
    NumLock,
    BackQuote,
    Num1,
    Num2,
    Num3,
    Num4,
    Num5,
    Num6,
    Num7,
    Num8,
    Num9,
    Num0,
    Minus,
    Equal,
    KeyQ,
    KeyW,
    KeyE,
    KeyR,
    KeyT,
    KeyY,
    KeyU,
    KeyI,
    KeyO,
    KeyP,
    LeftBracket,
    RightBracket,
    KeyA,
    KeyS,
    KeyD,
    KeyF,
    KeyG,
    KeyH,
    KeyJ,
    KeyK,
    KeyL,
    SemiColon,
    Quote,
    BackSlash,
    IntlBackslash,
    KeyZ,
    KeyX,
    KeyC,
    KeyV,
    KeyB,
    KeyN,
    KeyM,
    Comma,
    Dot,
    Slash,
    Insert,
    KpReturn,
    KpMinus,
    KpPlus,
    KpMultiply,
    KpDivide,
    Kp0,
    Kp1,
    Kp2,
    Kp3,
    Kp4,
    Kp5,
    Kp6,
    Kp7,
    Kp8,
    Kp9,
    KpDelete,
    Function,
    Unknown(u32),
}

/// A mouse button as the global input listener (rdev) names it.
#[derive(Debug, Clone, Copy)]
pub enum MouseButton {
    Left,
    Right,
    Middle,
    Unknown(u8),
}

/// The evdev scancode of a key, as profiles write keyboard bindings; `Fn`
/// and unknown keys have none.
pub open spec fn evdev_code(k: Key) -> Option<u16> {
    match k {
        Key::Alt => Some(56u16),
        Key::AltGr => Some(100u16),
        Key::Backspace => Some(14u16),
        Key::CapsLock => Some(58u16),
        Key::ControlLeft => Some(29u16),
        Key::ControlRight => Some(97u16),
        Key::Delete => Some(111u16),
        Key::DownArrow => Some(108u16),
        Key::End => Some(107u16),
        Key::Escape => Some(1u16),
        Key::F1 => Some(59u16),
        Key::F2 => Some(60u16),
        Key::F3 => Some(61u16),
        Key::F4 => Some(62u16),
        Key::F5 => Some(63u16),
        Key::F6 => Some(64u16),
        Key::F7 => Some(65u16),
        Key::F8 => Some(66u16),
        Key::F9 => Some(67u16),
        Key::F10 => Some(68u16),
        Key::F11 => Some(87u16),
        Key::F12 => Some(88u16),
        Key::Home => Some(102u16),
        Key::LeftArrow => Some(105u16),
        Key::MetaLeft => Some(125u16),
        Key::MetaRight => Some(126u16),
        Key::PageDown => Some(109u16),
        Key::PageUp => Some(104u16),
        Key::Return => Some(28u16),
        Key::RightArrow => Some(106u16),
        Key::ShiftLeft => Some(42u16),
        Key::ShiftRight => Some(54u16),
        Key::Space => Some(57u16),
        Key::Tab => Some(15u16),
        Key::UpArrow => Some(103u16),
        Key::PrintScreen => Some(99u16),
        Key::ScrollLock => Some(70u16),
        Key::Pause => Some(119u16),
        Key::NumLock => Some(69u16),
        Key::BackQuote => Some(41u16),
        Key::Num1 => Some(2u16),
        Key::Num2 => Some(3u16),
        Key::Num3 => Some(4u16),
        Key::Num4 => Some(5u16),
        Key::Num5 => Some(6u16),
        Key::Num6 => Some(7u16),
        Key::Num7 => Some(8u16),
        Key::Num8 => Some(9u16),
        Key::Num9 => Some(10u16),
        Key::Num0 => Some(11u16),
        Key::Minus => Some(12u16),
        Key::Equal => Some(13u16),
        Key::KeyQ => Some(16u16),
        Key::KeyW => Some(17u16),
        Key::KeyE => Some(18u16),
        Key::KeyR => Some(19u16),
        Key::KeyT => Some(20u16),
        Key::KeyY => Some(21u16),
        Key::KeyU => Some(22u16),
        Key::KeyI => Some(23u16),
        Key::KeyO => Some(24u16),
        Key::KeyP => Some(25u16),
        Key::LeftBracket => Some(26u16),
        Key::RightBracket => Some(27u16),
        Key::KeyA => Some(30u16),
        Key::KeyS => Some(31u16),
        Key::KeyD => Some(32u16),
        Key::KeyF => Some(33u16),
        Key::KeyG => Some(34u16),
        Key::KeyH => Some(35u16),
        Key::KeyJ => Some(36u16),
        Key::KeyK => Some(37u16),
        Key::KeyL => Some(38u16),
        Key::SemiColon => Some(39u16),
        Key::Quote => Some(40u16),
        Key::BackSlash => Some(43u16),
        Key::IntlBackslash => Some(86u16),
        Key::KeyZ => Some(44u16),
        Key::KeyX => Some(45u16),
        Key::KeyC => Some(46u16),
        Key::KeyV => Some(47u16),
        Key::KeyB => Some(48u16),
        Key::KeyN => Some(49u16),
        Key::KeyM => Some(50u16),
        Key::Comma => Some(51u16),
        Key::Dot => Some(52u16),
        Key::Slash => Some(53u16),
        Key::Insert => Some(110u16),
        Key::KpReturn => Some(96u16),
        Key::KpMinus => Some(74u16),
        Key::KpPlus => Some(78u16),
        Key::KpMultiply => Some(55u16),
        Key::KpDivide => Some(98u16),
        Key::Kp0 => Some(82u16),
        Key::Kp1 => Some(79u16),
        Key::Kp2 => Some(80u16),
        Key::Kp3 => Some(81u16),
        Key::Kp4 => Some(75u16),
        Key::Kp5 => Some(76u16),
        Key::Kp6 => Some(77u16),
        Key::Kp7 => Some(71u16),
        Key::Kp8 => Some(72u16),
        Key::Kp9 => Some(73u16),
        Key::KpDelete => Some(83u16),
        Key::Function => None,
        Key::Unknown(_) => None,
    }
}

/// The evdev scancode of a key.
pub fn key_to_evdev(key: &Key) -> (r: Option<u16>)
    ensures
        r == evdev_code(*key),
{
    match key {
        Key::Alt => Some(56u16),
        Key::AltGr => Some(100u16),
        Key::Backspace => Some(14u16),
        Key::CapsLock => Some(58u16),
        Key::ControlLeft => Some(29u16),
        Key::ControlRight => Some(97u16),
        Key::Delete => Some(111u16),
        Key::DownArrow => Some(108u16),
        Key::End => Some(107u16),
        Key::Escape => Some(1u16),
        Key::F1 => Some(59u16),
        Key::F2 => Some(60u16),
        Key::F3 => Some(61u16),
        Key::F4 => Some(62u16),
        Key::F5 => Some(63u16),
        Key::F6 => Some(64u16),
        Key::F7 => Some(65u16),
        Key::F8 => Some(66u16),
        Key::F9 => Some(67u16),
        Key::F10 => Some(68u16),
        Key::F11 => Some(87u16),
        Key::F12 => Some(88u16),
        Key::Home => Some(102u16),
        Key::LeftArrow => Some(105u16),
        Key::MetaLeft => Some(125u16),
        Key::MetaRight => Some(126u16),
        Key::PageDown => Some(109u16),
        Key::PageUp => Some(104u16),
        Key::Return => Some(28u16),
        Key::RightArrow => Some(106u16),
        Key::ShiftLeft => Some(42u16),
        Key::ShiftRight => Some(54u16),
        Key::Space => Some(57u16),
        Key::Tab => Some(15u16),
        Key::UpArrow => Some(103u16),
        Key::PrintScreen => Some(99u16),
        Key::ScrollLock => Some(70u16),
        Key::Pause => Some(119u16),
        Key::NumLock => Some(69u16),
        Key::BackQuote => Some(41u16),
        Key::Num1 => Some(2u16),
        Key::Num2 => Some(3u16),
        Key::Num3 => Some(4u16),
        Key::Num4 => Some(5u16),
        Key::Num5 => Some(6u16),
        Key::Num6 => Some(7u16),
        Key::Num7 => Some(8u16),
        Key::Num8 => Some(9u16),
        Key::Num9 => Some(10u16),
        Key::Num0 => Some(11u16),
        Key::Minus => Some(12u16),
        Key::Equal => Some(13u16),
        Key::KeyQ => Some(16u16),
        Key::KeyW => Some(17u16),
        Key::KeyE => Some(18u16),
        Key::KeyR => Some(19u16),
        Key::KeyT => Some(20u16),
        Key::KeyY => Some(21u16),
        Key::KeyU => Some(22u16),
        Key::KeyI => Some(23u16),
        Key::KeyO => Some(24u16),
        Key::KeyP => Some(25u16),
        Key::LeftBracket => Some(26u16),
        Key::RightBracket => Some(27u16),
        Key::KeyA => Some(30u16),
        Key::KeyS => Some(31u16),
        Key::KeyD => Some(32u16),
        Key::KeyF => Some(33u16),
        Key::KeyG => Some(34u16),
        Key::KeyH => Some(35u16),
        Key::KeyJ => Some(36u16),
        Key::KeyK => Some(37u16),
        Key::KeyL => Some(38u16),
        Key::SemiColon => Some(39u16),
        Key::Quote => Some(40u16),
        Key::BackSlash => Some(43u16),
        Key::IntlBackslash => Some(86u16),
        Key::KeyZ => Some(44u16),
        Key::KeyX => Some(45u16),
        Key::KeyC => Some(46u16),
        Key::KeyV => Some(47u16),
        Key::KeyB => Some(48u16),
        Key::KeyN => Some(49u16),
        Key::KeyM => Some(50u16),
        Key::Comma => Some(51u16),
        Key::Dot => Some(52u16),
        Key::Slash => Some(53u16),
        Key::Insert => Some(110u16),
        Key::KpReturn => Some(96u16),
        Key::KpMinus => Some(74u16),
        Key::KpPlus => Some(78u16),
        Key::KpMultiply => Some(55u16),
        Key::KpDivide => Some(98u16),
        Key::Kp0 => Some(82u16),
        Key::Kp1 => Some(79u16),
        Key::Kp2 => Some(80u16),
        Key::Kp3 => Some(81u16),
        Key::Kp4 => Some(75u16),
        Key::Kp5 => Some(76u16),
        Key::Kp6 => Some(77u16),
        Key::Kp7 => Some(71u16),
        Key::Kp8 => Some(72u16),
        Key::Kp9 => Some(73u16),
        Key::KpDelete => Some(83u16),
        Key::Function => None,
        Key::Unknown(_) => None,
    }
}

/// The scancodes are Linux's: each key maps to the `KEY_*` code that the
/// kernel's `input-event-codes.h` gives it (listed here key by key, with
/// the kernel's name), `Fn` and unknown keys to none.
pub proof fn lemma_scancodes_are_the_kernel_codes()
    ensures
        evdev_code(Key::Alt) == Some(56u16), // KEY_LEFTALT
        evdev_code(Key::AltGr) == Some(100u16), // KEY_RIGHTALT
        evdev_code(Key::Backspace) == Some(14u16), // KEY_BACKSPACE
        evdev_code(Key::CapsLock) == Some(58u16), // KEY_CAPSLOCK
        evdev_code(Key::ControlLeft) == Some(29u16), // KEY_LEFTCTRL
        evdev_code(Key::ControlRight) == Some(97u16), // KEY_RIGHTCTRL
        evdev_code(Key::Delete) == Some(111u16), // KEY_DELETE
        evdev_code(Key::DownArrow) == Some(108u16), // KEY_DOWN
        evdev_code(Key::End) == Some(107u16), // KEY_END
        evdev_code(Key::Escape) == Some(1u16), // KEY_ESC
        evdev_code(Key::F1) == Some(59u16), // KEY_F1
        evdev_code(Key::F2) == Some(60u16), // KEY_F2
        evdev_code(Key::F3) == Some(61u16), // KEY_F3
        evdev_code(Key::F4) == Some(62u16), // KEY_F4
        evdev_code(Key::F5) == Some(63u16), // KEY_F5
        evdev_code(Key::F6) == Some(64u16), // KEY_F6
        evdev_code(Key::F7) == Some(65u16), // KEY_F7
        evdev_code(Key::F8) == Some(66u16), // KEY_F8
        evdev_code(Key::F9) == Some(67u16), // KEY_F9
        evdev_code(Key::F10) == Some(68u16), // KEY_F10
        evdev_code(Key::F11) == Some(87u16), // KEY_F11
        evdev_code(Key::F12) == Some(88u16), // KEY_F12
        evdev_code(Key::Home) == Some(102u16), // KEY_HOME
        evdev_code(Key::LeftArrow) == Some(105u16), // KEY_LEFT
        evdev_code(Key::MetaLeft) == Some(125u16), // KEY_LEFTMETA
        evdev_code(Key::MetaRight) == Some(126u16), // KEY_RIGHTMETA
        evdev_code(Key::PageDown) == Some(109u16), // KEY_PAGEDOWN
        evdev_code(Key::PageUp) == Some(104u16), // KEY_PAGEUP
        evdev_code(Key::Return) == Some(28u16), // KEY_ENTER
        evdev_code(Key::RightArrow) == Some(106u16), // KEY_RIGHT
        evdev_code(Key::ShiftLeft) == Some(42u16), // KEY_LEFTSHIFT
        evdev_code(Key::ShiftRight) == Some(54u16), // KEY_RIGHTSHIFT
        evdev_code(Key::Space) == Some(57u16), // KEY_SPACE
        evdev_code(Key::Tab) == Some(15u16), // KEY_TAB
        evdev_code(Key::UpArrow) == Some(103u16), // KEY_UP
        evdev_code(Key::PrintScreen) == Some(99u16), // KEY_SYSRQ
        evdev_code(Key::ScrollLock) == Some(70u16), // KEY_SCROLLLOCK
        evdev_code(Key::Pause) == Some(119u16), // KEY_PAUSE
        evdev_code(Key::NumLock) == Some(69u16), // KEY_NUMLOCK
        evdev_code(Key::BackQuote) == Some(41u16), // KEY_GRAVE
        evdev_code(Key::Num1) == Some(2u16), // KEY_1
        evdev_code(Key::Num2) == Some(3u16), // KEY_2
        evdev_code(Key::Num3) == Some(4u16), // KEY_3
        evdev_code(Key::Num4) == Some(5u16), // KEY_4
        evdev_code(Key::Num5) == Some(6u16), // KEY_5
        evdev_code(Key::Num6) == Some(7u16), // KEY_6
        evdev_code(Key::Num7) == Some(8u16), // KEY_7
        evdev_code(Key::Num8) == Some(9u16), // KEY_8
        evdev_code(Key::Num9) == Some(10u16), // KEY_9
        evdev_code(Key::Num0) == Some(11u16), // KEY_0
        evdev_code(Key::Minus) == Some(12u16), // KEY_MINUS
        evdev_code(Key::Equal) == Some(13u16), // KEY_EQUAL
        evdev_code(Key::KeyQ) == Some(16u16), // KEY_Q
        evdev_code(Key::KeyW) == Some(17u16), // KEY_W
        evdev_code(Key::KeyE) == Some(18u16), // KEY_E
        evdev_code(Key::KeyR) == Some(19u16), // KEY_R
        evdev_code(Key::KeyT) == Some(20u16), // KEY_T
        evdev_code(Key::KeyY) == Some(21u16), // KEY_Y
        evdev_code(Key::KeyU) == Some(22u16), // KEY_U
        evdev_code(Key::KeyI) == Some(23u16), // KEY_I
        evdev_code(Key::KeyO) == Some(24u16), // KEY_O
        evdev_code(Key::KeyP) == Some(25u16), // KEY_P
        evdev_code(Key::LeftBracket) == Some(26u16), // KEY_LEFTBRACE
        evdev_code(Key::RightBracket) == Some(27u16), // KEY_RIGHTBRACE
        evdev_code(Key::KeyA) == Some(30u16), // KEY_A
        evdev_code(Key::KeyS) == Some(31u16), // KEY_S
        evdev_code(Key::KeyD) == Some(32u16), // KEY_D
        evdev_code(Key::KeyF) == Some(33u16), // KEY_F
        evdev_code(Key::KeyG) == Some(34u16), // KEY_G
        evdev_code(Key::KeyH) == Some(35u16), // KEY_H
        evdev_code(Key::KeyJ) == Some(36u16), // KEY_J
        evdev_code(Key::KeyK) == Some(37u16), // KEY_K
        evdev_code(Key::KeyL) == Some(38u16), // KEY_L
        evdev_code(Key::SemiColon) == Some(39u16), // KEY_SEMICOLON
        evdev_code(Key::Quote) == Some(40u16), // KEY_APOSTROPHE
        evdev_code(Key::BackSlash) == Some(43u16), // KEY_BACKSLASH
        evdev_code(Key::IntlBackslash) == Some(86u16), // KEY_102ND
        evdev_code(Key::KeyZ) == Some(44u16), // KEY_Z
        evdev_code(Key::KeyX) == Some(45u16), // KEY_X
        evdev_code(Key::KeyC) == Some(46u16), // KEY_C
        evdev_code(Key::KeyV) == Some(47u16), // KEY_V
        evdev_code(Key::KeyB) == Some(48u16), // KEY_B
        evdev_code(Key::KeyN) == Some(49u16), // KEY_N
        evdev_code(Key::KeyM) == Some(50u16), // KEY_M
        evdev_code(Key::Comma) == Some(51u16), // KEY_COMMA
        evdev_code(Key::Dot) == Some(52u16), // KEY_DOT
        evdev_code(Key::Slash) == Some(53u16), // KEY_SLASH
        evdev_code(Key::Insert) == Some(110u16), // KEY_INSERT
        evdev_code(Key::KpReturn) == Some(96u16), // KEY_KPENTER
        evdev_code(Key::KpMinus) == Some(74u16), // KEY_KPMINUS
        evdev_code(Key::KpPlus) == Some(78u16), // KEY_KPPLUS
        evdev_code(Key::KpMultiply) == Some(55u16), // KEY_KPASTERISK
        evdev_code(Key::KpDivide) == Some(98u16), // KEY_KPSLASH
        evdev_code(Key::Kp0) == Some(82u16), // KEY_KP0
        evdev_code(Key::Kp1) == Some(79u16), // KEY_KP1
        evdev_code(Key::Kp2) == Some(80u16), // KEY_KP2
        evdev_code(Key::Kp3) == Some(81u16), // KEY_KP3
        evdev_code(Key::Kp4) == Some(75u16), // KEY_KP4
        evdev_code(Key::Kp5) == Some(76u16), // KEY_KP5
        evdev_code(Key::Kp6) == Some(77u16), // KEY_KP6
        evdev_code(Key::Kp7) == Some(71u16), // KEY_KP7
        evdev_code(Key::Kp8) == Some(72u16), // KEY_KP8
        evdev_code(Key::Kp9) == Some(73u16), // KEY_KP9
        evdev_code(Key::KpDelete) == Some(83u16), // KEY_KPDOT
        evdev_code(Key::Function) is None,
        forall|x: u32| (#[trigger] evdev_code(Key::Unknown(x))) is None,
{
}

/// Scancodes name keys one to one, and every code fits the key table.
pub proof fn lemma_evdev_codes_distinct(a: Key, b: Key)
    ensures
        evdev_code(a) matches Some(c) ==> (c as usize) < KEY_CNT,
        evdev_code(a) is Some && evdev_code(a) == evdev_code(b) ==> a == b,
{
}

/// The mouse-button slot of a button, as profiles number mouse buttons:
/// left 0, middle 1, right 2.
pub open spec fn button_slot(b: MouseButton) -> Option<usize> {
    match b {
        MouseButton::Left => Some(0usize),
        MouseButton::Middle => Some(1usize),
        MouseButton::Right => Some(2usize),
        MouseButton::Unknown(_) => None,
    }
}

/// The mouse-button slot of a button.
pub fn button_to_idx(button: &MouseButton) -> (r: Option<usize>)
    ensures
        r == button_slot(*button),
{
    match button {
        MouseButton::Left => Some(0),
        MouseButton::Middle => Some(1),
        MouseButton::Right => Some(2),
        MouseButton::Unknown(_) => None,
    }
}

} // verus!
