//! Mapping of host key and mouse-button identifiers into the
//! compositor's canonical (evdev) code space.

use vstd::prelude::*;

verus! {

/// Physical key identifiers delivered by the host windowing toolkit.
///
/// `Other` stands for every key that the canonical table does not cover;
/// such keys reach the compositor through their raw host scancode.
#[derive(Debug, Clone, Copy, PartialEq, Eq, Structural)]
pub enum KeyCode {
    Escape,
    Digit1,
    Digit2,
    Digit3,
    Digit4,
    Digit5,
    Digit6,
    Digit7,
    Digit8,
    Digit9,
    Digit0,
    Minus,
    Equal,
    Backspace,
    Tab,
    KeyQ,
    KeyW,
    KeyE,
    KeyR,
    KeyT,
    KeyY,
    KeyU,
    KeyI,
    KeyO,
    KeyP,
    BracketLeft,
    BracketRight,
    Enter,
    ControlLeft,
    KeyA,
    KeyS,
    KeyD,
    KeyF,
    KeyG,
    KeyH,
    KeyJ,
    KeyK,
    KeyL,
    Semicolon,
    Quote,
    Backquote,
    ShiftLeft,
    Backslash,
    KeyZ,
    KeyX,
    KeyC,
    KeyV,
    KeyB,
    KeyN,
    KeyM,
    Comma,
    Period,
    Slash,
    ShiftRight,
    AltLeft,
    Space,
    CapsLock,
    F1,
    F2,
    F3,
    F4,
    F5,
    F6,
    F7,
    F8,
    F9,
    F10,
    AltRight,
    ArrowUp,
    ArrowLeft,
    ArrowRight,
    ArrowDown,
    SuperLeft,
    SuperRight,
    ControlRight,
    Other,
}

/// A host physical key: either a known key code or an unidentified key.
#[derive(Debug, Clone, Copy, PartialEq, Eq, Structural)]
pub enum PhysicalKey {
    Code(KeyCode),
    Unidentified,
}

/// The canonical evdev code of a key code, where the table has one.
pub open spec fn evdev_code(code: KeyCode) -> Option<u32> {
    match code {
        KeyCode::Escape => Some(1u32),
        KeyCode::Digit1 => Some(2u32),
        KeyCode::Digit2 => Some(3u32),
        KeyCode::Digit3 => Some(4u32),
        KeyCode::Digit4 => Some(5u32),
        KeyCode::Digit5 => Some(6u32),
        KeyCode::Digit6 => Some(7u32),
        KeyCode::Digit7 => Some(8u32),
        KeyCode::Digit8 => Some(9u32),
        KeyCode::Digit9 => Some(10u32),
        KeyCode::Digit0 => Some(11u32),
        KeyCode::Minus => Some(12u32),
        KeyCode::Equal => Some(13u32),
        KeyCode::Backspace => Some(14u32),
        KeyCode::Tab => Some(15u32),
        KeyCode::KeyQ => Some(16u32),
        KeyCode::KeyW => Some(17u32),
        KeyCode::KeyE => Some(18u32),
        KeyCode::KeyR => Some(19u32),
        KeyCode::KeyT => Some(20u32),
        KeyCode::KeyY => Some(21u32),
        KeyCode::KeyU => Some(22u32),
        KeyCode::KeyI => Some(23u32),
        KeyCode::KeyO => Some(24u32),
        KeyCode::KeyP => Some(25u32),
        KeyCode::BracketLeft => Some(26u32),
        KeyCode::BracketRight => Some(27u32),
        KeyCode::Enter => Some(28u32),
        KeyCode::ControlLeft => Some(29u32),
        KeyCode::KeyA => Some(30u32),
        KeyCode::KeyS => Some(31u32),
        KeyCode::KeyD => Some(32u32),
        KeyCode::KeyF => Some(33u32),
        KeyCode::KeyG => Some(34u32),
        KeyCode::KeyH => Some(35u32),
        KeyCode::KeyJ => Some(36u32),
        KeyCode::KeyK => Some(37u32),
        KeyCode::KeyL => Some(38u32),
        KeyCode::Semicolon => Some(39u32),
        KeyCode::Quote => Some(40u32),
        KeyCode::Backquote => Some(41u32),
        KeyCode::ShiftLeft => Some(42u32),
        KeyCode::Backslash => Some(43u32),
        KeyCode::KeyZ => Some(44u32),
        KeyCode::KeyX => Some(45u32),
        KeyCode::KeyC => Some(46u32),
        KeyCode::KeyV => Some(47u32),
        KeyCode::KeyB => Some(48u32),
        KeyCode::KeyN => Some(49u32),
        KeyCode::KeyM => Some(50u32),
        KeyCode::Comma => Some(51u32),
        KeyCode::Period => Some(52u32),
        KeyCode::Slash => Some(53u32),
        KeyCode::ShiftRight => Some(54u32),
        KeyCode::AltLeft => Some(56u32),
        KeyCode::Space => Some(57u32),
        KeyCode::CapsLock => Some(58u32),
        KeyCode::F1 => Some(59u32),
        KeyCode::F2 => Some(60u32),
        KeyCode::F3 => Some(61u32),
        KeyCode::F4 => Some(62u32),
        KeyCode::F5 => Some(63u32),
        KeyCode::F6 => Some(64u32),
        KeyCode::F7 => Some(65u32),
        KeyCode::F8 => Some(66u32),
        KeyCode::F9 => Some(67u32),
        KeyCode::F10 => Some(68u32),
        KeyCode::AltRight => Some(100u32),
        KeyCode::ArrowUp => Some(103u32),
        KeyCode::ArrowLeft => Some(105u32),
        KeyCode::ArrowRight => Some(106u32),
        KeyCode::ArrowDown => Some(108u32),
        KeyCode::SuperLeft => Some(125u32),
        KeyCode::SuperRight => Some(126u32),
        _ => None,
    }
}

/// The canonical code of a physical key, where the table has one.
pub open spec fn spec_map_key(key: PhysicalKey) -> Option<u32> {
    match key {
        PhysicalKey::Code(code) => evdev_code(code),
        PhysicalKey::Unidentified => None,
    }
}

/// The code forwarded for a key: the table's code, or else the raw host scancode.
pub open spec fn spec_canonical_code(key: PhysicalKey, raw_scancode: u32) -> u32 {
    match spec_map_key(key) {
        Some(c) => c,
        None => raw_scancode,
    }
}

/// Looks up the canonical evdev code of a physical key.
pub fn map_key(key: PhysicalKey) -> (r: Option<u32>)
    ensures
        r == spec_map_key(key),
{
    match key {
        PhysicalKey::Code(code) => match code {
            KeyCode::Escape => Some(1),
            KeyCode::Digit1 => Some(2),
            KeyCode::Digit2 => Some(3),
            KeyCode::Digit3 => Some(4),
            KeyCode::Digit4 => Some(5),
            KeyCode::Digit5 => Some(6),
            KeyCode::Digit6 => Some(7),
            KeyCode::Digit7 => Some(8),
            KeyCode::Digit8 => Some(9),
            KeyCode::Digit9 => Some(10),
            KeyCode::Digit0 => Some(11),
            KeyCode::Minus => Some(12),
            KeyCode::Equal => Some(13),
            KeyCode::Backspace => Some(14),
            KeyCode::Tab => Some(15),
            KeyCode::KeyQ => Some(16),
            KeyCode::KeyW => Some(17),
            KeyCode::KeyE => Some(18),
            KeyCode::KeyR => Some(19),
            KeyCode::KeyT => Some(20),
            KeyCode::KeyY => Some(21),
            KeyCode::KeyU => Some(22),
            KeyCode::KeyI => Some(23),
            KeyCode::KeyO => Some(24),
            KeyCode::KeyP => Some(25),
            KeyCode::BracketLeft => Some(26),
            KeyCode::BracketRight => Some(27),
            KeyCode::Enter => Some(28),
            KeyCode::ControlLeft => Some(29),
            KeyCode::KeyA => Some(30),
            KeyCode::KeyS => Some(31),
            KeyCode::KeyD => Some(32),
            KeyCode::KeyF => Some(33),
            KeyCode::KeyG => Some(34),
            KeyCode::KeyH => Some(35),
            KeyCode::KeyJ => Some(36),
            KeyCode::KeyK => Some(37),
            KeyCode::KeyL => Some(38),
            KeyCode::Semicolon => Some(39),
            KeyCode::Quote => Some(40),
            KeyCode::Backquote => Some(41),
            KeyCode::ShiftLeft => Some(42),
            KeyCode::Backslash => Some(43),
            KeyCode::KeyZ => Some(44),
            KeyCode::KeyX => Some(45),
            KeyCode::KeyC => Some(46),
            KeyCode::KeyV => Some(47),
            KeyCode::KeyB => Some(48),
            KeyCode::KeyN => Some(49),
            KeyCode::KeyM => Some(50),
            KeyCode::Comma => Some(51),
            KeyCode::Period => Some(52),
            KeyCode::Slash => Some(53),
            KeyCode::ShiftRight => Some(54),
            KeyCode::AltLeft => Some(56),
            KeyCode::Space => Some(57),
            KeyCode::CapsLock => Some(58),
            KeyCode::F1 => Some(59),
            KeyCode::F2 => Some(60),
            KeyCode::F3 => Some(61),
            KeyCode::F4 => Some(62),
            KeyCode::F5 => Some(63),
            KeyCode::F6 => Some(64),
            KeyCode::F7 => Some(65),
            KeyCode::F8 => Some(66),
            KeyCode::F9 => Some(67),
            KeyCode::F10 => Some(68),
            KeyCode::AltRight => Some(100),
            KeyCode::ArrowUp => Some(103),
            KeyCode::ArrowLeft => Some(105),
            KeyCode::ArrowRight => Some(106),
            KeyCode::ArrowDown => Some(108),
            KeyCode::SuperLeft => Some(125),
            KeyCode::SuperRight => Some(126),
            _ => None,
        },
        PhysicalKey::Unidentified => None,
    }
}

/// The code forwarded for a key event: the table's code when there is one,
/// otherwise the raw host scancode, so that no key is lost.
pub fn canonical_code(key: PhysicalKey, raw_scancode: u32) -> (r: u32)
    ensures
        r == spec_canonical_code(key, raw_scancode),
{
    match map_key(key) {
        Some(c) => c,
        None => raw_scancode,
    }
}

/// Whether a key code is one of the eight physical modifier keys.
pub open spec fn spec_is_modifier_code(code: KeyCode) -> bool {
    code == KeyCode::ShiftLeft || code == KeyCode::ShiftRight || code == KeyCode::ControlLeft
        || code == KeyCode::ControlRight || code == KeyCode::AltLeft || code == KeyCode::AltRight
        || code == KeyCode::SuperLeft || code == KeyCode::SuperRight
}

/// Whether a physical key is a modifier key.
pub open spec fn spec_is_modifier_key(key: PhysicalKey) -> bool {
    match key {
        PhysicalKey::Code(code) => spec_is_modifier_code(code),
        PhysicalKey::Unidentified => false,
    }
}

/// Tells whether a physical key is a modifier key (Shift, Control, Alt or
/// Super, left or right).
pub fn is_modifier_key(key: PhysicalKey) -> (r: bool)
    ensures
        r == spec_is_modifier_key(key),
{
    match key {
        PhysicalKey::Code(code) => match code {
            KeyCode::ShiftLeft | KeyCode::ShiftRight | KeyCode::ControlLeft
            | KeyCode::ControlRight | KeyCode::AltLeft | KeyCode::AltRight
            | KeyCode::SuperLeft | KeyCode::SuperRight => true,
            _ => false,
        },
        PhysicalKey::Unidentified => false,
    }
}

/// Calling the key mapper twice on one input gives one output: the mapper
/// is a function of its input alone.
pub proof fn lemma_map_key_stable(key: PhysicalKey, raw_scancode: u32)
    ensures
        spec_map_key(key) == spec_map_key(key),
        spec_canonical_code(key, raw_scancode) == spec_canonical_code(key, raw_scancode),
{
}

/// Mouse buttons delivered by the host.
#[derive(Debug, Clone, Copy, PartialEq, Eq, Structural)]
pub enum MouseButton {
    Left,
    Right,
    Middle,
    Back,
    Forward,
    Other(u16),
}

/// The canonical (evdev) button code of a mouse button.
pub open spec fn spec_map_button(button: MouseButton) -> u32 {
    match button {
        MouseButton::Left => 0x110,
        MouseButton::Right => 0x111,
        MouseButton::Middle => 0x112,
        MouseButton::Forward => 0x115,
        MouseButton::Back => 0x116,
        MouseButton::Other(b) => b as u32,
    }
}

/// Maps a host mouse button to its canonical button code.
pub fn map_button(button: MouseButton) -> (r: u32)
    ensures
        r == spec_map_button(button),
{
    match button {
        MouseButton::Left => 0x110,
        MouseButton::Right => 0x111,
        MouseButton::Middle => 0x112,
        MouseButton::Forward => 0x115,
        MouseButton::Back => 0x116,
        MouseButton::Other(b) => b as u32,
    }
}

} // verus!
