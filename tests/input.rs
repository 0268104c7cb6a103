use niri_hosted::debounce::{DebounceTable, DEBOUNCE_WINDOW_US};
use niri_hosted::events::{
    AxisSource, CanonicalInputEvent, DeviceCapability, ElementState, ScrollDeltaKind,
    WinitKeyboardInputEvent, WinitMouseInputEvent, WinitMouseWheelEvent, WinitVirtualDevice,
};
use niri_hosted::keymap::{canonical_code, is_modifier_key, map_button, map_key, KeyCode, MouseButton, PhysicalKey};
use niri_hosted::modifiers::{synthesize_modifier_events, ModifierMask};
use niri_hosted::normalize::{HostInputEvent, InputNormalizer};

fn mask(shift: bool, control: bool, alt: bool, super_key: bool) -> ModifierMask {
    ModifierMask { shift, control, alt, super_key }
}

fn key(code: KeyCode, pressed: bool) -> HostInputEvent {
    HostInputEvent::Key { key: PhysicalKey::Code(code), scancode: 0, pressed, repeat: false }
}

fn key_events(events: &[CanonicalInputEvent]) -> Vec<WinitKeyboardInputEvent> {
    events
        .iter()
        .filter_map(|e| match e {
            CanonicalInputEvent::Keyboard(k) => Some(*k),
            _ => None,
        })
        .collect()
}

#[test]
fn map_key_letters_digits_and_arrows() {
    assert_eq!(map_key(PhysicalKey::Code(KeyCode::KeyQ)), Some(16));
    assert_eq!(map_key(PhysicalKey::Code(KeyCode::KeyA)), Some(30));
    assert_eq!(map_key(PhysicalKey::Code(KeyCode::Digit0)), Some(11));
    assert_eq!(map_key(PhysicalKey::Code(KeyCode::Escape)), Some(1));
    assert_eq!(map_key(PhysicalKey::Code(KeyCode::F10)), Some(68));
    assert_eq!(map_key(PhysicalKey::Code(KeyCode::ArrowDown)), Some(108));
    assert_eq!(map_key(PhysicalKey::Code(KeyCode::SuperRight)), Some(126));
    assert_eq!(map_key(PhysicalKey::Code(KeyCode::AltRight)), Some(100));
}

#[test]
fn map_key_unmapped_keys() {
    assert_eq!(map_key(PhysicalKey::Code(KeyCode::Other)), None);
    assert_eq!(map_key(PhysicalKey::Code(KeyCode::ControlRight)), None);
    assert_eq!(map_key(PhysicalKey::Unidentified), None);
}

#[test]
fn map_key_is_stable() {
    for k in [
        PhysicalKey::Code(KeyCode::KeyQ),
        PhysicalKey::Code(KeyCode::Space),
        PhysicalKey::Code(KeyCode::Other),
        PhysicalKey::Unidentified,
    ] {
        assert_eq!(map_key(k), map_key(k));
        assert_eq!(canonical_code(k, 99), canonical_code(k, 99));
    }
}

#[test]
fn canonical_code_falls_back_to_raw_scancode() {
    assert_eq!(canonical_code(PhysicalKey::Code(KeyCode::KeyW), 13), 17);
    assert_eq!(canonical_code(PhysicalKey::Code(KeyCode::Other), 111), 111);
    assert_eq!(canonical_code(PhysicalKey::Unidentified, 0), 0);
}

#[test]
fn modifier_keys_recognised() {
    for c in [
        KeyCode::ShiftLeft,
        KeyCode::ShiftRight,
        KeyCode::ControlLeft,
        KeyCode::ControlRight,
        KeyCode::AltLeft,
        KeyCode::AltRight,
        KeyCode::SuperLeft,
        KeyCode::SuperRight,
    ] {
        assert!(is_modifier_key(PhysicalKey::Code(c)));
    }
    assert!(!is_modifier_key(PhysicalKey::Code(KeyCode::CapsLock)));
    assert!(!is_modifier_key(PhysicalKey::Unidentified));
}

#[test]
fn map_button_codes() {
    assert_eq!(map_button(MouseButton::Left), 0x110);
    assert_eq!(map_button(MouseButton::Right), 0x111);
    assert_eq!(map_button(MouseButton::Middle), 0x112);
    assert_eq!(map_button(MouseButton::Forward), 0x115);
    assert_eq!(map_button(MouseButton::Back), 0x116);
    assert_eq!(map_button(MouseButton::Other(9)), 9);
}

#[test]
fn keyboard_event_xkb_keycode() {
    let e = WinitKeyboardInputEvent { time: 3, key: 16, count: 1, state: ElementState::Pressed };
    assert_eq!(e.key_code(), 24);
    assert_eq!(e.time(), 3);
    assert_eq!(e.count(), 1);
    assert_eq!(e.state(), ElementState::Pressed);
    let top = WinitKeyboardInputEvent { time: 0, key: u32::MAX, count: 1, state: ElementState::Released };
    assert_eq!(top.key_code(), 7);
}

#[test]
fn virtual_device_description() {
    let d = WinitVirtualDevice;
    assert_eq!(d.id(), "winit");
    assert_eq!(d.name(), "winit virtual input");
    assert!(d.has_capability(DeviceCapability::Keyboard));
    assert!(d.has_capability(DeviceCapability::Pointer));
    assert!(d.has_capability(DeviceCapability::Touch));
    assert!(!d.has_capability(DeviceCapability::Gesture));
    assert!(d.usb_id().is_none());
    assert!(d.syspath().is_none());
}

#[test]
fn wheel_source_by_delta_kind() {
    let line = WinitMouseWheelEvent { time: 1, delta: ScrollDeltaKind::LineDelta };
    let pixel = WinitMouseWheelEvent { time: 1, delta: ScrollDeltaKind::PixelDelta };
    assert_eq!(line.source(), AxisSource::Wheel);
    assert_eq!(pixel.source(), AxisSource::Continuous);
}

#[test]
fn button_event_code() {
    let e = WinitMouseInputEvent { time: 2, button: MouseButton::Right, state: ElementState::Released, is_x11: false };
    assert_eq!(e.button_code(), 0x111);
    assert_eq!(e.state(), ElementState::Released);
}

#[test]
fn debounce_window_edges() {
    let mut t = DebounceTable::new();
    assert!(!t.should_suppress(16, 1_000_000));
    assert!(t.should_suppress(16, 1_000_000 + DEBOUNCE_WINDOW_US - 1));
    assert_eq!(t.last_press(16), Some(1_000_000));
    assert!(!t.should_suppress(16, 1_000_000 + DEBOUNCE_WINDOW_US));
    assert_eq!(t.last_press(16), Some(1_000_000 + DEBOUNCE_WINDOW_US));
    // Another code is independent.
    assert!(!t.should_suppress(17, 1_000_000 + DEBOUNCE_WINDOW_US));
    // A clock that runs backwards counts as no time elapsed.
    assert!(t.should_suppress(17, 10));
}

#[test]
fn modifier_synthesis_counts_flips() {
    let e = synthesize_modifier_events(mask(true, true, false, false), mask(false, true, true, true), 7);
    assert_eq!(e.len(), 3);
    assert_eq!((e[0].key, e[0].state), (42, ElementState::Released));
    assert_eq!((e[1].key, e[1].state), (56, ElementState::Pressed));
    assert_eq!((e[2].key, e[2].state), (125, ElementState::Pressed));
    assert!(e.iter().all(|k| k.time == 7 && k.count == 1));
    let none = synthesize_modifier_events(mask(true, false, true, false), mask(true, false, true, false), 7);
    assert!(none.is_empty());
    let all = synthesize_modifier_events(mask(false, false, false, false), mask(true, true, true, true), 1);
    let codes: Vec<u32> = all.iter().map(|k| k.key).collect();
    assert_eq!(codes, vec![42, 29, 56, 125]);
}

#[test]
fn shift_press_synthesised_first() {
    let mut n = InputNormalizer::new();
    let out = n.normalize(HostInputEvent::ModifiersChanged(mask(true, false, false, false)), 100);
    assert_eq!(out.len(), 1);
    assert_eq!(
        out[0],
        CanonicalInputEvent::Keyboard(WinitKeyboardInputEvent {
            time: 100,
            key: 42,
            count: 1,
            state: ElementState::Pressed,
        })
    );
    assert_eq!(n.modifiers(), mask(true, false, false, false));
    let release = n.normalize(HostInputEvent::ModifiersChanged(mask(false, false, false, false)), 200);
    assert_eq!(key_events(&release)[0].state, ElementState::Released);
}

#[test]
fn rapid_double_press_of_q() {
    let mut n = InputNormalizer::new();
    let mut forwarded = Vec::new();
    forwarded.extend(n.normalize(key(KeyCode::KeyQ, true), 5_000_000));
    forwarded.extend(n.normalize(key(KeyCode::KeyQ, true), 5_010_000));
    let keys = key_events(&forwarded);
    assert_eq!(keys.len(), 1);
    assert_eq!(keys[0].key, 16);
    assert_eq!(keys[0].state, ElementState::Pressed);
}

#[test]
fn release_forwarded_after_suppressed_press() {
    let mut n = InputNormalizer::new();
    let mut forwarded = Vec::new();
    forwarded.extend(n.normalize(key(KeyCode::KeyE, true), 1_000));
    forwarded.extend(n.normalize(key(KeyCode::KeyE, false), 2_000));
    forwarded.extend(n.normalize(key(KeyCode::KeyE, true), 3_000));
    forwarded.extend(n.normalize(key(KeyCode::KeyE, false), 4_000));
    let keys = key_events(&forwarded);
    let presses = keys.iter().filter(|k| k.state == ElementState::Pressed).count();
    let releases = keys.iter().filter(|k| k.state == ElementState::Released).count();
    assert_eq!(presses, 1);
    assert_eq!(releases, 2);
    // After the window the key is accepted again.
    let later = n.normalize(key(KeyCode::KeyE, true), 1_000 + DEBOUNCE_WINDOW_US);
    assert_eq!(later.len(), 1);
}

#[test]
fn repeat_events_dropped() {
    let mut n = InputNormalizer::new();
    for pressed in [true, false] {
        let out = n.normalize(
            HostInputEvent::Key { key: PhysicalKey::Code(KeyCode::KeyJ), scancode: 0, pressed, repeat: true },
            10,
        );
        assert!(out.is_empty());
    }
    // The repeat did not record a press.
    assert_eq!(n.normalize(key(KeyCode::KeyJ, true), 11).len(), 1);
}

#[test]
fn real_modifier_key_events_dropped() {
    let mut n = InputNormalizer::new();
    for c in [KeyCode::ShiftLeft, KeyCode::ControlRight, KeyCode::AltLeft, KeyCode::SuperRight] {
        assert!(n.normalize(key(c, true), 10).is_empty());
        assert!(n.normalize(key(c, false), 20).is_empty());
    }
}

#[test]
fn unmapped_key_uses_raw_scancode() {
    let mut n = InputNormalizer::new();
    let out = n.normalize(
        HostInputEvent::Key { key: PhysicalKey::Code(KeyCode::Other), scancode: 87, pressed: true, repeat: false },
        50,
    );
    assert_eq!(key_events(&out)[0].key, 87);
}

#[test]
fn pointer_button_and_wheel_forwarded() {
    let mut n = InputNormalizer::new();
    let b = n.normalize(HostInputEvent::MouseButton { button: MouseButton::Left, pressed: true }, 9);
    assert_eq!(
        b,
        vec![CanonicalInputEvent::PointerButton(WinitMouseInputEvent {
            time: 9,
            button: MouseButton::Left,
            state: ElementState::Pressed,
            is_x11: false,
        })]
    );
    let w = n.normalize(HostInputEvent::MouseWheel { delta: ScrollDeltaKind::PixelDelta }, 10);
    assert_eq!(
        w,
        vec![CanonicalInputEvent::PointerAxis(WinitMouseWheelEvent { time: 10, delta: ScrollDeltaKind::PixelDelta })]
    );
}
