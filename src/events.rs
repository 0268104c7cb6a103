//! Canonical input events handed to the compositor's input stack, and the
//! virtual device they come from.

use vstd::prelude::*;
use crate::keymap::{MouseButton, spec_map_button, map_button};

verus! {

/// std's `PathBuf`, which vstd does not declare; only carried, never read.
#[verifier::external_type_specification]
#[verifier::external_body]
pub struct ExPathBuf(std::path::PathBuf);

/// Marker naming the input backend of the hosted window.
#[derive(Debug)]
pub struct WinitInput;

/// Press or release of a key or button.
#[derive(Debug, Clone, Copy, PartialEq, Eq, Structural)]
pub enum ElementState {
    Pressed,
    Released,
}

impl ElementState {
    /// The state for a `pressed` flag.
    pub open spec fn spec_from_pressed(pressed: bool) -> ElementState {
        if pressed {
            ElementState::Pressed
        } else {
            ElementState::Released
        }
    }

    pub fn from_pressed(pressed: bool) -> (r: ElementState)
        ensures
            r == Self::spec_from_pressed(pressed),
    {
        if pressed {
            ElementState::Pressed
        } else {
            ElementState::Released
        }
    }
}

/// Capabilities an input device may offer.
#[derive(Debug, Clone, Copy, PartialEq, Eq, Structural)]
pub enum DeviceCapability {
    Keyboard,
    Pointer,
    Touch,
    TabletTool,
    TabletPad,
    Gesture,
    Switch,
}

/// The single virtual device that all host input is attributed to.
#[derive(Debug, Clone, Copy, PartialEq, Eq, Structural)]
pub struct WinitVirtualDevice;

impl WinitVirtualDevice {
    pub fn id(&self) -> (r: String)
        ensures
            r@ == "winit"@,
    {
        "winit".to_string()
    }

    pub fn name(&self) -> (r: String)
        ensures
            r@ == "winit virtual input"@,
    {
        "winit virtual input".to_string()
    }

    /// The virtual device offers keyboard, pointer and touch input.
    pub fn has_capability(&self, capability: DeviceCapability) -> (r: bool)
        ensures
            r == (capability == DeviceCapability::Keyboard || capability
                == DeviceCapability::Pointer || capability == DeviceCapability::Touch),
    {
        match capability {
            DeviceCapability::Keyboard | DeviceCapability::Pointer | DeviceCapability::Touch => true,
            _ => false,
        }
    }

    pub fn usb_id(&self) -> (r: Option<(u32, u32)>)
        ensures
            r is None,
    {
        None
    }

    pub fn syspath(&self) -> (r: Option<std::path::PathBuf>)
        ensures
            r is None,
    {
        None
    }
}

/// The xkb keycode of an evdev code: evdev codes are offset by eight.
pub open spec fn spec_xkb_keycode(key: u32) -> u32 {
    ((key as int + 8) % 0x1_0000_0000) as u32
}

/// A keyboard key event in canonical (evdev) codes.
#[derive(Debug, Clone, Copy, PartialEq, Eq, Structural)]
pub struct WinitKeyboardInputEvent {
    pub time: u64,
    pub key: u32,
    pub count: u32,
    pub state: ElementState,
}

impl WinitKeyboardInputEvent {
    pub fn time(&self) -> (r: u64)
        ensures
            r == self.time,
    {
        self.time
    }

    pub fn device(&self) -> (r: WinitVirtualDevice) {
        WinitVirtualDevice
    }

    /// The xkb keycode of the event's key.
    pub fn key_code(&self) -> (r: u32)
        ensures
            r == spec_xkb_keycode(self.key),
    {
        self.key.wrapping_add(8)
    }

    pub fn state(&self) -> (r: ElementState)
        ensures
            r == self.state,
    {
        self.state
    }

    pub fn count(&self) -> (r: u32)
        ensures
            r == self.count,
    {
        self.count
    }
}

/// A pointer button event.
#[derive(Debug, Clone, Copy, PartialEq, Eq, Structural)]
pub struct WinitMouseInputEvent {
    pub time: u64,
    pub button: MouseButton,
    pub state: ElementState,
    pub is_x11: bool,
}

impl WinitMouseInputEvent {
    pub fn time(&self) -> (r: u64)
        ensures
            r == self.time,
    {
        self.time
    }

    pub fn device(&self) -> (r: WinitVirtualDevice) {
        WinitVirtualDevice
    }

    /// The canonical button code of the event's button.
    pub fn button_code(&self) -> (r: u32)
        ensures
            r == spec_map_button(self.button),
    {
        map_button(self.button)
    }

    pub fn state(&self) -> (r: ElementState)
        ensures
            r == self.state,
    {
        self.state
    }
}

/// How the host measured a scroll: in lines of a wheel or in pixels of a
/// continuous device.
#[derive(Debug, Clone, Copy, PartialEq, Eq, Structural)]
pub enum ScrollDeltaKind {
    LineDelta,
    PixelDelta,
}

/// Source of a pointer axis event.
#[derive(Debug, Clone, Copy, PartialEq, Eq, Structural)]
pub enum AxisSource {
    Wheel,
    Continuous,
    Finger,
    WheelTilt,
}

/// Direction of an axis event relative to the device's motion.
#[derive(Debug, Clone, Copy, PartialEq, Eq, Structural)]
pub enum AxisRelativeDirection {
    Identical,
    Inverted,
}

/// A pointer axis (scroll) event.
#[derive(Debug, Clone, Copy, PartialEq, Eq, Structural)]
pub struct WinitMouseWheelEvent {
    pub time: u64,
    pub delta: ScrollDeltaKind,
}

/// The axis source for a kind of scroll delta.
pub open spec fn spec_axis_source(delta: ScrollDeltaKind) -> AxisSource {
    match delta {
        ScrollDeltaKind::LineDelta => AxisSource::Wheel,
        ScrollDeltaKind::PixelDelta => AxisSource::Continuous,
    }
}

impl WinitMouseWheelEvent {
    pub fn time(&self) -> (r: u64)
        ensures
            r == self.time,
    {
        self.time
    }

    pub fn device(&self) -> (r: WinitVirtualDevice) {
        WinitVirtualDevice
    }

    /// Line deltas come from a wheel, pixel deltas from a continuous device.
    pub fn source(&self) -> (r: AxisSource)
        ensures
            r == spec_axis_source(self.delta),
    {
        match self.delta {
            ScrollDeltaKind::LineDelta => AxisSource::Wheel,
            ScrollDeltaKind::PixelDelta => AxisSource::Continuous,
        }
    }

    pub fn relative_direction(&self) -> (r: AxisRelativeDirection)
        ensures
            r == AxisRelativeDirection::Identical,
    {
        AxisRelativeDirection::Identical
    }
}

/// A canonical input event, as the compositor's input stack receives it.
#[derive(Debug, Clone, Copy, PartialEq, Eq, Structural)]
pub enum CanonicalInputEvent {
    Keyboard(WinitKeyboardInputEvent),
    PointerButton(WinitMouseInputEvent),
    PointerAxis(WinitMouseWheelEvent),
}

} // verus!
