//! Stand-in for the libinput device interface on hosts without libinput:
//! a device that accepts every setting and reports fixed defaults.

use vstd::prelude::*;
use crate::events::DeviceCapability;

verus! {

#[allow(non_camel_case_types)]
#[derive(Debug, Clone, Copy, PartialEq, Eq, Structural)]
pub enum SendEventsMode {
    DISABLED,
    DISABLED_ON_EXTERNAL_MOUSE,
    ENABLED,
}

#[derive(Debug, Clone, Copy, PartialEq, Eq, Structural)]
pub enum AccelProfile {
    Flat,
    Adaptive,
}

#[derive(Debug, Clone, Copy, PartialEq, Eq, Structural)]
pub enum ScrollMethod {
    NoScroll,
    TwoFinger,
    Edge,
    OnButtonDown,
}

#[derive(Debug, Clone, Copy, PartialEq, Eq, Structural)]
pub enum ScrollButtonLockState {
    Enabled,
    Disabled,
}

#[derive(Debug, Clone, Copy, PartialEq, Eq, Structural)]
pub enum ClickMethod {
    NoClick,
    ButtonAreas,
    Clickfinger,
}

#[allow(non_camel_case_types)]
#[derive(Debug, Clone, Copy, PartialEq, Eq, Structural)]
pub enum TapButtonMap {
    Lrm_,
    Lmr_,
}

/// A pointer or keyboard device without configurable hardware.
#[derive(Debug, Clone, Copy, PartialEq, Eq, Hash, Structural)]
pub struct Device;

impl Device {
    pub fn config_tap_finger_count(&self) -> (r: u32)
        ensures
            r == 0,
    {
        0
    }

    pub fn config_send_events_set_mode(&mut self, _mode: SendEventsMode) -> (r: Result<(), ()>)
        ensures
            r is Ok,
            *final(self) == *old(self),
    {
        Ok(())
    }

    pub fn config_tap_set_enabled(&mut self, _enable: bool) -> (r: Result<(), ()>)
        ensures
            r is Ok,
            *final(self) == *old(self),
    {
        Ok(())
    }

    pub fn config_dwt_set_enabled(&mut self, _enable: bool) -> (r: Result<(), ()>)
        ensures
            r is Ok,
            *final(self) == *old(self),
    {
        Ok(())
    }

    pub fn config_dwtp_set_enabled(&mut self, _enable: bool) -> (r: Result<(), ()>)
        ensures
            r is Ok,
            *final(self) == *old(self),
    {
        Ok(())
    }

    pub fn config_tap_set_drag_lock_enabled(&mut self, _enable: bool) -> (r: Result<(), ()>)
        ensures
            r is Ok,
            *final(self) == *old(self),
    {
        Ok(())
    }

    pub fn config_scroll_set_natural_scroll_enabled(&mut self, _enable: bool) -> (r: Result<(), ()>)
        ensures
            r is Ok,
            *final(self) == *old(self),
    {
        Ok(())
    }

    pub fn config_left_handed_set(&mut self, _left: bool) -> (r: Result<(), ()>)
        ensures
            r is Ok,
            *final(self) == *old(self),
    {
        Ok(())
    }

    pub fn config_middle_emulation_set_enabled(&mut self, _enable: bool) -> (r: Result<(), ()>)
        ensures
            r is Ok,
            *final(self) == *old(self),
    {
        Ok(())
    }

    pub fn config_tap_set_drag_enabled(&mut self, _enable: bool) -> (r: Result<(), ()>)
        ensures
            r is Ok,
            *final(self) == *old(self),
    {
        Ok(())
    }

    pub fn config_tap_default_drag_enabled(&self) -> (r: bool)
        ensures
            r,
    {
        true
    }

    pub fn config_accel_set_profile(&mut self, _profile: AccelProfile) -> (r: Result<(), ()>)
        ensures
            r is Ok,
            *final(self) == *old(self),
    {
        Ok(())
    }

    pub fn config_accel_default_profile(&self) -> (r: Option<AccelProfile>)
        ensures
            r is None,
    {
        None
    }

    pub fn config_scroll_set_method(&mut self, _method: ScrollMethod) -> (r: Result<(), ()>)
        ensures
            r is Ok,
            *final(self) == *old(self),
    {
        Ok(())
    }

    pub fn config_scroll_default_method(&self) -> (r: Option<ScrollMethod>)
        ensures
            r == Some(ScrollMethod::TwoFinger),
    {
        Some(ScrollMethod::TwoFinger)
    }

    pub fn config_scroll_set_button(&mut self, _button: u32) -> (r: Result<(), ()>)
        ensures
            r is Ok,
            *final(self) == *old(self),
    {
        Ok(())
    }

    pub fn config_scroll_set_button_lock(&mut self, _state: ScrollButtonLockState) -> (r: Result<(), ()>)
        ensures
            r is Ok,
            *final(self) == *old(self),
    {
        Ok(())
    }

    pub fn config_scroll_natural_scroll_enabled(&self) -> (r: bool)
        ensures
            !r,
    {
        false
    }

    pub fn config_tap_set_button_map(&mut self, _map: TapButtonMap) -> (r: Result<(), ()>)
        ensures
            r is Ok,
            *final(self) == *old(self),
    {
        Ok(())
    }

    pub fn config_tap_default_button_map(&self) -> (r: Option<TapButtonMap>)
        ensures
            r == Some(TapButtonMap::Lrm_),
    {
        Some(TapButtonMap::Lrm_)
    }

    pub fn config_click_set_method(&mut self, _method: ClickMethod) -> (r: Result<(), ()>)
        ensures
            r is Ok,
            *final(self) == *old(self),
    {
        Ok(())
    }

    pub fn config_click_default_method(&self) -> (r: Option<ClickMethod>)
        ensures
            r == Some(ClickMethod::ButtonAreas),
    {
        Some(ClickMethod::ButtonAreas)
    }

    /// The device reports no capability.
    pub fn has_capability(&self, _cap: DeviceCapability) -> (r: bool)
        ensures
            !r,
    {
        false
    }

    pub fn id(&self) -> (r: String)
        ensures
            r@ == "macos-stub"@,
    {
        "macos-stub".to_string()
    }

    pub fn name(&self) -> (r: String)
        ensures
            r@ == "macOS Stub Device"@,
    {
        "macOS Stub Device".to_string()
    }

    pub fn usb_id(&self) -> (r: Option<(u32, u32)>)
        ensures
            r is None,
    {
        None
    }

    pub fn syspath(&self) -> (r: Option<std::path::PathBuf>)
        ensures
            r is None,
    {
        None
    }
}

/// Touchpad gesture events, which a hosted window never produces.
pub struct GestureSwipeBeginEvent;

pub struct GestureSwipeUpdateEvent;

pub struct GestureSwipeEndEvent;

pub struct GesturePinchBeginEvent;

pub struct GesturePinchUpdateEvent;

pub struct GesturePinchEndEvent;

pub struct GestureHoldBeginEvent;

pub struct GestureHoldEndEvent;

} // verus!
