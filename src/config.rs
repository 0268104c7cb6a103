//! The compositor's input settings that this backend reads, and their
//! conversion into the stand-in device's setting values.

use vstd::prelude::*;
use crate::input_shim;

verus! {

/// Which modifier the compositor's bindings use as their main key.
#[derive(Debug, Clone, Copy, PartialEq, Eq, Structural)]
pub enum ModKey {
    Ctrl,
    Shift,
    Alt,
    Super,
    IsoLevel3Shift,
    IsoLevel5Shift,
}

/// The input settings that choose the main modifier.
#[derive(Debug, Clone, Copy, PartialEq, Eq, Structural)]
pub struct InputConfig {
    pub mod_key: Option<ModKey>,
    pub mod_key_nested: Option<ModKey>,
}

/// Configured pointer acceleration profile.
#[derive(Debug, Clone, Copy, PartialEq, Eq, Structural)]
pub enum AccelProfile {
    Adaptive,
    Flat,
}

/// Configured scroll method.
#[derive(Debug, Clone, Copy, PartialEq, Eq, Structural)]
pub enum ScrollMethod {
    NoScroll,
    TwoFinger,
    Edge,
    OnButtonDown,
}

/// Configured click method.
#[derive(Debug, Clone, Copy, PartialEq, Eq, Structural)]
pub enum ClickMethod {
    ButtonAreas,
    Clickfinger,
}

/// Configured tap-to-button mapping.
#[derive(Debug, Clone, Copy, PartialEq, Eq, Structural)]
pub enum TapButtonMap {
    LeftRightMiddle,
    LeftMiddleRight,
}

/// The stand-in device always uses the adaptive profile.
impl From<AccelProfile> for input_shim::AccelProfile {
    fn from(_p: AccelProfile) -> (r: input_shim::AccelProfile) {
        input_shim::AccelProfile::Adaptive
    }
}

impl vstd::std_specs::convert::FromSpecImpl<AccelProfile> for input_shim::AccelProfile {
    open spec fn obeys_from_spec() -> bool {
        true
    }

    open spec fn from_spec(v: AccelProfile) -> input_shim::AccelProfile {
        input_shim::AccelProfile::Adaptive
    }
}

impl From<ScrollMethod> for input_shim::ScrollMethod {
    fn from(m: ScrollMethod) -> (r: input_shim::ScrollMethod) {
        match m {
            ScrollMethod::NoScroll => input_shim::ScrollMethod::NoScroll,
            ScrollMethod::TwoFinger => input_shim::ScrollMethod::TwoFinger,
            ScrollMethod::Edge => input_shim::ScrollMethod::Edge,
            ScrollMethod::OnButtonDown => input_shim::ScrollMethod::OnButtonDown,
        }
    }
}

impl vstd::std_specs::convert::FromSpecImpl<ScrollMethod> for input_shim::ScrollMethod {
    open spec fn obeys_from_spec() -> bool {
        true
    }

    open spec fn from_spec(m: ScrollMethod) -> input_shim::ScrollMethod {
        match m {
            ScrollMethod::NoScroll => input_shim::ScrollMethod::NoScroll,
            ScrollMethod::TwoFinger => input_shim::ScrollMethod::TwoFinger,
            ScrollMethod::Edge => input_shim::ScrollMethod::Edge,
            ScrollMethod::OnButtonDown => input_shim::ScrollMethod::OnButtonDown,
        }
    }
}

impl From<ClickMethod> for input_shim::ClickMethod {
    fn from(m: ClickMethod) -> (r: input_shim::ClickMethod) {
        match m {
            ClickMethod::ButtonAreas => input_shim::ClickMethod::ButtonAreas,
            ClickMethod::Clickfinger => input_shim::ClickMethod::Clickfinger,
        }
    }
}

impl vstd::std_specs::convert::FromSpecImpl<ClickMethod> for input_shim::ClickMethod {
    open spec fn obeys_from_spec() -> bool {
        true
    }

    open spec fn from_spec(m: ClickMethod) -> input_shim::ClickMethod {
        match m {
            ClickMethod::ButtonAreas => input_shim::ClickMethod::ButtonAreas,
            ClickMethod::Clickfinger => input_shim::ClickMethod::Clickfinger,
        }
    }
}

/// The stand-in device always maps taps left, right, middle.
impl From<TapButtonMap> for input_shim::TapButtonMap {
    fn from(_m: TapButtonMap) -> (r: input_shim::TapButtonMap) {
        input_shim::TapButtonMap::Lrm_
    }
}

impl vstd::std_specs::convert::FromSpecImpl<TapButtonMap> for input_shim::TapButtonMap {
    open spec fn obeys_from_spec() -> bool {
        true
    }

    open spec fn from_spec(m: TapButtonMap) -> input_shim::TapButtonMap {
        input_shim::TapButtonMap::Lrm_
    }
}

} // verus!
