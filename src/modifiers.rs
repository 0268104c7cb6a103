//! Synthesis of modifier key events from host modifier-state snapshots.

use vstd::prelude::*;
use crate::events::{ElementState, WinitKeyboardInputEvent};

verus! {

/// Evdev code of the left Shift key.
pub const SHIFT_LEFT_CODE: u32 = 42;
/// Evdev code of the left Control key.
pub const CONTROL_LEFT_CODE: u32 = 29;
/// Evdev code of the left Alt key.
pub const ALT_LEFT_CODE: u32 = 56;
/// Evdev code of the left Super key.
pub const SUPER_LEFT_CODE: u32 = 125;

/// The set of modifiers that the host reports as held.
#[derive(Debug, Clone, Copy, PartialEq, Eq, Structural)]
pub struct ModifierMask {
    pub shift: bool,
    pub control: bool,
    pub alt: bool,
    pub super_key: bool,
}

impl ModifierMask {
    pub fn empty() -> (r: ModifierMask)
        ensures
            !r.shift && !r.control && !r.alt && !r.super_key,
    {
        ModifierMask { shift: false, control: false, alt: false, super_key: false }
    }
}

/// Number of modifiers whose state differs between two masks.
pub open spec fn hamming_distance(a: ModifierMask, b: ModifierMask) -> nat {
    (if a.shift != b.shift { 1nat } else { 0nat }) + (if a.control != b.control {
        1nat
    } else {
        0nat
    }) + (if a.alt != b.alt { 1nat } else { 0nat }) + (if a.super_key != b.super_key {
        1nat
    } else {
        0nat
    })
}

/// The key event synthesised for one modifier bit: none when the bit did not
/// change, otherwise one event for its left key carrying the new state.
pub open spec fn flip_event(was_on: bool, is_on: bool, code: u32, time: u64) -> Seq<
    WinitKeyboardInputEvent,
> {
    if was_on != is_on {
        seq![
            WinitKeyboardInputEvent {
                time,
                key: code,
                count: 1,
                state: ElementState::spec_from_pressed(is_on),
            },
        ]
    } else {
        seq![]
    }
}

/// The key events synthesised for a change from `old` to `new`, in the
/// canonical order Shift, Control, Alt, Super.
pub open spec fn synthesized_events(old: ModifierMask, new: ModifierMask, time: u64) -> Seq<
    WinitKeyboardInputEvent,
> {
    flip_event(old.shift, new.shift, SHIFT_LEFT_CODE, time) + flip_event(
        old.control,
        new.control,
        CONTROL_LEFT_CODE,
        time,
    ) + flip_event(old.alt, new.alt, ALT_LEFT_CODE, time) + flip_event(
        old.super_key,
        new.super_key,
        SUPER_LEFT_CODE,
        time,
    )
}

/// The new state of the modifier whose left key has evdev code `code`.
pub open spec fn modifier_bit(mask: ModifierMask, code: u32) -> bool {
    if code == SHIFT_LEFT_CODE {
        mask.shift
    } else if code == CONTROL_LEFT_CODE {
        mask.control
    } else if code == ALT_LEFT_CODE {
        mask.alt
    } else {
        mask.super_key
    }
}

fn push_flip(
    out: &mut Vec<WinitKeyboardInputEvent>,
    was_on: bool,
    is_on: bool,
    code: u32,
    time: u64,
)
    ensures
        final(out)@ == old(out)@ + flip_event(was_on, is_on, code, time),
{
    if was_on != is_on {
        out.push(
            WinitKeyboardInputEvent {
                time,
                key: code,
                count: 1,
                state: ElementState::from_pressed(is_on),
            },
        );
        assert(final(out)@ =~= old(out)@ + flip_event(was_on, is_on, code, time));
    } else {
        assert(out@ =~= old(out)@ + flip_event(was_on, is_on, code, time));
    }
}

/// Synthesises one key event per modifier whose state differs between `old`
/// and `new`, in the order Shift, Control, Alt, Super, using each modifier's
/// left key.
pub fn synthesize_modifier_events(old: ModifierMask, new: ModifierMask, time: u64) -> (r: Vec<
    WinitKeyboardInputEvent,
>)
    ensures
        r@ == synthesized_events(old, new, time),
{
    let mut out: Vec<WinitKeyboardInputEvent> = Vec::new();
    push_flip(&mut out, old.shift, new.shift, SHIFT_LEFT_CODE, time);
    push_flip(&mut out, old.control, new.control, CONTROL_LEFT_CODE, time);
    push_flip(&mut out, old.alt, new.alt, ALT_LEFT_CODE, time);
    push_flip(&mut out, old.super_key, new.super_key, SUPER_LEFT_CODE, time);
    assert(out@ =~= synthesized_events(old, new, time));
    out
}

/// A modifier transition yields as many synthesised key events as there are
/// modifiers whose state changed, and each event is a press exactly when its
/// modifier is held in the new mask.
pub proof fn lemma_synthesized_events(old: ModifierMask, new: ModifierMask, time: u64)
    ensures
        synthesized_events(old, new, time).len() == hamming_distance(old, new),
        forall|i: int|
            0 <= i < synthesized_events(old, new, time).len() ==> {
                let e = #[trigger] synthesized_events(old, new, time)[i];
                &&& e.time == time
                &&& e.count == 1
                &&& (e.state == ElementState::Pressed) == modifier_bit(new, e.key)
                &&& modifier_bit(old, e.key) != modifier_bit(new, e.key)
            },
{
    let s = synthesized_events(old, new, time);
    let a = flip_event(old.shift, new.shift, SHIFT_LEFT_CODE, time);
    let b = flip_event(old.control, new.control, CONTROL_LEFT_CODE, time);
    let c = flip_event(old.alt, new.alt, ALT_LEFT_CODE, time);
    let d = flip_event(old.super_key, new.super_key, SUPER_LEFT_CODE, time);
    assert(s == a + b + c + d);
    assert forall|i: int| 0 <= i < s.len() implies {
        let e = #[trigger] s[i];
        &&& e.time == time
        &&& e.count == 1
        &&& (e.state == ElementState::Pressed) == modifier_bit(new, e.key)
        &&& modifier_bit(old, e.key) != modifier_bit(new, e.key)
    } by {
        if i < a.len() {
            assert(s[i] == a[i]);
        } else if i < a.len() + b.len() {
            assert(s[i] == b[i - a.len()]);
        } else if i < a.len() + b.len() + c.len() {
            assert(s[i] == c[i - a.len() - b.len()]);
        } else {
            assert(s[i] == d[i - a.len() - b.len() - c.len()]);
        }
    }
}

} // verus!
