//! The input normaliser: turns host input events into the ordered,
//! deduplicated stream of canonical events that the compositor expects.

use vstd::prelude::*;
use crate::debounce::{DebounceTable, spec_suppressed, spec_after_press};
use crate::events::{
    CanonicalInputEvent, ElementState, ScrollDeltaKind, WinitKeyboardInputEvent,
    WinitMouseInputEvent, WinitMouseWheelEvent,
};
use crate::keymap::{
    MouseButton, PhysicalKey, canonical_code, is_modifier_key, spec_canonical_code,
    spec_is_modifier_key,
};
use crate::modifiers::{ModifierMask, synthesize_modifier_events, synthesized_events};

verus! {

/// An input event as the host delivers it, reduced to plain values.
#[derive(Debug, Clone, Copy, PartialEq, Eq, Structural)]
pub enum HostInputEvent {
    /// A key press or release. `scancode` is the host's raw scancode of the
    /// key (0 when it has none), used for keys outside the canonical table.
    Key { key: PhysicalKey, scancode: u32, pressed: bool, repeat: bool },
    /// A snapshot of the held modifiers.
    ModifiersChanged(ModifierMask),
    MouseButton { button: MouseButton, pressed: bool },
    MouseWheel { delta: ScrollDeltaKind },
}

/// Observable state of the normaliser: the last modifier mask and the
/// recorded press times.
pub type NormalizerModel = (ModifierMask, Map<u32, u64>);

/// Wraps synthesised key events as canonical events.
pub open spec fn as_keyboard_events(s: Seq<WinitKeyboardInputEvent>) -> Seq<CanonicalInputEvent> {
    s.map_values(|e: WinitKeyboardInputEvent| CanonicalInputEvent::Keyboard(e))
}

/// The key event forwarded for a key that passes every filter.
pub open spec fn key_event(key: PhysicalKey, scancode: u32, pressed: bool, now: u64) -> CanonicalInputEvent {
    CanonicalInputEvent::Keyboard(
        WinitKeyboardInputEvent {
            time: now,
            key: spec_canonical_code(key, scancode),
            count: 1,
            state: ElementState::spec_from_pressed(pressed),
        },
    )
}

/// What a key event does to the normaliser: repeats and real modifier-key
/// events are dropped, a press within the debounce window of the previous
/// press of its code is dropped, and anything else is forwarded under its
/// canonical code. Only presses touch the debounce table.
pub open spec fn spec_normalize_key(
    m: NormalizerModel,
    key: PhysicalKey,
    scancode: u32,
    pressed: bool,
    repeat: bool,
    now: u64,
) -> (NormalizerModel, Seq<CanonicalInputEvent>) {
    let code = spec_canonical_code(key, scancode);
    if repeat || spec_is_modifier_key(key) {
        (m, seq![])
    } else if pressed && spec_suppressed(m.1, code, now) {
        (m, seq![])
    } else if pressed {
        ((m.0, spec_after_press(m.1, code, now)), seq![key_event(key, scancode, pressed, now)])
    } else {
        (m, seq![key_event(key, scancode, pressed, now)])
    }
}

/// The normaliser's step on one host event at time `now`.
pub open spec fn spec_normalize(m: NormalizerModel, event: HostInputEvent, now: u64) -> (
    NormalizerModel,
    Seq<CanonicalInputEvent>,
) {
    match event {
        HostInputEvent::Key { key, scancode, pressed, repeat } => spec_normalize_key(
            m,
            key,
            scancode,
            pressed,
            repeat,
            now,
        ),
        HostInputEvent::ModifiersChanged(new) => (
            (new, m.1),
            as_keyboard_events(synthesized_events(m.0, new, now)),
        ),
        HostInputEvent::MouseButton { button, pressed } => (
            m,
            seq![
                CanonicalInputEvent::PointerButton(
                    WinitMouseInputEvent {
                        time: now,
                        button,
                        state: ElementState::spec_from_pressed(pressed),
                        is_x11: false,
                    },
                ),
            ],
        ),
        HostInputEvent::MouseWheel { delta } => (
            m,
            seq![CanonicalInputEvent::PointerAxis(WinitMouseWheelEvent { time: now, delta })],
        ),
    }
}

/// Composes the key mapper, the debouncer and the modifier synthesiser.
pub struct InputNormalizer {
    last_modifiers: ModifierMask,
    debounce: DebounceTable,
}

impl View for InputNormalizer {
    type V = NormalizerModel;

    closed spec fn view(&self) -> NormalizerModel {
        (self.last_modifiers, self.debounce@)
    }
}

impl InputNormalizer {
    /// A normaliser with no modifier held and no press recorded.
    pub fn new() -> (r: InputNormalizer)
        ensures
            r@.0 == (ModifierMask { shift: false, control: false, alt: false, super_key: false }),
            r@.1 == Map::<u32, u64>::empty(),
    {
        InputNormalizer { last_modifiers: ModifierMask::empty(), debounce: DebounceTable::new() }
    }

    /// The last modifier mask the host reported.
    pub fn modifiers(&self) -> (r: ModifierMask)
        ensures
            r == self@.0,
    {
        self.last_modifiers
    }

    /// Turns one host event, observed at time `now` (microseconds), into the
    /// canonical events to forward, in order.
    pub fn normalize(&mut self, event: HostInputEvent, now: u64) -> (r: Vec<CanonicalInputEvent>)
        ensures
            (final(self)@, r@) == spec_normalize(old(self)@, event, now),
    {
        match event {
            HostInputEvent::Key { key, scancode, pressed, repeat } => {
                if repeat || is_modifier_key(key) {
                    return Vec::new();
                }
                let code = canonical_code(key, scancode);
                if pressed && self.debounce.should_suppress(code, now) {
                    return Vec::new();
                }
                let mut out: Vec<CanonicalInputEvent> = Vec::new();
                out.push(
                    CanonicalInputEvent::Keyboard(
                        WinitKeyboardInputEvent {
                            time: now,
                            key: code,
                            count: 1,
                            state: ElementState::from_pressed(pressed),
                        },
                    ),
                );
                proof {
                    assert(out@ =~= seq![key_event(key, scancode, pressed, now)]);
                }
                out
            },
            HostInputEvent::ModifiersChanged(new) => {
                let synthesized = synthesize_modifier_events(self.last_modifiers, new, now);
                self.last_modifiers = new;
                let mut out: Vec<CanonicalInputEvent> = Vec::new();
                let mut i: usize = 0;
                while i < synthesized.len()
                    invariant
                        0 <= i <= synthesized@.len(),
                        out@ =~= as_keyboard_events(synthesized@.take(i as int)),
                    decreases synthesized@.len() - i,
                {
                    out.push(CanonicalInputEvent::Keyboard(synthesized[i]));
                    proof {
                        assert(synthesized@.take(i as int + 1) =~= synthesized@.take(i as int).push(
                            synthesized@[i as int],
                        ));
                    }
                    i = i + 1;
                }
                proof {
                    assert(synthesized@.take(i as int) =~= synthesized@);
                }
                out
            },
            HostInputEvent::MouseButton { button, pressed } => {
                let mut out: Vec<CanonicalInputEvent> = Vec::new();
                out.push(
                    CanonicalInputEvent::PointerButton(
                        WinitMouseInputEvent {
                            time: now,
                            button,
                            state: ElementState::from_pressed(pressed),
                            is_x11: false,
                        },
                    ),
                );
                proof {
                    assert(out@ =~= spec_normalize(old(self)@, event, now).1);
                }
                out
            },
            HostInputEvent::MouseWheel { delta } => {
                let mut out: Vec<CanonicalInputEvent> = Vec::new();
                out.push(CanonicalInputEvent::PointerAxis(WinitMouseWheelEvent { time: now, delta }));
                proof {
                    assert(out@ =~= spec_normalize(old(self)@, event, now).1);
                }
                out
            },
        }
    }
}

/// A key event flagged as a repeat never yields a canonical event and leaves
/// the normaliser unchanged.
pub proof fn lemma_repeat_dropped(
    m: NormalizerModel,
    key: PhysicalKey,
    scancode: u32,
    pressed: bool,
    now: u64,
)
    ensures
        spec_normalize(m, HostInputEvent::Key { key, scancode, pressed, repeat: true }, now).1.len()
            == 0,
        spec_normalize(m, HostInputEvent::Key { key, scancode, pressed, repeat: true }, now).0
            == m,
{
}

/// A real key event for a modifier key never yields a canonical event,
/// pressed or released: modifier key events come only from modifier-state
/// snapshots.
pub proof fn lemma_modifier_key_dropped(
    m: NormalizerModel,
    key: PhysicalKey,
    scancode: u32,
    pressed: bool,
    repeat: bool,
    now: u64,
)
    requires
        spec_is_modifier_key(key),
    ensures
        spec_normalize(m, HostInputEvent::Key { key, scancode, pressed, repeat }, now).1.len() == 0,
{
}

/// Number of canonical key events with the given state in a sequence.
pub open spec fn count_key_state(s: Seq<CanonicalInputEvent>, state: ElementState) -> nat
    decreases s.len(),
{
    if s.len() == 0 {
        0
    } else {
        (match s.last() {
            CanonicalInputEvent::Keyboard(e) => if e.state == state {
                1nat
            } else {
                0nat
            },
            _ => 0nat,
        }) + count_key_state(s.drop_last(), state)
    }
}

proof fn lemma_count_concat(a: Seq<CanonicalInputEvent>, b: Seq<CanonicalInputEvent>, state: ElementState)
    ensures
        count_key_state(a + b, state) == count_key_state(a, state) + count_key_state(b, state),
    decreases b.len(),
{
    if b.len() == 0 {
        assert(a + b =~= a);
    } else {
        assert((a + b).drop_last() =~= a + b.drop_last());
        lemma_count_concat(a, b.drop_last(), state);
    }
}

/// A press of a key, a release of it, and a second press of it less than the
/// debounce window after the first: exactly one press and one release are
/// forwarded, the second press being suppressed. The first press is taken to
/// be accepted (no press of the same code was accepted just before it).
pub proof fn lemma_double_press_one_event(
    m: NormalizerModel,
    key: PhysicalKey,
    scancode: u32,
    t1: u64,
    t_release: u64,
    t2: u64,
)
    requires
        !spec_is_modifier_key(key),
        !spec_suppressed(m.1, spec_canonical_code(key, scancode), t1),
        t1 <= t2,
        t2 - t1 < crate::debounce::DEBOUNCE_WINDOW_US,
    ensures
        ({
            let (m1, e1) = spec_normalize(
                m,
                HostInputEvent::Key { key, scancode, pressed: true, repeat: false },
                t1,
            );
            let (m2, e2) = spec_normalize(
                m1,
                HostInputEvent::Key { key, scancode, pressed: false, repeat: false },
                t_release,
            );
            let (m3, e3) = spec_normalize(
                m2,
                HostInputEvent::Key { key, scancode, pressed: true, repeat: false },
                t2,
            );
            &&& e1.len() == 1
            &&& e2.len() == 1
            &&& e3.len() == 0
            &&& count_key_state(e1 + e2 + e3, ElementState::Pressed) == 1
            &&& count_key_state(e1 + e2 + e3, ElementState::Released) == 1
        }),
{
    let code = spec_canonical_code(key, scancode);
    let (m1, e1) = spec_normalize(
        m,
        HostInputEvent::Key { key, scancode, pressed: true, repeat: false },
        t1,
    );
    let (m2, e2) = spec_normalize(
        m1,
        HostInputEvent::Key { key, scancode, pressed: false, repeat: false },
        t_release,
    );
    let (m3, e3) = spec_normalize(
        m2,
        HostInputEvent::Key { key, scancode, pressed: true, repeat: false },
        t2,
    );
    assert(m1.1 == m.1.insert(code, t1));
    assert(m2 == m1);
    assert(m1.1.contains_key(code) && m1.1[code] == t1);
    assert(e3.len() == 0);
    lemma_count_concat(e1, e2, ElementState::Pressed);
    lemma_count_concat(e1 + e2, e3, ElementState::Pressed);
    lemma_count_concat(e1, e2, ElementState::Released);
    lemma_count_concat(e1 + e2, e3, ElementState::Released);
    assert(e1.drop_last() =~= seq![]);
    assert(e2.drop_last() =~= seq![]);
    assert(e3 =~= seq![]);
}

} // verus!
