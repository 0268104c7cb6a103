//! Suppression of spurious rapid re-presses of the same key.

use vstd::prelude::*;
use std::collections::HashMap;

verus! {

broadcast use vstd::std_specs::hash::group_hash_axioms;

/// Width of the debounce window, in microseconds.
pub const DEBOUNCE_WINDOW_US: u64 = 50_000;

/// Whether a press at `now` falls within the window of a press at `last`.
/// A clock that appears to run backwards counts as no time elapsed.
pub open spec fn within_window(last: u64, now: u64) -> bool {
    now < last + DEBOUNCE_WINDOW_US
}

/// Whether a press of `code` at `now` is suppressed, given the recorded
/// press times.
pub open spec fn spec_suppressed(table: Map<u32, u64>, code: u32, now: u64) -> bool {
    table.contains_key(code) && within_window(table[code], now)
}

/// The recorded press times after a press of `code` at `now`.
pub open spec fn spec_after_press(table: Map<u32, u64>, code: u32, now: u64) -> Map<u32, u64> {
    if spec_suppressed(table, code, now) {
        table
    } else {
        table.insert(code, now)
    }
}

/// Last accepted press time of each canonical key code. Entries are never
/// evicted.
pub struct DebounceTable {
    last_press: HashMap<u32, u64>,
}

impl View for DebounceTable {
    type V = Map<u32, u64>;

    closed spec fn view(&self) -> Map<u32, u64> {
        self.last_press@
    }
}

impl DebounceTable {
    pub fn new() -> (r: DebounceTable)
        ensures
            r@ == Map::<u32, u64>::empty(),
    {
        DebounceTable { last_press: HashMap::new() }
    }

    /// Decides whether a press of `code` at time `now` (microseconds) is
    /// suppressed: it is when a press of the same code was accepted less
    /// than the debounce window before. A press that is not suppressed is
    /// recorded as the code's last press.
    pub fn should_suppress(&mut self, code: u32, now: u64) -> (r: bool)
        ensures
            r == spec_suppressed(old(self)@, code, now),
            final(self)@ == spec_after_press(old(self)@, code, now),
    {
        match self.last_press.get(&code) {
            Some(last) => {
                let last: u64 = *last;
                if now.saturating_sub(last) < DEBOUNCE_WINDOW_US {
                    return true;
                }
            },
            None => {},
        }
        self.last_press.insert(code, now);
        false
    }

    /// The recorded last press time of a code, if any.
    pub fn last_press(&self, code: u32) -> (r: Option<u64>)
        ensures
            r == (if self@.contains_key(code) {
                Some(self@[code])
            } else {
                None
            }),
    {
        match self.last_press.get(&code) {
            Some(t) => Some(*t),
            None => None,
        }
    }
}

/// Two presses of one code less than the window apart: the second is
/// suppressed, whatever other codes were pressed in between, while a press
/// at least the window after the recorded one is accepted again.
pub proof fn lemma_double_press_suppressed(
    table: Map<u32, u64>,
    code: u32,
    first: u64,
    second: u64,
)
    requires
        !spec_suppressed(table, code, first),
        first <= second,
    ensures
        spec_suppressed(spec_after_press(table, code, first), code, second) == (second - first
            < DEBOUNCE_WINDOW_US),
{
}

} // verus!
