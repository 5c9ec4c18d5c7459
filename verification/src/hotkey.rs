//! Debouncing of the toggle hotkeys.
//!
//! Time is a count of milliseconds on a clock that never runs backwards, such
//! as the time since the process started. The interval is kept between two
//! toggles: a signal with no toggle before it always takes effect.

use vstd::prelude::*;
use crate::store::ConfigStore;

verus! {

/// The shortest time between two toggles that both take effect, in
/// milliseconds.
pub const MIN_TOGGLE_INTERVAL_MS: u64 = 300;

/// Whether a signal at `now_ms` takes effect. `last_toggle` is the time of
/// the last signal that did, or `None` where none did yet. The first signal
/// takes effect; a later one does where at least the minimum interval lies
/// between it and the last toggle.
pub open spec fn admits(last_toggle: Option<u64>, now_ms: u64) -> bool {
    match last_toggle {
        None => true,
        Some(last_ms) => now_ms - last_ms >= MIN_TOGGLE_INTERVAL_MS,
    }
}

/// The time of the last toggle once a signal at `now_ms` is dealt with.
pub open spec fn last_after(last_toggle: Option<u64>, now_ms: u64) -> Option<u64> {
    if admits(last_toggle, now_ms) {
        Some(now_ms)
    } else {
        last_toggle
    }
}

/// Decides whether a signal at `now_ms` takes effect.
pub fn is_admitted(last_toggle: Option<u64>, now_ms: u64) -> (admitted: bool)
    ensures
        admitted == admits(last_toggle, now_ms),
{
    match last_toggle {
        None => true,
        Some(last_ms) => now_ms >= last_ms && now_ms - last_ms >= MIN_TOGGLE_INTERVAL_MS,
    }
}

/// What a press of the hotkey that toggles the `active` flag did.
#[derive(Clone, Copy, Debug, PartialEq, Eq, Structural)]
pub enum ToggleOutcome {
    /// The press came too soon after the last one and changed nothing.
    Debounced,
    /// No pattern is selected: there is no flag to flip.
    NothingSelected,
    /// The flag was flipped and now has this value.
    Active(bool),
}

/// The debounced hotkey that toggles the `active` flag of the store:
/// the time of the last press that took effect, if there was one.
#[derive(Clone, Copy, Debug, PartialEq, Eq)]
pub struct ActiveToggle {
    pub last_toggle: Option<u64>,
}

impl ActiveToggle {
    /// A hotkey that was not pressed yet.
    pub fn new() -> (toggle: ActiveToggle)
        ensures
            toggle.last_toggle is None,
    {
        ActiveToggle { last_toggle: None }
    }

    /// Takes a press of the hotkey at `now_ms`. A press that is admitted
    /// restarts the interval and flips the flag of the selected pattern, if
    /// there is one; any other press changes nothing.
    pub fn press(&mut self, now_ms: u64, store: &mut ConfigStore) -> (outcome: ToggleOutcome)
        ensures
            final(self).last_toggle == last_after(old(self).last_toggle, now_ms),
            !admits(old(self).last_toggle, now_ms) ==> {
                &&& outcome == ToggleOutcome::Debounced
                &&& final(store)@ == old(store)@
            },
            admits(old(self).last_toggle, now_ms) ==> {
                match old(store)@ {
                    Some(before) => {
                        &&& outcome == ToggleOutcome::Active(!before.active)
                        &&& final(store)@ == Some(before.with_active(!before.active))
                    },
                    None => outcome == ToggleOutcome::NothingSelected && final(store)@ is None,
                }
            },
    {
        if !is_admitted(self.last_toggle, now_ms) {
            return ToggleOutcome::Debounced;
        }
        self.last_toggle = Some(now_ms);
        match store.toggle_active() {
            Some(active) => ToggleOutcome::Active(active),
            None => ToggleOutcome::NothingSelected,
        }
    }
}

/// The number of the signals at the times `signals`, in this order, that take
/// effect, where `last_toggle` is the last toggle before them.
pub open spec fn toggles(last_toggle: Option<u64>, signals: Seq<u64>) -> nat
    decreases signals.len(),
{
    if signals.len() == 0 {
        0
    } else {
        let taken: nat = if admits(last_toggle, signals[0]) {
            1
        } else {
            0
        };
        taken + toggles(last_after(last_toggle, signals[0]), signals.drop_first())
    }
}

/// Signals that all come less than the minimum interval after a toggle take
/// no effect.
pub proof fn lemma_signals_after_toggle_ignored(last_ms: u64, signals: Seq<u64>)
    requires
        forall|i: int|
            0 <= i < signals.len() ==> #[trigger] signals[i] - last_ms < MIN_TOGGLE_INTERVAL_MS,
    ensures
        toggles(Some(last_ms), signals) == 0,
    decreases signals.len(),
{
    if signals.len() > 0 {
        let rest = signals.drop_first();
        assert(signals[0] - last_ms < MIN_TOGGLE_INTERVAL_MS);
        assert forall|i: int| 0 <= i < rest.len() implies #[trigger] rest[i] - last_ms
            < MIN_TOGGLE_INTERVAL_MS by {
            assert(rest[i] == signals[i + 1]);
        }
        lemma_signals_after_toggle_ignored(last_ms, rest);
    }
}

/// Debounce: of signals that arrive in order of time, the last of them less
/// than the minimum interval after the first, at most one takes effect,
/// whenever the last toggle before them was; and exactly one, the first,
/// where there was no toggle before them.
pub proof fn lemma_close_signals_toggle_once(last_toggle: Option<u64>, signals: Seq<u64>)
    requires
        forall|i: int, j: int| 0 <= i <= j < signals.len() ==> signals[i] <= signals[j],
        signals.len() > 0 ==> signals.last() - signals[0] < MIN_TOGGLE_INTERVAL_MS,
    ensures
        toggles(last_toggle, signals) <= 1,
        last_toggle is None && signals.len() > 0 ==> toggles(last_toggle, signals) == 1,
    decreases signals.len(),
{
    if signals.len() > 0 {
        let rest = signals.drop_first();
        assert forall|i: int, j: int| 0 <= i <= j < rest.len() implies rest[i] <= rest[j] by {
            assert(rest[i] == signals[i + 1]);
            assert(rest[j] == signals[j + 1]);
        }
        if rest.len() > 0 {
            assert(rest.last() == signals.last());
            assert(rest[0] == signals[1]);
        }
        if admits(last_toggle, signals[0]) {
            assert forall|i: int| 0 <= i < rest.len() implies #[trigger] rest[i] - signals[0]
                < MIN_TOGGLE_INTERVAL_MS by {
                assert(rest[i] == signals[i + 1]);
                assert(signals[i + 1] <= signals[signals.len() - 1]);
            }
            lemma_signals_after_toggle_ignored(signals[0], rest);
        } else {
            lemma_close_signals_toggle_once(last_toggle, rest);
        }
    }
}

/// Signals that each come the minimum interval or more after the one before
/// all take effect, where the first of them comes that long after the last
/// toggle before them, or there was no toggle before them.
pub proof fn lemma_spaced_signals_each_toggle(last_toggle: Option<u64>, signals: Seq<u64>)
    requires
        signals.len() > 0 ==> admits(last_toggle, signals[0]),
        forall|i: int|
            0 <= i < signals.len() - 1 ==> signals[i + 1] - #[trigger] signals[i]
                >= MIN_TOGGLE_INTERVAL_MS,
    ensures
        toggles(last_toggle, signals) == signals.len(),
    decreases signals.len(),
{
    if signals.len() > 0 {
        let rest = signals.drop_first();
        if rest.len() > 0 {
            assert(signals[0int + 1] - signals[0] >= MIN_TOGGLE_INTERVAL_MS);
            assert(rest[0] == signals[1]);
        }
        assert forall|i: int| 0 <= i < rest.len() - 1 implies rest[i + 1] - #[trigger] rest[i]
            >= MIN_TOGGLE_INTERVAL_MS by {
            assert(rest[i] == signals[i + 1]);
            assert(rest[i + 1] == signals[i + 1 + 1]);
            assert(signals[(i + 1) + 1] - signals[i + 1] >= MIN_TOGGLE_INTERVAL_MS);
        }
        lemma_spaced_signals_each_toggle(Some(signals[0]), rest);
    }
}

} // verus!
