//! The trigger controller: from button events to the start and the end of a
//! playback run.
//!
//! The monitor is a state machine. The caller feeds it the button events in
//! the order in which the system delivered them, starts a run with the
//! snapshot that `on_event` hands out, and mirrors `is_firing` into whatever
//! the running playback polls.

use vstd::prelude::*;
use crate::recoil::{RecoilState, RecoilStateView};
use crate::store::ConfigStore;

verus! {

/// A mouse button as the trigger logic sees it. Holding the secondary button
/// arms the trigger, pressing the primary button fires.
#[derive(Clone, Copy, Debug, PartialEq, Eq, Structural)]
pub enum Button {
    Primary,
    Secondary,
    Other,
}

/// One notification of the global input subscription.
#[derive(Clone, Copy, Debug, PartialEq, Eq, Structural)]
pub enum InputEvent {
    Press(Button),
    Release(Button),
    Other,
}

/// The two held flags and the firing flag.
#[derive(Clone, Copy, Debug, PartialEq, Eq, Structural)]
pub struct InputMonitor {
    pub secondary_held: bool,
    pub primary_held: bool,
    pub firing: bool,
}

/// Whether `event`, arriving in state `m`, meets the trigger condition: a
/// primary press while the secondary button is held and no run is in flight.
/// Only then does it matter what the store holds.
pub open spec fn triggers(m: InputMonitor, event: InputEvent) -> bool {
    &&& event == InputEvent::Press(Button::Primary)
    &&& m.secondary_held
    &&& !m.firing
}

/// Whether `event`, arriving in state `m` with `store` selected, starts a
/// run: it meets the trigger condition and an active pattern is selected.
pub open spec fn starts_run(
    m: InputMonitor,
    event: InputEvent,
    store: Option<RecoilStateView>,
) -> bool {
    &&& triggers(m, event)
    &&& store matches Some(state)
    &&& state.active
}

/// The state after `event`.
pub open spec fn after_event(
    m: InputMonitor,
    event: InputEvent,
    store: Option<RecoilStateView>,
) -> InputMonitor {
    match event {
        InputEvent::Press(Button::Secondary) => InputMonitor { secondary_held: true, ..m },
        InputEvent::Release(Button::Secondary) => InputMonitor {
            secondary_held: false,
            firing: false,
            ..m
        },
        InputEvent::Press(Button::Primary) => InputMonitor {
            primary_held: true,
            firing: m.firing || starts_run(m, event, store),
            ..m
        },
        InputEvent::Release(Button::Primary) => InputMonitor {
            primary_held: false,
            firing: false,
            ..m
        },
        _ => m,
    }
}

impl InputMonitor {
    /// No button held, no run in flight.
    pub fn new() -> (m: InputMonitor)
        ensures
            m == (InputMonitor { secondary_held: false, primary_held: false, firing: false }),
    {
        InputMonitor { secondary_held: false, primary_held: false, firing: false }
    }

    /// Whether a playback run is in flight.
    pub fn is_firing(&self) -> (firing: bool)
        ensures
            firing == self.firing,
    {
        self.firing
    }

    /// Whether `event` meets the trigger condition. A caller that keeps the
    /// store behind a lock takes the lock for such an event only.
    pub fn is_trigger(&self, event: InputEvent) -> (trigger: bool)
        ensures
            trigger == triggers(*self, event),
    {
        match event {
            InputEvent::Press(Button::Primary) => self.secondary_held && !self.firing,
            _ => false,
        }
    }

    /// Takes one event without looking at the store, as if nothing were
    /// selected. For an event that does not meet the trigger condition this
    /// is what `on_event` does with any store.
    pub fn on_event_without_store(&mut self, event: InputEvent)
        ensures
            *final(self) == after_event(*old(self), event, None),
    {
        let nothing = ConfigStore::new();
        let _ = self.on_event(event, &nothing);
    }

    /// Takes one event. The result is the snapshot with which a new run
    /// starts, or `None` where the event starts none.
    pub fn on_event(&mut self, event: InputEvent, store: &ConfigStore) -> (run: Option<
        RecoilState,
    >)
        ensures
            *final(self) == after_event(*old(self), event, store@),
            starts_run(*old(self), event, store@) <==> run is Some,
            run matches Some(state) ==> store@ == Some(state@),
    {
        match event {
            InputEvent::Press(Button::Secondary) => {
                self.secondary_held = true;
                None
            },
            InputEvent::Release(Button::Secondary) => {
                self.secondary_held = false;
                self.firing = false;
                None
            },
            InputEvent::Press(Button::Primary) => {
                self.primary_held = true;
                if self.secondary_held && !self.firing {
                    match store.get() {
                        Some(state) => {
                            if state.active {
                                self.firing = true;
                                Some(state)
                            } else {
                                None
                            }
                        },
                        None => None,
                    }
                } else {
                    None
                }
            },
            InputEvent::Release(Button::Primary) => {
                self.primary_held = false;
                self.firing = false;
                None
            },
            _ => None,
        }
    }
}

/// The store is read on a trigger only: an event that does not meet the
/// trigger condition starts no run and leaves the same state behind whatever
/// the store holds.
pub proof fn lemma_store_matters_on_trigger_only(
    m: InputMonitor,
    event: InputEvent,
    store: Option<RecoilStateView>,
    other: Option<RecoilStateView>,
)
    requires
        !triggers(m, event),
    ensures
        !starts_run(m, event, store),
        after_event(m, event, store) == after_event(m, event, other),
{
}

/// Whether `event` is the release of the primary or of the secondary button.
pub open spec fn is_release(event: InputEvent) -> bool {
    event == InputEvent::Release(Button::Primary) || event == InputEvent::Release(Button::Secondary)
}

/// The state after the events of `feed`, each taken with the store as it was
/// when the event arrived.
pub open spec fn after_events(
    m: InputMonitor,
    feed: Seq<(InputEvent, Option<RecoilStateView>)>,
) -> InputMonitor
    decreases feed.len(),
{
    if feed.len() == 0 {
        m
    } else {
        after_events(after_event(m, feed[0].0, feed[0].1), feed.drop_first())
    }
}

/// The number of runs that the events of `feed` start.
pub open spec fn runs_started(
    m: InputMonitor,
    feed: Seq<(InputEvent, Option<RecoilStateView>)>,
) -> nat
    decreases feed.len(),
{
    if feed.len() == 0 {
        0
    } else {
        let started: nat = if starts_run(m, feed[0].0, feed[0].1) {
            1
        } else {
            0
        };
        started + runs_started(after_event(m, feed[0].0, feed[0].1), feed.drop_first())
    }
}

/// The number of releases of the primary or the secondary button in `feed`.
pub open spec fn releases(feed: Seq<(InputEvent, Option<RecoilStateView>)>) -> nat
    decreases feed.len(),
{
    if feed.len() == 0 {
        0
    } else {
        let released: nat = if is_release(feed[0].0) {
            1
        } else {
            0
        };
        released + releases(feed.drop_first())
    }
}

/// Mutual exclusion: a run starts only while none is in flight, and only a
/// release ends one. So whatever is fed, and whatever the store holds at each
/// event, no more runs start than releases arrive, plus one where none was in
/// flight at the outset.
pub proof fn lemma_one_run_at_a_time(
    m: InputMonitor,
    feed: Seq<(InputEvent, Option<RecoilStateView>)>,
)
    ensures
        runs_started(m, feed) <= releases(feed) + if m.firing {
            0nat
        } else {
            1nat
        },
    decreases feed.len(),
{
    if feed.len() > 0 {
        lemma_one_run_at_a_time(after_event(m, feed[0].0, feed[0].1), feed.drop_first());
    }
}

/// While a run is in flight, presses start no second one: however many
/// events arrive without a release among them, none starts a run and the run
/// stays in flight.
pub proof fn lemma_presses_start_no_second_run(
    m: InputMonitor,
    feed: Seq<(InputEvent, Option<RecoilStateView>)>,
)
    requires
        m.firing,
        forall|i: int| 0 <= i < feed.len() ==> !is_release(#[trigger] feed[i].0),
    ensures
        runs_started(m, feed) == 0,
        after_events(m, feed).firing,
    decreases feed.len(),
{
    if feed.len() > 0 {
        let rest = feed.drop_first();
        assert(!is_release(feed[0].0));
        assert forall|i: int| 0 <= i < rest.len() implies !is_release(#[trigger] rest[i].0) by {
            assert(rest[i] == feed[i + 1]);
        }
        lemma_presses_start_no_second_run(after_event(m, feed[0].0, feed[0].1), rest);
    }
}

/// The safety interrupt: releasing the secondary button ends the run in any
/// state, and leaves the primary button as it was, held or not.
pub proof fn lemma_secondary_release_interrupts(m: InputMonitor, store: Option<RecoilStateView>)
    ensures
        !after_event(m, InputEvent::Release(Button::Secondary), store).firing,
        !after_event(m, InputEvent::Release(Button::Secondary), store).secondary_held,
        after_event(m, InputEvent::Release(Button::Secondary), store).primary_held
            == m.primary_held,
        !starts_run(m, InputEvent::Release(Button::Secondary), store),
{
}

/// Secondary press, primary press, secondary release, from any state: the
/// primary press starts a run where an active pattern is selected and none
/// was in flight, and the release ends it although the primary button is
/// still held.
pub proof fn lemma_interrupt_with_primary_held(
    m: InputMonitor,
    store: Option<RecoilStateView>,
)
    ensures
        ({
            let armed = after_event(m, InputEvent::Press(Button::Secondary), store);
            let fired = after_event(armed, InputEvent::Press(Button::Primary), store);
            let released = after_event(fired, InputEvent::Release(Button::Secondary), store);
            &&& starts_run(armed, InputEvent::Press(Button::Primary), store) <==> !m.firing && (
            store matches Some(state) && state.active)
            &&& starts_run(armed, InputEvent::Press(Button::Primary), store) ==> fired.firing
            &&& released.primary_held
            &&& !released.firing
        }),
{
}

} // verus!
