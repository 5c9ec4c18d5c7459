//! The debounced overlay toggle.
//!
//! The overlay only decides. Its caller hides the overlay window, or captures
//! the screen and shows it, as the action says.

use vstd::prelude::*;
use crate::hotkey::{admits, is_admitted, last_after};

verus! {

/// What the caller does with the overlay window after a toggle signal.
#[derive(Clone, Copy, Debug, PartialEq, Eq, Structural)]
pub enum OverlayAction {
    /// The signal came too soon after the last toggle: do nothing.
    Ignore,
    /// The overlay was open: hide its window.
    Hide,
    /// The overlay was closed: hide its window, capture the screen, hand the
    /// capture to the window, then show and focus it.
    CaptureAndShow,
}

/// Whether the overlay is open, and the time of its last toggle in
/// milliseconds, if it was toggled yet.
#[derive(Clone, Copy, Debug, PartialEq, Eq)]
pub struct Overlay {
    pub is_overlay_open: bool,
    pub last_toggle: Option<u64>,
}

/// The action that a toggle signal at `now_ms` asks for.
pub open spec fn toggle_action(overlay: Overlay, now_ms: u64) -> OverlayAction {
    if !admits(overlay.last_toggle, now_ms) {
        OverlayAction::Ignore
    } else if overlay.is_overlay_open {
        OverlayAction::Hide
    } else {
        OverlayAction::CaptureAndShow
    }
}

/// The overlay after a toggle signal at `now_ms`.
pub open spec fn after_toggle(overlay: Overlay, now_ms: u64) -> Overlay {
    Overlay {
        is_overlay_open: if admits(overlay.last_toggle, now_ms) {
            !overlay.is_overlay_open
        } else {
            overlay.is_overlay_open
        },
        last_toggle: last_after(overlay.last_toggle, now_ms),
    }
}

impl Overlay {
    /// A closed overlay that was not toggled yet: its first signal takes
    /// effect whenever it comes.
    pub fn new() -> (overlay: Overlay)
        ensures
            overlay == (Overlay { is_overlay_open: false, last_toggle: None }),
    {
        Overlay { is_overlay_open: false, last_toggle: None }
    }

    /// Takes a toggle signal at `now_ms` milliseconds. A signal that is
    /// admitted flips the overlay and restarts the interval.
    pub fn toggle_overlay(&mut self, now_ms: u64) -> (action: OverlayAction)
        ensures
            action == toggle_action(*old(self), now_ms),
            *final(self) == after_toggle(*old(self), now_ms),
    {
        if !is_admitted(self.last_toggle, now_ms) {
            return OverlayAction::Ignore;
        }
        self.last_toggle = Some(now_ms);
        if self.is_overlay_open {
            self.is_overlay_open = false;
            OverlayAction::Hide
        } else {
            self.is_overlay_open = true;
            OverlayAction::CaptureAndShow
        }
    }
}

/// The overlay after the toggle signals at the times `signals`, in this order.
pub open spec fn after_toggles(overlay: Overlay, signals: Seq<u64>) -> Overlay
    decreases signals.len(),
{
    if signals.len() == 0 {
        overlay
    } else {
        after_toggles(after_toggle(overlay, signals[0]), signals.drop_first())
    }
}

/// The overlay is open after a sequence of signals exactly if it was open
/// before and an even number of them took effect, or it was closed and an odd
/// number did.
pub proof fn lemma_overlay_flips_with_each_toggle(overlay: Overlay, signals: Seq<u64>)
    ensures
        after_toggles(overlay, signals).is_overlay_open == (overlay.is_overlay_open == (
        crate::hotkey::toggles(overlay.last_toggle, signals) % 2 == 0)),
    decreases signals.len(),
{
    if signals.len() > 0 {
        lemma_overlay_flips_with_each_toggle(
            after_toggle(overlay, signals[0]),
            signals.drop_first(),
        );
    }
}

} // verus!
