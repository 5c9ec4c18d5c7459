//! The shared configuration store: at most one selected pattern.
//!
//! The store is a plain value. Callers that share it between threads keep it
//! behind a lock and hold the lock only for the length of one call.

use vstd::prelude::*;
use crate::recoil::{RecoilState, RecoilStateView};

verus! {

/// Holds the active configuration, or nothing before a pattern is selected.
pub struct ConfigStore {
    current: Option<RecoilState>,
}

impl View for ConfigStore {
    type V = Option<RecoilStateView>;

    closed spec fn view(&self) -> Option<RecoilStateView> {
        match self.current {
            Some(state) => Some(state@),
            None => None,
        }
    }
}

impl ConfigStore {
    /// The store at process launch: empty.
    pub fn new() -> (store: ConfigStore)
        ensures
            store@ is None,
    {
        ConfigStore { current: None }
    }

    /// Replaces the stored value wholesale.
    pub fn set(&mut self, state: RecoilState)
        ensures
            final(self)@ == Some(state@),
    {
        self.current = Some(state);
    }

    /// A snapshot of the stored value; later changes to the store do not
    /// reach it.
    pub fn get(&self) -> (snapshot: Option<RecoilState>)
        ensures
            match snapshot {
                Some(state) => self@ == Some(state@),
                None => self@ is None,
            },
    {
        match &self.current {
            Some(state) => Some(state.clone()),
            None => None,
        }
    }

    /// Flips the `active` flag in place and returns its new value; with
    /// nothing selected the store stays empty and the result is `None`.
    pub fn toggle_active(&mut self) -> (now_active: Option<bool>)
        ensures
            match old(self)@ {
                Some(before) => {
                    &&& now_active == Some(!before.active)
                    &&& final(self)@ == Some(before.with_active(!before.active))
                },
                None => now_active is None && final(self)@ is None,
            },
    {
        match &mut self.current {
            Some(state) => {
                state.active = !state.active;
                Some(state.active)
            },
            None => None,
        }
    }
}

} // verus!
