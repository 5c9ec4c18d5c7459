//! Recoil compensation engine: trigger handling, pattern playback in
//! fixed-point arithmetic, the shared configuration store and the debounced
//! overlay toggle.

pub mod fixed;
pub mod hotkey;
pub mod jitter;
pub mod overlay;
pub mod playback;
pub mod recoil;
pub mod screenshot;
pub mod spray_pattern;
pub mod store;
pub mod timing;
pub mod traversal;
pub mod trigger;

use vstd::prelude::*;
use crate::recoil::{copy_points, Point, RecoilConfig, RecoilState, RecoilStateView};
use crate::store::ConfigStore;

verus! {

/// One pattern of the catalogue, as the editor saved it: its identifier, its
/// waypoints and tuning, and the picture that the user interface shows for it.
/// Coordinates and sensitivity are in thousandths: nothing finer than a
/// thousandth can be told apart, and a sensitivity of less than half a
/// thousandth is a sensitivity of zero.
#[derive(Debug)]
pub struct Payload {
    pub id: String,
    pub points: Vec<Point>,
    pub sensitivity: i32,
    pub steps: u32,
    pub rpm: u64,
    pub image: String,
}

impl Clone for Payload {
    /// A copy that holds the same identifier, waypoints, tuning and picture.
    fn clone(&self) -> (copy: Self)
        ensures
            copy.id@ == self.id@,
            copy.points@ == self.points@,
            copy.sensitivity == self.sensitivity,
            copy.steps == self.steps,
            copy.rpm == self.rpm,
            copy.image@ == self.image@,
    {
        Payload {
            id: self.id.clone(),
            points: copy_points(&self.points),
            sensitivity: self.sensitivity,
            steps: self.steps,
            rpm: self.rpm,
            image: self.image.clone(),
        }
    }
}

/// The configuration that selecting `payload` makes current: its waypoints
/// and tuning, active.
pub open spec fn selection(payload: Payload) -> RecoilStateView {
    RecoilStateView {
        points: payload.points@,
        config: RecoilConfig {
            sensitivity: payload.sensitivity,
            rpm: payload.rpm,
            smooth_steps: payload.steps,
        },
        active: true,
    }
}

/// Whether `payloads[i]` is the first pattern of the catalogue with the
/// identifier `id`.
pub open spec fn is_first_with_id(payloads: Seq<Payload>, id: Seq<char>, i: int) -> bool {
    &&& 0 <= i < payloads.len()
    &&& payloads[i].id@ == id
    &&& forall|j: int| 0 <= j < i ==> (#[trigger] payloads[j]).id@ != id
}

/// The catalogue of patterns and the shared configuration store.
pub struct AppState {
    pub payloads: Vec<Payload>,
    pub recoil_state: ConfigStore,
}

impl AppState {
    /// An empty catalogue and an empty store.
    pub fn new() -> (state: AppState)
        ensures
            state.payloads@.len() == 0,
            state.recoil_state@ is None,
    {
        AppState { payloads: Vec::new(), recoil_state: ConfigStore::new() }
    }

    /// Replaces the catalogue. The store keeps what it holds.
    pub fn load_payloads(&mut self, payloads: Vec<Payload>)
        ensures
            final(self).payloads == payloads,
            final(self).recoil_state == old(self).recoil_state,
    {
        self.payloads = payloads;
    }

    /// Makes the first pattern of the catalogue with the identifier `id` the
    /// current configuration, active. Returns whether there is such a
    /// pattern; where there is none the store keeps what it holds.
    pub fn set_current(&mut self, id: &String) -> (found: bool)
        ensures
            final(self).payloads == old(self).payloads,
            found ==> exists|i: int|
                #![trigger old(self).payloads@[i]]
                is_first_with_id(old(self).payloads@, id@, i) && final(self).recoil_state@
                    == Some(selection(old(self).payloads@[i])),
            !found ==> final(self).recoil_state == old(self).recoil_state,
            !found ==> forall|i: int|
                0 <= i < old(self).payloads@.len() ==> (#[trigger] old(self).payloads@[i]).id@
                    != id@,
    {
        let mut i: usize = 0;
        while i < self.payloads.len()
            invariant
                i <= self.payloads.len(),
                *self == *old(self),
                forall|j: int| 0 <= j < i ==> (#[trigger] self.payloads@[j]).id@ != id@,
            decreases self.payloads.len() - i,
        {
            if self.payloads[i].id == *id {
                let payload = &self.payloads[i];
                let selected = RecoilState {
                    points: copy_points(&payload.points),
                    config: RecoilConfig {
                        sensitivity: payload.sensitivity,
                        rpm: payload.rpm,
                        smooth_steps: payload.steps,
                    },
                    active: true,
                };
                assert(selected@ == selection(self.payloads@[i as int]));
                assert(is_first_with_id(self.payloads@, id@, i as int));
                self.recoil_state.set(selected);
                return true;
            }
            i = i + 1;
        }
        false
    }
}

} // verus!
