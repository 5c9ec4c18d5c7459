//! The data model of a recoil pattern.
//!
//! Coordinates and the sensitivity factor are fixed-point numbers in
//! thousandths, so that a displacement scaled by the sensitivity is an exact
//! integer number of millionths of a device unit. A thousandth is the
//! resolution of both: a caller that holds decimal numbers rounds them to
//! thousandths, and a value of less than half a thousandth becomes zero. The
//! range of both is that of `i32`, about two million units either way.

use vstd::prelude::*;

verus! {

/// One waypoint of a recoil-displacement curve, in thousandths of a device
/// unit.
#[derive(Clone, Copy, Debug, PartialEq, Eq, Structural)]
pub struct Point {
    pub x: i32,
    pub y: i32,
}

/// Tuning of one pattern: the sensitivity factor in thousandths (1000 scales
/// by one), the fire rate in rounds per minute and the number of subdivisions
/// of a segment.
#[derive(Clone, Copy, Debug, PartialEq, Eq, Structural)]
pub struct RecoilConfig {
    pub sensitivity: i32,
    pub rpm: u64,
    pub smooth_steps: u32,
}

/// The currently selected pattern with its tuning. `active` gates whether a
/// trigger condition starts a playback run.
#[derive(Debug)]
pub struct RecoilState {
    pub points: Vec<Point>,
    pub config: RecoilConfig,
    pub active: bool,
}

/// What a `RecoilState` holds, as mathematical values.
pub struct RecoilStateView {
    pub points: Seq<Point>,
    pub config: RecoilConfig,
    pub active: bool,
}

impl RecoilStateView {
    /// The same pattern and tuning with the `active` flag set to `active`.
    pub open spec fn with_active(self, active: bool) -> RecoilStateView {
        RecoilStateView { points: self.points, config: self.config, active }
    }
}

impl View for RecoilState {
    type V = RecoilStateView;

    open spec fn view(&self) -> RecoilStateView {
        RecoilStateView { points: self.points@, config: self.config, active: self.active }
    }
}

/// A copy of `points`, element by element.
pub fn copy_points(points: &Vec<Point>) -> (copy: Vec<Point>)
    ensures
        copy@ == points@,
{
    let mut copy: Vec<Point> = Vec::new();
    let mut i: usize = 0;
    while i < points.len()
        invariant
            i <= points.len(),
            copy@ == points@.take(i as int),
        decreases points.len() - i,
    {
        copy.push(points[i]);
        i = i + 1;
    }
    copy
}

impl Clone for RecoilState {
    /// A snapshot that shares nothing with `self`.
    fn clone(&self) -> (copy: Self)
        ensures
            copy@ == self@,
    {
        RecoilState { points: copy_points(&self.points), config: self.config, active: self.active }
    }
}

} // verus!
