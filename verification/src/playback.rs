//! The playback engine: one step of compensation at a time.
//!
//! A run walks the segments of the pattern in order and starts over after
//! the last one. Each segment is subdivided into `smooth_steps` steps. A step
//! adds its share of the segment's compensation target and a jitter to a
//! running accumulator, hands out the whole units of it as pointer motion and
//! keeps the rest for the next step of the segment. The engine only decides:
//! its caller polls the firing flag, injects the motion and sleeps.

use vstd::prelude::*;
use crate::fixed::{
    increment,
    lemma_progress_bound,
    lemma_trunc_rem_bound,
    progress_of,
    trunc_div,
    trunc_div_i128,
    trunc_rem,
    ONE,
};
use crate::jitter::{is_jitter, JitterSource};
use crate::recoil::{copy_points, Point, RecoilConfig};
use crate::timing::{
    lemma_step_delay_bound,
    sleep_remainder_spec,
    sleep_remainder_us,
    step_delay_spec,
    Timing,
    MS_PER_MINUTE,
    US_PER_MS,
};

verus! {

/// The compensation target of one axis of a segment that leads from
/// coordinate `from` to coordinate `to`: the displacement scaled by the
/// sensitivity and negated, in millionths of a device unit.
pub open spec fn axis_target(from: int, to: int, sensitivity: int) -> int {
    -((to - from) * sensitivity)
}

/// The state of a run as mathematical values: the pattern and its tuning,
/// the segment and the step within it that come next, and the fraction of a
/// unit carried over on each axis.
pub struct PlaybackView {
    pub points: Seq<Point>,
    pub config: RecoilConfig,
    pub segment: int,
    pub step: int,
    pub carry_x: int,
    pub carry_y: int,
}

/// What one step does: the state after it, the whole units it hands out, the
/// fraction it drops where it ends a segment, and whether it ends a traversal
/// of the pattern.
pub struct Outcome {
    pub next: PlaybackView,
    pub dx: int,
    pub dy: int,
    pub dropped_x: int,
    pub dropped_y: int,
    pub cycle_complete: bool,
}

impl PlaybackView {
    /// The number of segments of the pattern.
    pub open spec fn segments(self) -> int {
        self.points.len() - 1
    }

    /// The number of steps of one segment.
    pub open spec fn steps(self) -> int {
        self.config.smooth_steps as int
    }

    /// A playable pattern with a position inside it and less than one unit
    /// carried on each axis.
    pub open spec fn wf(self) -> bool {
        &&& self.points.len() >= 2
        &&& self.config.rpm > 0
        &&& self.config.smooth_steps >= 1
        &&& 0 <= self.segment < self.segments()
        &&& 0 <= self.step < self.steps()
        &&& -ONE < self.carry_x < ONE
        &&& -ONE < self.carry_y < ONE
    }

    /// The first step of the first segment, with nothing carried.
    pub open spec fn at_start(self) -> bool {
        self.segment == 0 && self.step == 0 && self.carry_x == 0 && self.carry_y == 0
    }

    /// The compensation target of the current segment on the horizontal axis.
    pub open spec fn target_x(self) -> int {
        axis_target(
            self.points[self.segment].x as int,
            self.points[self.segment + 1].x as int,
            self.config.sensitivity as int,
        )
    }

    /// The compensation target of the current segment on the vertical axis.
    pub open spec fn target_y(self) -> int {
        axis_target(
            self.points[self.segment].y as int,
            self.points[self.segment + 1].y as int,
            self.config.sensitivity as int,
        )
    }

    /// One step with the jitter `(jitter_x, jitter_y)`.
    pub open spec fn advance(self, jitter_x: int, jitter_y: int) -> Outcome {
        let sum_x = self.carry_x + increment(self.target_x(), self.step, self.steps()) + jitter_x;
        let sum_y = self.carry_y + increment(self.target_y(), self.step, self.steps()) + jitter_y;
        let ends_segment = self.step + 1 == self.steps();
        let ends_cycle = ends_segment && self.segment + 1 == self.segments();
        Outcome {
            next: PlaybackView {
                points: self.points,
                config: self.config,
                segment: if ends_cycle {
                    0
                } else if ends_segment {
                    self.segment + 1
                } else {
                    self.segment
                },
                step: if ends_segment {
                    0
                } else {
                    self.step + 1
                },
                carry_x: if ends_segment {
                    0
                } else {
                    trunc_rem(sum_x, ONE as int)
                },
                carry_y: if ends_segment {
                    0
                } else {
                    trunc_rem(sum_y, ONE as int)
                },
            },
            dx: trunc_div(sum_x, ONE as int),
            dy: trunc_div(sum_y, ONE as int),
            dropped_x: if ends_segment {
                trunc_rem(sum_x, ONE as int)
            } else {
                0
            },
            dropped_y: if ends_segment {
                trunc_rem(sum_y, ONE as int)
            } else {
                0
            },
            cycle_complete: ends_cycle,
        }
    }
}

/// What the caller does for one step: move the pointer by `(dx, dy)` whole
/// device units unless both are zero, sleep what is left of `delay_ms`, and
/// pause briefly where the step completed a traversal of the pattern.
#[derive(Clone, Copy, Debug, PartialEq, Eq, Structural)]
pub struct Step {
    pub dx: i64,
    pub dy: i64,
    pub delay_ms: u64,
    pub cycle_complete: bool,
}

/// `v` brought into the range of `i32`.
pub open spec fn clamp_i32(v: int) -> int {
    if v < i32::MIN as int {
        i32::MIN as int
    } else if v > i32::MAX as int {
        i32::MAX as int
    } else {
        v
    }
}

fn clamp_to_i32(v: i64) -> (r: i32)
    ensures
        r == clamp_i32(v as int),
{
    if v < -2147483648 {
        -2147483648
    } else if v > 2147483647 {
        2147483647
    } else {
        v as i32
    }
}

impl Step {
    /// The motion to inject, in the range of the injector; `None` for a step
    /// that moves on neither axis, which is skipped.
    pub fn motion(&self) -> (motion: Option<(i32, i32)>)
        ensures
            motion is None <==> self.dx == 0 && self.dy == 0,
            motion matches Some(m) ==> m.0 == clamp_i32(self.dx as int) && m.1 == clamp_i32(
                self.dy as int,
            ),
    {
        if self.dx == 0 && self.dy == 0 {
            None
        } else {
            Some((clamp_to_i32(self.dx), clamp_to_i32(self.dy)))
        }
    }
}

/// The position of a run inside its pattern.
#[derive(Clone, Copy, Debug, PartialEq, Eq, Structural)]
struct Cursor {
    segment: usize,
    step: u32,
    carry_x: i64,
    carry_y: i64,
}

/// A playback run over a snapshot of the configuration.
pub struct Playback {
    points: Vec<Point>,
    config: RecoilConfig,
    step_delay_ms: u64,
    cursor: Cursor,
}

impl View for Playback {
    type V = PlaybackView;

    closed spec fn view(&self) -> PlaybackView {
        PlaybackView {
            points: self.points@,
            config: self.config,
            segment: self.cursor.segment as int,
            step: self.cursor.step as int,
            carry_x: self.cursor.carry_x as int,
            carry_y: self.cursor.carry_y as int,
        }
    }
}

/// The compensation target of one axis, on machine integers.
fn axis_target_of(from: i32, to: i32, sensitivity: i32) -> (target: i64)
    ensures
        target == axis_target(from as int, to as int, sensitivity as int),
        target > i64::MIN,
{
    let delta: i64 = (to as i64) - (from as i64);
    proof {
        assert(-0x7fff_ffff_8000_0000 <= delta * sensitivity <= 0x7fff_ffff_8000_0000)
            by (nonlinear_arith)
            requires
                -0xffff_ffff <= delta <= 0xffff_ffff,
                -0x8000_0000 <= sensitivity <= 0x7fff_ffff,
        ;
    }
    -(delta * (sensitivity as i64))
}

/// One axis of one step: the whole units to hand out and the fraction left.
fn settle(carry: i64, target: i64, step: u32, steps: u32, jitter: i32) -> (r: (i64, i64))
    requires
        -ONE < carry < ONE,
        target > i64::MIN,
        step < steps,
    ensures
        r.0 == trunc_div(
            carry + increment(target as int, step as int, steps as int) + jitter,
            ONE as int,
        ),
        r.1 == trunc_rem(
            carry + increment(target as int, step as int, steps as int) + jitter,
            ONE as int,
        ),
        -ONE < r.1 < ONE,
{
    proof {
        lemma_progress_bound(target as int, step as int, steps as int);
        lemma_progress_bound(target as int, step + 1, steps as int);
    }
    let before: i64 = progress_of(target, step, steps);
    let after: i64 = progress_of(target, step + 1, steps);
    let sum: i128 = (carry as i128) + ((after as i128) - (before as i128)) + (jitter as i128);
    let whole: i128 = trunc_div_i128(sum, ONE as i128);
    proof {
        lemma_trunc_rem_bound(sum as int, ONE as int);
        assert(-0x7fff_ffff_ffff_ffff < whole < 0x7fff_ffff_ffff_ffff) by (nonlinear_arith)
            requires
                -1000000 < sum - whole * 1000000 < 1000000,
                -0x1_0000_0000_0000_0000 < sum < 0x1_0000_0000_0000_0000,
        ;
    }
    let rest: i128 = sum - whole * (ONE as i128);
    (whole as i64, rest as i64)
}

/// Whether `step`, which led from `before` to `after`, is the step that the
/// jitter `(jitter_x, jitter_y)` gives.
pub open spec fn plays(
    before: PlaybackView,
    jitter_x: int,
    jitter_y: int,
    after: PlaybackView,
    step: Step,
) -> bool {
    let outcome = before.advance(jitter_x, jitter_y);
    &&& after == outcome.next
    &&& step.dx == outcome.dx
    &&& step.dy == outcome.dy
    &&& step.cycle_complete == outcome.cycle_complete
    &&& step.delay_ms == step_delay_spec(
        before.config.rpm as int,
        before.config.smooth_steps as int,
    )
}

/// Whether `step`, which led from `before` to `after`, is a step that some
/// jitter within the range of the source gives.
pub open spec fn plays_some_jitter(before: PlaybackView, after: PlaybackView, step: Step) -> bool {
    exists|jitter_x: int, jitter_y: int|
        #![trigger plays(before, jitter_x, jitter_y, after, step)]
        is_jitter(jitter_x) && is_jitter(jitter_y) && plays(
            before,
            jitter_x,
            jitter_y,
            after,
            step,
        )
}

impl Playback {
    /// The invariant of a run: a playable pattern, a position inside it, and
    /// the step delay that belongs to its tuning.
    #[verifier::type_invariant]
    spec fn inv(self) -> bool {
        &&& self@.wf()
        &&& self.step_delay_ms == step_delay_spec(
            self.config.rpm as int,
            self.config.smooth_steps as int,
        )
    }

    /// A run at the start of `points`. `None` where there is no motion to
    /// play: fewer than two points, a fire rate of zero, or no steps.
    pub fn new(points: &Vec<Point>, config: RecoilConfig) -> (run: Option<Playback>)
        ensures
            run is None <==> points@.len() < 2 || config.rpm == 0 || config.smooth_steps == 0,
            run matches Some(p) ==> {
                &&& p@.points == points@
                &&& p@.config == config
                &&& p@.at_start()
                &&& p@.wf()
            },
    {
        if points.len() < 2 {
            return None;
        }
        match Timing::new(config.rpm, config.smooth_steps) {
            None => None,
            Some(timing) => Some(
                Playback {
                    points: copy_points(points),
                    config,
                    step_delay_ms: timing.step_delay_ms,
                    cursor: Cursor { segment: 0, step: 0, carry_x: 0, carry_y: 0 },
                },
            ),
        }
    }

    /// The delay of one step in milliseconds.
    pub fn step_delay_ms(&self) -> (ms: u64)
        ensures
            ms == step_delay_spec(self@.config.rpm as int, self@.config.smooth_steps as int),
            1 <= ms <= MS_PER_MINUTE,
    {
        proof {
            use_type_invariant(self);
            lemma_step_delay_bound(self.config.rpm as int, self.config.smooth_steps as int);
        }
        self.step_delay_ms
    }

    /// What is left to sleep of a step of this run once `elapsed_us`
    /// microseconds of it are spent, in microseconds: zero for a step that
    /// overran, and never more than the delay of one step.
    pub fn sleep_after(&self, elapsed_us: u64) -> (us: u64)
        ensures
            us == sleep_remainder_spec(
                step_delay_spec(self@.config.rpm as int, self@.config.smooth_steps as int),
                elapsed_us as int,
            ),
            us <= step_delay_spec(self@.config.rpm as int, self@.config.smooth_steps as int)
                * US_PER_MS,
    {
        let delay: u64 = self.step_delay_ms();
        sleep_remainder_us(delay, elapsed_us)
    }

    /// Plays one step with the jitter `(jitter_x, jitter_y)`, in millionths of
    /// a device unit.
    pub fn advance(&mut self, jitter_x: i32, jitter_y: i32) -> (step: Step)
        ensures
            old(self)@.wf(),
            final(self)@.wf(),
            plays(old(self)@, jitter_x as int, jitter_y as int, final(self)@, step),
    {
        proof {
            use_type_invariant(&*self);
        }
        let count: usize = self.points.len();
        let steps: u32 = self.config.smooth_steps;
        let at: Cursor = self.cursor;
        let from: Point = self.points[at.segment];
        let to: Point = self.points[at.segment + 1];
        let target_x: i64 = axis_target_of(from.x, to.x, self.config.sensitivity);
        let target_y: i64 = axis_target_of(from.y, to.y, self.config.sensitivity);
        let (dx, rest_x) = settle(at.carry_x, target_x, at.step, steps, jitter_x);
        let (dy, rest_y) = settle(at.carry_y, target_y, at.step, steps, jitter_y);
        let ends_segment: bool = at.step + 1 == steps;
        let ends_cycle: bool = ends_segment && at.segment + 2 == count;
        self.cursor = if ends_cycle {
            Cursor { segment: 0, step: 0, carry_x: 0, carry_y: 0 }
        } else if ends_segment {
            Cursor { segment: at.segment + 1, step: 0, carry_x: 0, carry_y: 0 }
        } else {
            Cursor { segment: at.segment, step: at.step + 1, carry_x: rest_x, carry_y: rest_y }
        };
        Step { dx, dy, delay_ms: self.step_delay_ms, cycle_complete: ends_cycle }
    }

    /// What the run does next, given the firing flag as it was just read:
    /// nothing once the flag is cleared, else one step with a jitter drawn
    /// from `source`.
    pub fn tick(&mut self, firing: bool, source: &mut JitterSource) -> (step: Option<Step>)
        ensures
            old(self)@.wf(),
            final(self)@.wf(),
            !firing ==> step is None && final(self)@ == old(self)@,
            firing ==> step is Some && plays_some_jitter(old(self)@, final(self)@, step->0),
    {
        proof {
            use_type_invariant(&*self);
        }
        if !firing {
            return None;
        }
        let jitter_x: i32 = source.sample();
        let jitter_y: i32 = source.sample();
        let played: Step = self.advance(jitter_x, jitter_y);
        assert(plays(old(self)@, jitter_x as int, jitter_y as int, self@, played));
        Some(played)
    }
}

} // verus!
