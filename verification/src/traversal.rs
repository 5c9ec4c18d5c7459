//! What a sequence of steps adds up to.
//!
//! The laws of this module account for every millionth of a unit: what a run
//! hands out as pointer motion, plus what it carries and what it drops at the
//! ends of segments, is what the pattern and the jitter put in.

use vstd::prelude::*;
use crate::fixed::{
    increment,
    lemma_progress_ends,
    lemma_trunc_rem_bound,
    progress,
    ONE,
};
use crate::playback::{axis_target, PlaybackView};

verus! {

/// The totals of a run of steps: the state at its end, the whole units handed
/// out on each axis, and the fractions dropped at the ends of segments.
pub struct Tally {
    pub end: PlaybackView,
    pub dx: int,
    pub dy: int,
    pub dropped_x: int,
    pub dropped_y: int,
}

/// The run of `jitter.len()` steps from `start`, step `i` with the jitter
/// `jitter[i]`.
pub open spec fn tally(start: PlaybackView, jitter: Seq<(int, int)>) -> Tally
    decreases jitter.len(),
{
    if jitter.len() == 0 {
        Tally { end: start, dx: 0, dy: 0, dropped_x: 0, dropped_y: 0 }
    } else {
        let first = start.advance(jitter[0].0, jitter[0].1);
        let rest = tally(first.next, jitter.drop_first());
        Tally {
            end: rest.end,
            dx: first.dx + rest.dx,
            dy: first.dy + rest.dy,
            dropped_x: first.dropped_x + rest.dropped_x,
            dropped_y: first.dropped_y + rest.dropped_y,
        }
    }
}

/// The sum of the horizontal jitter.
pub open spec fn sum_x(jitter: Seq<(int, int)>) -> int
    decreases jitter.len(),
{
    if jitter.len() == 0 {
        0
    } else {
        jitter[0].0 + sum_x(jitter.drop_first())
    }
}

/// The sum of the vertical jitter.
pub open spec fn sum_y(jitter: Seq<(int, int)>) -> int
    decreases jitter.len(),
{
    if jitter.len() == 0 {
        0
    } else {
        jitter[0].1 + sum_y(jitter.drop_first())
    }
}

/// The state at the start of the pattern of `v`.
pub open spec fn rewound(v: PlaybackView) -> PlaybackView {
    PlaybackView {
        points: v.points,
        config: v.config,
        segment: 0,
        step: 0,
        carry_x: 0,
        carry_y: 0,
    }
}

/// One step keeps the state well formed and loses nothing: the whole units
/// handed out, the fraction carried on and the fraction dropped add up to the
/// fraction brought in, the share of the step and the jitter.
pub proof fn lemma_step_accounts(v: PlaybackView, jitter_x: int, jitter_y: int)
    requires
        v.wf(),
    ensures
        ({
            let o = v.advance(jitter_x, jitter_y);
            &&& o.next.wf()
            &&& o.next.points == v.points
            &&& o.next.config == v.config
            &&& ONE * o.dx + o.dropped_x + o.next.carry_x == v.carry_x + increment(
                v.target_x(),
                v.step,
                v.steps(),
            ) + jitter_x
            &&& ONE * o.dy + o.dropped_y + o.next.carry_y == v.carry_y + increment(
                v.target_y(),
                v.step,
                v.steps(),
            ) + jitter_y
            &&& -ONE < o.dropped_x < ONE
            &&& -ONE < o.dropped_y < ONE
        }),
{
    let sum_x = v.carry_x + increment(v.target_x(), v.step, v.steps()) + jitter_x;
    let sum_y = v.carry_y + increment(v.target_y(), v.step, v.steps()) + jitter_y;
    lemma_trunc_rem_bound(sum_x, ONE as int);
    lemma_trunc_rem_bound(sum_y, ONE as int);
}

/// A run of two parts is the run of the first part followed by the run of
/// the second from where the first ended.
pub proof fn lemma_run_concat(start: PlaybackView, a: Seq<(int, int)>, b: Seq<(int, int)>)
    ensures
        ({
            let whole = tally(start, a + b);
            let head = tally(start, a);
            let tail = tally(head.end, b);
            &&& whole.end == tail.end
            &&& whole.dx == head.dx + tail.dx
            &&& whole.dy == head.dy + tail.dy
            &&& whole.dropped_x == head.dropped_x + tail.dropped_x
            &&& whole.dropped_y == head.dropped_y + tail.dropped_y
        }),
        sum_x(a + b) == sum_x(a) + sum_x(b),
        sum_y(a + b) == sum_y(a) + sum_y(b),
    decreases a.len(),
{
    if a.len() == 0 {
        assert(a + b =~= b);
    } else {
        let first = start.advance(a[0].0, a[0].1);
        assert((a + b)[0] == a[0]);
        assert((a + b).drop_first() =~= a.drop_first() + b);
        lemma_run_concat(first.next, a.drop_first(), b);
    }
}

/// Any number of steps keeps the state well formed: at every moment less than
/// one unit is carried on each axis, and the pattern and its tuning stay.
pub proof fn lemma_steps_keep_well_formed(v: PlaybackView, jitter: Seq<(int, int)>)
    requires
        v.wf(),
    ensures
        tally(v, jitter).end.wf(),
        tally(v, jitter).end.points == v.points,
        tally(v, jitter).end.config == v.config,
    decreases jitter.len(),
{
    if jitter.len() > 0 {
        lemma_step_accounts(v, jitter[0].0, jitter[0].1);
        lemma_steps_keep_well_formed(
            v.advance(jitter[0].0, jitter[0].1).next,
            jitter.drop_first(),
        );
    }
}

/// Steps that stay inside a segment drop nothing: what they hand out and what
/// is carried after them add up to what was carried before them, what became
/// due of the segment's target meanwhile, and the jitter.
pub proof fn lemma_steps_within_segment(v: PlaybackView, jitter: Seq<(int, int)>)
    requires
        v.wf(),
        jitter.len() < v.steps() - v.step,
    ensures
        ({
            let t = tally(v, jitter);
            &&& t.end.wf()
            &&& t.end.segment == v.segment
            &&& t.end.step == v.step + jitter.len()
            &&& t.dropped_x == 0
            &&& t.dropped_y == 0
            &&& ONE * t.dx + t.end.carry_x == v.carry_x + (progress(
                v.target_x(),
                v.step + jitter.len(),
                v.steps(),
            ) - progress(v.target_x(), v.step, v.steps())) + sum_x(jitter)
            &&& ONE * t.dy + t.end.carry_y == v.carry_y + (progress(
                v.target_y(),
                v.step + jitter.len(),
                v.steps(),
            ) - progress(v.target_y(), v.step, v.steps())) + sum_y(jitter)
        }),
    decreases jitter.len(),
{
    if jitter.len() > 0 {
        let o = v.advance(jitter[0].0, jitter[0].1);
        let rest = jitter.drop_first();
        lemma_step_accounts(v, jitter[0].0, jitter[0].1);
        assert(o.next.segment == v.segment);
        assert(o.next.target_x() == v.target_x());
        assert(o.next.target_y() == v.target_y());
        lemma_steps_within_segment(o.next, rest);
        let tail = tally(o.next, rest);
        let t = tally(v, jitter);
        assert(ONE * t.dx == ONE * o.dx + ONE * tail.dx) by (nonlinear_arith)
            requires
                t.dx == o.dx + tail.dx,
        ;
        assert(ONE * t.dy == ONE * o.dy + ONE * tail.dy) by (nonlinear_arith)
            requires
                t.dy == o.dy + tail.dy,
        ;
    }
}

/// The rest of a segment: from any step of it, the steps that are left end
/// the segment with nothing carried, and hand out what was carried in, what
/// was still due of the segment's target, and the jitter, less the fraction
/// that the last step drops.
pub proof fn lemma_rest_of_segment(v: PlaybackView, jitter: Seq<(int, int)>)
    requires
        v.wf(),
        jitter.len() == v.steps() - v.step,
    ensures
        ({
            let t = tally(v, jitter);
            &&& t.end.wf()
            &&& t.end.points == v.points
            &&& t.end.config == v.config
            &&& t.end.step == 0
            &&& t.end.carry_x == 0
            &&& t.end.carry_y == 0
            &&& t.end.segment == if v.segment + 1 == v.segments() {
                0
            } else {
                v.segment + 1
            }
            &&& ONE * t.dx + t.dropped_x == v.carry_x + (v.target_x() - progress(
                v.target_x(),
                v.step,
                v.steps(),
            )) + sum_x(jitter)
            &&& ONE * t.dy + t.dropped_y == v.carry_y + (v.target_y() - progress(
                v.target_y(),
                v.step,
                v.steps(),
            )) + sum_y(jitter)
            &&& -ONE < t.dropped_x < ONE
            &&& -ONE < t.dropped_y < ONE
        }),
    decreases jitter.len(),
{
    let o = v.advance(jitter[0].0, jitter[0].1);
    let rest = jitter.drop_first();
    lemma_step_accounts(v, jitter[0].0, jitter[0].1);
    lemma_progress_ends(v.target_x(), v.steps());
    lemma_progress_ends(v.target_y(), v.steps());
    if jitter.len() == 1 {
        assert(rest.len() == 0);
        assert(v.step + 1 == v.steps());
        assert(sum_x(rest) == 0);
        assert(sum_y(rest) == 0);
        let tail = tally(o.next, rest);
        assert(tail.end == o.next && tail.dx == 0 && tail.dy == 0);
        assert(tail.dropped_x == 0 && tail.dropped_y == 0);
    } else {
        assert(o.next.segment == v.segment);
        assert(o.next.target_x() == v.target_x());
        assert(o.next.target_y() == v.target_y());
        lemma_rest_of_segment(o.next, rest);
        let tail = tally(o.next, rest);
        let t = tally(v, jitter);
        assert(t.dx == o.dx + tail.dx);
        assert(t.dropped_x == o.dropped_x + tail.dropped_x);
        assert(o.dropped_x == 0);
        assert(o.dropped_y == 0);
        assert(ONE * t.dx == ONE * o.dx + ONE * tail.dx) by (nonlinear_arith)
            requires
                t.dx == o.dx + tail.dx,
        ;
        assert(ONE * t.dy == ONE * o.dy + ONE * tail.dy) by (nonlinear_arith)
            requires
                t.dy == o.dy + tail.dy,
        ;
    }
}

/// The rest of the pattern: from the first step of any segment with nothing
/// carried, the steps of the segments that are left lead back to the start of
/// the pattern, and account for the compensation target from that segment's
/// first point to the last point of the pattern.
pub proof fn lemma_rest_of_pattern(v: PlaybackView, jitter: Seq<(int, int)>)
    requires
        v.wf(),
        v.step == 0,
        v.carry_x == 0,
        v.carry_y == 0,
        jitter.len() == (v.segments() - v.segment) * v.steps(),
    ensures
        ({
            let t = tally(v, jitter);
            let left = v.segments() - v.segment;
            &&& t.end == rewound(v)
            &&& ONE * t.dx + t.dropped_x == axis_target(
                v.points[v.segment].x as int,
                v.points.last().x as int,
                v.config.sensitivity as int,
            ) + sum_x(jitter)
            &&& ONE * t.dy + t.dropped_y == axis_target(
                v.points[v.segment].y as int,
                v.points.last().y as int,
                v.config.sensitivity as int,
            ) + sum_y(jitter)
            &&& -ONE * left < t.dropped_x < ONE * left
            &&& -ONE * left < t.dropped_y < ONE * left
        }),
    decreases v.segments() - v.segment,
{
    let n = v.steps();
    let left = v.segments() - v.segment;
    assert(left * n == n + (left - 1) * n) by (nonlinear_arith);
    assert((left - 1) * n >= 0) by (nonlinear_arith)
        requires
            left >= 1,
            n >= 1,
    ;
    let a = jitter.take(n);
    let b = jitter.skip(n);
    assert(jitter =~= a + b);
    lemma_run_concat(v, a, b);
    lemma_rest_of_segment(v, a);
    lemma_progress_ends(v.target_x(), n);
    lemma_progress_ends(v.target_y(), n);
    let head = tally(v, a);
    let tail = tally(head.end, b);
    let t = tally(v, jitter);
    let s = v.config.sensitivity as int;
    if left == 1 {
        assert((left - 1) * n == 0) by (nonlinear_arith)
            requires
                left == 1,
        ;
        assert(b.len() == 0);
        assert(tail.end == head.end && tail.dx == 0 && tail.dy == 0);
        assert(tail.dropped_x == 0 && tail.dropped_y == 0);
        assert(sum_x(b) == 0 && sum_y(b) == 0);
        assert(head.end =~= rewound(v));
        assert(v.points.last() == v.points[v.segment + 1]);
    } else {
        let next = head.end;
        assert(next.segment == v.segment + 1);
        assert(b.len() == (next.segments() - next.segment) * next.steps());
        lemma_rest_of_pattern(next, b);
        assert(rewound(next) =~= rewound(v));
        let x0 = v.points[v.segment].x as int;
        let x1 = v.points[v.segment + 1].x as int;
        let xn = v.points.last().x as int;
        let y0 = v.points[v.segment].y as int;
        let y1 = v.points[v.segment + 1].y as int;
        let yn = v.points.last().y as int;
        assert(axis_target(x0, x1, s) + axis_target(x1, xn, s) == axis_target(x0, xn, s))
            by (nonlinear_arith);
        assert(axis_target(y0, y1, s) + axis_target(y1, yn, s) == axis_target(y0, yn, s))
            by (nonlinear_arith);
        assert(ONE * t.dx == ONE * head.dx + ONE * tail.dx) by (nonlinear_arith)
            requires
                t.dx == head.dx + tail.dx,
        ;
        assert(ONE * t.dy == ONE * head.dy + ONE * tail.dy) by (nonlinear_arith)
            requires
                t.dy == head.dy + tail.dy,
        ;
        assert(ONE * left == ONE + ONE * (left - 1)) by (nonlinear_arith);
    }
}

/// One full traversal of the pattern, whatever the jitter: the run is back at
/// the start of the pattern, and on each axis the motion handed out, in
/// millionths, is the negated displacement from the first point to the last,
/// scaled by the sensitivity, plus the jitter, less what the segments
/// dropped, which is less than one unit for each segment.
pub proof fn lemma_traversal_accounts(v: PlaybackView, jitter: Seq<(int, int)>)
    requires
        v.wf(),
        v.at_start(),
        jitter.len() == v.segments() * v.steps(),
    ensures
        ({
            let t = tally(v, jitter);
            &&& t.end == v
            &&& ONE * t.dx + t.dropped_x == axis_target(
                v.points.first().x as int,
                v.points.last().x as int,
                v.config.sensitivity as int,
            ) + sum_x(jitter)
            &&& ONE * t.dy + t.dropped_y == axis_target(
                v.points.first().y as int,
                v.points.last().y as int,
                v.config.sensitivity as int,
            ) + sum_y(jitter)
            &&& -ONE * v.segments() < t.dropped_x < ONE * v.segments()
            &&& -ONE * v.segments() < t.dropped_y < ONE * v.segments()
        }),
{
    lemma_rest_of_pattern(v, jitter);
    assert(rewound(v) =~= v);
}

/// One full traversal moves the pointer to within one unit, on each axis, of
/// the negated displacement scaled by the sensitivity, on exactly those
/// patterns and jitters on which the jitter and the fractions that the
/// segments drop differ by no more than one unit.
pub proof fn lemma_traversal_within_one_unit(v: PlaybackView, jitter: Seq<(int, int)>)
    requires
        v.wf(),
        v.at_start(),
        jitter.len() == v.segments() * v.steps(),
    ensures
        ({
            let t = tally(v, jitter);
            let target_x = axis_target(
                v.points.first().x as int,
                v.points.last().x as int,
                v.config.sensitivity as int,
            );
            let target_y = axis_target(
                v.points.first().y as int,
                v.points.last().y as int,
                v.config.sensitivity as int,
            );
            &&& target_x - ONE <= ONE * t.dx <= target_x + ONE <==> -ONE <= sum_x(jitter)
                - t.dropped_x <= ONE
            &&& target_y - ONE <= ONE * t.dy <= target_y + ONE <==> -ONE <= sum_y(jitter)
                - t.dropped_y <= ONE
        }),
{
    lemma_traversal_accounts(v, jitter);
}

/// Jitter that is zero on both axes at every step.
pub open spec fn no_jitter(jitter: Seq<(int, int)>) -> bool {
    forall|i: int| 0 <= i < jitter.len() ==> jitter[i] == (0int, 0int)
}

/// Jitter that is zero sums to zero.
pub proof fn lemma_no_jitter_sums_to_zero(jitter: Seq<(int, int)>)
    requires
        no_jitter(jitter),
    ensures
        sum_x(jitter) == 0,
        sum_y(jitter) == 0,
    decreases jitter.len(),
{
    if jitter.len() > 0 {
        let rest = jitter.drop_first();
        assert forall|i: int| 0 <= i < rest.len() implies rest[i] == (0int, 0int) by {
            assert(rest[i] == jitter[i + 1]);
        }
        lemma_no_jitter_sums_to_zero(rest);
    }
}

/// Without jitter, one traversal of a pattern of a single segment moves the
/// pointer to within one unit, on each axis, of the negated displacement
/// scaled by the sensitivity.
pub proof fn lemma_single_segment_within_one_unit(v: PlaybackView, jitter: Seq<(int, int)>)
    requires
        v.wf(),
        v.at_start(),
        v.points.len() == 2,
        jitter.len() == v.steps(),
        no_jitter(jitter),
    ensures
        ({
            let t = tally(v, jitter);
            let target_x = axis_target(
                v.points[0].x as int,
                v.points[1].x as int,
                v.config.sensitivity as int,
            );
            let target_y = axis_target(
                v.points[0].y as int,
                v.points[1].y as int,
                v.config.sensitivity as int,
            );
            &&& target_x - ONE < ONE * t.dx < target_x + ONE
            &&& target_y - ONE < ONE * t.dy < target_y + ONE
        }),
{
    assert(v.segments() * v.steps() == v.steps()) by (nonlinear_arith)
        requires
            v.segments() == 1,
    ;
    lemma_traversal_accounts(v, jitter);
    lemma_no_jitter_sums_to_zero(jitter);
}

/// Whether the compensation target of every segment from `from` on is a
/// whole number of units on both axes.
pub open spec fn whole_unit_targets(v: PlaybackView, from: int) -> bool {
    forall|i: int|
        from <= i < v.segments() ==> {
            &&& #[trigger] axis_target(
                v.points[i].x as int,
                v.points[i + 1].x as int,
                v.config.sensitivity as int,
            ) % (ONE as int) == 0
            &&& axis_target(
                v.points[i].y as int,
                v.points[i + 1].y as int,
                v.config.sensitivity as int,
            ) % (ONE as int) == 0
        }
}

/// A fraction of less than one unit that differs from a whole number of units
/// by a whole number of units is zero.
proof fn lemma_whole_fraction_is_zero(whole: int, moved: int, fraction: int)
    requires
        whole % (ONE as int) == 0,
        ONE * moved + fraction == whole,
        -ONE < fraction < ONE,
    ensures
        fraction == 0,
{
    let q = whole / (ONE as int);
    vstd::arithmetic::div_mod::lemma_fundamental_div_mod(whole, ONE as int);
    assert(fraction == ONE * (q - moved)) by (nonlinear_arith)
        requires
            whole == ONE * q + 0,
            ONE * moved + fraction == whole,
    ;
    assert(q - moved == 0) by (nonlinear_arith)
        requires
            fraction == ONE * (q - moved),
            -ONE < fraction < ONE,
            ONE == 1000000,
    ;
}

/// Without jitter, the segments that are left of a pattern whose targets are
/// whole numbers of units drop nothing.
proof fn lemma_rest_of_whole_pattern(v: PlaybackView, jitter: Seq<(int, int)>)
    requires
        v.wf(),
        v.step == 0,
        v.carry_x == 0,
        v.carry_y == 0,
        jitter.len() == (v.segments() - v.segment) * v.steps(),
        no_jitter(jitter),
        whole_unit_targets(v, v.segment),
    ensures
        tally(v, jitter).dropped_x == 0,
        tally(v, jitter).dropped_y == 0,
    decreases v.segments() - v.segment,
{
    let n = v.steps();
    let left = v.segments() - v.segment;
    assert(left * n == n + (left - 1) * n) by (nonlinear_arith);
    assert((left - 1) * n >= 0) by (nonlinear_arith)
        requires
            left >= 1,
            n >= 1,
    ;
    let a = jitter.take(n);
    let b = jitter.skip(n);
    assert(jitter =~= a + b);
    assert(no_jitter(a)) by {
        assert forall|i: int| 0 <= i < a.len() implies a[i] == (0int, 0int) by {
            assert(a[i] == jitter[i]);
        }
    }
    assert(no_jitter(b)) by {
        assert forall|i: int| 0 <= i < b.len() implies b[i] == (0int, 0int) by {
            assert(b[i] == jitter[i + n]);
        }
    }
    lemma_no_jitter_sums_to_zero(a);
    lemma_run_concat(v, a, b);
    lemma_rest_of_segment(v, a);
    lemma_progress_ends(v.target_x(), n);
    lemma_progress_ends(v.target_y(), n);
    let head = tally(v, a);
    let tail = tally(head.end, b);
    assert(v.target_x() % (ONE as int) == 0 && v.target_y() % (ONE as int) == 0);
    lemma_whole_fraction_is_zero(v.target_x(), head.dx, head.dropped_x);
    lemma_whole_fraction_is_zero(v.target_y(), head.dy, head.dropped_y);
    if left == 1 {
        assert((left - 1) * n == 0) by (nonlinear_arith)
            requires
                left == 1,
        ;
        assert(b.len() == 0);
        assert(tail.dropped_x == 0 && tail.dropped_y == 0);
    } else {
        let next = head.end;
        assert(next.segment == v.segment + 1);
        assert(b.len() == (next.segments() - next.segment) * next.steps());
        assert(whole_unit_targets(next, next.segment)) by {
            assert forall|i: int| next.segment <= i < next.segments() implies {
                &&& #[trigger] axis_target(
                    next.points[i].x as int,
                    next.points[i + 1].x as int,
                    next.config.sensitivity as int,
                ) % (ONE as int) == 0
                &&& axis_target(
                    next.points[i].y as int,
                    next.points[i + 1].y as int,
                    next.config.sensitivity as int,
                ) % (ONE as int) == 0
            } by {
                assert(axis_target(
                    v.points[i].x as int,
                    v.points[i + 1].x as int,
                    v.config.sensitivity as int,
                ) % (ONE as int) == 0);
            }
        }
        lemma_rest_of_whole_pattern(next, b);
    }
}

/// Without jitter, one traversal of a pattern whose segments all have
/// compensation targets of whole units moves the pointer by exactly the
/// negated displacement scaled by the sensitivity.
pub proof fn lemma_whole_unit_pattern_is_exact(v: PlaybackView, jitter: Seq<(int, int)>)
    requires
        v.wf(),
        v.at_start(),
        jitter.len() == v.segments() * v.steps(),
        no_jitter(jitter),
        whole_unit_targets(v, 0),
    ensures
        ONE * tally(v, jitter).dx == axis_target(
            v.points.first().x as int,
            v.points.last().x as int,
            v.config.sensitivity as int,
        ),
        ONE * tally(v, jitter).dy == axis_target(
            v.points.first().y as int,
            v.points.last().y as int,
            v.config.sensitivity as int,
        ),
{
    lemma_traversal_accounts(v, jitter);
    lemma_rest_of_whole_pattern(v, jitter);
    lemma_no_jitter_sums_to_zero(jitter);
}

} // verus!
