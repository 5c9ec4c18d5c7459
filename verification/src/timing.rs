//! Cadence of a playback run, derived from the fire rate.

use vstd::prelude::*;

verus! {

/// Milliseconds in one minute: the fire rate is given in rounds per minute.
pub const MS_PER_MINUTE: u64 = 60000;

/// Microseconds in one millisecond.
pub const US_PER_MS: u64 = 1000;

/// The pause between two traversals of the pattern, in milliseconds.
pub const CYCLE_PAUSE_MS: u64 = 1;

/// Length of one firing cycle in milliseconds, for a fire rate of `rpm`
/// rounds per minute. The division truncates, and the result is never below
/// one millisecond.
pub open spec fn ms_per_cycle_spec(rpm: int) -> int {
    if MS_PER_MINUTE as int / rpm >= 1 {
        MS_PER_MINUTE as int / rpm
    } else {
        1
    }
}

/// Delay of one smoothing step in milliseconds: the cycle divided by the
/// number of steps, truncated, and never below one millisecond.
pub open spec fn step_delay_spec(rpm: int, smooth_steps: int) -> int {
    if ms_per_cycle_spec(rpm) / smooth_steps >= 1 {
        ms_per_cycle_spec(rpm) / smooth_steps
    } else {
        1
    }
}

/// What is left to sleep of a step of `step_delay_ms` milliseconds once
/// `elapsed_us` microseconds of it are spent, in microseconds. A step that
/// overran its budget sleeps nothing.
pub open spec fn sleep_remainder_spec(step_delay_ms: int, elapsed_us: int) -> int {
    if elapsed_us < step_delay_ms * US_PER_MS as int {
        step_delay_ms * US_PER_MS as int - elapsed_us
    } else {
        0
    }
}

/// The delay of a step lies between one millisecond and one minute.
pub proof fn lemma_step_delay_bound(rpm: int, smooth_steps: int)
    requires
        rpm >= 1,
        smooth_steps >= 1,
    ensures
        1 <= step_delay_spec(rpm, smooth_steps) <= MS_PER_MINUTE,
{
    assert(60000int / rpm <= 60000) by (nonlinear_arith)
        requires
            rpm >= 1,
    ;
    let cycle = ms_per_cycle_spec(rpm);
    assert(cycle / smooth_steps <= cycle) by (nonlinear_arith)
        requires
            smooth_steps >= 1,
            cycle >= 0,
    ;
}

/// The cadence of one run.
#[derive(Clone, Copy, Debug, PartialEq, Eq, Structural)]
pub struct Timing {
    pub ms_per_cycle: u64,
    pub step_delay_ms: u64,
}

impl Timing {
    /// The cadence for a fire rate of `rpm` and `smooth_steps` steps per
    /// segment; `None` where either is zero.
    pub fn new(rpm: u64, smooth_steps: u32) -> (timing: Option<Timing>)
        ensures
            timing is None <==> rpm == 0 || smooth_steps == 0,
            timing matches Some(t) ==> {
                &&& t.ms_per_cycle == ms_per_cycle_spec(rpm as int)
                &&& t.step_delay_ms == step_delay_spec(rpm as int, smooth_steps as int)
                &&& 1 <= t.step_delay_ms <= t.ms_per_cycle <= MS_PER_MINUTE
            },
    {
        if rpm == 0 || smooth_steps == 0 {
            return None;
        }
        let cycle: u64 = MS_PER_MINUTE / rpm;
        let ms_per_cycle: u64 = if cycle >= 1 {
            cycle
        } else {
            1
        };
        let delay: u64 = ms_per_cycle / (smooth_steps as u64);
        let step_delay_ms: u64 = if delay >= 1 {
            delay
        } else {
            1
        };
        proof {
            lemma_step_delay_bound(rpm as int, smooth_steps as int);
        }
        Some(Timing { ms_per_cycle, step_delay_ms })
    }
}

/// What is left to sleep after a step that took `elapsed_us` microseconds.
pub fn sleep_remainder_us(step_delay_ms: u64, elapsed_us: u64) -> (us: u64)
    requires
        step_delay_ms * US_PER_MS <= u64::MAX,
    ensures
        us == sleep_remainder_spec(step_delay_ms as int, elapsed_us as int),
        us <= step_delay_ms * US_PER_MS,
{
    let budget: u64 = step_delay_ms * US_PER_MS;
    if elapsed_us < budget {
        budget - elapsed_us
    } else {
        0
    }
}

} // verus!
