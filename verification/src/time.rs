//! Fixed-timestep frame clock.
//!
//! Each tick the clock clamps the elapsed wall time, adds it to a time
//! debt, and consumes one fixed step per [`FIXED_STEP_US`] of debt. The
//! clamp keeps a debugger pause or a long hitch from exploding into a
//! burst of simulation steps; the debt keeps the simulation step size
//! deterministic regardless of the display frame rate. A ring of the last
//! [`AVG_FRAME_TIME_SAMPLE`] frame times backs a diagnostic average.
//!
//! All durations are microsecond counts.

use vstd::arithmetic::div_mod::lemma_fundamental_div_mod_converse;
use vstd::pervasive::VecAdditionalExecFns;
use vstd::prelude::*;

verus! {

/// Length of one fixed simulation step, in microseconds.
pub const FIXED_STEP_US: u64 = 10_000;

/// Length of one fixed simulation step, in milliseconds.
pub const FIXED_STEP_MS: u64 = 10;

/// Upper bound applied to the elapsed time of one frame, in microseconds.
pub const MAX_FRAME_TIME_US: u64 = 250_000;

/// Number of frame times kept for the average-frame-time diagnostic.
pub const AVG_FRAME_TIME_SAMPLE: usize = 100;

/// The elapsed time of one frame, bounded by [`MAX_FRAME_TIME_US`].
pub open spec fn clamp_frame_time_spec(elapsed_us: u64) -> u64 {
    if elapsed_us > MAX_FRAME_TIME_US {
        MAX_FRAME_TIME_US
    } else {
        elapsed_us
    }
}

/// Sum of a sequence of durations.
pub open spec fn sum_seq(s: Seq<u64>) -> int
    decreases s.len(),
{
    if s.len() == 0 {
        0
    } else {
        sum_seq(s.drop_last()) + s.last()
    }
}

/// The fixed-step accumulator and its diagnostic counters.
pub struct FrameClock {
    frame_time_accumulator_us: u64,
    total_sim_time_ms: u64,
    frame_counter: u64,
    frame_times_us: Vec<u64>,
    frame_time_index: usize,
}

impl FrameClock {
    /// Time debt not yet consumed by a fixed step, in microseconds.
    pub closed spec fn accumulator_us(self) -> u64 {
        self.frame_time_accumulator_us
    }

    /// Total simulated time over all consumed fixed steps, in milliseconds.
    pub closed spec fn total_sim_time_ms(self) -> u64 {
        self.total_sim_time_ms
    }

    /// Number of ticks processed so far.
    pub closed spec fn frame_counter(self) -> u64 {
        self.frame_counter
    }

    /// The ring of recorded frame times, in microseconds.
    pub closed spec fn samples(self) -> Seq<u64> {
        self.frame_times_us@
    }

    /// Slot of the ring that the next tick overwrites.
    pub closed spec fn sample_index(self) -> int {
        self.frame_time_index as int
    }

    /// The debt is always smaller than one step, the ring is full-sized,
    /// and every recorded frame time respects the clamp.
    pub open spec fn wf(self) -> bool {
        &&& self.accumulator_us() < FIXED_STEP_US
        &&& self.samples().len() == AVG_FRAME_TIME_SAMPLE
        &&& 0 <= self.sample_index() < AVG_FRAME_TIME_SAMPLE
        &&& forall|i: int|
            0 <= i < self.samples().len() ==> self.samples()[i] <= MAX_FRAME_TIME_US
    }

    /// A fresh clock: no debt, no history.
    pub fn new() -> (clock: FrameClock)
        ensures
            clock.wf(),
            clock.accumulator_us() == 0,
            clock.total_sim_time_ms() == 0,
            clock.frame_counter() == 0,
            clock.samples() == Seq::<u64>::new(AVG_FRAME_TIME_SAMPLE as nat, |i: int| 0u64),
            clock.sample_index() == 0,
    {
        let clock = FrameClock {
            frame_time_accumulator_us: 0,
            total_sim_time_ms: 0,
            frame_counter: 0,
            frame_times_us: vec![0u64; AVG_FRAME_TIME_SAMPLE],
            frame_time_index: 0,
        };
        assert(clock.samples() =~= Seq::<u64>::new(AVG_FRAME_TIME_SAMPLE as nat, |i: int| 0u64));
        clock
    }

    /// Advances the clock by one frame's elapsed time and consumes the
    /// fixed steps the accumulated debt affords. The elapsed time is
    /// clamped to [`MAX_FRAME_TIME_US`] before it is accumulated; the new
    /// debt is exactly the remainder of the clamped total, so the steps a
    /// given amount of elapsed time yields do not depend on how it is
    /// split across calls.
    pub fn advance(&mut self, elapsed_us: u64) -> (steps: u64)
        requires
            old(self).wf(),
        ensures
            final(self).wf(),
            steps == (old(self).accumulator_us() + clamp_frame_time_spec(elapsed_us)) as int
                / FIXED_STEP_US as int,
            final(self).accumulator_us() == (old(self).accumulator_us() + clamp_frame_time_spec(elapsed_us)) as int % FIXED_STEP_US as int,
            old(self).total_sim_time_ms() + FIXED_STEP_MS * steps <= u64::MAX ==> final(self).total_sim_time_ms() == old(self).total_sim_time_ms() + FIXED_STEP_MS * steps,
            old(self).frame_counter() < u64::MAX ==> final(self).frame_counter() == old(self).frame_counter() + 1,
            old(self).frame_counter() == u64::MAX ==> final(self).frame_counter() == u64::MAX,
            final(self).samples() == old(self).samples().update(
                old(self).sample_index(),
                clamp_frame_time_spec(elapsed_us),
            ),
            final(self).sample_index() == (old(self).sample_index() + 1) % (
            AVG_FRAME_TIME_SAMPLE as int),
    {
        let clamped = if elapsed_us > MAX_FRAME_TIME_US {
            MAX_FRAME_TIME_US
        } else {
            elapsed_us
        };
        let ghost total = old(self).accumulator_us() + clamped;
        let mut acc = self.frame_time_accumulator_us + clamped;
        let mut steps: u64 = 0;
        while acc >= FIXED_STEP_US
            invariant
                acc + steps * FIXED_STEP_US == total,
                acc <= total,
                total <= FIXED_STEP_US + MAX_FRAME_TIME_US,
            decreases acc,
        {
            steps = steps + 1;
            acc = acc - FIXED_STEP_US;
        }
        proof {
            lemma_fundamental_div_mod_converse(
                total as int,
                FIXED_STEP_US as int,
                steps as int,
                acc as int,
            );
        }
        self.frame_time_accumulator_us = acc;
        let increment = FIXED_STEP_MS * steps;
        if self.total_sim_time_ms <= u64::MAX - increment {
            self.total_sim_time_ms = self.total_sim_time_ms + increment;
        }
        if self.frame_counter < u64::MAX {
            self.frame_counter = self.frame_counter + 1;
        }
        self.frame_times_us.set(self.frame_time_index, clamped);
        self.frame_time_index = (self.frame_time_index + 1) % AVG_FRAME_TIME_SAMPLE;
        steps
    }

    /// The time debt not yet consumed by a fixed step, in microseconds.
    pub fn time_debt_us(&self) -> (debt: u64)
        ensures
            debt == self.accumulator_us(),
    {
        self.frame_time_accumulator_us
    }

    /// Total simulated time over all consumed fixed steps, in
    /// milliseconds.
    pub fn total_sim_time(&self) -> (total: u64)
        ensures
            total == self.total_sim_time_ms(),
    {
        self.total_sim_time_ms
    }

    /// Number of ticks processed so far.
    pub fn frame_count(&self) -> (count: u64)
        ensures
            count == self.frame_counter(),
    {
        self.frame_counter
    }

    /// Average of the recorded frame times, in microseconds.
    pub fn avg_frame_time_us(&self) -> (avg: u64)
        requires
            self.wf(),
        ensures
            avg == sum_seq(self.samples()) / (AVG_FRAME_TIME_SAMPLE as int),
    {
        let ghost s = self.samples();
        let mut total: u64 = 0;
        let mut i: usize = 0;
        while i < AVG_FRAME_TIME_SAMPLE
            invariant
                self.wf(),
                s == self.samples(),
                0 <= i <= AVG_FRAME_TIME_SAMPLE,
                total == sum_seq(s.take(i as int)),
                total <= i * MAX_FRAME_TIME_US,
            decreases AVG_FRAME_TIME_SAMPLE - i,
        {
            proof {
                assert(s.take(i + 1).drop_last() =~= s.take(i as int));
            }
            total = total + self.frame_times_us[i];
            i = i + 1;
        }
        proof {
            assert(s.take(AVG_FRAME_TIME_SAMPLE as int) =~= s);
        }
        total / (AVG_FRAME_TIME_SAMPLE as u64)
    }
}

/// Splitting a frame's elapsed time across two advances consumes exactly
/// the fixed steps and leaves exactly the debt that one combined advance
/// would, as long as the combined time does not reach the frame-time
/// clamp: the step consumption depends only on total accumulated time.
pub proof fn lemma_fixed_step_split(acc: u64, first_us: u64, second_us: u64)
    requires
        acc < FIXED_STEP_US,
        first_us + second_us <= MAX_FRAME_TIME_US,
    ensures
        ((acc + first_us) % (FIXED_STEP_US as int) + second_us) % (FIXED_STEP_US as int) == (acc
            + first_us + second_us) % (FIXED_STEP_US as int),
        (acc + first_us) / (FIXED_STEP_US as int) + ((acc + first_us) % (FIXED_STEP_US as int)
            + second_us) / (FIXED_STEP_US as int) == (acc + first_us + second_us) / (
        FIXED_STEP_US as int),
{
    let d = FIXED_STEP_US as int;
    let t1 = acc + first_us;
    let q1 = t1 / d;
    let r1 = t1 % d;
    vstd::arithmetic::div_mod::lemma_fundamental_div_mod(t1, d);
    let q2 = (r1 + second_us) / d;
    let r2 = (r1 + second_us) % d;
    vstd::arithmetic::div_mod::lemma_fundamental_div_mod(r1 + second_us, d);
    assert(acc + first_us + second_us == (q1 + q2) * d + r2) by (nonlinear_arith)
        requires
            t1 == q1 * d + r1,
            r1 + second_us == q2 * d + r2,
            t1 == acc + first_us,
    ;
    lemma_fundamental_div_mod_converse(acc + first_us + second_us, d, q1 + q2, r2);
}

} // verus!
