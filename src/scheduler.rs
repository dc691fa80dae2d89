//! Turns elapsed wall-clock time into an instruction budget and a 60 Hz
//! timer signal.
use vstd::prelude::*;

verus! {

/// Microseconds in one second.
pub const MICROS_PER_SECOND: u64 = 1000000;

/// Timer frequency of the machine's countdown registers, in hertz.
pub const TIMER_HZ: u64 = 60;

/// Number of instructions owed for `elapsed_us` microseconds at
/// `clock_speed` instructions per second, rounded down.
pub open spec fn steps_owed(elapsed_us: nat, clock_speed: nat) -> nat {
    (elapsed_us * clock_speed) / (MICROS_PER_SECOND as nat)
}

/// Whether at least one timer period (1/60 s) separates `last_us` from `now_us`.
pub open spec fn timer_period_elapsed(last_us: int, now_us: int) -> bool {
    now_us >= last_us && (now_us - last_us) * (TIMER_HZ as int) >= MICROS_PER_SECOND as int
}

/// Elapsed time from `from_us` to `to_us`, or zero if the clock went backwards.
pub open spec fn elapsed_since(from_us: int, to_us: int) -> nat {
    if to_us >= from_us { (to_us - from_us) as nat } else { 0 }
}

/// `floor(elapsed_us / 1_000_000 * clock_speed)`: the number of instruction
/// steps that fit in the elapsed time.
pub fn steps_for(elapsed_us: u64, clock_speed: u64) -> (n: u128)
    ensures
        n == steps_owed(elapsed_us as nat, clock_speed as nat),
{
    proof {
        vstd::arithmetic::mul::lemma_mul_upper_bound(
            elapsed_us as int, u64::MAX as int, clock_speed as int, u64::MAX as int);
        assert(u64::MAX as int * u64::MAX as int <= u128::MAX) by (nonlinear_arith);
    }
    let product: u128 = (elapsed_us as u128) * (clock_speed as u128);
    product / (MICROS_PER_SECOND as u128)
}

/// Instruction steps owed grow with both the elapsed time and the clock
/// speed, each taken on its own.
pub proof fn lemma_steps_monotonic(elapsed_a: nat, elapsed_b: nat, speed_a: nat, speed_b: nat)
    requires
        elapsed_a <= elapsed_b,
        speed_a <= speed_b,
    ensures
        steps_owed(elapsed_a, speed_a) <= steps_owed(elapsed_b, speed_b),
{
    assert(elapsed_a * speed_a <= elapsed_b * speed_b) by (nonlinear_arith)
        requires
            elapsed_a <= elapsed_b,
            speed_a <= speed_b,
    ;
    vstd::arithmetic::div_mod::lemma_div_is_ordered(
        (elapsed_a * speed_a) as int,
        (elapsed_b * speed_b) as int,
        MICROS_PER_SECOND as int,
    );
}

/// A paused machine (clock speed zero) is owed no steps, however long it waited.
pub proof fn lemma_paused_owes_nothing(elapsed_us: nat)
    ensures
        steps_owed(elapsed_us, 0) == 0,
{
    assert(elapsed_us * 0 == 0) by (nonlinear_arith);
}

/// The two timestamps a frame loop keeps between frames.
#[derive(Clone, Copy, Debug, PartialEq, Eq, Structural)]
pub struct ClockState {
    /// When the previous frame ran, in microseconds.
    pub last_frame_us: u64,
    /// When the countdown timers last ticked, in microseconds.
    pub last_timer_us: u64,
}

/// What one frame owes the machine.
#[derive(Clone, Copy, Debug, PartialEq, Eq, Structural)]
pub struct FrameBudget {
    /// Instruction steps to run this frame.
    pub n_steps: u128,
    /// Whether the countdown timers tick (once) this frame.
    pub timer_due: bool,
}

/// The clock after a frame at `now_us`: both timestamps move forward,
/// never backward, and the timer base is reset to the frame's time
/// when it ticks.
pub open spec fn clock_after(c: ClockState, now_us: u64) -> ClockState {
    ClockState {
        last_frame_us: if now_us >= c.last_frame_us { now_us } else { c.last_frame_us },
        last_timer_us: if timer_period_elapsed(c.last_timer_us as int, now_us as int) {
            now_us
        } else {
            c.last_timer_us
        },
    }
}

/// The budget of a frame at `now_us` given the clock before it.
pub open spec fn budget_for(c: ClockState, now_us: u64, clock_speed: u64) -> FrameBudget {
    FrameBudget {
        n_steps: steps_owed(
            elapsed_since(c.last_frame_us as int, now_us as int),
            clock_speed as nat,
        ) as u128,
        timer_due: timer_period_elapsed(c.last_timer_us as int, now_us as int),
    }
}

/// When frames come at least one timer period apart, the timers tick in
/// every frame, once: a frame that ticks resets the timer base to its own
/// time, so the next frame finds a full period elapsed again.
pub proof fn lemma_steady_cadence_ticks_every_frame(
    c: ClockState,
    first_us: u64,
    second_us: u64,
    clock_speed: u64,
)
    requires
        timer_period_elapsed(c.last_timer_us as int, first_us as int),
        timer_period_elapsed(first_us as int, second_us as int),
    ensures
        budget_for(c, first_us, clock_speed).timer_due,
        clock_after(c, first_us).last_timer_us == first_us,
        budget_for(clock_after(c, first_us), second_us, clock_speed).timer_due,
        clock_after(clock_after(c, first_us), second_us).last_timer_us == second_us,
{
}

/// A frame owes no tick while less than one timer period has passed since
/// the previous tick, and leaves the timer base where it was.
pub proof fn lemma_no_tick_within_period(c: ClockState, now_us: u64, clock_speed: u64)
    requires
        !timer_period_elapsed(c.last_timer_us as int, now_us as int),
    ensures
        !budget_for(c, now_us, clock_speed).timer_due,
        clock_after(c, now_us).last_timer_us == c.last_timer_us,
{
}

impl ClockState {
    /// A clock whose previous frame and previous tick are both at `now_us`.
    pub open spec fn new_spec(now_us: u64) -> ClockState {
        ClockState { last_frame_us: now_us, last_timer_us: now_us }
    }

    /// A clock whose previous frame and previous tick are both at `now_us`.
    pub fn new(now_us: u64) -> (c: ClockState)
        ensures
            c == ClockState::new_spec(now_us),
    {
        ClockState { last_frame_us: now_us, last_timer_us: now_us }
    }

    /// Whether the countdown timers are due at `now_us`.
    pub fn timer_due(&self, now_us: u64) -> (r: bool)
        ensures
            r == timer_period_elapsed(self.last_timer_us as int, now_us as int),
    {
        if now_us < self.last_timer_us {
            return false;
        }
        let gap: u128 = (now_us - self.last_timer_us) as u128;
        assert(gap * 60 <= u128::MAX) by (nonlinear_arith)
            requires
                gap <= u64::MAX,
        ;
        gap * (TIMER_HZ as u128) >= MICROS_PER_SECOND as u128
    }

    /// Runs the scheduler for a frame at `now_us`: decides whether the timers
    /// tick, how many steps are owed since the previous frame, and moves the
    /// clock to `now_us`. At most one tick is owed per frame, whatever the
    /// number of timer periods that elapsed: the timer base is reset to
    /// `now_us`, not advanced by a fixed period.
    pub fn advance(&mut self, now_us: u64, clock_speed: u64) -> (b: FrameBudget)
        ensures
            b == budget_for(*old(self), now_us, clock_speed),
            *final(self) == clock_after(*old(self), now_us),
            final(self).last_frame_us >= old(self).last_frame_us,
            final(self).last_timer_us >= old(self).last_timer_us,
    {
        let timer_due = self.timer_due(now_us);
        if timer_due {
            self.last_timer_us = now_us;
        }
        let elapsed: u64 = if now_us >= self.last_frame_us { now_us - self.last_frame_us } else { 0 };
        let n_steps = steps_for(elapsed, clock_speed);
        if now_us >= self.last_frame_us {
            self.last_frame_us = now_us;
        }
        FrameBudget { n_steps, timer_due }
    }
}

} // verus!
