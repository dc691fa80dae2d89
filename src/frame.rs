//! The decisions of one frame of the host refresh loop. The host asks for a
//! plan at the start of the frame, hands the machine the keys and the
//! pending release before it runs any step, ticks the timers if the plan
//! says so, then runs the step burst until it is spent or a step fails.
use vstd::prelude::*;
use crate::input::{taken_model, InputLatch};
use crate::palette::Palette;
use crate::raster::{color_buffer, color_buffer_model, PixelGrid, PIXEL_COUNT, COLOR_BYTES_PER_PIXEL};
use crate::scheduler::{budget_for, clock_after, ClockState};

verus! {

/// Everything a frame tells the machine, in the order it must be applied.
#[derive(Clone, Copy, Debug, PartialEq, Eq)]
pub struct FramePlan {
    /// Pressed state of each key, applied before any step.
    pub keys: [bool; 16],
    /// A key release to announce to the machine, at most one per frame.
    pub released: Option<u8>,
    /// Whether the countdown timers tick, once, this frame.
    pub timer_due: bool,
    /// Instruction steps owed this frame.
    pub n_steps: u128,
}

/// State that lives across frames: the clock, the keypad and the colours.
#[derive(Clone, Copy, Debug, PartialEq, Eq)]
pub struct FrameLoop {
    pub clock: ClockState,
    pub input: InputLatch,
    pub palette: Palette,
}

impl FrameLoop {
    /// A loop whose first frame measures time from `now_us`, with no key
    /// down and the given colours.
    pub fn new(now_us: u64, palette: Palette) -> (f: FrameLoop)
        ensures
            f.clock == ClockState::new_spec(now_us),
            f.input@ == (Seq::new(16, |k: int| false), None::<u8>),
            f.palette == palette,
    {
        FrameLoop { clock: ClockState::new(now_us), input: InputLatch::new(), palette }
    }

    /// Plans the frame at `now_us` at `clock_speed` instructions per second:
    /// runs the scheduler, latches the keys and hands out the pending
    /// release, which is then cleared.
    pub fn begin_frame(&mut self, now_us: u64, clock_speed: u64) -> (plan: FramePlan)
        ensures
            plan.keys@ == old(self).input@.0,
            plan.released == old(self).input@.1,
            plan.timer_due == budget_for(old(self).clock, now_us, clock_speed).timer_due,
            plan.n_steps == budget_for(old(self).clock, now_us, clock_speed).n_steps,
            final(self).clock == clock_after(old(self).clock, now_us),
            final(self).input@ == taken_model(old(self).input@),
            final(self).palette == old(self).palette,
    {
        let budget = self.clock.advance(now_us, clock_speed);
        let keys = self.input.snapshot();
        let released = self.input.take_release();
        FramePlan { keys, released, timer_due: budget.timer_due, n_steps: budget.n_steps }
    }

    /// The colour buffer of the frame: the grid painted with the palette.
    pub fn paint(&self, grid: &PixelGrid) -> (buf: Vec<u8>)
        ensures
            buf@ == color_buffer_model(grid@, self.palette),
            buf@.len() == PIXEL_COUNT * COLOR_BYTES_PER_PIXEL,
    {
        color_buffer(grid, &self.palette)
    }
}

/// The steps of one frame still to run. A failed step ends the burst: the
/// rest of the frame's steps are skipped, and the next frame starts afresh.
#[derive(Clone, Copy, Debug, PartialEq, Eq, Structural)]
pub struct StepBurst {
    pub remaining: u128,
}

impl StepBurst {
    /// A burst of `n_steps` steps.
    pub fn new(n_steps: u128) -> (b: StepBurst)
        ensures
            b.remaining == n_steps,
    {
        StepBurst { remaining: n_steps }
    }

    /// Whether another step is to run.
    pub fn wants_step(&self) -> (r: bool)
        ensures
            r == (self.remaining > 0),
    {
        self.remaining > 0
    }

    /// Records the outcome of a step: one fewer remains after a success,
    /// none after a failure.
    pub fn record(&mut self, succeeded: bool)
        requires
            old(self).remaining > 0,
        ensures
            final(self).remaining == if succeeded { old(self).remaining - 1 } else { 0 },
    {
        if succeeded {
            self.remaining = self.remaining - 1;
        } else {
            self.remaining = 0;
        }
    }
}

} // verus!
