//! Per-iteration decisions of the render loop and the control loop. The
//! caller reads the clock and the shared state, hands them in, and performs
//! the returned step.
use vstd::prelude::*;
use crate::timing::{elapsed_micros, Clock, elapsed_spec, is_stall, threshold_or_default, threshold_spec};

verus! {

/// What the render thread does in one pass of its loop.
#[derive(Debug, Clone, Copy, PartialEq, Eq, Structural)]
pub enum RenderStep {
    /// Close was requested: leave the loop and send the exit signal.
    Exit,
    /// Draw a frame. `elapsed` is published as the render duration; when
    /// `stall` holds, one warning is logged with `elapsed` and `threshold`.
    Frame { elapsed: u64, threshold: u64, stall: bool },
}

/// What the control thread does in one pass of its loop.
#[derive(Debug, Clone, Copy, PartialEq, Eq, Structural)]
pub enum ControlStep {
    /// The render thread has exited: leave the loop.
    Stop,
    /// Yield, publish `elapsed` as the control duration, run the event hook
    /// and poll the input backend.
    Iterate { elapsed: u64 },
}

/// Render-loop timing state: when the previous pass started (µs).
#[derive(Debug, Clone, Copy, PartialEq, Eq, Structural)]
pub struct RenderLoop {
    pub last: i64,
}

/// Control-loop timing state: when the previous pass started (µs).
#[derive(Debug, Clone, Copy, PartialEq, Eq, Structural)]
pub struct ControlLoop {
    pub last: i64,
}

/// The render loop's pass at time `now`, given whether close was requested
/// and the stall threshold found in the store.
pub open spec fn render_next(s: RenderLoop, close_requested: bool, now: i64, threshold: Option<u64>) -> (
    RenderLoop,
    RenderStep,
) {
    if close_requested {
        (s, RenderStep::Exit)
    } else {
        let elapsed = elapsed_spec(s.last, now) as u64;
        let t = threshold_spec(threshold);
        (RenderLoop { last: now }, RenderStep::Frame { elapsed, threshold: t, stall: elapsed > t })
    }
}

/// The control loop's pass at time `now`, given whether the render thread's
/// exit signal is there.
pub open spec fn control_next(s: ControlLoop, exit_signalled: bool, now: i64) -> (ControlLoop, ControlStep) {
    if exit_signalled {
        (s, ControlStep::Stop)
    } else {
        (ControlLoop { last: now }, ControlStep::Iterate { elapsed: elapsed_spec(s.last, now) as u64 })
    }
}

impl RenderLoop {
    /// Starts timing at `start` (µs), right after one-time initialization.
    pub fn new(start: i64) -> (r: RenderLoop)
        ensures
            r.last == start,
    {
        RenderLoop { last: start }
    }

    /// Starts timing at the current reading of `clock`.
    pub fn start(clock: &Clock) -> (r: RenderLoop)
        ensures
            r.last >= 0,
    {
        RenderLoop { last: clock.now_micros() }
    }

    /// Decides one pass of the render loop.
    pub fn tick(&mut self, close_requested: bool, now: i64, threshold: Option<u64>) -> (r: RenderStep)
        ensures
            (*final(self), r) == render_next(*old(self), close_requested, now, threshold),
    {
        if close_requested {
            return RenderStep::Exit;
        }
        let elapsed = elapsed_micros(self.last, now);
        let t = threshold_or_default(threshold);
        self.last = now;
        RenderStep::Frame { elapsed, threshold: t, stall: is_stall(elapsed, t) }
    }
}

impl ControlLoop {
    /// Starts timing at `start` (µs), right after the event-init hook.
    pub fn new(start: i64) -> (r: ControlLoop)
        ensures
            r.last == start,
    {
        ControlLoop { last: start }
    }

    /// Starts timing at the current reading of `clock`.
    pub fn start(clock: &Clock) -> (r: ControlLoop)
        ensures
            r.last >= 0,
    {
        ControlLoop { last: clock.now_micros() }
    }

    /// Decides one pass of the control loop.
    pub fn tick(&mut self, exit_signalled: bool, now: i64) -> (r: ControlStep)
        ensures
            (*final(self), r) == control_next(*old(self), exit_signalled, now),
    {
        if exit_signalled {
            return ControlStep::Stop;
        }
        let elapsed = elapsed_micros(self.last, now);
        self.last = now;
        ControlStep::Iterate { elapsed }
    }
}

/// Shutdown takes at most one pass of each loop: once close is requested the
/// render loop's next pass exits (it is the only pass that exits), and once
/// its exit signal is there the control loop's next pass stops (again the
/// only one that does).
pub proof fn lemma_shutdown_within_one_pass(
    r: RenderLoop,
    c: ControlLoop,
    close_requested: bool,
    exit_signalled: bool,
    now: i64,
    threshold: Option<u64>,
)
    ensures
        (render_next(r, close_requested, now, threshold).1 == RenderStep::Exit) == close_requested,
        (control_next(c, exit_signalled, now).1 == ControlStep::Stop) == exit_signalled,
{
}

} // verus!
