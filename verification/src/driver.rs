//! The decisions of the simulation thread. The thread itself sleeps, reads
//! the clock and calls the physics; what it does in each pass of its loop,
//! and how the frame counters and the redraw countdown change, is decided
//! here.

use vstd::prelude::*;

verus! {

/// What the simulation thread does in one pass of its loop.
#[derive(Copy, Clone, PartialEq, Eq, Structural, Debug)]
pub enum LoopAction {
    /// The renderer has not yet taken the last frame: sleep and look again.
    AwaitRedraw,
    /// Replace the particle store by a fresh one and start again at frame 1.
    Reset,
    /// The simulation is paused: sleep and look again.
    Idle,
    /// The next frame is not due yet: look again at once.
    Spin,
    /// Advance the particles by one tick.
    Advance,
}

/// What the simulation thread reads before each pass.
#[derive(Copy, Clone, Debug)]
pub struct LoopInput {
    /// The user has asked for a reset.
    pub is_reset_requested: bool,
    /// The simulation is running, not paused.
    pub is_running: bool,
    /// How many ticks go by without a redraw after each redraw.
    pub skip: u32,
    /// At least one second has gone by since the frame rate was last measured.
    pub second_elapsed: bool,
    /// At least one frame time has gone by since the last tick.
    pub frame_due: bool,
}

/// The counters of the simulation thread.
#[derive(Copy, Clone, Debug)]
pub struct LoopState {
    /// A frame is waiting for the renderer.
    pub need_redraw: bool,
    /// Ticks left before the next redraw is asked for.
    pub skip_redraw: u32,
    /// The number of the frame that the next tick computes; the first is 1.
    pub frame: i64,
    /// The value of `frame` when the frame rate was last measured.
    pub prev_frame: i64,
    /// Ticks in the last measured second.
    pub fps: i64,
}

/// What a pass of the loop came to.
#[derive(Copy, Clone, Debug)]
pub struct LoopOutcome {
    /// What the thread does now.
    pub action: LoopAction,
    /// The frame rate was measured in this pass, so the second that is
    /// measured next begins now.
    pub fps_measured: bool,
}

/// The action of a pass. A pending redraw comes first, then a reset, then a
/// pause, then the frame time.
pub open spec fn action_spec(state: LoopState, input: LoopInput) -> LoopAction {
    if state.need_redraw {
        LoopAction::AwaitRedraw
    } else if input.is_reset_requested {
        LoopAction::Reset
    } else if !input.is_running {
        LoopAction::Idle
    } else if !input.frame_due {
        LoopAction::Spin
    } else {
        LoopAction::Advance
    }
}

/// The frame rate measured at frame number `frame`, where the measurement
/// before it was made at `prev_frame`: their difference, and 0 where a reset
/// has put the frame number back in between.
pub open spec fn measured_fps(frame: int, prev_frame: int) -> int {
    if frame - prev_frame > 0 {
        frame - prev_frame
    } else {
        0
    }
}

/// Whether a pass measures the frame rate: a second has gone by, and the
/// pass is not cut short by a pending redraw or a reset.
pub open spec fn measures_fps(state: LoopState, input: LoopInput) -> bool {
    &&& input.second_elapsed
    &&& action_spec(state, input) != LoopAction::AwaitRedraw
    &&& action_spec(state, input) != LoopAction::Reset
}

/// The state with the frame rate measured anew, where the pass measures it;
/// else the state itself.
pub open spec fn measure_spec(state: LoopState, input: LoopInput) -> LoopState {
    if measures_fps(state, input) {
        LoopState {
            fps: measured_fps(state.frame as int, state.prev_frame as int) as i64,
            prev_frame: state.frame,
            ..state
        }
    } else {
        state
    }
}

/// The state after a pass.
pub open spec fn step_spec(state: LoopState, input: LoopInput) -> LoopState {
    let measured = measure_spec(state, input);
    match action_spec(state, input) {
        LoopAction::Reset => LoopState {
            need_redraw: true,
            skip_redraw: input.skip,
            frame: 1,
            ..state
        },
        LoopAction::Advance => LoopState {
            need_redraw: measured.skip_redraw < 1,
            skip_redraw: if measured.skip_redraw < 1 {
                input.skip
            } else {
                (measured.skip_redraw - 1) as u32
            },
            frame: (measured.frame + 1) as i64,
            ..measured
        },
        _ => measured,
    }
}

impl LoopState {
    /// The counters are those of a running thread: frames are counted from 1
    /// and the frame rate is not negative.
    pub open spec fn wf(&self) -> bool {
        &&& 1 <= self.frame
        &&& 1 <= self.prev_frame
        &&& 0 <= self.fps
    }

    /// The state in which the thread starts: a first frame waits for the
    /// renderer, and nothing has been measured.
    pub fn new() -> (state: Self)
        ensures
            state.wf(),
            state.need_redraw,
            state.skip_redraw == 0,
            state.frame == 1,
            state.prev_frame == 1,
            state.fps == 0,
    {
        LoopState { need_redraw: true, skip_redraw: 0, frame: 1, prev_frame: 1, fps: 0 }
    }

    /// Whether `step` may be called: the counters are well formed and the
    /// frame number leaves room for one more frame.
    pub fn can_step(&self) -> (ready: bool)
        ensures
            ready == (self.wf() && self.frame < i64::MAX),
    {
        1 <= self.frame && self.frame < i64::MAX && 1 <= self.prev_frame && 0 <= self.fps
    }

    /// The renderer has taken the frame that was waiting.
    pub fn redraw_done(&mut self)
        ensures
            *final(self) == (LoopState { need_redraw: false, ..*old(self) }),
    {
        self.need_redraw = false;
    }

    /// Decides one pass of the loop and brings the counters up to date.
    ///
    /// While a redraw is pending nothing changes. A reset puts the frame
    /// number back to 1, asks for a redraw and starts the countdown at
    /// `skip`. In every other pass the frame rate is measured if a second has
    /// gone by. A tick then counts one frame, and asks for a redraw when the
    /// countdown has run out, else counts it down by one. The frame number
    /// must leave room for one more frame.
    pub fn step(&mut self, input: LoopInput) -> (outcome: LoopOutcome)
        requires
            old(self).wf(),
            old(self).frame < i64::MAX,
        ensures
            outcome.action == action_spec(*old(self), input),
            outcome.fps_measured == measures_fps(*old(self), input),
            *final(self) == step_spec(*old(self), input),
            final(self).wf(),
    {
        if self.need_redraw {
            return LoopOutcome { action: LoopAction::AwaitRedraw, fps_measured: false };
        }
        if input.is_reset_requested {
            self.frame = 1;
            self.need_redraw = true;
            self.skip_redraw = input.skip;
            return LoopOutcome { action: LoopAction::Reset, fps_measured: false };
        }
        let fps_measured = input.second_elapsed;
        if input.second_elapsed {
            self.fps = if self.frame - self.prev_frame > 0 {
                self.frame - self.prev_frame
            } else {
                0
            };
            self.prev_frame = self.frame;
        }
        if !input.is_running {
            return LoopOutcome { action: LoopAction::Idle, fps_measured };
        }
        if !input.frame_due {
            return LoopOutcome { action: LoopAction::Spin, fps_measured };
        }
        if self.skip_redraw < 1 {
            self.skip_redraw = input.skip;
            self.need_redraw = true;
        } else {
            self.skip_redraw = self.skip_redraw - 1;
        }
        self.frame = self.frame + 1;
        LoopOutcome { action: LoopAction::Advance, fps_measured }
    }
}

/// A redraw is asked for on every tick that finds the countdown at zero, and
/// on no other: with a countdown of `n` left, the tick leaves `n - 1` and
/// asks for none.
pub proof fn lemma_redraw_every_skip_ticks(state: LoopState, input: LoopInput)
    requires
        state.wf(),
        state.frame < i64::MAX,
        action_spec(state, input) == LoopAction::Advance,
    ensures
        step_spec(state, input).need_redraw == (state.skip_redraw == 0),
        state.skip_redraw == 0 ==> step_spec(state, input).skip_redraw == input.skip,
        state.skip_redraw > 0 ==> step_spec(state, input).skip_redraw == state.skip_redraw - 1,
        step_spec(state, input).frame == state.frame + 1,
{
}

/// The state after `count` passes with the same input.
pub open spec fn after_passes(state: LoopState, input: LoopInput, count: nat) -> LoopState
    decreases count,
{
    if count == 0 {
        state
    } else {
        step_spec(after_passes(state, input, (count - 1) as nat), input)
    }
}

/// While the simulation runs and each frame is due, a countdown of `n` lets
/// `n` ticks go by without a redraw, and the tick after them asks for one:
/// with `skip` ticks skipped, every redraw is followed by `skip` ticks that
/// ask for none.
pub proof fn lemma_countdown_runs_down(state: LoopState, input: LoopInput, count: nat)
    requires
        state.wf(),
        !state.need_redraw,
        input.is_running,
        input.frame_due,
        !input.is_reset_requested,
        count <= state.skip_redraw,
        state.frame + count < i64::MAX,
    ensures
        !after_passes(state, input, count).need_redraw,
        after_passes(state, input, count).skip_redraw == state.skip_redraw - count,
        after_passes(state, input, count).frame == state.frame + count,
        after_passes(state, input, count).wf(),
        count == state.skip_redraw ==> after_passes(state, input, count + 1).need_redraw
            && after_passes(state, input, count + 1).skip_redraw == input.skip,
    decreases count,
{
    if count > 0 {
        lemma_countdown_runs_down(state, input, (count - 1) as nat);
    }
    let reached = after_passes(state, input, count);
    assert(after_passes(state, input, count + 1) == step_spec(reached, input));
}

/// Only a tick and a reset change the frame number, and while a redraw is
/// pending a pass changes nothing at all.
pub proof fn lemma_frame_changes_only_by_tick_or_reset(state: LoopState, input: LoopInput)
    requires
        state.wf(),
    ensures
        action_spec(state, input) == LoopAction::AwaitRedraw ==> step_spec(state, input) == state,
        action_spec(state, input) != LoopAction::Advance && action_spec(state, input)
            != LoopAction::Reset ==> step_spec(state, input).frame == state.frame,
        action_spec(state, input) == LoopAction::Reset ==> step_spec(state, input).frame == 1,
{
}

} // verus!
