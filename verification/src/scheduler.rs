//! The frame scheduler: the state of the loop that repaints the surface once
//! per frame of the host. The host's frame callback asks the scheduler, on
//! every tick, whether the loop is still alive; only a live loop does work
//! and asks for the next frame. Releasing the scheduler is the one way to
//! stop the loop.

use vstd::prelude::*;

verus! {

/// Where the render loop stands.
#[derive(Clone, Copy, Debug, PartialEq, Eq, Structural)]
pub enum LoopPhase {
    /// Not started yet.
    Idle,
    /// Started: every tick paints and asks for the next frame.
    Running,
    /// Released: no tick does anything any more.
    Released,
}

/// What the scheduler is, to the contracts.
pub struct SchedulerModel {
    /// Where the loop stands.
    pub phase: LoopPhase,
    /// The host's handle of the frame that was asked for and has not fired.
    pub pending: Option<i32>,
}

impl SchedulerModel {
    /// Only a running loop waits for a frame.
    pub open spec fn well_formed(self) -> bool {
        self.pending is Some ==> self.phase == LoopPhase::Running
    }

    /// The scheduler before the loop is started.
    pub open spec fn idle() -> SchedulerModel {
        SchedulerModel { phase: LoopPhase::Idle, pending: None }
    }

    /// The scheduler once the loop is started and waits for `first_frame`.
    pub open spec fn started(self, first_frame: i32) -> SchedulerModel {
        SchedulerModel { phase: LoopPhase::Running, pending: Some(first_frame) }
    }

    /// Whether a tick that arrives now does its work and asks for the next
    /// frame.
    pub open spec fn runs_frame(self) -> bool {
        self.phase == LoopPhase::Running
    }

    /// The scheduler after a tick has arrived: a running loop no longer
    /// waits for the frame that just fired, any other is unchanged.
    pub open spec fn after_frame(self) -> SchedulerModel {
        if self.runs_frame() {
            SchedulerModel { pending: None, ..self }
        } else {
            self
        }
    }

    /// The scheduler after the host has handed out `frame` for the next
    /// tick: a running loop waits for it, any other is unchanged.
    pub open spec fn rescheduled(self, frame: i32) -> SchedulerModel {
        if self.runs_frame() {
            SchedulerModel { pending: Some(frame), ..self }
        } else {
            self
        }
    }

    /// The scheduler after release.
    pub open spec fn released(self) -> SchedulerModel {
        SchedulerModel { phase: LoopPhase::Released, pending: None }
    }

    /// The scheduler after one tick for each of `frames`, each tick
    /// followed by the handle that the host gives for the next frame.
    pub open spec fn after_ticks(self, frames: Seq<i32>) -> SchedulerModel
        decreases frames.len(),
    {
        if frames.len() == 0 {
            self
        } else {
            self.after_ticks(frames.drop_last()).after_frame().rescheduled(frames.last())
        }
    }
}

/// The state of the render loop.
#[derive(Debug)]
pub struct FrameScheduler {
    phase: LoopPhase,
    pending: Option<i32>,
}

impl View for FrameScheduler {
    type V = SchedulerModel;

    closed spec fn view(&self) -> SchedulerModel {
        SchedulerModel { phase: self.phase, pending: self.pending }
    }
}

impl FrameScheduler {
    #[verifier::type_invariant]
    spec fn well_formed(self) -> bool {
        self@.well_formed()
    }

    /// A scheduler whose loop has not been started.
    pub fn new() -> (scheduler: FrameScheduler)
        ensures
            scheduler@ == SchedulerModel::idle(),
    {
        FrameScheduler { phase: LoopPhase::Idle, pending: None }
    }

    /// Where the loop stands.
    pub fn phase(&self) -> (phase: LoopPhase)
        ensures
            phase == self@.phase,
    {
        self.phase
    }

    /// The handle of the frame that the loop waits for, if it waits for one.
    /// Only a running loop does.
    pub fn pending_frame(&self) -> (pending: Option<i32>)
        ensures
            pending == self@.pending,
            self@.well_formed(),
    {
        proof {
            use_type_invariant(self);
        }
        self.pending
    }

    /// Starts the loop, which now waits for `first_frame`. A loop is started
    /// once: not again while it runs, and not after release.
    pub fn start(&mut self, first_frame: i32)
        requires
            old(self)@.phase == LoopPhase::Idle,
        ensures
            final(self)@ == old(self)@.started(first_frame),
    {
        *self = FrameScheduler { phase: LoopPhase::Running, pending: Some(first_frame) };
    }

    /// Takes note of a tick. Returns whether the loop is alive, that is
    /// whether this tick paints and asks for the next frame.
    pub fn on_frame(&mut self) -> (alive: bool)
        ensures
            alive == old(self)@.runs_frame(),
            final(self)@ == old(self)@.after_frame(),
    {
        match self.phase {
            LoopPhase::Running => {
                *self = FrameScheduler { phase: LoopPhase::Running, pending: None };
                true
            },
            _ => false,
        }
    }

    /// Takes note of the handle that the host gave for the next frame.
    /// Returns whether the loop waits for it; where it does not, because it
    /// was released meanwhile, the caller cancels the frame.
    pub fn frame_scheduled(&mut self, frame: i32) -> (kept: bool)
        ensures
            kept == old(self)@.runs_frame(),
            final(self)@ == old(self)@.rescheduled(frame),
    {
        match self.phase {
            LoopPhase::Running => {
                *self = FrameScheduler { phase: LoopPhase::Running, pending: Some(frame) };
                true
            },
            _ => false,
        }
    }

    /// Releases the loop. Returns the handle of the frame that it was
    /// waiting for, which the caller cancels. Releasing again changes
    /// nothing and returns no handle.
    pub fn release(&mut self) -> (cancel: Option<i32>)
        ensures
            cancel == old(self)@.pending,
            final(self)@ == old(self)@.released(),
    {
        let cancel = self.pending;
        *self = FrameScheduler { phase: LoopPhase::Released, pending: None };
        cancel
    }
}

/// A released loop stays released: whatever ticks the host still delivers,
/// and whatever handles it still hands out, no tick runs a frame and the
/// loop waits for none.
pub proof fn lemma_released_loop_stays_silent(scheduler: SchedulerModel, frames: Seq<i32>)
    ensures
        scheduler.released().after_ticks(frames) == scheduler.released(),
        !scheduler.released().after_ticks(frames).runs_frame(),
        scheduler.released().after_ticks(frames).pending is None,
    decreases frames.len(),
{
    if frames.len() > 0 {
        lemma_released_loop_stays_silent(scheduler, frames.drop_last());
    }
}

/// Releasing twice is releasing once.
pub proof fn lemma_release_idempotent(scheduler: SchedulerModel)
    ensures
        scheduler.released().released() == scheduler.released(),
        scheduler.released().pending is None,
{
}

/// A running loop sustains itself: after any number of ticks, each answered
/// with a handle for the next frame, it still runs and waits for the handle
/// that was given last.
pub proof fn lemma_running_loop_sustains(scheduler: SchedulerModel, frames: Seq<i32>)
    requires
        scheduler.runs_frame(),
    ensures
        scheduler.after_ticks(frames).runs_frame(),
        frames.len() > 0 ==> scheduler.after_ticks(frames).pending == Some(frames.last()),
    decreases frames.len(),
{
    if frames.len() > 0 {
        lemma_running_loop_sustains(scheduler, frames.drop_last());
    }
}

/// Every step keeps the scheduler well formed: only a running loop waits
/// for a frame.
pub proof fn lemma_steps_keep_well_formed(scheduler: SchedulerModel, frame: i32)
    requires
        scheduler.well_formed(),
    ensures
        SchedulerModel::idle().well_formed(),
        scheduler.started(frame).well_formed(),
        scheduler.after_frame().well_formed(),
        scheduler.rescheduled(frame).well_formed(),
        scheduler.released().well_formed(),
{
}

} // verus!
