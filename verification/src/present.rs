//! The decisions of the presentation loop: when to rebuild the swapchain,
//! when to start the iteration over, and when to give up.
use vstd::prelude::*;

verus! {

/// How an attempt to rebuild the swapchain for the window's size ended.
#[derive(Clone, Copy, Debug, PartialEq, Eq)]
pub enum RecreateOutcome {
    Recreated,
    /// The surface does not accept the window's current size.
    UnsupportedDimensions,
    Failed,
}

/// How the request for the next swapchain image ended.
#[derive(Clone, Copy, Debug, PartialEq, Eq)]
pub enum AcquireOutcome {
    Acquired,
    /// The swapchain no longer matches the surface.
    OutOfDate,
    Failed,
}

/// How submitting and presenting the frame ended.
#[derive(Clone, Copy, Debug, PartialEq, Eq)]
pub enum FlushOutcome {
    Flushed,
    /// The swapchain no longer matches the surface.
    OutOfDate,
    Failed,
}

/// What the loop does next.
#[derive(Clone, Copy, Debug, PartialEq, Eq)]
pub enum LoopStep {
    /// Go on with the current iteration.
    Proceed,
    /// Start the next iteration at once.
    Restart,
    /// Stop the program with the error that came back.
    Abort,
}

/// What becomes of the frame that was just submitted.
#[derive(Clone, Copy, Debug, PartialEq, Eq)]
pub enum FrameEnd {
    /// Keep waiting on the submitted frame.
    KeepFuture,
    /// Start afresh from a future that is already complete.
    ResetFuture,
    /// Report the error, then start afresh from a complete future.
    ReportAndReset,
}

/// The loop's state: whether the swapchain must be rebuilt before the next image.
pub struct PresentLoop {
    recreate_swapchain: bool,
}

impl View for PresentLoop {
    type V = bool;

    closed spec fn view(&self) -> bool {
        self.recreate_swapchain
    }
}

impl PresentLoop {
    /// The loop right after initialisation, with a fresh swapchain.
    pub fn new() -> (l: PresentLoop)
        ensures
            l@ == false,
    {
        PresentLoop { recreate_swapchain: false }
    }

    /// Whether the iteration must begin by rebuilding the swapchain.
    pub fn needs_recreate(&self) -> (b: bool)
        ensures
            b == self@,
    {
        self.recreate_swapchain
    }

    /// After an attempt to rebuild the swapchain: a rebuilt swapchain clears
    /// the request; a size the surface refuses leaves it, to be tried again
    /// in the next iteration; any other failure is fatal.
    pub fn after_recreate(&mut self, outcome: RecreateOutcome) -> (step: LoopStep)
        ensures
            outcome == RecreateOutcome::Recreated ==> step == LoopStep::Proceed && final(self)@ == false,
            outcome == RecreateOutcome::UnsupportedDimensions ==> step == LoopStep::Restart
                && final(self)@ == old(self)@,
            outcome == RecreateOutcome::Failed ==> step == LoopStep::Abort && final(self)@ == old(self)@,
    {
        match outcome {
            RecreateOutcome::Recreated => {
                self.recreate_swapchain = false;
                LoopStep::Proceed
            },
            RecreateOutcome::UnsupportedDimensions => LoopStep::Restart,
            RecreateOutcome::Failed => LoopStep::Abort,
        }
    }

    /// After asking for the next image: an out-of-date swapchain is marked for
    /// rebuilding and the iteration starts over; any other failure is fatal.
    pub fn after_acquire(&mut self, outcome: AcquireOutcome) -> (step: LoopStep)
        ensures
            outcome == AcquireOutcome::Acquired ==> step == LoopStep::Proceed && final(self)@ == old(self)@,
            outcome == AcquireOutcome::OutOfDate ==> step == LoopStep::Restart && final(self)@ == true,
            outcome == AcquireOutcome::Failed ==> step == LoopStep::Abort && final(self)@ == old(self)@,
    {
        match outcome {
            AcquireOutcome::Acquired => LoopStep::Proceed,
            AcquireOutcome::OutOfDate => {
                self.recreate_swapchain = true;
                LoopStep::Restart
            },
            AcquireOutcome::Failed => LoopStep::Abort,
        }
    }

    /// After submitting the frame: on success the loop waits on it; an
    /// out-of-date swapchain is marked for rebuilding; any other error is
    /// reported; in both failing cases the loop starts from a complete future.
    pub fn after_flush(&mut self, outcome: FlushOutcome) -> (end: FrameEnd)
        ensures
            outcome == FlushOutcome::Flushed ==> end == FrameEnd::KeepFuture && final(self)@ == old(self)@,
            outcome == FlushOutcome::OutOfDate ==> end == FrameEnd::ResetFuture && final(self)@ == true,
            outcome == FlushOutcome::Failed ==> end == FrameEnd::ReportAndReset && final(self)@ == old(self)@,
    {
        match outcome {
            FlushOutcome::Flushed => FrameEnd::KeepFuture,
            FlushOutcome::OutOfDate => {
                self.recreate_swapchain = true;
                FrameEnd::ResetFuture
            },
            FlushOutcome::Failed => FrameEnd::ReportAndReset,
        }
    }
}

} // verus!
