//! The decisions of one frame: what to do next, given how the last piece of
//! GPU work ended.
//!
//! The owner of the GPU objects runs the frame. It begins with
//! [`FrameScheduler::begin`], performs the step it is handed, reports the
//! outcome through the method that belongs to that step, and goes on until
//! the step is one that ends the frame.

use vstd::prelude::*;
use crate::swapchain::{Extent, RecreateError, RecreateOutcome, SwapchainHandler};

verus! {

/// How long the wait for a submitted frame may take, in seconds.
pub const FENCE_TIMEOUT_SECS: u64 = 10;

/// The completion signal retained between frames. Either form is one that
/// has been satisfied by the time a frame ends.
#[derive(Clone, Copy, Debug, PartialEq, Eq, Structural)]
pub enum FrameEnd {
    /// A signal that was satisfied when it was made: no earlier work is left.
    Now,
    /// The signal of the last submitted frame, whose completion was waited for.
    Fence,
}

/// How acquiring the next presentable image ended.
#[derive(Clone, Copy, Debug, PartialEq, Eq, Structural)]
pub enum AcquireOutcome {
    Acquired { image_index: u32, suboptimal: bool },
    OutOfDate,
    Failed,
}

/// How submitting and presenting the recorded commands ended.
#[derive(Clone, Copy, Debug, PartialEq, Eq, Structural)]
pub enum SubmitOutcome {
    Flushed,
    OutOfDate,
    Failed,
}

/// How the wait for the submitted frame ended.
#[derive(Clone, Copy, Debug, PartialEq, Eq, Structural)]
pub enum WaitOutcome {
    Completed,
    TimedOut,
}

/// The stage at which the engine had to give up.
#[derive(Clone, Copy, Debug, PartialEq, Eq, Structural)]
pub enum FatalError {
    SwapchainRecreate,
    AcquireImage,
    GpuTimeout,
}

impl FatalError {
    /// The diagnostic for the stage that failed.
    pub open spec fn spec_message(self) -> Seq<char> {
        match self {
            FatalError::SwapchainRecreate => "Failed to recreate swapchain"@,
            FatalError::AcquireImage => "Couldn't acquire next image from Vulkan Swapchain"@,
            FatalError::GpuTimeout => "GPU Timeout, terminating the program"@,
        }
    }

    /// The diagnostic to show before the engine stops: it names the stage
    /// that failed.
    pub fn message(&self) -> (text: &'static str)
        ensures
            text@ == self.spec_message(),
    {
        match self {
            FatalError::SwapchainRecreate => "Failed to recreate swapchain",
            FatalError::AcquireImage => "Couldn't acquire next image from Vulkan Swapchain",
            FatalError::GpuTimeout => "GPU Timeout, terminating the program",
        }
    }
}

/// What the owner of the GPU objects does next.
#[derive(Clone, Copy, Debug, PartialEq, Eq, Structural)]
pub enum FrameStep {
    /// Rebuild the image chain for a window of this size.
    RecreateSwapchain { extent: Extent },
    /// Acquire the next presentable image, without a timeout.
    AcquireImage,
    /// Record the draw pass into the framebuffer of this image, submit it
    /// joined with the acquire signal, and present.
    Record { image_index: u32 },
    /// Wait for the submitted frame, this many seconds at most.
    WaitForFence { timeout_secs: u64 },
    /// Release what earlier frames no longer hold; the frame is over. A
    /// submission error, where there was one, is to be logged.
    Finish { log_flush_error: bool },
    /// Leave this frame out; the next one tries again.
    SkipFrame,
    /// Stop the engine.
    Fatal(FatalError),
}

/// Where in a frame the engine stands: which report is due next.
#[derive(Clone, Copy, Debug, PartialEq, Eq, Structural)]
pub enum FramePhase {
    /// Between frames: the next frame may begin.
    Idle,
    /// A rebuild of the image chain was asked for.
    Recreating,
    /// The acquire of an image was asked for.
    Acquiring,
    /// The recording and submission of the draw pass was asked for.
    Submitting,
    /// The wait for the submitted frame was asked for.
    Waiting,
    /// The engine has given up; no frame follows.
    Stopped,
}

/// The frame logic's state between and within frames.
#[derive(Clone, Copy, Debug, PartialEq, Eq, Structural)]
pub struct FrameScheduler {
    pub swapchain: SwapchainHandler,
    pub previous_frame_end: FrameEnd,
    pub window_size: Extent,
    pub phase: FramePhase,
}

/// The phase that a step leaves the engine in.
pub open spec fn phase_of(step: FrameStep) -> FramePhase {
    match step {
        FrameStep::RecreateSwapchain { .. } => FramePhase::Recreating,
        FrameStep::AcquireImage => FramePhase::Acquiring,
        FrameStep::Record { .. } => FramePhase::Submitting,
        FrameStep::WaitForFence { .. } => FramePhase::Waiting,
        FrameStep::Finish { .. } => FramePhase::Idle,
        FrameStep::SkipFrame => FramePhase::Idle,
        FrameStep::Fatal(_) => FramePhase::Stopped,
    }
}

impl FrameScheduler {
    /// The scheduler's invariant: that of its image chain, and a rebuild
    /// is under way only for a chain that is pending.
    pub open spec fn wf(self) -> bool {
        &&& self.swapchain.wf()
        &&& self.phase == FramePhase::Recreating ==> self.swapchain.must_recreate
    }

    /// This state with the chain marked as pending a rebuild, or as valid.
    pub open spec fn with_recreate(self, pending: bool) -> FrameScheduler {
        FrameScheduler {
            swapchain: SwapchainHandler { must_recreate: pending, ..self.swapchain },
            ..self
        }
    }

    /// The state after a frame has begun: a resize is recorded and leaves
    /// the chain pending.
    pub open spec fn after_begin(self, resized: bool, current_size: Extent) -> FrameScheduler {
        let phase = phase_of(self.begin_step(resized, current_size));
        if resized {
            FrameScheduler { window_size: current_size, phase, ..self.with_recreate(true) }
        } else {
            FrameScheduler { phase, ..self }
        }
    }

    /// The first step of a frame: a rebuild where the chain is pending,
    /// against the window's current size, and else the acquire.
    pub open spec fn begin_step(self, resized: bool, current_size: Extent) -> FrameStep {
        if resized || self.swapchain.must_recreate {
            FrameStep::RecreateSwapchain { extent: current_size }
        } else {
            FrameStep::AcquireImage
        }
    }

    /// The state after a rebuild attempt.
    pub open spec fn after_recreated(self, outcome: RecreateOutcome) -> FrameScheduler {
        FrameScheduler {
            swapchain: self.swapchain.after_attempt(outcome),
            phase: phase_of(self.recreated_step(outcome)),
            ..self
        }
    }

    /// The step after a rebuild attempt.
    pub open spec fn recreated_step(self, outcome: RecreateOutcome) -> FrameStep {
        match self.swapchain.attempt_verdict(outcome) {
            Ok(_) => FrameStep::AcquireImage,
            Err(RecreateError::Retry) => FrameStep::SkipFrame,
            Err(RecreateError::Fatal) => FrameStep::Fatal(FatalError::SwapchainRecreate),
        }
    }

    /// The state after an acquire.
    pub open spec fn after_acquired(self, outcome: AcquireOutcome) -> FrameScheduler {
        let phase = phase_of(self.acquired_step(outcome));
        match outcome {
            AcquireOutcome::Acquired { suboptimal, .. } => FrameScheduler {
                phase,
                ..self.with_recreate(suboptimal)
            },
            AcquireOutcome::OutOfDate => FrameScheduler { phase, ..self.with_recreate(true) },
            AcquireOutcome::Failed => FrameScheduler { phase, ..self },
        }
    }

    /// The step after an acquire.
    pub open spec fn acquired_step(self, outcome: AcquireOutcome) -> FrameStep {
        match outcome {
            AcquireOutcome::Acquired { image_index, .. } => FrameStep::Record { image_index },
            AcquireOutcome::OutOfDate => FrameStep::SkipFrame,
            AcquireOutcome::Failed => FrameStep::Fatal(FatalError::AcquireImage),
        }
    }

    /// The state after a submission.
    pub open spec fn after_submitted(self, outcome: SubmitOutcome) -> FrameScheduler {
        let phase = phase_of(self.submitted_step(outcome));
        match outcome {
            SubmitOutcome::Flushed => FrameScheduler { phase, ..self },
            SubmitOutcome::OutOfDate => FrameScheduler {
                previous_frame_end: FrameEnd::Now,
                phase,
                ..self.with_recreate(true)
            },
            SubmitOutcome::Failed => FrameScheduler {
                previous_frame_end: FrameEnd::Now,
                phase,
                ..self
            },
        }
    }

    /// The step after a submission.
    pub open spec fn submitted_step(self, outcome: SubmitOutcome) -> FrameStep {
        match outcome {
            SubmitOutcome::Flushed => FrameStep::WaitForFence { timeout_secs: FENCE_TIMEOUT_SECS },
            SubmitOutcome::OutOfDate => FrameStep::Finish { log_flush_error: false },
            SubmitOutcome::Failed => FrameStep::Finish { log_flush_error: true },
        }
    }

    /// The state after the wait for the submitted frame.
    pub open spec fn after_waited(self, outcome: WaitOutcome) -> FrameScheduler {
        let phase = phase_of(self.waited_step(outcome));
        match outcome {
            WaitOutcome::Completed => FrameScheduler {
                previous_frame_end: FrameEnd::Fence,
                phase,
                ..self
            },
            WaitOutcome::TimedOut => FrameScheduler { phase, ..self },
        }
    }

    /// The step after the wait for the submitted frame.
    pub open spec fn waited_step(self, outcome: WaitOutcome) -> FrameStep {
        match outcome {
            WaitOutcome::Completed => FrameStep::Finish { log_flush_error: false },
            WaitOutcome::TimedOut => FrameStep::Fatal(FatalError::GpuTimeout),
        }
    }

    /// The state at startup: a valid chain, nothing in flight.
    pub fn new(swapchain: SwapchainHandler, window_size: Extent) -> (scheduler: FrameScheduler)
        requires
            swapchain.wf(),
        ensures
            scheduler.wf(),
            scheduler == (FrameScheduler {
                swapchain,
                previous_frame_end: FrameEnd::Now,
                window_size,
                phase: FramePhase::Idle,
            }),
    {
        FrameScheduler {
            swapchain,
            previous_frame_end: FrameEnd::Now,
            window_size,
            phase: FramePhase::Idle,
        }
    }

    /// Where in a frame the engine stands.
    pub fn phase(&self) -> (phase: FramePhase)
        ensures
            phase == self.phase,
    {
        self.phase
    }

    /// Begins a frame. `resized` says whether the window was resized since
    /// the last frame, `current_size` what its size is now.
    pub fn begin(&mut self, resized: bool, current_size: Extent) -> (step: FrameStep)
        requires
            old(self).wf(),
            old(self).phase == FramePhase::Idle,
        ensures
            final(self).wf(),
            *final(self) == old(self).after_begin(resized, current_size),
            step == old(self).begin_step(resized, current_size),
    {
        let recreate = if resized {
            self.window_size = current_size;
            true
        } else {
            self.swapchain.get_recreate()
        };
        self.swapchain.set_recreate(recreate);
        if recreate {
            self.phase = FramePhase::Recreating;
            FrameStep::RecreateSwapchain { extent: current_size }
        } else {
            self.phase = FramePhase::Acquiring;
            FrameStep::AcquireImage
        }
    }

    /// Takes in how the rebuild of the image chain ended.
    pub fn swapchain_recreated(&mut self, outcome: RecreateOutcome) -> (step: FrameStep)
        requires
            old(self).wf(),
            old(self).phase == FramePhase::Recreating,
            outcome matches RecreateOutcome::Rebuilt { image_count, .. } ==> image_count >= 1,
        ensures
            final(self).wf(),
            *final(self) == old(self).after_recreated(outcome),
            step == old(self).recreated_step(outcome),
    {
        match self.swapchain.check_and_recreate(outcome) {
            Ok(_) => {
                self.phase = FramePhase::Acquiring;
                FrameStep::AcquireImage
            },
            Err(RecreateError::Retry) => {
                self.phase = FramePhase::Idle;
                FrameStep::SkipFrame
            },
            Err(RecreateError::Fatal) => {
                self.phase = FramePhase::Stopped;
                FrameStep::Fatal(FatalError::SwapchainRecreate)
            },
        }
    }

    /// Takes in how the acquire of the next image ended. An acquired image
    /// is one of the chain's.
    pub fn image_acquired(&mut self, outcome: AcquireOutcome) -> (step: FrameStep)
        requires
            old(self).wf(),
            old(self).phase == FramePhase::Acquiring,
            outcome matches AcquireOutcome::Acquired { image_index, .. } ==> image_index < old(
                self,
            ).swapchain.framebuffers,
        ensures
            final(self).wf(),
            *final(self) == old(self).after_acquired(outcome),
            step == old(self).acquired_step(outcome),
    {
        match outcome {
            AcquireOutcome::Acquired { image_index, suboptimal } => {
                self.swapchain.set_recreate(suboptimal);
                self.phase = FramePhase::Submitting;
                FrameStep::Record { image_index }
            },
            AcquireOutcome::OutOfDate => {
                self.swapchain.set_recreate(true);
                self.phase = FramePhase::Idle;
                FrameStep::SkipFrame
            },
            AcquireOutcome::Failed => {
                self.phase = FramePhase::Stopped;
                FrameStep::Fatal(FatalError::AcquireImage)
            },
        }
    }

    /// Takes in how the submission of the recorded commands ended.
    pub fn frame_submitted(&mut self, outcome: SubmitOutcome) -> (step: FrameStep)
        requires
            old(self).wf(),
            old(self).phase == FramePhase::Submitting,
        ensures
            final(self).wf(),
            *final(self) == old(self).after_submitted(outcome),
            step == old(self).submitted_step(outcome),
    {
        match outcome {
            SubmitOutcome::Flushed => {
                self.phase = FramePhase::Waiting;
                FrameStep::WaitForFence { timeout_secs: FENCE_TIMEOUT_SECS }
            },
            SubmitOutcome::OutOfDate => {
                self.swapchain.set_recreate(true);
                self.previous_frame_end = FrameEnd::Now;
                self.phase = FramePhase::Idle;
                FrameStep::Finish { log_flush_error: false }
            },
            SubmitOutcome::Failed => {
                self.previous_frame_end = FrameEnd::Now;
                self.phase = FramePhase::Idle;
                FrameStep::Finish { log_flush_error: true }
            },
        }
    }

    /// Takes in how the wait for the submitted frame ended.
    pub fn fence_waited(&mut self, outcome: WaitOutcome) -> (step: FrameStep)
        requires
            old(self).wf(),
            old(self).phase == FramePhase::Waiting,
        ensures
            final(self).wf(),
            *final(self) == old(self).after_waited(outcome),
            step == old(self).waited_step(outcome),
    {
        match outcome {
            WaitOutcome::Completed => {
                self.previous_frame_end = FrameEnd::Fence;
                self.phase = FramePhase::Idle;
                FrameStep::Finish { log_flush_error: false }
            },
            WaitOutcome::TimedOut => {
                self.phase = FramePhase::Stopped;
                FrameStep::Fatal(FatalError::GpuTimeout)
            },
        }
    }
}

} // verus!
