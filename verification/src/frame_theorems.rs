//! What holds of a frame as a whole, however its GPU work turns out.

use vstd::prelude::*;
use crate::frame::{
    AcquireOutcome, FrameEnd, FramePhase, FrameScheduler, FrameStep, SubmitOutcome, WaitOutcome,
};
use crate::swapchain::{Extent, RecreateOutcome, SwapchainHandler};

verus! {

/// How each piece of GPU work of one frame ends, should the frame get to it.
pub struct FrameOutcomes {
    pub recreated: RecreateOutcome,
    pub acquired: AcquireOutcome,
    pub submitted: SubmitOutcome,
    pub waited: WaitOutcome,
}

/// Whether the outcomes are ones that can be reported: a rebuilt chain has
/// an image.
pub open spec fn reportable(outcomes: FrameOutcomes) -> bool {
    outcomes.recreated matches RecreateOutcome::Rebuilt { image_count, .. } ==> image_count >= 1
}

/// The state after the rebuild of a frame, where the frame has one.
pub open spec fn through_rebuild(s: FrameScheduler, outcomes: FrameOutcomes) -> FrameScheduler {
    if s.phase == FramePhase::Recreating {
        s.after_recreated(outcomes.recreated)
    } else {
        s
    }
}

/// The state after the acquire of a frame, where the frame gets to it.
pub open spec fn through_acquire(s: FrameScheduler, outcomes: FrameOutcomes) -> FrameScheduler {
    if s.phase == FramePhase::Acquiring {
        s.after_acquired(outcomes.acquired)
    } else {
        s
    }
}

/// The state after the submission of a frame, where the frame gets to it.
pub open spec fn through_submit(s: FrameScheduler, outcomes: FrameOutcomes) -> FrameScheduler {
    if s.phase == FramePhase::Submitting {
        s.after_submitted(outcomes.submitted)
    } else {
        s
    }
}

/// The state after the wait of a frame, where the frame gets to it.
pub open spec fn through_wait(s: FrameScheduler, outcomes: FrameOutcomes) -> FrameScheduler {
    if s.phase == FramePhase::Waiting {
        s.after_waited(outcomes.waited)
    } else {
        s
    }
}

/// The state after one whole frame: it begins, and each piece of GPU work
/// that the frame gets to is reported with its outcome.
pub open spec fn after_frame(
    s: FrameScheduler,
    resized: bool,
    current_size: Extent,
    outcomes: FrameOutcomes,
) -> FrameScheduler {
    through_wait(
        through_submit(
            through_acquire(through_rebuild(s.after_begin(resized, current_size), outcomes), outcomes),
            outcomes,
        ),
        outcomes,
    )
}

/// How many rebuilds of the image chain one frame asks for.
pub open spec fn rebuilds_asked(
    s: FrameScheduler,
    resized: bool,
    current_size: Extent,
    outcomes: FrameOutcomes,
) -> nat {
    let s1 = s.after_begin(resized, current_size);
    let s2 = through_rebuild(s1, outcomes);
    let s3 = through_acquire(s2, outcomes);
    let s4 = through_submit(s3, outcomes);
    let at_begin: nat = if s.begin_step(resized, current_size) is RecreateSwapchain { 1 } else { 0 };
    let at_rebuild: nat = if s1.phase == FramePhase::Recreating && s1.recreated_step(
        outcomes.recreated,
    ) is RecreateSwapchain { 1 } else { 0 };
    let at_acquire: nat = if s2.phase == FramePhase::Acquiring && s2.acquired_step(
        outcomes.acquired,
    ) is RecreateSwapchain { 1 } else { 0 };
    let at_submit: nat = if s3.phase == FramePhase::Submitting && s3.submitted_step(
        outcomes.submitted,
    ) is RecreateSwapchain { 1 } else { 0 };
    let at_wait: nat = if s4.phase == FramePhase::Waiting && s4.waited_step(
        outcomes.waited,
    ) is RecreateSwapchain { 1 } else { 0 };
    at_begin + at_rebuild + at_acquire + at_submit + at_wait
}

/// Every frame comes to an end: after it the engine stands between frames
/// or has stopped, and its state is valid. A frame asks for a rebuild of the
/// image chain at most once, and for one exactly when the window was
/// resized or the chain was pending.
pub proof fn lemma_frame_ends(
    s: FrameScheduler,
    resized: bool,
    current_size: Extent,
    outcomes: FrameOutcomes,
)
    requires
        s.wf(),
        s.phase == FramePhase::Idle,
        reportable(outcomes),
    ensures
        after_frame(s, resized, current_size, outcomes).wf(),
        after_frame(s, resized, current_size, outcomes).phase == FramePhase::Idle || after_frame(
            s,
            resized,
            current_size,
            outcomes,
        ).phase == FramePhase::Stopped,
        rebuilds_asked(s, resized, current_size, outcomes) <= 1,
        rebuilds_asked(s, resized, current_size, outcomes) == 1 <==> resized
            || s.swapchain.must_recreate,
{
}

/// A resize followed by one frame rebuilds the image chain exactly once.
/// The new size is recorded, and where the rebuild succeeds the chain that
/// the frame leaves has a viewport over the whole new size and a
/// framebuffer for each of its images, whatever becomes of the frame after
/// the rebuild.
pub proof fn lemma_resize_rebuilds_once(
    s: FrameScheduler,
    new_size: Extent,
    image_count: u32,
    outcomes: FrameOutcomes,
)
    requires
        s.wf(),
        s.phase == FramePhase::Idle,
        image_count >= 1,
        outcomes.recreated == (RecreateOutcome::Rebuilt { extent: new_size, image_count }),
    ensures
        ({
            let end = after_frame(s, true, new_size, outcomes);
            &&& rebuilds_asked(s, true, new_size, outcomes) == 1
            &&& s.begin_step(true, new_size) == (FrameStep::RecreateSwapchain { extent: new_size })
            &&& end.window_size == new_size
            &&& end.swapchain.extent == new_size
            &&& end.swapchain.viewport.origin_x == 0
            &&& end.swapchain.viewport.origin_y == 0
            &&& end.swapchain.viewport.width == new_size.width
            &&& end.swapchain.viewport.height == new_size.height
            &&& end.swapchain.image_count == image_count
            &&& end.swapchain.framebuffers == image_count
        }),
{
}

/// The resize that one frame resolved asks nothing of the next: where the
/// rebuild succeeded and neither the acquire nor the submission of the
/// frame found fault with the chain, the frame after it begins with the
/// acquire.
pub proof fn lemma_resize_is_resolved_once(
    s: FrameScheduler,
    new_size: Extent,
    outcomes: FrameOutcomes,
    next_size: Extent,
)
    requires
        s.wf(),
        s.phase == FramePhase::Idle,
        outcomes.recreated matches RecreateOutcome::Rebuilt { image_count, .. } && image_count >= 1,
        outcomes.acquired matches AcquireOutcome::Acquired { suboptimal, .. } && !suboptimal,
        outcomes.submitted != SubmitOutcome::OutOfDate,
        !(outcomes.submitted == SubmitOutcome::Flushed && outcomes.waited == WaitOutcome::TimedOut),
    ensures
        after_frame(s, true, new_size, outcomes).phase == FramePhase::Idle,
        after_frame(s, true, new_size, outcomes).begin_step(false, next_size)
            == FrameStep::AcquireImage,
{
}

/// A frame whose acquire finds the chain out of date is skipped: it leaves
/// the retained completion signal as it was, changes nothing but to mark
/// the chain as pending, and the next frame begins with a rebuild.
pub proof fn lemma_out_of_date_acquire_retries(
    s: FrameScheduler,
    current_size: Extent,
    outcomes: FrameOutcomes,
    next_resized: bool,
    next_size: Extent,
)
    requires
        s.wf(),
        s.phase == FramePhase::Idle,
        !s.swapchain.must_recreate,
        outcomes.acquired == AcquireOutcome::OutOfDate,
    ensures
        ({
            let end = after_frame(s, false, current_size, outcomes);
            &&& s.after_begin(false, current_size).acquired_step(AcquireOutcome::OutOfDate)
                == FrameStep::SkipFrame
            &&& end == (FrameScheduler {
                swapchain: SwapchainHandler { must_recreate: true, ..s.swapchain },
                ..s
            })
            &&& end.previous_frame_end == s.previous_frame_end
            &&& end.swapchain.must_recreate
            &&& end.begin_step(next_resized, next_size) == (FrameStep::RecreateSwapchain {
                extent: next_size,
            })
        }),
{
}

/// A frame whose rebuild the surface refuses for its size is skipped and
/// changes nothing but what the resize recorded: the chain stays pending,
/// nothing is acquired or submitted, and the next frame tries again.
pub proof fn lemma_unsupported_dimensions_retry(
    s: FrameScheduler,
    resized: bool,
    current_size: Extent,
    outcomes: FrameOutcomes,
    next_size: Extent,
)
    requires
        s.wf(),
        s.phase == FramePhase::Idle,
        resized || s.swapchain.must_recreate,
        outcomes.recreated == RecreateOutcome::UnsupportedDimensions,
    ensures
        ({
            let end = after_frame(s, resized, current_size, outcomes);
            &&& s.after_begin(resized, current_size).recreated_step(outcomes.recreated)
                == FrameStep::SkipFrame
            &&& end == (FrameScheduler {
                swapchain: SwapchainHandler { must_recreate: true, ..s.swapchain },
                window_size: if resized { current_size } else { s.window_size },
                ..s
            })
            &&& end.begin_step(false, next_size) == (FrameStep::RecreateSwapchain {
                extent: next_size,
            })
        }),
{
}

/// A frame that was submitted and waited for leaves its own completion
/// signal. A submission that failed, for whatever reason, ends the frame
/// with a fresh signal, and where the chain was out of date the chain is
/// pending afterwards.
pub proof fn lemma_submission_settles_signal(
    s: FrameScheduler,
    current_size: Extent,
    outcomes: FrameOutcomes,
)
    requires
        s.wf(),
        s.phase == FramePhase::Idle,
        !s.swapchain.must_recreate,
        outcomes.acquired is Acquired,
    ensures
        ({
            let end = after_frame(s, false, current_size, outcomes);
            &&& outcomes.submitted == SubmitOutcome::Flushed && outcomes.waited
                == WaitOutcome::Completed ==> end.previous_frame_end == FrameEnd::Fence
                && end.phase == FramePhase::Idle
            &&& outcomes.submitted == SubmitOutcome::Flushed && outcomes.waited
                == WaitOutcome::TimedOut ==> end.phase == FramePhase::Stopped
            &&& outcomes.submitted != SubmitOutcome::Flushed ==> end.previous_frame_end
                == FrameEnd::Now && end.phase == FramePhase::Idle
            &&& outcomes.submitted == SubmitOutcome::OutOfDate ==> end.swapchain.must_recreate
        }),
{
}

} // verus!
