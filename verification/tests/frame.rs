use pholidota::frame::{
    AcquireOutcome, FatalError, FrameEnd, FramePhase, FrameScheduler, FrameStep, SubmitOutcome,
    WaitOutcome, FENCE_TIMEOUT_SECS,
};
use pholidota::swapchain::{Extent, RecreateOutcome, SwapchainHandler, Viewport};

fn extent(width: u32, height: u32) -> Extent {
    Extent { width, height }
}

fn scheduler() -> FrameScheduler {
    FrameScheduler::new(SwapchainHandler::new(extent(800, 600), 2), extent(800, 600))
}

fn acquired(image_index: u32) -> AcquireOutcome {
    AcquireOutcome::Acquired { image_index, suboptimal: false }
}

fn whole_frame(s: &mut FrameScheduler) {
    assert_eq!(s.begin(false, extent(800, 600)), FrameStep::AcquireImage);
    assert_eq!(s.image_acquired(acquired(0)), FrameStep::Record { image_index: 0 });
    assert_eq!(
        s.frame_submitted(SubmitOutcome::Flushed),
        FrameStep::WaitForFence { timeout_secs: 10 }
    );
    assert_eq!(s.fence_waited(WaitOutcome::Completed), FrameStep::Finish { log_flush_error: false });
}

#[test]
fn new_scheduler_has_nothing_in_flight() {
    let s = scheduler();
    assert_eq!(s.previous_frame_end, FrameEnd::Now);
    assert_eq!(s.window_size, extent(800, 600));
    assert!(!s.swapchain.must_recreate);
    assert_eq!(s.phase(), FramePhase::Idle);
}

#[test]
fn quiet_frame_runs_acquire_record_wait_finish() {
    let mut s = scheduler();
    assert_eq!(s.begin(false, extent(800, 600)), FrameStep::AcquireImage);
    assert_eq!(s.phase(), FramePhase::Acquiring);
    assert_eq!(s.image_acquired(acquired(1)), FrameStep::Record { image_index: 1 });
    assert_eq!(s.phase(), FramePhase::Submitting);
    assert_eq!(
        s.frame_submitted(SubmitOutcome::Flushed),
        FrameStep::WaitForFence { timeout_secs: 10 }
    );
    assert_eq!(s.phase(), FramePhase::Waiting);
    assert_eq!(FENCE_TIMEOUT_SECS, 10);
    assert_eq!(s.fence_waited(WaitOutcome::Completed), FrameStep::Finish { log_flush_error: false });
    assert_eq!(s.phase(), FramePhase::Idle);
    assert_eq!(s.previous_frame_end, FrameEnd::Fence);
    assert!(!s.swapchain.must_recreate);
}

#[test]
fn resize_rebuilds_the_chain_once() {
    let mut s = scheduler();
    let new_size = extent(1280, 720);
    assert_eq!(s.begin(true, new_size), FrameStep::RecreateSwapchain { extent: new_size });
    assert_eq!(s.phase(), FramePhase::Recreating);
    assert_eq!(s.window_size, new_size);
    assert!(s.swapchain.must_recreate);
    let rebuilt = RecreateOutcome::Rebuilt { extent: new_size, image_count: 3 };
    assert_eq!(s.swapchain_recreated(rebuilt), FrameStep::AcquireImage);
    assert!(!s.swapchain.must_recreate);
    assert_eq!(
        s.swapchain.viewport,
        Viewport { origin_x: 0, origin_y: 0, width: 1280, height: 720 }
    );
    assert_eq!(s.swapchain.framebuffers, 3);
    assert_eq!(s.swapchain.image_count, 3);
    assert_eq!(
        s.image_acquired(AcquireOutcome::Acquired { image_index: 2, suboptimal: false }),
        FrameStep::Record { image_index: 2 }
    );
    assert_eq!(
        s.frame_submitted(SubmitOutcome::Flushed),
        FrameStep::WaitForFence { timeout_secs: 10 }
    );
    assert_eq!(s.fence_waited(WaitOutcome::Completed), FrameStep::Finish { log_flush_error: false });
    assert_eq!(s.begin(false, new_size), FrameStep::AcquireImage);
}

#[test]
fn window_size_is_recorded_only_on_resize() {
    let mut s = scheduler();
    s.begin(false, extent(1, 1));
    assert_eq!(s.window_size, extent(800, 600));
    let mut s = scheduler();
    s.begin(true, extent(1, 1));
    assert_eq!(s.window_size, extent(1, 1));
}

#[test]
fn pending_chain_is_rebuilt_for_the_current_window_size() {
    let mut s = scheduler();
    s.swapchain.set_recreate(true);
    assert_eq!(
        s.begin(false, extent(300, 200)),
        FrameStep::RecreateSwapchain { extent: extent(300, 200) }
    );
    assert_eq!(s.window_size, extent(800, 600));
}

#[test]
fn unsupported_dimensions_skip_the_frame_and_retry() {
    let mut s = scheduler();
    s.begin(true, extent(0, 0));
    let before = s;
    assert_eq!(s.swapchain_recreated(RecreateOutcome::UnsupportedDimensions), FrameStep::SkipFrame);
    assert_eq!(s, FrameScheduler { phase: FramePhase::Idle, ..before });
    assert!(s.swapchain.must_recreate);
    assert_eq!(
        s.begin(false, extent(640, 480)),
        FrameStep::RecreateSwapchain { extent: extent(640, 480) }
    );
}

#[test]
fn failed_rebuild_is_fatal() {
    let mut s = scheduler();
    s.begin(true, extent(640, 480));
    assert_eq!(
        s.swapchain_recreated(RecreateOutcome::Failed),
        FrameStep::Fatal(FatalError::SwapchainRecreate)
    );
    assert_eq!(s.phase(), FramePhase::Stopped);
}

#[test]
fn out_of_date_acquire_skips_and_leaves_the_chain_pending() {
    let mut s = scheduler();
    assert_eq!(s.begin(false, extent(800, 600)), FrameStep::AcquireImage);
    assert_eq!(s.image_acquired(AcquireOutcome::OutOfDate), FrameStep::SkipFrame);
    assert_eq!(s.previous_frame_end, FrameEnd::Now);
    assert!(s.swapchain.must_recreate);
    assert_eq!(s.phase(), FramePhase::Idle);
    assert_eq!(
        s.begin(false, extent(800, 600)),
        FrameStep::RecreateSwapchain { extent: extent(800, 600) }
    );
}

#[test]
fn out_of_date_acquire_keeps_the_fence_of_the_last_frame() {
    let mut s = scheduler();
    whole_frame(&mut s);
    s.begin(false, extent(800, 600));
    assert_eq!(s.image_acquired(AcquireOutcome::OutOfDate), FrameStep::SkipFrame);
    assert_eq!(s.previous_frame_end, FrameEnd::Fence);
}

#[test]
fn failed_acquire_is_fatal() {
    let mut s = scheduler();
    s.begin(false, extent(800, 600));
    let before = s;
    assert_eq!(
        s.image_acquired(AcquireOutcome::Failed),
        FrameStep::Fatal(FatalError::AcquireImage)
    );
    assert_eq!(s, FrameScheduler { phase: FramePhase::Stopped, ..before });
}

#[test]
fn suboptimal_image_is_drawn_and_marks_the_chain() {
    let mut s = scheduler();
    s.begin(false, extent(800, 600));
    assert_eq!(
        s.image_acquired(AcquireOutcome::Acquired { image_index: 0, suboptimal: true }),
        FrameStep::Record { image_index: 0 }
    );
    assert!(s.swapchain.must_recreate);
}

#[test]
fn out_of_date_submission_resets_the_signal() {
    let mut s = scheduler();
    whole_frame(&mut s);
    assert_eq!(s.previous_frame_end, FrameEnd::Fence);
    s.begin(false, extent(800, 600));
    s.image_acquired(acquired(0));
    assert_eq!(
        s.frame_submitted(SubmitOutcome::OutOfDate),
        FrameStep::Finish { log_flush_error: false }
    );
    assert_eq!(s.previous_frame_end, FrameEnd::Now);
    assert!(s.swapchain.must_recreate);
    assert_eq!(s.phase(), FramePhase::Idle);
}

#[test]
fn failed_submission_is_logged_and_the_engine_goes_on() {
    let mut s = scheduler();
    whole_frame(&mut s);
    assert_eq!(s.previous_frame_end, FrameEnd::Fence);
    s.begin(false, extent(800, 600));
    s.image_acquired(acquired(1));
    assert_eq!(
        s.frame_submitted(SubmitOutcome::Failed),
        FrameStep::Finish { log_flush_error: true }
    );
    assert_eq!(s.previous_frame_end, FrameEnd::Now);
    assert!(!s.swapchain.must_recreate);
    assert_eq!(s.begin(false, extent(800, 600)), FrameStep::AcquireImage);
}

#[test]
fn gpu_timeout_is_fatal() {
    let mut s = scheduler();
    s.begin(false, extent(800, 600));
    s.image_acquired(acquired(0));
    s.frame_submitted(SubmitOutcome::Flushed);
    assert_eq!(s.fence_waited(WaitOutcome::TimedOut), FrameStep::Fatal(FatalError::GpuTimeout));
    assert_eq!(s.previous_frame_end, FrameEnd::Now);
    assert_eq!(s.phase(), FramePhase::Stopped);
}

#[test]
fn fatal_errors_name_the_stage_that_failed() {
    assert_eq!(FatalError::SwapchainRecreate.message(), "Failed to recreate swapchain");
    assert_eq!(
        FatalError::AcquireImage.message(),
        "Couldn't acquire next image from Vulkan Swapchain"
    );
    assert_eq!(FatalError::GpuTimeout.message(), "GPU Timeout, terminating the program");
}
