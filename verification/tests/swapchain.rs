use pholidota::swapchain::{
    buffers_count, Extent, RecreateError, RecreateOutcome, SwapchainHandler, Viewport, MIN_BUFFERS,
};

fn extent(width: u32, height: u32) -> Extent {
    Extent { width, height }
}

#[test]
fn buffer_count_is_two_within_two_and_three() {
    assert_eq!(buffers_count(2, Some(3)), 2);
}

#[test]
fn buffer_count_follows_a_larger_minimum() {
    assert_eq!(buffers_count(4, None), 4);
}

#[test]
fn buffer_count_is_at_least_two_without_a_limit() {
    assert_eq!(MIN_BUFFERS, 2);
    assert_eq!(buffers_count(0, None), 2);
    assert_eq!(buffers_count(1, None), 2);
    assert_eq!(buffers_count(u32::MAX, None), u32::MAX);
}

#[test]
fn buffer_count_is_capped_by_the_limit() {
    assert_eq!(buffers_count(1, Some(1)), 1);
    assert_eq!(buffers_count(3, Some(2)), 2);
    assert_eq!(buffers_count(3, Some(3)), 3);
    assert_eq!(buffers_count(3, Some(8)), 3);
}

#[test]
fn new_chain_is_valid_with_full_viewport() {
    let chain = SwapchainHandler::new(extent(800, 600), 3);
    assert!(!chain.get_recreate());
    assert_eq!(chain.image_count, 3);
    assert_eq!(chain.framebuffers, 3);
    assert_eq!(chain.extent, extent(800, 600));
    assert_eq!(
        chain.get_dynamic_state(),
        Viewport { origin_x: 0, origin_y: 0, width: 800, height: 600 }
    );
}

#[test]
fn valid_chain_ignores_a_rebuild() {
    let mut chain = SwapchainHandler::new(extent(800, 600), 2);
    let before = chain;
    let rebuilt = RecreateOutcome::Rebuilt { extent: extent(10, 10), image_count: 5 };
    assert_eq!(chain.check_and_recreate(rebuilt), Ok(()));
    assert_eq!(chain, before);
    assert_eq!(chain.check_and_recreate(RecreateOutcome::Failed), Ok(()));
    assert_eq!(chain.check_and_recreate(RecreateOutcome::UnsupportedDimensions), Ok(()));
    assert_eq!(chain, before);
}

#[test]
fn pending_chain_takes_the_rebuilt_one() {
    let mut chain = SwapchainHandler::new(extent(800, 600), 2);
    chain.set_recreate(true);
    assert!(chain.get_recreate());
    let rebuilt = RecreateOutcome::Rebuilt { extent: extent(1024, 768), image_count: 3 };
    assert_eq!(chain.check_and_recreate(rebuilt), Ok(()));
    assert!(!chain.get_recreate());
    assert_eq!(chain, SwapchainHandler::new(extent(1024, 768), 3));
    assert_eq!(chain.viewport.width, 1024);
    assert_eq!(chain.viewport.height, 768);
    assert_eq!(chain.framebuffers, 3);
}

#[test]
fn unsupported_dimensions_leave_the_chain_pending() {
    let mut chain = SwapchainHandler::new(extent(800, 600), 2);
    chain.set_recreate(true);
    let before = chain;
    assert_eq!(
        chain.check_and_recreate(RecreateOutcome::UnsupportedDimensions),
        Err(RecreateError::Retry)
    );
    assert_eq!(chain, before);
    assert!(chain.get_recreate());
}

#[test]
fn other_rebuild_failure_is_fatal() {
    let mut chain = SwapchainHandler::new(extent(800, 600), 2);
    chain.set_recreate(true);
    assert_eq!(chain.check_and_recreate(RecreateOutcome::Failed), Err(RecreateError::Fatal));
    assert!(chain.get_recreate());
}

#[test]
fn set_recreate_changes_the_flag_only() {
    let mut chain = SwapchainHandler::new(extent(640, 480), 2);
    chain.set_recreate(true);
    assert_eq!(chain.extent, extent(640, 480));
    assert_eq!(chain.framebuffers, 2);
    chain.set_recreate(false);
    assert_eq!(chain, SwapchainHandler::new(extent(640, 480), 2));
}
