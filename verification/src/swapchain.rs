//! Presentable image chain: image-count selection and rebuild bookkeeping.

use vstd::prelude::*;

verus! {

/// The smallest number of presentable images the renderer asks for.
pub const MIN_BUFFERS: u32 = 2;

/// A size in pixels.
#[derive(Clone, Copy, Debug, PartialEq, Eq, Structural)]
pub struct Extent {
    pub width: u32,
    pub height: u32,
}

/// The rectangle of the image that is drawn to, in pixels. Its depth range
/// is always the full one.
#[derive(Clone, Copy, Debug, PartialEq, Eq, Structural)]
pub struct Viewport {
    pub origin_x: u32,
    pub origin_y: u32,
    pub width: u32,
    pub height: u32,
}

/// How an attempt to rebuild the image chain ended.
#[derive(Clone, Copy, Debug, PartialEq, Eq, Structural)]
pub enum RecreateOutcome {
    /// A new chain of `image_count` images of size `extent` stands.
    Rebuilt { extent: Extent, image_count: u32 },
    /// The surface does not take the size asked for, for now.
    UnsupportedDimensions,
    /// The rebuild failed for any other reason.
    Failed,
}

/// Why the chain is not ready for this frame.
#[derive(Clone, Copy, Debug, PartialEq, Eq, Structural)]
pub enum RecreateError {
    /// Passing: skip the frame and try again with the next one.
    Retry,
    /// The chain cannot be rebuilt; the engine cannot go on.
    Fatal,
}

/// The image count for a surface that supports at least `min_image_count`
/// images and, where `max_image_count` is given, at most that many.
pub open spec fn spec_buffers_count(min_image_count: u32, max_image_count: Option<u32>) -> u32 {
    let wanted = if min_image_count < MIN_BUFFERS { MIN_BUFFERS } else { min_image_count };
    match max_image_count {
        None => wanted,
        Some(limit) => if limit < wanted { limit } else { wanted },
    }
}

/// Picks how many images the chain is created with: two, or the surface's
/// minimum where that is larger, capped by the surface's maximum if it has one.
pub fn buffers_count(min_image_count: u32, max_image_count: Option<u32>) -> (count: u32)
    ensures
        count == spec_buffers_count(min_image_count, max_image_count),
{
    let wanted: u32 = if min_image_count < MIN_BUFFERS { MIN_BUFFERS } else { min_image_count };
    match max_image_count {
        None => wanted,
        Some(limit) => if limit < wanted { limit } else { wanted },
    }
}

/// The computed image count lies within what the surface supports, wherever
/// the surface's own bounds allow two images or more.
pub proof fn lemma_buffers_count_bounds(min_image_count: u32, max_image_count: Option<u32>)
    requires
        max_image_count.is_some() ==> max_image_count.unwrap() >= min_image_count
            && max_image_count.unwrap() >= MIN_BUFFERS,
    ensures
        spec_buffers_count(min_image_count, max_image_count) >= MIN_BUFFERS,
        spec_buffers_count(min_image_count, max_image_count) >= min_image_count,
        max_image_count.is_some() ==> spec_buffers_count(min_image_count, max_image_count)
            <= max_image_count.unwrap(),
{
}

/// The viewport that covers a whole image of size `extent`.
pub open spec fn full_viewport(extent: Extent) -> Viewport {
    Viewport { origin_x: 0, origin_y: 0, width: extent.width, height: extent.height }
}

/// The presentable image chain as the frame logic sees it: the size and
/// number of its images, the framebuffers made for them, the viewport, and
/// whether the chain has to be rebuilt before it is used again.
#[derive(Clone, Copy, Debug, PartialEq, Eq, Structural)]
pub struct SwapchainHandler {
    pub extent: Extent,
    pub image_count: u32,
    pub framebuffers: u32,
    pub viewport: Viewport,
    pub must_recreate: bool,
}

impl SwapchainHandler {
    /// The chain's invariant: it has an image, one framebuffer for each
    /// image, and a viewport that covers the whole image.
    pub open spec fn wf(self) -> bool {
        &&& self.image_count >= 1
        &&& self.framebuffers == self.image_count
        &&& self.viewport == full_viewport(self.extent)
    }

    /// A valid chain of `image_count` images of size `extent`.
    pub open spec fn fresh(extent: Extent, image_count: u32) -> SwapchainHandler {
        SwapchainHandler {
            extent,
            image_count,
            framebuffers: image_count,
            viewport: full_viewport(extent),
            must_recreate: false,
        }
    }

    /// The chain after a rebuild attempt that ended with `outcome`: a rebuilt
    /// chain takes the place of one that was pending, anything else leaves
    /// the chain as it was.
    pub open spec fn after_attempt(self, outcome: RecreateOutcome) -> SwapchainHandler {
        match outcome {
            RecreateOutcome::Rebuilt { extent, image_count } if self.must_recreate => Self::fresh(
                extent,
                image_count,
            ),
            _ => self,
        }
    }

    /// What a rebuild attempt that ended with `outcome` means for the frame.
    pub open spec fn attempt_verdict(self, outcome: RecreateOutcome) -> Result<(), RecreateError> {
        if !self.must_recreate {
            Ok(())
        } else {
            match outcome {
                RecreateOutcome::Rebuilt { .. } => Ok(()),
                RecreateOutcome::UnsupportedDimensions => Err(RecreateError::Retry),
                RecreateOutcome::Failed => Err(RecreateError::Fatal),
            }
        }
    }

    /// The record of a chain that was just created: valid, with one
    /// framebuffer for each image and a viewport over the whole image.
    pub fn new(extent: Extent, image_count: u32) -> (chain: SwapchainHandler)
        requires
            image_count >= 1,
        ensures
            chain == Self::fresh(extent, image_count),
            chain.wf(),
    {
        SwapchainHandler {
            extent,
            image_count,
            framebuffers: image_count,
            viewport: Viewport { origin_x: 0, origin_y: 0, width: extent.width, height: extent.height },
            must_recreate: false,
        }
    }

    /// Takes in the outcome of rebuilding a chain that was pending.
    ///
    /// A rebuilt chain makes this one valid again, with a fresh viewport and
    /// set of framebuffers. Unsupported dimensions leave the chain pending
    /// and ask the caller to skip the frame; any other failure is fatal. On
    /// a chain that was not pending nothing happens.
    pub fn check_and_recreate(&mut self, outcome: RecreateOutcome) -> (ready: Result<(), RecreateError>)
        requires
            old(self).wf(),
            outcome matches RecreateOutcome::Rebuilt { image_count, .. } ==> image_count >= 1,
        ensures
            final(self).wf(),
            ready == old(self).attempt_verdict(outcome),
            *final(self) == old(self).after_attempt(outcome),
            ready.is_err() ==> final(self).must_recreate,
    {
        if !self.must_recreate {
            return Ok(());
        }
        match outcome {
            RecreateOutcome::Rebuilt { extent, image_count } => {
                *self = SwapchainHandler::new(extent, image_count);
                Ok(())
            },
            RecreateOutcome::UnsupportedDimensions => Err(RecreateError::Retry),
            RecreateOutcome::Failed => Err(RecreateError::Fatal),
        }
    }

    /// Whether the chain has to be rebuilt before it is used again.
    pub fn get_recreate(&self) -> (pending: bool)
        ensures
            pending == self.must_recreate,
    {
        self.must_recreate
    }

    /// Marks the chain as pending a rebuild, or as valid.
    pub fn set_recreate(&mut self, new_value: bool)
        ensures
            *final(self) == (SwapchainHandler { must_recreate: new_value, ..*old(self) }),
    {
        self.must_recreate = new_value;
    }

    /// The viewport that draw calls are recorded with.
    pub fn get_dynamic_state(&self) -> (viewport: Viewport)
        ensures
            viewport == self.viewport,
    {
        self.viewport
    }
}

} // verus!
