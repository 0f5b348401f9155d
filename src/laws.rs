use vstd::prelude::*;
use crate::frame_ring::{next_generation, swapchain_request_for, FrameRingModel};
use crate::negotiate::resolved_image_count;
use crate::render_target::{bound_to, RenderTargetModel};
use crate::surface::SurfaceCapabilities;

verus! {

/// Where the surface bounds the number of images and its bounds are in
/// order, the resolved count lies between them.
pub proof fn lemma_image_count_within_bounds(caps: SurfaceCapabilities)
    requires
        caps.max_image_count > 0,
        caps.min_image_count <= caps.max_image_count,
    ensures
        caps.min_image_count <= resolved_image_count(caps) <= caps.max_image_count,
{
}

/// Where the surface sets no maximum, the resolved count is one more than
/// its minimum.
pub proof fn lemma_unbounded_image_count(caps: SurfaceCapabilities)
    requires
        caps.max_image_count == 0,
    ensures
        resolved_image_count(caps) == caps.min_image_count + 1,
{
}

/// Once a ring is torn down and rebuilt, the framebuffers bound to the old
/// ring are bound to the new one no longer, while those built for the new
/// ring number one per view of it.
pub proof fn lemma_rebuild_invalidates_framebuffers(
    old_frames: FrameRingModel,
    old_targets: RenderTargetModel,
    new_frames: FrameRingModel,
    new_targets: RenderTargetModel,
)
    requires
        bound_to(old_targets, old_frames),
        new_frames.generation == next_generation(old_frames.generation),
        new_targets.generation == new_frames.generation,
        new_targets.framebuffers.len() == new_frames.image_views.len(),
    ensures
        !bound_to(old_targets, new_frames),
        bound_to(new_targets, new_frames),
        new_targets.framebuffers.len() == new_frames.image_views.len(),
{
}

/// Tearing a ring down and building it again from the same configuration
/// sends the driver the same request, and gives a ring of the same format
/// whose views are as many as the images the driver returned; where it
/// returns as many as before, the two rings are of the same length.
pub proof fn lemma_rebuild_same_config(
    old_frames: FrameRingModel,
    new_frames: FrameRingModel,
    surface: u64,
    transform: u32,
    queue_family_index: u32,
)
    requires
        old_frames.image_views.len() == old_frames.images.len(),
        new_frames.image_views.len() == new_frames.images.len(),
        new_frames.config == old_frames.config,
        new_frames.images.len() == old_frames.images.len(),
    ensures
        swapchain_request_for(new_frames.config, surface, transform, queue_family_index)
            == swapchain_request_for(old_frames.config, surface, transform, queue_family_index),
        new_frames.config.format == old_frames.config.format,
        new_frames.image_views.len() == old_frames.image_views.len(),
{
}

} // verus!
