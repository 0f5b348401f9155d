use vulkan_present::batch::HandleBatch;
use vulkan_present::frame_ring::{
    swapchain_request, view_request, CompositeAlpha, FramesBase, ImageAspect, ImageUsage,
    SharingMode, Swizzle, ViewType,
};
use vulkan_present::render_target::{describe_render_target, framebuffer_request, RenderBase};
use vulkan_present::surface::{Extent2D, NegotiatedConfig, PresentMode};

fn config() -> NegotiatedConfig {
    NegotiatedConfig {
        format: 50,
        color_space: 0,
        present_mode: PresentMode::Mailbox,
        extent: Extent2D { width: 800, height: 600 },
        image_count: 3,
    }
}

fn build_ring(config: NegotiatedConfig, swapchain: u64, images: Vec<u64>, first_view: u64, generation: u64) -> FramesBase {
    let mut batch = HandleBatch::new(images);
    let mut next = first_view;
    while let Some(_image) = batch.next_target() {
        batch = batch.record(next);
        next += 1;
    }
    assert!(batch.is_complete());
    FramesBase::new(config, swapchain, batch, generation)
}

fn build_targets(frames: &FramesBase, first: u64) -> RenderBase {
    let description = describe_render_target(frames.format());
    let mut batch = HandleBatch::new(frames.image_views().clone());
    let mut next = first;
    while batch.next_target().is_some() {
        batch = batch.record(next);
        next += 1;
    }
    RenderBase::new(frames, description, 900, batch)
}

#[test]
fn swapchain_request_fields() {
    let r = swapchain_request(&config(), 77, 1, 4);
    assert_eq!(r.surface, 77);
    assert_eq!(r.min_image_count, 3);
    assert_eq!(r.image_format, 50);
    assert_eq!(r.image_color_space, 0);
    assert_eq!(r.image_extent, Extent2D { width: 800, height: 600 });
    assert_eq!(r.image_array_layers, 1);
    assert_eq!(r.image_usage, ImageUsage::ColorAttachment);
    assert_eq!(r.sharing_mode, SharingMode::Exclusive);
    assert_eq!(r.queue_family_index, 4);
    assert_eq!(r.pre_transform, 1);
    assert_eq!(r.composite_alpha, CompositeAlpha::Opaque);
    assert_eq!(r.present_mode, PresentMode::Mailbox);
    assert!(r.clipped);
}

#[test]
fn view_request_fields() {
    let v = view_request(10, 50);
    assert_eq!(v.image, 10);
    assert_eq!(v.format, 50);
    assert_eq!(v.view_type, ViewType::Type2D);
    assert_eq!((v.r, v.g, v.b, v.a), (Swizzle::Identity, Swizzle::Identity, Swizzle::Identity, Swizzle::Identity));
    assert_eq!(v.aspect, ImageAspect::Color);
    assert_eq!((v.base_mip_level, v.level_count, v.base_array_layer, v.layer_count), (0, 1, 0, 1));
}

#[test]
fn batch_hands_out_targets_in_order() {
    let batch = HandleBatch::new(vec![10, 11, 12]);
    assert_eq!(batch.next_target(), Some(10));
    let batch = batch.record(20);
    assert_eq!(batch.next_target(), Some(11));
    assert!(!batch.is_complete());
    let batch = batch.record(21);
    assert_eq!(batch.abandon(), vec![20, 21]);
}

#[test]
fn empty_batch_is_complete() {
    let batch = HandleBatch::new(vec![]);
    assert!(batch.is_complete());
    assert_eq!(batch.next_target(), None);
}

#[test]
fn ring_has_one_view_per_image() {
    let frames = build_ring(config(), 5, vec![10, 11, 12, 13], 20, 0);
    assert_eq!(frames.images(), &vec![10, 11, 12, 13]);
    assert_eq!(frames.image_views(), &vec![20, 21, 22, 23]);
    assert_eq!(frames.images().len(), frames.image_views().len());
    assert_eq!(frames.swapchain(), 5);
    assert_eq!(frames.extent(), Extent2D { width: 800, height: 600 });
    assert_eq!(frames.format(), 50);
    assert_eq!(frames.config(), config());
}

#[test]
fn release_hands_back_views_and_next_generation() {
    let frames = build_ring(config(), 5, vec![10, 11], 20, 7);
    let t = frames.release();
    assert_eq!(t.image_views, vec![20, 21]);
    assert_eq!(t.swapchain, 5);
    assert_eq!(t.next_generation, 8);
    let last = build_ring(config(), 5, vec![10], 20, u64::MAX);
    assert_eq!(last.release().next_generation, 0);
}

#[test]
fn rebuild_invalidates_old_framebuffers() {
    let frames = build_ring(config(), 5, vec![10, 11, 12], 20, 0);
    let targets = build_targets(&frames, 30);
    assert!(targets.is_bound_to(&frames));
    assert_eq!(targets.framebuffers(), &vec![30, 31, 32]);
    let t = frames.release();
    let rebuilt = build_ring(config(), 6, vec![10, 11, 12], 20, t.next_generation);
    assert!(!targets.is_bound_to(&rebuilt));
    let new_targets = build_targets(&rebuilt, 40);
    assert!(new_targets.is_bound_to(&rebuilt));
    assert_eq!(new_targets.framebuffers().len(), rebuilt.image_views().len());
}

#[test]
fn rebuild_with_same_config_is_equivalent() {
    let frames = build_ring(config(), 5, vec![10, 11, 12], 20, 0);
    let before = swapchain_request(&frames.config(), 77, 1, 0);
    let len = frames.image_views().len();
    let format = frames.format();
    let t = frames.release();
    let after = swapchain_request(&config(), 77, 1, 0);
    assert_eq!(before, after);
    let rebuilt = build_ring(config(), 6, vec![14, 15, 16], 40, t.next_generation);
    assert_eq!(rebuilt.image_views().len(), len);
    assert_eq!(rebuilt.format(), format);
}

#[test]
fn render_target_release_order() {
    let frames = build_ring(config(), 5, vec![10, 11], 20, 0);
    let targets = build_targets(&frames, 30);
    assert_eq!(targets.render_pass(), 900);
    assert_eq!(targets.description(), describe_render_target(50));
    assert_eq!(targets.release(), (vec![30, 31], 900));
}

#[test]
fn framebuffer_request_fields() {
    let r = framebuffer_request(900, 21, Extent2D { width: 1024, height: 768 });
    assert_eq!(r.render_pass, 900);
    assert_eq!(r.attachment, 21);
    assert_eq!((r.width, r.height, r.layers), (1024, 768, 1));
}
