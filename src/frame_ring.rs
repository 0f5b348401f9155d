use vstd::prelude::*;
use crate::batch::HandleBatch;
use crate::surface::{Extent2D, NegotiatedConfig, PresentMode};

verus! {

/// How images are shared between queue families.
#[derive(Debug, Clone, Copy, PartialEq, Eq, Structural)]
pub enum SharingMode {
    /// Owned by one queue family at a time.
    Exclusive,
}

/// What the images of a frame ring are used for.
#[derive(Debug, Clone, Copy, PartialEq, Eq, Structural)]
pub enum ImageUsage {
    /// Rendered into as a colour attachment.
    ColorAttachment,
}

/// How the window system blends presented images with what lies beneath.
#[derive(Debug, Clone, Copy, PartialEq, Eq, Structural)]
pub enum CompositeAlpha {
    /// Fully opaque.
    Opaque,
}

/// The single driver request that creates a frame ring.
#[derive(Debug, Clone, Copy, PartialEq, Eq, Structural)]
pub struct SwapchainRequest {
    pub surface: u64,
    pub min_image_count: u32,
    pub image_format: i32,
    pub image_color_space: i32,
    pub image_extent: Extent2D,
    pub image_array_layers: u32,
    pub image_usage: ImageUsage,
    pub sharing_mode: SharingMode,
    pub queue_family_index: u32,
    pub pre_transform: u32,
    pub composite_alpha: CompositeAlpha,
    pub present_mode: PresentMode,
    /// Whether the driver may discard pixels that are hidden.
    pub clipped: bool,
}

/// The frame ring request for a negotiated configuration: exclusive to one
/// queue family, colour attachments only, the surface's transform passed
/// through, opaque, clipped.
pub open spec fn swapchain_request_for(
    config: NegotiatedConfig,
    surface: u64,
    transform: u32,
    queue_family_index: u32,
) -> SwapchainRequest {
    SwapchainRequest {
        surface,
        min_image_count: config.image_count,
        image_format: config.format,
        image_color_space: config.color_space,
        image_extent: config.extent,
        image_array_layers: 1,
        image_usage: ImageUsage::ColorAttachment,
        sharing_mode: SharingMode::Exclusive,
        queue_family_index,
        pre_transform: transform,
        composite_alpha: CompositeAlpha::Opaque,
        present_mode: config.present_mode,
        clipped: true,
    }
}

/// Describes the driver request that creates a frame ring for `config`.
pub fn swapchain_request(
    config: &NegotiatedConfig,
    surface: u64,
    transform: u32,
    queue_family_index: u32,
) -> (r: SwapchainRequest)
    ensures
        r == swapchain_request_for(*config, surface, transform, queue_family_index),
{
    SwapchainRequest {
        surface,
        min_image_count: config.image_count,
        image_format: config.format,
        image_color_space: config.color_space,
        image_extent: config.extent,
        image_array_layers: 1,
        image_usage: ImageUsage::ColorAttachment,
        sharing_mode: SharingMode::Exclusive,
        queue_family_index,
        pre_transform: transform,
        composite_alpha: CompositeAlpha::Opaque,
        present_mode: config.present_mode,
        clipped: true,
    }
}

/// The kind of an image view.
#[derive(Debug, Clone, Copy, PartialEq, Eq, Structural)]
pub enum ViewType {
    Type2D,
}

/// Where a view's channel takes its value from.
#[derive(Debug, Clone, Copy, PartialEq, Eq, Structural)]
pub enum Swizzle {
    /// From the same channel of the image.
    Identity,
}

/// The aspect of an image that a view covers.
#[derive(Debug, Clone, Copy, PartialEq, Eq, Structural)]
pub enum ImageAspect {
    Color,
}

/// The driver request that creates the view of one frame ring image.
#[derive(Debug, Clone, Copy, PartialEq, Eq, Structural)]
pub struct ImageViewRequest {
    pub image: u64,
    pub format: i32,
    pub view_type: ViewType,
    pub r: Swizzle,
    pub g: Swizzle,
    pub b: Swizzle,
    pub a: Swizzle,
    pub aspect: ImageAspect,
    pub base_mip_level: u32,
    pub level_count: u32,
    pub base_array_layer: u32,
    pub layer_count: u32,
}

/// A 2-D colour view of `image` with identity channels, one mip level and
/// one array layer.
pub open spec fn view_request_for(image: u64, format: i32) -> ImageViewRequest {
    ImageViewRequest {
        image,
        format,
        view_type: ViewType::Type2D,
        r: Swizzle::Identity,
        g: Swizzle::Identity,
        b: Swizzle::Identity,
        a: Swizzle::Identity,
        aspect: ImageAspect::Color,
        base_mip_level: 0,
        level_count: 1,
        base_array_layer: 0,
        layer_count: 1,
    }
}

/// Describes the driver request that creates the view of `image`.
pub fn view_request(image: u64, format: i32) -> (r: ImageViewRequest)
    ensures
        r == view_request_for(image, format),
{
    ImageViewRequest {
        image,
        format,
        view_type: ViewType::Type2D,
        r: Swizzle::Identity,
        g: Swizzle::Identity,
        b: Swizzle::Identity,
        a: Swizzle::Identity,
        aspect: ImageAspect::Color,
        base_mip_level: 0,
        level_count: 1,
        base_array_layer: 0,
        layer_count: 1,
    }
}

/// What a frame ring holds, as mathematical values.
pub struct FrameRingModel {
    pub config: NegotiatedConfig,
    pub swapchain: u64,
    pub images: Seq<u64>,
    pub image_views: Seq<u64>,
    pub generation: u64,
}

/// The generation that follows `g`; after the last it starts again at zero.
pub open spec fn next_generation(g: u64) -> u64 {
    if g == u64::MAX {
        0
    } else {
        (g + 1) as u64
    }
}

/// The presentable images of a surface and one view of each, in the same
/// order. The images belong to the driver; the views belong to the ring and
/// are released before the ring is rebuilt.
pub struct FramesBase {
    config: NegotiatedConfig,
    swapchain: u64,
    images: Vec<u64>,
    image_views: Vec<u64>,
    generation: u64,
}

impl View for FramesBase {
    type V = FrameRingModel;

    closed spec fn view(&self) -> FrameRingModel {
        FrameRingModel {
            config: self.config,
            swapchain: self.swapchain,
            images: self.images@,
            image_views: self.image_views@,
            generation: self.generation,
        }
    }
}

/// What a frame ring leaves to release: its views first, then the ring
/// object itself, whose images the driver reclaims with it.
pub struct Teardown {
    pub image_views: Vec<u64>,
    pub swapchain: u64,
    /// The generation of the ring that replaces this one.
    pub next_generation: u64,
}

impl FramesBase {
    #[verifier::type_invariant]
    spec fn inv(&self) -> bool {
        self.image_views@.len() == self.images@.len()
    }

    /// The frame ring made of `swapchain`, the images the driver returned
    /// for it, and the view created for each of them, in order.
    pub fn new(config: NegotiatedConfig, swapchain: u64, views: HandleBatch, generation: u64) -> (r: FramesBase)
        requires
            views.complete(),
        ensures
            r@.config == config,
            r@.swapchain == swapchain,
            r@.images == views.targets(),
            r@.image_views == views.created(),
            r@.image_views.len() == r@.images.len(),
            r@.generation == generation,
    {
        let (images, image_views) = views.into_parts();
        FramesBase { config, swapchain, images, image_views, generation }
    }

    /// The negotiated configuration the ring was built with.
    pub fn config(&self) -> (r: NegotiatedConfig)
        ensures
            r == self@.config,
    {
        self.config
    }

    /// The driver's handle of the ring object.
    pub fn swapchain(&self) -> (r: u64)
        ensures
            r == self@.swapchain,
    {
        self.swapchain
    }

    /// The presentable images, as the driver returned them.
    pub fn images(&self) -> (r: &Vec<u64>)
        ensures
            r@ == self@.images,
            r@.len() == self@.image_views.len(),
    {
        proof {
            use_type_invariant(self);
        }
        &self.images
    }

    /// One view per image, in the images' order.
    pub fn image_views(&self) -> (r: &Vec<u64>)
        ensures
            r@ == self@.image_views,
            r@.len() == self@.images.len(),
    {
        proof {
            use_type_invariant(self);
        }
        &self.image_views
    }

    /// The extent of every image.
    pub fn extent(&self) -> (r: Extent2D)
        ensures
            r == self@.config.extent,
    {
        self.config.extent
    }

    /// The pixel format of every image.
    pub fn format(&self) -> (r: i32)
        ensures
            r == self@.config.format,
    {
        self.config.format
    }

    /// Which build of the ring this is.
    pub fn generation(&self) -> (r: u64)
        ensures
            r == self@.generation,
    {
        self.generation
    }

    /// Takes the ring apart for release or rebuilding: every view to
    /// release, the ring object, and the generation of the next ring.
    pub fn release(self) -> (r: Teardown)
        ensures
            r.image_views@ == self@.image_views,
            r.swapchain == self@.swapchain,
            r.next_generation == next_generation(self@.generation),
    {
        let next = if self.generation == u64::MAX {
            0
        } else {
            self.generation + 1
        };
        Teardown { image_views: self.image_views, swapchain: self.swapchain, next_generation: next }
    }
}

} // verus!
