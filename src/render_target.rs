use vstd::prelude::*;
use crate::batch::HandleBatch;
use crate::frame_ring::FramesBase;
use crate::surface::Extent2D;

verus! {

/// What happens to an attachment's contents when a render pass begins.
#[derive(Debug, Clone, Copy, PartialEq, Eq, Structural)]
pub enum LoadOp {
    Clear,
    DontCare,
}

/// What happens to an attachment's contents when a render pass ends.
#[derive(Debug, Clone, Copy, PartialEq, Eq, Structural)]
pub enum StoreOp {
    Store,
    DontCare,
}

/// The layout an image is in.
#[derive(Debug, Clone, Copy, PartialEq, Eq, Structural)]
pub enum ImageLayout {
    Undefined,
    ColorAttachmentOptimal,
    PresentSrc,
}

/// The class of queue work a subpass runs on.
#[derive(Debug, Clone, Copy, PartialEq, Eq, Structural)]
pub enum PipelineBindPoint {
    Graphics,
}

/// How the colour attachment is loaded, stored and transitioned.
#[derive(Debug, Clone, Copy, PartialEq, Eq, Structural)]
pub struct AttachmentDescription {
    pub format: i32,
    pub samples: u32,
    pub load_op: LoadOp,
    pub store_op: StoreOp,
    pub stencil_load_op: LoadOp,
    pub stencil_store_op: StoreOp,
    pub initial_layout: ImageLayout,
    pub final_layout: ImageLayout,
}

/// An attachment, by index, as a subpass uses it.
#[derive(Debug, Clone, Copy, PartialEq, Eq, Structural)]
pub struct AttachmentReference {
    pub attachment: u32,
    pub layout: ImageLayout,
}

/// The one render stage, with its one colour target.
#[derive(Debug, Clone, Copy, PartialEq, Eq, Structural)]
pub struct SubpassDescription {
    pub bind_point: PipelineBindPoint,
    pub color_attachment: AttachmentReference,
}

/// A render pass with exactly one colour attachment and one subpass; no
/// depth or stencil.
#[derive(Debug, Clone, Copy, PartialEq, Eq, Structural)]
pub struct RenderTargetDescription {
    pub color_attachment: AttachmentDescription,
    pub subpass: SubpassDescription,
}

/// The render target for images of `format`: one sample, cleared before
/// use, kept after it, stencil ignored, from an undefined layout to the
/// presentable one; the subpass draws into attachment 0.
pub open spec fn render_target_for(format: i32) -> RenderTargetDescription {
    RenderTargetDescription {
        color_attachment: AttachmentDescription {
            format,
            samples: 1,
            load_op: LoadOp::Clear,
            store_op: StoreOp::Store,
            stencil_load_op: LoadOp::DontCare,
            stencil_store_op: StoreOp::DontCare,
            initial_layout: ImageLayout::Undefined,
            final_layout: ImageLayout::PresentSrc,
        },
        subpass: SubpassDescription {
            bind_point: PipelineBindPoint::Graphics,
            color_attachment: AttachmentReference {
                attachment: 0,
                layout: ImageLayout::ColorAttachmentOptimal,
            },
        },
    }
}

/// Describes the render target for images of `format`.
pub fn describe_render_target(format: i32) -> (r: RenderTargetDescription)
    ensures
        r == render_target_for(format),
{
    RenderTargetDescription {
        color_attachment: AttachmentDescription {
            format,
            samples: 1,
            load_op: LoadOp::Clear,
            store_op: StoreOp::Store,
            stencil_load_op: LoadOp::DontCare,
            stencil_store_op: StoreOp::DontCare,
            initial_layout: ImageLayout::Undefined,
            final_layout: ImageLayout::PresentSrc,
        },
        subpass: SubpassDescription {
            bind_point: PipelineBindPoint::Graphics,
            color_attachment: AttachmentReference {
                attachment: 0,
                layout: ImageLayout::ColorAttachmentOptimal,
            },
        },
    }
}

/// The driver request that creates one framebuffer.
#[derive(Debug, Clone, Copy, PartialEq, Eq, Structural)]
pub struct FramebufferRequest {
    pub render_pass: u64,
    pub attachment: u64,
    pub width: u32,
    pub height: u32,
    pub layers: u32,
}

/// A framebuffer binding `view` to `render_pass` at `extent`, one layer.
pub open spec fn framebuffer_request_for(render_pass: u64, view: u64, extent: Extent2D) -> FramebufferRequest {
    FramebufferRequest {
        render_pass,
        attachment: view,
        width: extent.width,
        height: extent.height,
        layers: 1,
    }
}

/// Describes the driver request that creates the framebuffer of `view`.
pub fn framebuffer_request(render_pass: u64, view: u64, extent: Extent2D) -> (r: FramebufferRequest)
    ensures
        r == framebuffer_request_for(render_pass, view, extent),
{
    FramebufferRequest { render_pass, attachment: view, width: extent.width, height: extent.height, layers: 1 }
}

/// What a render target holds, as mathematical values.
pub struct RenderTargetModel {
    pub description: RenderTargetDescription,
    pub render_pass: u64,
    pub framebuffers: Seq<u64>,
    pub extent: Extent2D,
    pub generation: u64,
}

/// A render pass and one framebuffer per view of one frame ring, in the
/// ring's order. A rebuilt ring needs a new one.
pub struct RenderBase {
    description: RenderTargetDescription,
    render_pass: u64,
    framebuffers: Vec<u64>,
    extent: Extent2D,
    generation: u64,
}

impl View for RenderBase {
    type V = RenderTargetModel;

    closed spec fn view(&self) -> RenderTargetModel {
        RenderTargetModel {
            description: self.description,
            render_pass: self.render_pass,
            framebuffers: self.framebuffers@,
            extent: self.extent,
            generation: self.generation,
        }
    }
}

/// Whether a render target's framebuffers belong to this build of the ring:
/// the same generation, one framebuffer per view.
pub open spec fn bound_to(target: RenderTargetModel, frames: crate::frame_ring::FrameRingModel) -> bool {
    target.generation == frames.generation && target.framebuffers.len() == frames.image_views.len()
}

impl RenderBase {
    /// The render target made of `render_pass` and of the framebuffers
    /// created, in order, for the views of `frames`.
    pub fn new(
        frames: &FramesBase,
        description: RenderTargetDescription,
        render_pass: u64,
        framebuffers: HandleBatch,
    ) -> (r: RenderBase)
        requires
            framebuffers.complete(),
            framebuffers.targets() == frames@.image_views,
        ensures
            r@.description == description,
            r@.render_pass == render_pass,
            r@.framebuffers == framebuffers.created(),
            r@.extent == frames@.config.extent,
            r@.generation == frames@.generation,
            bound_to(r@, frames@),
    {
        let (_views, created) = framebuffers.into_parts();
        RenderBase {
            description,
            render_pass,
            framebuffers: created,
            extent: frames.extent(),
            generation: frames.generation(),
        }
    }

    /// The description the render pass was created from.
    pub fn description(&self) -> (r: RenderTargetDescription)
        ensures
            r == self@.description,
    {
        self.description
    }

    /// The driver's handle of the render pass.
    pub fn render_pass(&self) -> (r: u64)
        ensures
            r == self@.render_pass,
    {
        self.render_pass
    }

    /// One framebuffer per view of the ring, in its order.
    pub fn framebuffers(&self) -> (r: &Vec<u64>)
        ensures
            r@ == self@.framebuffers,
    {
        &self.framebuffers
    }

    /// Whether these framebuffers may be used with `frames`.
    pub fn is_bound_to(&self, frames: &FramesBase) -> (r: bool)
        ensures
            r == bound_to(self@, frames@),
    {
        self.generation == frames.generation() && self.framebuffers.len() == frames.image_views().len()
    }

    /// Takes the render target apart for release: every framebuffer, then
    /// the render pass.
    pub fn release(self) -> (r: (Vec<u64>, u64))
        ensures
            r.0@ == self@.framebuffers,
            r.1 == self@.render_pass,
    {
        (self.framebuffers, self.render_pass)
    }
}

} // verus!
