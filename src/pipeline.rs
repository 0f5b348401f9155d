use vstd::prelude::*;
use crate::surface::{Extent2D, PresentError};
use crate::render_target::RenderTargetDescription;

verus! {

/// The 32-bit word at word index `i` of a shader binary, read little-endian.
pub open spec fn word_at(b: Seq<u8>, i: int) -> u32 {
    (b[4 * i] + 256 * b[4 * i + 1] + 65536 * b[4 * i + 2] + 16777216 * b[4 * i + 3]) as u32
}

/// A shader binary read as 32-bit words.
pub open spec fn words_of(b: Seq<u8>) -> Seq<u32> {
    Seq::new(b.len() / 4, |i: int| word_at(b, i))
}

/// Whether a shader binary is a whole number of 32-bit words.
pub open spec fn well_sized(b: Seq<u8>) -> bool {
    b.len() % 4 == 0
}

/// Reads a shader binary as 32-bit little-endian words; a binary whose
/// length is not a multiple of four is malformed.
pub fn shader_words(bytes: &Vec<u8>) -> (r: Result<Vec<u32>, PresentError>)
    ensures
        well_sized(bytes@) ==> r is Ok && r->Ok_0@ == words_of(bytes@),
        !well_sized(bytes@) ==> r == Err::<Vec<u32>, PresentError>(PresentError::MalformedShaderBinary),
{
    if bytes.len() % 4 != 0 {
        return Err(PresentError::MalformedShaderBinary);
    }
    let mut words: Vec<u32> = Vec::with_capacity(bytes.len() / 4);
    let mut k: usize = 0;
    while k < bytes.len()
        invariant
            bytes@.len() % 4 == 0,
            k <= bytes@.len(),
            k % 4 == 0,
            4 * words@.len() == k,
            forall|j: int| 0 <= j < words@.len() ==> words@[j] == word_at(bytes@, j),
        decreases bytes@.len() - k,
    {
        let b0 = bytes[k] as u32;
        let b1 = bytes[k + 1] as u32;
        let b2 = bytes[k + 2] as u32;
        let b3 = bytes[k + 3] as u32;
        let w: u32 = b0 + b1 * 256 + b2 * 65536 + b3 * 16777216;
        words.push(w);
        k = k + 4;
    }
    assert(words@ =~= words_of(bytes@));
    Ok(words)
}

/// The code of the two shader stages, as words.
pub struct ShaderStages {
    pub vertex: Vec<u32>,
    pub fragment: Vec<u32>,
}

/// Validates both shader binaries before any module is created: if either is
/// malformed, neither is handed on.
pub fn shader_stages(vertex: &Vec<u8>, fragment: &Vec<u8>) -> (r: Result<ShaderStages, PresentError>)
    ensures
        well_sized(vertex@) && well_sized(fragment@) ==> r is Ok && r->Ok_0.vertex@ == words_of(vertex@)
            && r->Ok_0.fragment@ == words_of(fragment@),
        !(well_sized(vertex@) && well_sized(fragment@)) ==> r is Err && r->Err_0
            == PresentError::MalformedShaderBinary,
{
    let v = match shader_words(vertex) {
        Ok(w) => w,
        Err(e) => return Err(e),
    };
    let f = match shader_words(fragment) {
        Ok(w) => w,
        Err(e) => return Err(e),
    };
    Ok(ShaderStages { vertex: v, fragment: f })
}

/// How vertices are assembled into primitives.
#[derive(Debug, Clone, Copy, PartialEq, Eq, Structural)]
pub enum PrimitiveTopology {
    TriangleList,
}

/// How primitives are filled.
#[derive(Debug, Clone, Copy, PartialEq, Eq, Structural)]
pub enum PolygonMode {
    Fill,
}

/// Which faces are discarded.
#[derive(Debug, Clone, Copy, PartialEq, Eq, Structural)]
pub enum CullMode {
    NoCulling,
}

/// Which winding faces forward.
#[derive(Debug, Clone, Copy, PartialEq, Eq, Structural)]
pub enum FrontFace {
    Clockwise,
}

/// The state of a graphics pipeline with a single opaque colour attachment
/// and neither depth nor stencil.
#[derive(Debug, Clone, Copy, PartialEq, Eq, Structural)]
pub struct PipelineDescription {
    pub vertex_module: u64,
    pub fragment_module: u64,
    pub vertex_bindings: u32,
    pub vertex_attributes: u32,
    pub topology: PrimitiveTopology,
    pub primitive_restart: bool,
    /// Viewport and scissor both cover this extent from the origin.
    pub extent: Extent2D,
    pub polygon_mode: PolygonMode,
    pub cull_mode: CullMode,
    pub front_face: FrontFace,
    pub depth_bias: bool,
    pub samples: u32,
    pub blend: bool,
    pub depth_test: bool,
    pub stencil_test: bool,
    pub pipeline_layout: u64,
    pub render_pass: u64,
    pub subpass: u32,
}

/// The pipeline for the two shader modules, drawing into subpass 0 of
/// `render_pass` over the whole of `extent`.
pub open spec fn pipeline_for(
    vertex_module: u64,
    fragment_module: u64,
    pipeline_layout: u64,
    render_pass: u64,
    extent: Extent2D,
) -> PipelineDescription {
    PipelineDescription {
        vertex_module,
        fragment_module,
        vertex_bindings: 0,
        vertex_attributes: 0,
        topology: PrimitiveTopology::TriangleList,
        primitive_restart: false,
        extent,
        polygon_mode: PolygonMode::Fill,
        cull_mode: CullMode::NoCulling,
        front_face: FrontFace::Clockwise,
        depth_bias: false,
        samples: 1,
        blend: false,
        depth_test: false,
        stencil_test: false,
        pipeline_layout,
        render_pass,
        subpass: 0,
    }
}

/// Describes the pipeline that the driver assembles.
pub fn describe_pipeline(
    vertex_module: u64,
    fragment_module: u64,
    pipeline_layout: u64,
    render_pass: u64,
    extent: Extent2D,
) -> (r: PipelineDescription)
    ensures
        r == pipeline_for(vertex_module, fragment_module, pipeline_layout, render_pass, extent),
{
    PipelineDescription {
        vertex_module,
        fragment_module,
        vertex_bindings: 0,
        vertex_attributes: 0,
        topology: PrimitiveTopology::TriangleList,
        primitive_restart: false,
        extent,
        polygon_mode: PolygonMode::Fill,
        cull_mode: CullMode::NoCulling,
        front_face: FrontFace::Clockwise,
        depth_bias: false,
        samples: 1,
        blend: false,
        depth_test: false,
        stencil_test: false,
        pipeline_layout,
        render_pass,
        subpass: 0,
    }
}

/// What a pipeline holds, as mathematical values.
pub struct PipelineModel {
    pub pipeline: u64,
    pub pipeline_layout: u64,
    pub shader_modules: Seq<u64>,
    pub target: RenderTargetDescription,
}

/// A pipeline, its layout and its shader modules, and the render target
/// description it was built against. It outlives frame ring rebuilds.
pub struct AppearanceBase {
    pipeline: u64,
    pipeline_layout: u64,
    shader_modules: Vec<u64>,
    target: RenderTargetDescription,
}

impl View for AppearanceBase {
    type V = PipelineModel;

    closed spec fn view(&self) -> PipelineModel {
        PipelineModel {
            pipeline: self.pipeline,
            pipeline_layout: self.pipeline_layout,
            shader_modules: self.shader_modules@,
            target: self.target,
        }
    }
}

impl AppearanceBase {
    /// The pipeline state made of the driver's handles.
    pub fn new(
        pipeline: u64,
        pipeline_layout: u64,
        shader_modules: Vec<u64>,
        target: RenderTargetDescription,
    ) -> (r: AppearanceBase)
        ensures
            r@ == (PipelineModel { pipeline, pipeline_layout, shader_modules: shader_modules@, target }),
    {
        AppearanceBase { pipeline, pipeline_layout, shader_modules, target }
    }

    /// The driver's handle of the pipeline.
    pub fn pipeline(&self) -> (r: u64)
        ensures
            r == self@.pipeline,
    {
        self.pipeline
    }

    /// The driver's handle of the pipeline layout.
    pub fn pipeline_layout(&self) -> (r: u64)
        ensures
            r == self@.pipeline_layout,
    {
        self.pipeline_layout
    }

    /// Whether the pipeline must be rebuilt for a render target described by
    /// `current`: only where the description has changed.
    pub fn needs_rebuild(&self, current: &RenderTargetDescription) -> (r: bool)
        ensures
            r == (self@.target != *current),
    {
        !(self.target == *current)
    }

    /// Takes the pipeline apart for release: the pipeline, its layout, then
    /// the shader modules.
    pub fn release(self) -> (r: (u64, u64, Vec<u64>))
        ensures
            r.0 == self@.pipeline,
            r.1 == self@.pipeline_layout,
            r.2@ == self@.shader_modules,
    {
        (self.pipeline, self.pipeline_layout, self.shader_modules)
    }
}

} // verus!
