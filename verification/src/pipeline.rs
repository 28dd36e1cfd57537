//! The render pass and the fixed graphics pipeline.
//!
//! The pipeline draws geometry that the vertex shader itself defines, so it
//! has no vertex input and no outside inputs of any kind.  Everything but the
//! viewport, which follows the swapchain extent, is constant.
use vstd::prelude::*;
use crate::error::FatalError;
use crate::types::{Extent2D, Rect2D, spec_full_rect, full_rect};

verus! {

// ---------------------------------------------------------------------------
// Shader binaries
// ---------------------------------------------------------------------------

/// The 32-bit word that four bytes spell, least significant byte first.
pub open spec fn spec_word(b0: u8, b1: u8, b2: u8, b3: u8) -> int {
    b0 + 256 * b1 + 65536 * b2 + 16777216 * b3
}

/// The words of a shader binary whose length is a multiple of four.
pub open spec fn spec_shader_words(bytes: Seq<u8>) -> Seq<u32> {
    Seq::new(
        (bytes.len() / 4) as nat,
        |i: int| spec_word(bytes[4 * i], bytes[4 * i + 1], bytes[4 * i + 2], bytes[4 * i + 3]) as u32,
    )
}

/// Splits a compiled shader binary into the 32-bit words that a shader module
/// is created from.
///
/// A binary whose length is not a multiple of four is rejected as malformed;
/// every other binary is accepted, the empty one included.
pub fn shader_words(bytes: &[u8]) -> (r: Result<Vec<u32>, FatalError>)
    ensures
        match r {
            Ok(words) => bytes@.len() % 4 == 0 && words@ == spec_shader_words(bytes@),
            Err(e) => bytes@.len() % 4 != 0 && e == FatalError::MalformedShader,
        },
{
    let n: usize = bytes.len();
    if n % 4 != 0 {
        return Err(FatalError::MalformedShader);
    }
    let count: usize = n / 4;
    let mut words: Vec<u32> = Vec::new();
    let mut i: usize = 0;
    while i < count
        invariant
            n == bytes@.len(),
            count == n / 4,
            n % 4 == 0,
            i <= count,
            words@.len() == i,
            forall|k: int| 0 <= k < i ==> words@[k] == spec_shader_words(bytes@)[k],
        decreases count - i,
    {
        let b0: u32 = bytes[4 * i] as u32;
        let b1: u32 = bytes[4 * i + 1] as u32;
        let b2: u32 = bytes[4 * i + 2] as u32;
        let b3: u32 = bytes[4 * i + 3] as u32;
        words.push(b0 + 256 * b1 + 65536 * b2 + 16777216 * b3);
        i = i + 1;
    }
    assert(words@ =~= spec_shader_words(bytes@));
    Ok(words)
}

/// The two programmable stages of the pipeline.
#[derive(Clone, Copy, Debug, PartialEq, Eq, Structural)]
pub enum ShaderStage {
    Vertex,
    Fragment,
}

/// One programmable stage: which stage it is and the shader module that holds
/// its code.  The entry point of every stage is [`shader_entry_point`].
#[derive(Clone, Copy, Debug, PartialEq, Eq, Structural)]
pub struct ShaderStageInfo {
    pub stage: ShaderStage,
    pub module: u64,
}

/// The name of the entry point in both shader binaries.
pub fn shader_entry_point() -> (r: String)
    ensures
        r@ == "main"@,
{
    "main".to_owned()
}

/// One step of building the pipeline.
#[derive(Clone, Copy, Debug, PartialEq, Eq, Structural)]
pub enum PipelineStep {
    /// Create the shader module of a stage from the words of its binary.
    CreateShaderModule(ShaderStage),
    /// Create the pipeline from both modules.
    CreatePipeline,
    /// Destroy the shader module of a stage.
    DestroyShaderModule(ShaderStage),
}

/// The steps of building the pipeline, in order.
pub open spec fn spec_pipeline_steps() -> Seq<PipelineStep> {
    seq![
        PipelineStep::CreateShaderModule(ShaderStage::Vertex),
        PipelineStep::CreateShaderModule(ShaderStage::Fragment),
        PipelineStep::CreatePipeline,
        PipelineStep::DestroyShaderModule(ShaderStage::Vertex),
        PipelineStep::DestroyShaderModule(ShaderStage::Fragment),
    ]
}

/// Lists the steps of building the pipeline, once its layout exists.
///
/// Both shader modules exist when the pipeline is created.  They are
/// destroyed as soon as the pipeline exists: of all that these steps create,
/// only the pipeline remains.
pub fn pipeline_steps() -> (steps: Vec<PipelineStep>)
    ensures
        steps@ == spec_pipeline_steps(),
{
    let steps = vec![
        PipelineStep::CreateShaderModule(ShaderStage::Vertex),
        PipelineStep::CreateShaderModule(ShaderStage::Fragment),
        PipelineStep::CreatePipeline,
        PipelineStep::DestroyShaderModule(ShaderStage::Vertex),
        PipelineStep::DestroyShaderModule(ShaderStage::Fragment),
    ];
    assert(steps@ =~= spec_pipeline_steps());
    steps
}

/// Every shader module is created before the pipeline and destroyed after
/// it, and no step occurs twice: each module is created once and destroyed
/// once.
pub proof fn lemma_shader_modules_live_around_the_pipeline(stage: ShaderStage)
    ensures
        spec_pipeline_steps().no_duplicates(),
        exists|created: int, built: int, destroyed: int|
            {
                &&& 0 <= created < built < destroyed < spec_pipeline_steps().len()
                &&& #[trigger] spec_pipeline_steps()[created] == PipelineStep::CreateShaderModule(
                    stage,
                )
                &&& #[trigger] spec_pipeline_steps()[built] == PipelineStep::CreatePipeline
                &&& #[trigger] spec_pipeline_steps()[destroyed]
                    == PipelineStep::DestroyShaderModule(stage)
            },
{
    let s = spec_pipeline_steps();
    assert(s[0] == PipelineStep::CreateShaderModule(ShaderStage::Vertex));
    assert(s[1] == PipelineStep::CreateShaderModule(ShaderStage::Fragment));
    assert(s[2] == PipelineStep::CreatePipeline);
    assert(s[3] == PipelineStep::DestroyShaderModule(ShaderStage::Vertex));
    assert(s[4] == PipelineStep::DestroyShaderModule(ShaderStage::Fragment));
    assert(s.no_duplicates());
}

// ---------------------------------------------------------------------------
// Render pass
// ---------------------------------------------------------------------------

/// What happens to an attachment's contents when a render pass begins.
#[derive(Clone, Copy, Debug, PartialEq, Eq, Structural)]
pub enum LoadOp {
    Load,
    Clear,
    DontCare,
}

/// What happens to an attachment's contents when a render pass ends.
#[derive(Clone, Copy, Debug, PartialEq, Eq, Structural)]
pub enum StoreOp {
    Store,
    DontCare,
}

/// The layouts an image passes through in this renderer.
#[derive(Clone, Copy, Debug, PartialEq, Eq, Structural)]
pub enum ImageLayout {
    Undefined,
    ColorAttachmentOptimal,
    PresentSrc,
}

/// The one pipeline stage that this renderer synchronises on.
#[derive(Clone, Copy, Debug, PartialEq, Eq, Structural)]
pub enum PipelineStage {
    ColorAttachmentOutput,
}

/// Where a subpass dependency starts or ends.
#[derive(Clone, Copy, Debug, PartialEq, Eq, Structural)]
pub enum SubpassRef {
    /// Whatever was submitted before the render pass.
    External,
    /// The subpass with this index.
    Index(u32),
}

/// The kinds of memory access that a dependency can order.
#[derive(Clone, Copy, Debug, PartialEq, Eq, Structural)]
pub enum Access {
    Nothing,
    ColorAttachmentWrite,
}

/// The single colour attachment of the render pass.
#[derive(Clone, Copy, Debug, PartialEq, Eq, Structural)]
pub struct AttachmentDescription {
    pub format: i32,
    pub samples: u32,
    pub load_op: LoadOp,
    pub store_op: StoreOp,
    pub stencil_load_op: LoadOp,
    pub stencil_store_op: StoreOp,
    pub initial_layout: ImageLayout,
    pub final_layout: ImageLayout,
}

/// An execution and memory dependency between two subpasses.
#[derive(Clone, Copy, Debug, PartialEq, Eq, Structural)]
pub struct SubpassDependency {
    pub src_subpass: SubpassRef,
    pub dst_subpass: SubpassRef,
    pub src_stage: PipelineStage,
    pub dst_stage: PipelineStage,
    pub src_access: Access,
    pub dst_access: Access,
}

/// A render pass with one colour attachment, one graphics subpass that writes
/// to it, and one dependency.
#[derive(Clone, Copy, Debug, PartialEq, Eq, Structural)]
pub struct RenderPassInfo {
    pub color_attachment: AttachmentDescription,
    /// Index of the attachment that the subpass writes its colour output to.
    pub subpass_color_attachment: u32,
    /// Layout of that attachment while the subpass runs.
    pub subpass_color_layout: ImageLayout,
    pub dependency: SubpassDependency,
}

/// The render pass for swapchain images of the given format.
///
/// The attachment is cleared on load, stored at the end and handed over in
/// the layout that presentation needs.  The dependency holds back the colour
/// writes of the subpass until the stage at which a submission waits for its
/// image: the pass cannot write before the presentation engine has released
/// the image.
pub open spec fn spec_render_pass_info(format: i32) -> RenderPassInfo {
    RenderPassInfo {
        color_attachment: AttachmentDescription {
            format,
            samples: 1,
            load_op: LoadOp::Clear,
            store_op: StoreOp::Store,
            stencil_load_op: LoadOp::DontCare,
            stencil_store_op: StoreOp::DontCare,
            initial_layout: ImageLayout::Undefined,
            final_layout: ImageLayout::PresentSrc,
        },
        subpass_color_attachment: 0,
        subpass_color_layout: ImageLayout::ColorAttachmentOptimal,
        dependency: SubpassDependency {
            src_subpass: SubpassRef::External,
            dst_subpass: SubpassRef::Index(0),
            src_stage: PipelineStage::ColorAttachmentOutput,
            dst_stage: PipelineStage::ColorAttachmentOutput,
            src_access: Access::Nothing,
            dst_access: Access::ColorAttachmentWrite,
        },
    }
}

/// Describes the render pass for swapchain images of the given format.
pub fn render_pass_info(format: i32) -> (r: RenderPassInfo)
    ensures
        r == spec_render_pass_info(format),
{
    RenderPassInfo {
        color_attachment: AttachmentDescription {
            format,
            samples: 1,
            load_op: LoadOp::Clear,
            store_op: StoreOp::Store,
            stencil_load_op: LoadOp::DontCare,
            stencil_store_op: StoreOp::DontCare,
            initial_layout: ImageLayout::Undefined,
            final_layout: ImageLayout::PresentSrc,
        },
        subpass_color_attachment: 0,
        subpass_color_layout: ImageLayout::ColorAttachmentOptimal,
        dependency: SubpassDependency {
            src_subpass: SubpassRef::External,
            dst_subpass: SubpassRef::Index(0),
            src_stage: PipelineStage::ColorAttachmentOutput,
            dst_stage: PipelineStage::ColorAttachmentOutput,
            src_access: Access::Nothing,
            dst_access: Access::ColorAttachmentWrite,
        },
    }
}

// ---------------------------------------------------------------------------
// Graphics pipeline
// ---------------------------------------------------------------------------

/// How vertices are assembled into primitives.
#[derive(Clone, Copy, Debug, PartialEq, Eq, Structural)]
pub enum PrimitiveTopology {
    PointList,
    LineList,
    TriangleList,
}

/// How polygons are filled.
#[derive(Clone, Copy, Debug, PartialEq, Eq, Structural)]
pub enum PolygonMode {
    Fill,
    Line,
    Point,
}

/// Which faces are discarded.
#[derive(Clone, Copy, Debug, PartialEq, Eq, Structural)]
pub enum CullMode {
    Off,
    Front,
    Back,
}

/// The winding order of a front face.
#[derive(Clone, Copy, Debug, PartialEq, Eq, Structural)]
pub enum FrontFace {
    CounterClockwise,
    Clockwise,
}

/// A factor in the blend equation.
#[derive(Clone, Copy, Debug, PartialEq, Eq, Structural)]
pub enum BlendFactor {
    Zero,
    One,
}

/// The operator of the blend equation.
#[derive(Clone, Copy, Debug, PartialEq, Eq, Structural)]
pub enum BlendOp {
    Add,
}

/// A bitwise operation on the framebuffer.
#[derive(Clone, Copy, Debug, PartialEq, Eq, Structural)]
pub enum LogicOp {
    Copy,
}

/// The viewport transform.  All six numbers are whole, so they are kept as
/// integers; the depth range runs from `min_depth` to `max_depth`.
#[derive(Clone, Copy, Debug, PartialEq, Eq, Structural)]
pub struct Viewport {
    pub x: u32,
    pub y: u32,
    pub width: u32,
    pub height: u32,
    pub min_depth: u32,
    pub max_depth: u32,
}

/// The rasterizer state.
#[derive(Clone, Copy, Debug, PartialEq, Eq, Structural)]
pub struct RasterizationState {
    pub rasterizer_discard: bool,
    pub polygon_mode: PolygonMode,
    pub line_width: u32,
    pub cull_mode: CullMode,
    pub front_face: FrontFace,
    pub depth_bias: bool,
}

/// The blend state of the colour attachment.
#[derive(Clone, Copy, Debug, PartialEq, Eq, Structural)]
pub struct ColorBlendState {
    pub write_red: bool,
    pub write_green: bool,
    pub write_blue: bool,
    pub write_alpha: bool,
    pub blend_enable: bool,
    pub src_color_factor: BlendFactor,
    pub dst_color_factor: BlendFactor,
    pub color_op: BlendOp,
    pub src_alpha_factor: BlendFactor,
    pub dst_alpha_factor: BlendFactor,
    pub alpha_op: BlendOp,
    pub logic_op_enable: bool,
    pub logic_op: LogicOp,
    /// The value of each of the four blend constants, a whole number.
    pub blend_constant: u32,
}

/// The layout of the pipeline's outside inputs.
#[derive(Clone, Copy, Debug, PartialEq, Eq, Structural)]
pub struct PipelineLayoutInfo {
    pub descriptor_set_layout_count: u32,
    pub push_constant_range_count: u32,
}

/// The complete state of the graphics pipeline.
#[derive(Clone, Copy, Debug, PartialEq, Eq, Structural)]
pub struct GraphicsPipelineInfo {
    pub vertex_stage: ShaderStageInfo,
    pub fragment_stage: ShaderStageInfo,
    pub vertex_binding_count: u32,
    pub vertex_attribute_count: u32,
    pub topology: PrimitiveTopology,
    pub primitive_restart: bool,
    pub viewport: Viewport,
    pub scissor: Rect2D,
    pub rasterization: RasterizationState,
    pub sample_shading: bool,
    pub rasterization_samples: u32,
    pub color_blend: ColorBlendState,
    pub layout: u64,
    pub render_pass: u64,
    pub subpass: u32,
}

/// The layout of a pipeline without descriptor sets and push constants.
pub open spec fn spec_pipeline_layout_info() -> PipelineLayoutInfo {
    PipelineLayoutInfo { descriptor_set_layout_count: 0, push_constant_range_count: 0 }
}

/// Describes the pipeline layout: no descriptor sets, no push constants.
pub fn pipeline_layout_info() -> (r: PipelineLayoutInfo)
    ensures
        r == spec_pipeline_layout_info(),
{
    PipelineLayoutInfo { descriptor_set_layout_count: 0, push_constant_range_count: 0 }
}

/// The viewport that shows the whole of an image of the given extent, with
/// the full depth range.
pub open spec fn spec_viewport(extent: Extent2D) -> Viewport {
    Viewport {
        x: 0,
        y: 0,
        width: extent.width,
        height: extent.height,
        min_depth: 0,
        max_depth: 1,
    }
}

/// Back faces are culled, front faces wind clockwise, polygons are filled.
pub open spec fn spec_rasterization_state() -> RasterizationState {
    RasterizationState {
        rasterizer_discard: false,
        polygon_mode: PolygonMode::Fill,
        line_width: 1,
        cull_mode: CullMode::Back,
        front_face: FrontFace::Clockwise,
        depth_bias: false,
    }
}

/// Opaque output: all four channels are written and the source colour
/// replaces what the attachment held.
pub open spec fn spec_color_blend_state() -> ColorBlendState {
    ColorBlendState {
        write_red: true,
        write_green: true,
        write_blue: true,
        write_alpha: true,
        blend_enable: false,
        src_color_factor: BlendFactor::One,
        dst_color_factor: BlendFactor::Zero,
        color_op: BlendOp::Add,
        src_alpha_factor: BlendFactor::One,
        dst_alpha_factor: BlendFactor::Zero,
        alpha_op: BlendOp::Add,
        logic_op_enable: false,
        logic_op: LogicOp::Copy,
        blend_constant: 0,
    }
}

/// The pipeline state for the given shader modules, swapchain extent, layout
/// and render pass.
pub open spec fn spec_graphics_pipeline_info(
    vertex_module: u64,
    fragment_module: u64,
    extent: Extent2D,
    layout: u64,
    render_pass: u64,
) -> GraphicsPipelineInfo {
    GraphicsPipelineInfo {
        vertex_stage: ShaderStageInfo { stage: ShaderStage::Vertex, module: vertex_module },
        fragment_stage: ShaderStageInfo { stage: ShaderStage::Fragment, module: fragment_module },
        vertex_binding_count: 0,
        vertex_attribute_count: 0,
        topology: PrimitiveTopology::TriangleList,
        primitive_restart: false,
        viewport: spec_viewport(extent),
        scissor: spec_full_rect(extent),
        rasterization: spec_rasterization_state(),
        sample_shading: false,
        rasterization_samples: 1,
        color_blend: spec_color_blend_state(),
        layout,
        render_pass,
        subpass: 0,
    }
}

/// Describes the graphics pipeline.
///
/// The pipeline has a vertex and a fragment stage, takes no vertex input,
/// assembles triangle lists, shows the whole swapchain image through one
/// viewport and one scissor rectangle, culls back faces with clockwise
/// front faces, takes one sample per pixel and writes opaque colour.  It is
/// used in the first subpass of the given render pass.
pub fn graphics_pipeline_info(
    vertex_module: u64,
    fragment_module: u64,
    extent: Extent2D,
    layout: u64,
    render_pass: u64,
) -> (r: GraphicsPipelineInfo)
    ensures
        r == spec_graphics_pipeline_info(vertex_module, fragment_module, extent, layout, render_pass),
{
    let viewport = Viewport {
        x: 0,
        y: 0,
        width: extent.width,
        height: extent.height,
        min_depth: 0,
        max_depth: 1,
    };
    let rasterization = RasterizationState {
        rasterizer_discard: false,
        polygon_mode: PolygonMode::Fill,
        line_width: 1,
        cull_mode: CullMode::Back,
        front_face: FrontFace::Clockwise,
        depth_bias: false,
    };
    let color_blend = ColorBlendState {
        write_red: true,
        write_green: true,
        write_blue: true,
        write_alpha: true,
        blend_enable: false,
        src_color_factor: BlendFactor::One,
        dst_color_factor: BlendFactor::Zero,
        color_op: BlendOp::Add,
        src_alpha_factor: BlendFactor::One,
        dst_alpha_factor: BlendFactor::Zero,
        alpha_op: BlendOp::Add,
        logic_op_enable: false,
        logic_op: LogicOp::Copy,
        blend_constant: 0,
    };
    GraphicsPipelineInfo {
        vertex_stage: ShaderStageInfo { stage: ShaderStage::Vertex, module: vertex_module },
        fragment_stage: ShaderStageInfo { stage: ShaderStage::Fragment, module: fragment_module },
        vertex_binding_count: 0,
        vertex_attribute_count: 0,
        topology: PrimitiveTopology::TriangleList,
        primitive_restart: false,
        viewport,
        scissor: full_rect(extent),
        rasterization,
        sample_shading: false,
        rasterization_samples: 1,
        color_blend,
        layout,
        render_pass,
        subpass: 0,
    }
}

} // verus!
