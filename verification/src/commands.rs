//! Framebuffers, the command pool and the command buffers.
//!
//! There is one framebuffer and one command buffer for each image of the
//! swapchain.  A command buffer is recorded once, at startup, and replayed
//! for every frame that uses its image: what it draws never changes.
use vstd::prelude::*;
use crate::device::QueueFamilyIndices;
use crate::types::{Extent2D, Rect2D, spec_full_rect, full_rect};

verus! {

// ---------------------------------------------------------------------------
// Framebuffers
// ---------------------------------------------------------------------------

/// Everything that creating one framebuffer takes.
#[derive(Clone, Copy, Debug, PartialEq, Eq, Structural)]
pub struct FramebufferInfo {
    pub render_pass: u64,
    /// The image view that is the one attachment.
    pub attachment: u64,
    pub width: u32,
    pub height: u32,
    pub layers: u32,
}

/// The framebuffer of one image view: the view as its only attachment, the
/// extent of the swapchain, one layer.
pub open spec fn spec_framebuffer_info(
    image_view: u64,
    render_pass: u64,
    extent: Extent2D,
) -> FramebufferInfo {
    FramebufferInfo {
        render_pass,
        attachment: image_view,
        width: extent.width,
        height: extent.height,
        layers: 1,
    }
}

/// Describes the framebuffers: one for each image view, in the order of the
/// views, all for the one render pass.
pub fn framebuffer_infos(image_views: &Vec<u64>, render_pass: u64, extent: Extent2D) -> (infos:
    Vec<FramebufferInfo>)
    ensures
        infos@ == image_views@.map_values(
            |view: u64| spec_framebuffer_info(view, render_pass, extent),
        ),
{
    let mut infos: Vec<FramebufferInfo> = Vec::new();
    let mut i: usize = 0;
    while i < image_views.len()
        invariant
            i <= image_views@.len(),
            infos@.len() == i,
            forall|k: int|
                0 <= k < i ==> infos@[k] == spec_framebuffer_info(
                    image_views@[k],
                    render_pass,
                    extent,
                ),
        decreases image_views@.len() - i,
    {
        infos.push(
            FramebufferInfo {
                render_pass,
                attachment: image_views[i],
                width: extent.width,
                height: extent.height,
                layers: 1,
            },
        );
        i = i + 1;
    }
    assert(infos@ =~= image_views@.map_values(
        |view: u64| spec_framebuffer_info(view, render_pass, extent),
    ));
    infos
}

// ---------------------------------------------------------------------------
// Command pool
// ---------------------------------------------------------------------------

/// Everything that creating the command pool takes.
#[derive(Clone, Copy, Debug, PartialEq, Eq, Structural)]
pub struct CommandPoolInfo {
    pub queue_family_index: u32,
    /// Whether the command buffers are short-lived.
    pub transient: bool,
    /// Whether single command buffers may be reset.
    pub resettable: bool,
}

/// Describes the command pool: its command buffers go to the graphics family,
/// live as long as the pool and are never reset.
pub fn command_pool_info(indices: QueueFamilyIndices) -> (info: CommandPoolInfo)
    ensures
        info == (CommandPoolInfo {
            queue_family_index: indices.graphics,
            transient: false,
            resettable: false,
        }),
{
    CommandPoolInfo { queue_family_index: indices.graphics, transient: false, resettable: false }
}

// ---------------------------------------------------------------------------
// Command buffers
// ---------------------------------------------------------------------------

/// The level of a command buffer.
#[derive(Clone, Copy, Debug, PartialEq, Eq, Structural)]
pub enum CommandBufferLevel {
    Primary,
    Secondary,
}

/// Everything that allocating the command buffers takes.
#[derive(Clone, Copy, Debug, PartialEq, Eq, Structural)]
pub struct CommandBufferAllocateInfo {
    pub command_pool: u64,
    pub level: CommandBufferLevel,
    pub count: u32,
}

/// Describes the allocation of the command buffers: one primary command
/// buffer for each framebuffer.
pub fn command_buffer_allocate_info(command_pool: u64, framebuffers: usize) -> (info:
    CommandBufferAllocateInfo)
    requires
        framebuffers <= u32::MAX,
    ensures
        info == (CommandBufferAllocateInfo {
            command_pool,
            level: CommandBufferLevel::Primary,
            count: framebuffers as u32,
        }),
{
    CommandBufferAllocateInfo {
        command_pool,
        level: CommandBufferLevel::Primary,
        count: framebuffers as u32,
    }
}

/// A clear colour.  Each channel is a whole number; 1 is full intensity.
#[derive(Clone, Copy, Debug, PartialEq, Eq, Structural)]
pub struct ClearColor {
    pub red: u32,
    pub green: u32,
    pub blue: u32,
    pub alpha: u32,
}

/// One step of recording a command buffer.
#[derive(Clone, Copy, Debug, PartialEq, Eq, Structural)]
pub enum Command {
    /// Begin recording, with no usage flags and no inherited state.
    Begin,
    /// Begin the render pass on the framebuffer; its commands follow inline.
    BeginRenderPass {
        render_pass: u64,
        framebuffer: u64,
        render_area: Rect2D,
        clear_color: ClearColor,
    },
    /// Bind the pipeline for graphics.
    BindPipeline { pipeline: u64 },
    /// Draw without vertex buffers.
    Draw { vertex_count: u32, instance_count: u32, first_vertex: u32, first_instance: u32 },
    /// End the render pass.
    EndRenderPass,
    /// End recording.
    End,
}

/// Black, fully opaque.
pub open spec fn spec_clear_color() -> ClearColor {
    ClearColor { red: 0, green: 0, blue: 0, alpha: 1 }
}

/// What the command buffer for one framebuffer records: the render pass over
/// the whole framebuffer, cleared to opaque black, and in it one draw of
/// three vertices, one instance, with the pipeline bound.
pub open spec fn spec_recording(
    framebuffer: u64,
    render_pass: u64,
    pipeline: u64,
    extent: Extent2D,
) -> Seq<Command> {
    seq![
        Command::Begin,
        Command::BeginRenderPass {
            render_pass,
            framebuffer,
            render_area: spec_full_rect(extent),
            clear_color: spec_clear_color(),
        },
        Command::BindPipeline { pipeline },
        Command::Draw { vertex_count: 3, instance_count: 1, first_vertex: 0, first_instance: 0 },
        Command::EndRenderPass,
        Command::End,
    ]
}

/// Lists what the command buffer for one framebuffer records.
pub fn recording(framebuffer: u64, render_pass: u64, pipeline: u64, extent: Extent2D) -> (r: Vec<
    Command,
>)
    ensures
        r@ == spec_recording(framebuffer, render_pass, pipeline, extent),
{
    let r = vec![
        Command::Begin,
        Command::BeginRenderPass {
            render_pass,
            framebuffer,
            render_area: full_rect(extent),
            clear_color: ClearColor { red: 0, green: 0, blue: 0, alpha: 1 },
        },
        Command::BindPipeline { pipeline },
        Command::Draw { vertex_count: 3, instance_count: 1, first_vertex: 0, first_instance: 0 },
        Command::EndRenderPass,
        Command::End,
    ];
    assert(r@ =~= spec_recording(framebuffer, render_pass, pipeline, extent));
    r
}

/// Lists what each command buffer records: the command buffer at position
/// `i` renders to the framebuffer at position `i`.
pub fn recordings(framebuffers: &Vec<u64>, render_pass: u64, pipeline: u64, extent: Extent2D) -> (r:
    Vec<Vec<Command>>)
    ensures
        r@.len() == framebuffers@.len(),
        forall|i: int|
            0 <= i < framebuffers@.len() ==> (#[trigger] r@[i])@ == spec_recording(
                framebuffers@[i],
                render_pass,
                pipeline,
                extent,
            ),
{
    let mut r: Vec<Vec<Command>> = Vec::new();
    let mut i: usize = 0;
    while i < framebuffers.len()
        invariant
            i <= framebuffers@.len(),
            r@.len() == i,
            forall|k: int|
                0 <= k < i ==> (#[trigger] r@[k])@ == spec_recording(
                    framebuffers@[k],
                    render_pass,
                    pipeline,
                    extent,
                ),
        decreases framebuffers@.len() - i,
    {
        r.push(recording(framebuffers[i], render_pass, pipeline, extent));
        i = i + 1;
    }
    r
}

} // verus!
