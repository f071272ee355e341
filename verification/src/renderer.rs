//! The frame renderer: command buffer planning, the render generation,
//! and the per-frame acquire/submit/present state machine with its
//! rebuild-on-staleness recovery.
//!
//! The renderer decides; the surrounding program performs. Each decision
//! step takes the outcome of the last graphics API call as an event and
//! answers with the next action to perform, so the whole loop's control
//! logic is verified even though the API calls themselves happen outside.

use vstd::prelude::*;

use crate::device::{pick_physical_device, PhysicalDeviceInfo, is_suitable_spec};
use crate::errors::EngineError;
use crate::pipeline::{
    plan_graphics_pipeline, plan_render_pass, viewport_spans, PipelineConfig, RenderPassConfig,
};
use crate::queue_family_indices::{is_first_graphics, is_first_present, QueueFamilyIndices};
use crate::swapchain::{
    plan_swap_chain, plan_swap_chain_spec, Extent, SurfaceCapabilities, SwapchainConfig,
};

verus! {

/// The fixed background color every frame clears to: opaque black, with
/// each channel on a 0..=255 scale.
#[derive(Clone, Copy, Debug, PartialEq, Eq, Structural)]
pub struct ClearColor {
    pub red: u8,
    pub green: u8,
    pub blue: u8,
    pub alpha: u8,
}

/// The background color frames are cleared to.
pub fn background_color() -> (r: ClearColor)
    ensures
        r == background_color_spec(),
{
    ClearColor { red: 0, green: 0, blue: 0, alpha: 255 }
}

/// What `background_color` returns: opaque black.
pub open spec fn background_color_spec() -> ClearColor {
    ClearColor { red: 0, green: 0, blue: 0, alpha: 255 }
}

/// One framebuffer: the binding of one swapchain image view to the render
/// pass's single color attachment slot.
#[derive(Clone, Copy, Debug, PartialEq, Eq, Structural)]
pub struct FramebufferPlan {
    pub image_index: usize,
    pub color_format: crate::swapchain::Format,
}

/// One pre-recorded command buffer: a full render pass over one
/// framebuffer that clears the attachment to the background color and
/// issues the single fixed draw call — three vertices, one instance, no
/// vertex buffer bound.
#[derive(Clone, Copy, Debug, PartialEq, Eq, Structural)]
pub struct CommandBufferPlan {
    pub image_index: usize,
    pub clear: ClearColor,
    pub vertex_count: u32,
    pub instance_count: u32,
}

/// What the command buffer for image `i` records.
pub open spec fn command_buffer_plan_spec(i: usize) -> CommandBufferPlan {
    CommandBufferPlan {
        image_index: i,
        clear: background_color_spec(),
        vertex_count: 3,
        instance_count: 1,
    }
}

/// Plan one framebuffer per swapchain image, each binding image `i` to
/// the render pass's color attachment.
pub fn create_framebuffers(image_count: usize, render_pass: &RenderPassConfig) -> (r: Vec<
    FramebufferPlan,
>)
    ensures
        r@.len() == image_count,
        forall|i: int| 0 <= i < image_count ==> #[trigger] r@[i] == (FramebufferPlan {
            image_index: i as usize,
            color_format: render_pass.color_format,
        }),
{
    let mut framebuffers: Vec<FramebufferPlan> = Vec::new();
    let mut i: usize = 0;
    while i < image_count
        invariant
            0 <= i <= image_count,
            framebuffers@.len() == i,
            forall|j: int| 0 <= j < i ==> #[trigger] framebuffers@[j] == (FramebufferPlan {
                image_index: j as usize,
                color_format: render_pass.color_format,
            }),
        decreases image_count - i,
    {
        framebuffers.push(
            FramebufferPlan { image_index: i, color_format: render_pass.color_format },
        );
        i = i + 1;
    }
    framebuffers
}

/// Record one command buffer per framebuffer: clear to the background
/// color, bind the pipeline, draw three vertices in one instance.
pub fn build_command_buffers(image_count: usize) -> (r: Vec<CommandBufferPlan>)
    ensures
        r@.len() == image_count,
        forall|i: int| 0 <= i < image_count ==> #[trigger] r@[i] == command_buffer_plan_spec(
            i as usize,
        ),
{
    let clear = background_color();
    let mut buffers: Vec<CommandBufferPlan> = Vec::new();
    let mut i: usize = 0;
    while i < image_count
        invariant
            0 <= i <= image_count,
            clear == background_color_spec(),
            buffers@.len() == i,
            forall|j: int| 0 <= j < i ==> #[trigger] buffers@[j] == command_buffer_plan_spec(
                j as usize,
            ),
        decreases image_count - i,
    {
        buffers.push(
            CommandBufferPlan { image_index: i, clear, vertex_count: 3, instance_count: 1 },
        );
        i = i + 1;
    }
    buffers
}

/// One render generation: the swapchain configuration together with every
/// object whose lifetime is tied to it. A generation is built as one
/// value and replaced as one value, so a partial rebuild cannot happen.
#[derive(Debug)]
pub struct RenderGeneration {
    pub config: SwapchainConfig,
    pub render_pass: RenderPassConfig,
    pub pipeline: PipelineConfig,
    pub framebuffers: Vec<FramebufferPlan>,
    pub command_buffers: Vec<CommandBufferPlan>,
}

impl RenderGeneration {
    /// The generation is internally consistent: one framebuffer and one
    /// command buffer per swapchain image, the render pass carries the
    /// swapchain's format, and the pipeline's viewport spans the
    /// swapchain's extent.
    pub open spec fn wf(&self) -> bool {
        &&& self.render_pass.color_format == self.config.format
        &&& self.render_pass.clear_on_load
        &&& self.render_pass.store_on_finish
        &&& viewport_spans(self.pipeline, self.config.extent)
        &&& self.pipeline.subpass == 0
        &&& self.framebuffers@.len() == self.config.image_count
        &&& forall|i: int|
            0 <= i < self.framebuffers@.len() ==> #[trigger] self.framebuffers@[i]
                == (FramebufferPlan {
                image_index: i as usize,
                color_format: self.config.format,
            })
        &&& self.command_buffers@.len() == self.config.image_count
        &&& forall|i: int|
            0 <= i < self.command_buffers@.len() ==> #[trigger] self.command_buffers@[i]
                == command_buffer_plan_spec(i as usize)
    }
}

/// Build one whole render generation from the current surface state.
pub fn build_generation(
    caps: &SurfaceCapabilities,
    window_size: Extent,
    indices: &QueueFamilyIndices,
) -> (r: RenderGeneration)
    requires
        caps.supported_formats@.len() > 0,
        caps.min_image_count < u32::MAX,
    ensures
        r.config == plan_swap_chain_spec(*caps, window_size, *indices),
        r.wf(),
{
    let config = plan_swap_chain(caps, window_size, indices);
    let render_pass = plan_render_pass(config.format);
    let pipeline = plan_graphics_pipeline(config.extent);
    let framebuffers = create_framebuffers(config.image_count as usize, &render_pass);
    let command_buffers = build_command_buffers(config.image_count as usize);
    RenderGeneration { config, render_pass, pipeline, framebuffers, command_buffers }
}

/// Where the frame loop stands between two graphics API calls.
#[derive(Clone, Copy, Debug, PartialEq, Eq, Structural)]
pub enum FrameState {
    /// Between frames; ready to start the next one.
    Idle,
    /// An image acquisition is outstanding.
    Acquiring,
    /// The command buffer for the acquired image is being submitted.
    Submitting { submit_index: usize },
    /// Presentation of the submitted image is being enqueued.
    Presenting { present_index: usize },
    /// The generation went stale; a rebuild must happen before the next
    /// frame.
    Rebuilding,
    /// A fatal failure ended the render loop.
    Halted,
}

/// The outcome of the graphics API call the loop performed last.
#[derive(Clone, Copy, Debug, PartialEq, Eq, Structural)]
pub enum FrameEvent {
    /// Acquisition yielded a presentable image, possibly noting that the
    /// swapchain is suboptimal for the surface.
    AcquireOk { image_index: usize, suboptimal: bool },
    /// Acquisition reported the swapchain out of date.
    AcquireOutOfDate,
    /// Acquisition failed fatally.
    AcquireFailed,
    /// The submitted work completed and was waited on.
    SubmitDone,
    /// Submission failed fatally.
    SubmitFailed,
    /// Presentation was enqueued, possibly noting suboptimality.
    PresentOk { suboptimal: bool },
    /// Presentation reported the swapchain out of date.
    PresentOutOfDate,
    /// Presentation failed fatally.
    PresentFailed,
}

/// What the loop must do next.
#[derive(Clone, Copy, Debug, PartialEq, Eq, Structural)]
pub enum FrameAction {
    /// Request the next presentable image, blocking until one is
    /// available.
    Acquire,
    /// Submit the pre-recorded command buffer for the image, gated on the
    /// acquire signal.
    Submit { image_index: usize },
    /// Enqueue presentation of the image, gated on submission.
    Present { image_index: usize },
    /// Block until the frame's work completes; the frame is over.
    FinishFrame,
    /// Tear down and rebuild the render generation against the current
    /// surface state.
    Rebuild,
    /// Stop the render loop; the failure is not recoverable.
    Halt,
}

/// Whether `event` can follow `state`: each event reports on the call the
/// state says is outstanding, and an acquired image index addresses one
/// of the generation's command buffers.
pub open spec fn event_fits(state: FrameState, image_count: u32, event: FrameEvent) -> bool {
    match event {
        FrameEvent::AcquireOk { image_index, suboptimal } => state is Acquiring && image_index
            < image_count,
        FrameEvent::AcquireOutOfDate => state is Acquiring,
        FrameEvent::AcquireFailed => state is Acquiring,
        FrameEvent::SubmitDone => state is Submitting,
        FrameEvent::SubmitFailed => state is Submitting,
        FrameEvent::PresentOk { suboptimal } => state is Presenting,
        FrameEvent::PresentOutOfDate => state is Presenting,
        FrameEvent::PresentFailed => state is Presenting,
    }
}

/// The state, the rebuild flag and the next action after one event.
#[derive(Clone, Copy, Debug, PartialEq, Eq, Structural)]
pub struct FrameStep {
    pub state: FrameState,
    pub needs_rebuild: bool,
    pub action: FrameAction,
}

/// The frame state machine's transition: what one event does to the
/// loop's state.
///
/// Within one frame, submission strictly follows acquisition and
/// presentation strictly follows submission. Staleness signals never
/// fail the loop: a soft "suboptimal" note finishes the frame first and
/// flags a rebuild, a hard "out of date" result abandons the frame and
/// rebuilds at once. Every other failure halts the loop.
pub open spec fn frame_step_spec(
    state: FrameState,
    needs_rebuild: bool,
    event: FrameEvent,
) -> FrameStep {
    match event {
        FrameEvent::AcquireOk { image_index, suboptimal } => FrameStep {
            state: FrameState::Submitting { submit_index: image_index },
            needs_rebuild: needs_rebuild || suboptimal,
            action: FrameAction::Submit { image_index },
        },
        FrameEvent::AcquireOutOfDate => FrameStep {
            state: FrameState::Rebuilding,
            needs_rebuild: true,
            action: FrameAction::Rebuild,
        },
        FrameEvent::AcquireFailed => FrameStep {
            state: FrameState::Halted,
            needs_rebuild,
            action: FrameAction::Halt,
        },
        FrameEvent::SubmitDone => FrameStep {
            state: FrameState::Presenting { present_index: state->submit_index },
            needs_rebuild,
            action: FrameAction::Present { image_index: state->submit_index },
        },
        FrameEvent::SubmitFailed => FrameStep {
            state: FrameState::Halted,
            needs_rebuild,
            action: FrameAction::Halt,
        },
        FrameEvent::PresentOk { suboptimal } => FrameStep {
            state: FrameState::Idle,
            needs_rebuild: needs_rebuild || suboptimal,
            action: FrameAction::FinishFrame,
        },
        FrameEvent::PresentOutOfDate => FrameStep {
            state: FrameState::Rebuilding,
            needs_rebuild: true,
            action: FrameAction::Rebuild,
        },
        FrameEvent::PresentFailed => FrameStep {
            state: FrameState::Halted,
            needs_rebuild,
            action: FrameAction::Halt,
        },
    }
}

/// The renderer: which device was picked, the resolved queue families,
/// the current render generation, and the frame loop's state.
#[derive(Debug)]
pub struct Renderer {
    pub device_index: usize,
    pub indices: QueueFamilyIndices,
    pub generation: RenderGeneration,
    pub state: FrameState,
    pub needs_rebuild: bool,
}

/// How a rebuild relates the renderer before it to the renderer after
/// it: the device and queue choices persist, the generation is re-planned
/// from the surface state handed in, and the loop is ready for the next
/// frame with the staleness flag cleared.
pub open spec fn rebuild_relation(
    pre: Renderer,
    post: Renderer,
    caps: SurfaceCapabilities,
    window_size: Extent,
) -> bool {
    &&& post.device_index == pre.device_index
    &&& post.indices == pre.indices
    &&& post.generation.config == plan_swap_chain_spec(caps, window_size, pre.indices)
    &&& post.generation.wf()
    &&& post.state is Idle
    &&& !post.needs_rebuild
}

impl Renderer {
    /// The renderer is internally consistent.
    pub open spec fn wf(&self) -> bool {
        self.generation.wf()
    }

    /// Plan the whole engine start-up: pick the first suitable physical
    /// device, resolve its queue families, and negotiate the first render
    /// generation against the surface state that device reports.
    ///
    /// Succeeds exactly when some enumerated device is suitable; fails
    /// with `NoSuitableDevice` otherwise.
    pub fn initialize(devices: &Vec<PhysicalDeviceInfo>, window_size: Extent) -> (r: Result<
        Renderer,
        EngineError,
    >)
        requires
            forall|j: int|
                0 <= j < devices@.len() ==> (#[trigger] devices@[j]).capabilities.wf(),
        ensures
            r is Ok <==> exists|j: int|
                0 <= j < devices@.len() && is_suitable_spec(#[trigger] devices@[j]),
            r matches Ok(ren) ==> {
                &&& ren.device_index < devices@.len()
                &&& is_suitable_spec(devices@[ren.device_index as int])
                &&& forall|j: int|
                    0 <= j < ren.device_index ==> !is_suitable_spec(#[trigger] devices@[j])
                &&& is_first_graphics(
                    devices@[ren.device_index as int].queue_families@,
                    ren.indices.graphics_family as int,
                )
                &&& is_first_present(
                    devices@[ren.device_index as int].queue_families@,
                    ren.indices.present_family as int,
                )
                &&& ren.generation.config == plan_swap_chain_spec(
                    devices@[ren.device_index as int].capabilities,
                    window_size,
                    ren.indices,
                )
                &&& ren.wf()
                &&& ren.state is Idle
                &&& !ren.needs_rebuild
            },
            r matches Err(e) ==> e == EngineError::NoSuitableDevice,
    {
        let device_index = match pick_physical_device(devices) {
            Ok(i) => i,
            Err(e) => {
                return Err(e);
            },
        };
        let device = &devices[device_index];
        let indices = match QueueFamilyIndices::find(&device.queue_families) {
            Ok(ind) => ind,
            Err(e) => {
                proof {
                    assert(false);
                }
                return Err(e);
            },
        };
        let generation = build_generation(&device.capabilities, window_size, &indices);
        Ok(
            Renderer {
                device_index,
                indices,
                generation,
                state: FrameState::Idle,
                needs_rebuild: false,
            },
        )
    }

    /// Start the next frame: when the generation went stale the loop must
    /// rebuild first, otherwise it acquires the next image.
    pub fn begin_frame(&mut self) -> (r: FrameAction)
        requires
            old(self).state is Idle,
        ensures
            final(self).device_index == old(self).device_index,
            final(self).indices == old(self).indices,
            final(self).generation == old(self).generation,
            final(self).needs_rebuild == old(self).needs_rebuild,
            old(self).needs_rebuild ==> final(self).state is Rebuilding && r is Rebuild,
            !old(self).needs_rebuild ==> final(self).state is Acquiring && r is Acquire,
    {
        if self.needs_rebuild {
            self.state = FrameState::Rebuilding;
            FrameAction::Rebuild
        } else {
            self.state = FrameState::Acquiring;
            FrameAction::Acquire
        }
    }

    /// Feed the outcome of the last graphics API call into the state
    /// machine and learn what to do next.
    pub fn handle_event(&mut self, event: &FrameEvent) -> (r: FrameAction)
        requires
            event_fits(old(self).state, old(self).generation.config.image_count, *event),
        ensures
            final(self).device_index == old(self).device_index,
            final(self).indices == old(self).indices,
            final(self).generation == old(self).generation,
            ({
                let step = frame_step_spec(old(self).state, old(self).needs_rebuild, *event);
                &&& final(self).state == step.state
                &&& final(self).needs_rebuild == step.needs_rebuild
                &&& r == step.action
            }),
    {
        match event {
            FrameEvent::AcquireOk { image_index, suboptimal } => {
                let index = *image_index;
                self.state = FrameState::Submitting { submit_index: index };
                self.needs_rebuild = self.needs_rebuild || *suboptimal;
                FrameAction::Submit { image_index: index }
            },
            FrameEvent::AcquireOutOfDate => {
                self.state = FrameState::Rebuilding;
                self.needs_rebuild = true;
                FrameAction::Rebuild
            },
            FrameEvent::AcquireFailed => {
                self.state = FrameState::Halted;
                FrameAction::Halt
            },
            FrameEvent::SubmitDone => {
                let index = match self.state {
                    FrameState::Submitting { submit_index } => submit_index,
                    _ => 0,
                };
                self.state = FrameState::Presenting { present_index: index };
                FrameAction::Present { image_index: index }
            },
            FrameEvent::SubmitFailed => {
                self.state = FrameState::Halted;
                FrameAction::Halt
            },
            FrameEvent::PresentOk { suboptimal } => {
                self.state = FrameState::Idle;
                self.needs_rebuild = self.needs_rebuild || *suboptimal;
                FrameAction::FinishFrame
            },
            FrameEvent::PresentOutOfDate => {
                self.state = FrameState::Rebuilding;
                self.needs_rebuild = true;
                FrameAction::Rebuild
            },
            FrameEvent::PresentFailed => {
                self.state = FrameState::Halted;
                FrameAction::Halt
            },
        }
    }

    /// Tear down the stale generation and negotiate a new one against the
    /// surface state the loop just queried. Clears the staleness flag and
    /// leaves the loop ready for the next frame.
    pub fn rebuild(&mut self, caps: &SurfaceCapabilities, window_size: Extent)
        requires
            old(self).state is Rebuilding,
            caps.supported_formats@.len() > 0,
            caps.min_image_count < u32::MAX,
        ensures
            rebuild_relation(*old(self), *final(self), *caps, window_size),
    {
        self.generation = build_generation(caps, window_size, &self.indices);
        self.state = FrameState::Idle;
        self.needs_rebuild = false;
    }
}

/// Rebuilding is idempotent: two rebuilds in a row against the same
/// surface state (no intervening resize) negotiate the same swapchain
/// configuration — the same extent, format and image count.
pub proof fn lemma_rebuild_idempotent(
    r0: Renderer,
    r1: Renderer,
    r2: Renderer,
    caps: SurfaceCapabilities,
    window_size: Extent,
)
    requires
        rebuild_relation(r0, r1, caps, window_size),
        rebuild_relation(r1, r2, caps, window_size),
    ensures
        r2.generation.config == r1.generation.config,
{
}

/// What the host event loop reads from its window: a close request, a
/// redraw tick, or anything else.
#[derive(Clone, Copy, Debug, PartialEq, Eq, Structural)]
pub enum WindowSignal {
    CloseRequested,
    RedrawTick,
    Other,
}

/// What the host event loop must do for one window signal.
#[derive(Clone, Copy, Debug, PartialEq, Eq, Structural)]
pub enum LoopDirective {
    Exit,
    Render,
    Ignore,
}

/// Decide the event loop's reaction to one window signal: a close
/// request ends the loop, a redraw tick renders one frame, and every
/// other signal is ignored.
pub fn handle_window_signal(signal: &WindowSignal) -> (r: LoopDirective)
    ensures
        signal is CloseRequested ==> r is Exit,
        signal is RedrawTick ==> r is Render,
        signal is Other ==> r is Ignore,
{
    match signal {
        WindowSignal::CloseRequested => LoopDirective::Exit,
        WindowSignal::RedrawTick => LoopDirective::Render,
        WindowSignal::Other => LoopDirective::Ignore,
    }
}

} // verus!
