//! Render pass and graphics pipeline planning.
//!
//! The pipeline's fixed-function state is decided here: a viewport that
//! spans the whole swapchain extent (which is why the pipeline must be
//! rebuilt when the extent changes), culling disabled, depth writes off,
//! simple blend-through, bound to the first subpass of a single
//! color-attachment render pass in the swapchain's format.

use vstd::prelude::*;

use crate::swapchain::{Extent, Format};

verus! {

/// The render pass: one color attachment, cleared on load and stored on
/// completion, in the swapchain's chosen format.
#[derive(Clone, Copy, Debug, PartialEq, Eq, Structural)]
pub struct RenderPassConfig {
    pub color_format: Format,
    pub clear_on_load: bool,
    pub store_on_finish: bool,
}

/// Plan the render pass for the swapchain's format.
pub fn plan_render_pass(format: Format) -> (r: RenderPassConfig)
    ensures
        r.color_format == format,
        r.clear_on_load,
        r.store_on_finish,
{
    RenderPassConfig { color_format: format, clear_on_load: true, store_on_finish: true }
}

/// A viewport in pixels, anchored at an origin.
#[derive(Clone, Copy, Debug, PartialEq, Eq, Structural)]
pub struct Viewport {
    pub x: u32,
    pub y: u32,
    pub width: u32,
    pub height: u32,
}

/// The compiled pipeline's fixed-function state, as far as the engine
/// decides it.
#[derive(Clone, Copy, Debug, PartialEq, Eq, Structural)]
pub struct PipelineConfig {
    pub viewport: Viewport,
    pub subpass: u32,
    pub depth_clamp: bool,
    pub cull_disabled: bool,
    pub front_face_clockwise: bool,
    pub depth_write: bool,
    pub sample_shading: bool,
    pub blend_pass_through: bool,
}

/// Whether the pipeline's viewport spans exactly the given extent,
/// anchored at the origin.
pub open spec fn viewport_spans(config: PipelineConfig, extent: Extent) -> bool {
    &&& config.viewport.x == 0
    &&& config.viewport.y == 0
    &&& config.viewport.width == extent.width
    &&& config.viewport.height == extent.height
}

/// Plan the graphics pipeline for the current swapchain extent: full
/// extent viewport, no culling, no depth testing or writing, blend
/// pass-through, bound to subpass zero.
pub fn plan_graphics_pipeline(extent: Extent) -> (r: PipelineConfig)
    ensures
        viewport_spans(r, extent),
        r.subpass == 0,
        !r.depth_clamp,
        r.cull_disabled,
        r.front_face_clockwise,
        !r.depth_write,
        !r.sample_shading,
        r.blend_pass_through,
{
    PipelineConfig {
        viewport: Viewport { x: 0, y: 0, width: extent.width, height: extent.height },
        subpass: 0,
        depth_clamp: false,
        cull_disabled: true,
        front_face_clockwise: true,
        depth_write: false,
        sample_shading: false,
        blend_pass_through: true,
    }
}

} // verus!
