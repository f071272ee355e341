//! A verified model of a minimal real-time rendering engine core.
//!
//! The crate owns the decision logic of the engine: picking a physical
//! device, resolving queue families, negotiating a swapchain configuration
//! against surface capabilities, planning the graphics pipeline and command
//! buffers, and driving the per-frame acquire/submit/present state machine
//! with its rebuild-on-staleness recovery. Every function here works on
//! plain values describing the surface and the devices; the surrounding
//! program performs the graphics API calls that those decisions direct.

pub mod device;
pub mod errors;
pub mod instance;
pub mod pipeline;
pub mod queue_family_indices;
pub mod renderer;
pub mod swapchain;
