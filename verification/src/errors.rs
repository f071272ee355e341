//! Error taxonomy of the engine core.
//!
//! Fatal initialization errors are produced once, during startup planning;
//! surface staleness is deliberately not an error (it drives the rebuild
//! path of the frame state machine instead).

use vstd::prelude::*;

verus! {

/// Every failure the engine core can report.
#[derive(Clone, Copy, Debug, PartialEq, Eq, Structural)]
pub enum EngineError {
    /// No enumerated physical device passed the suitability predicate.
    NoSuitableDevice,
    /// A queue family scan ended without both a graphics and a present
    /// family, or a surface-support query failed during the scan.
    IncompleteQueueFamilies,
    /// The logical device did not yield the queues its plan asked for.
    DeviceCreationFailed,
    /// The underlying swapchain allocation failed.
    SwapchainCreationFailed,
    /// Shader loading or pipeline assembly failed.
    PipelineBuildFailed,
    /// A non-recoverable failure during acquire, submit or present.
    RenderFailed,
}

impl EngineError {
    /// A short human-readable description of the error.
    pub fn describe(&self) -> (r: &'static str)
        ensures
            r@ == self.describe_spec(),
    {
        match self {
            EngineError::NoSuitableDevice => "unable to find a suitable physical device",
            EngineError::IncompleteQueueFamilies => "unable to find all required queue families for this physical device",
            EngineError::DeviceCreationFailed => "the logical device did not provide the requested queues",
            EngineError::SwapchainCreationFailed => "unable to create the swapchain",
            EngineError::PipelineBuildFailed => "unable to build the graphics pipeline",
            EngineError::RenderFailed => "a fatal error interrupted the render loop",
        }
    }

    /// What `describe` returns for each variant.
    pub open spec fn describe_spec(&self) -> Seq<char> {
        match self {
            EngineError::NoSuitableDevice => "unable to find a suitable physical device"@,
            EngineError::IncompleteQueueFamilies => "unable to find all required queue families for this physical device"@,
            EngineError::DeviceCreationFailed => "the logical device did not provide the requested queues"@,
            EngineError::SwapchainCreationFailed => "unable to create the swapchain"@,
            EngineError::PipelineBuildFailed => "unable to build the graphics pipeline"@,
            EngineError::RenderFailed => "a fatal error interrupted the render loop"@,
        }
    }
}

} // verus!
