//! Physical device enumeration and selection.
//!
//! Every enumerated GPU is described by plain values — its queue families,
//! its device extensions, and the surface capabilities it reports against
//! the target surface — and the first device that passes the suitability
//! predicate is selected.

use vstd::prelude::*;

use crate::errors::EngineError;
use crate::queue_family_indices::{scan_succeeds, QueueFamilyIndices, QueueFamilyProperties};
use crate::swapchain::SurfaceCapabilities;

verus! {

/// The device extensions the engine distinguishes.
#[derive(Clone, Copy, Debug, PartialEq, Eq, Structural)]
pub struct DeviceExtensions {
    pub khr_swapchain: bool,
    pub khr_display_swapchain: bool,
    pub ext_debug_marker: bool,
}

impl DeviceExtensions {
    /// The extension set with no extension enabled.
    pub fn none() -> (r: DeviceExtensions)
        ensures
            !r.khr_swapchain,
            !r.khr_display_swapchain,
            !r.ext_debug_marker,
    {
        DeviceExtensions { khr_swapchain: false, khr_display_swapchain: false, ext_debug_marker: false }
    }

    /// The extensions enabled in both sets.
    pub fn intersection(&self, other: &DeviceExtensions) -> (r: DeviceExtensions)
        ensures
            r.khr_swapchain == (self.khr_swapchain && other.khr_swapchain),
            r.khr_display_swapchain == (self.khr_display_swapchain && other.khr_display_swapchain),
            r.ext_debug_marker == (self.ext_debug_marker && other.ext_debug_marker),
    {
        DeviceExtensions {
            khr_swapchain: self.khr_swapchain && other.khr_swapchain,
            khr_display_swapchain: self.khr_display_swapchain && other.khr_display_swapchain,
            ext_debug_marker: self.ext_debug_marker && other.ext_debug_marker,
        }
    }
}

/// The set of device extensions the engine requires: presentation needs
/// the swapchain extension and nothing else.
pub fn required_device_extensions() -> (r: DeviceExtensions)
    ensures
        r.khr_swapchain,
        !r.khr_display_swapchain,
        !r.ext_debug_marker,
{
    DeviceExtensions { khr_swapchain: true, ..DeviceExtensions::none() }
}

/// One enumerated GPU, described against the target surface: its name (for
/// diagnostics), its queue families, the device extensions it supports,
/// and the surface capabilities it reports.
#[derive(Debug)]
pub struct PhysicalDeviceInfo {
    pub name: String,
    pub queue_families: Vec<QueueFamilyProperties>,
    pub extensions: DeviceExtensions,
    pub capabilities: SurfaceCapabilities,
}

/// The suitability predicate: the device is usable exactly when every
/// clause holds.
///
/// - a queue family scan against the surface succeeds (graphics and
///   present roles both found, every visited surface query answered);
/// - the device supports the swapchain extension;
/// - the surface reports at least one format / color-space pair;
/// - the surface reports at least one presentation mode.
pub open spec fn is_suitable_spec(device: PhysicalDeviceInfo) -> bool {
    &&& scan_succeeds(device.queue_families@)
    &&& device.extensions.khr_swapchain
    &&& device.capabilities.supported_formats@.len() > 0
    &&& device.capabilities.present_modes.any_supported_spec()
}

/// Check that the device supports all of the required extensions.
pub fn check_device_extension_support(device: &PhysicalDeviceInfo) -> (r: bool)
    ensures
        r == device.extensions.khr_swapchain,
{
    device.extensions.intersection(&required_device_extensions()).khr_swapchain
}

/// Decide whether a device suits the engine's needs.
pub fn is_device_suitable(device: &PhysicalDeviceInfo) -> (r: bool)
    ensures
        r == is_suitable_spec(*device),
{
    let queue_supported = crate::queue_family_indices::QueueFamilyIndices::find(
        &device.queue_families,
    ).is_ok();
    let extensions_supported = check_device_extension_support(device);
    let swap_chain_adequate = if extensions_supported {
        device.capabilities.supported_formats.len() > 0
            && device.capabilities.present_modes.any_supported()
    } else {
        false
    };

    queue_supported && extensions_supported && swap_chain_adequate
}

/// Everything the logical device is created with: one queue-creation
/// request per unique family index, and the required device extensions.
#[derive(Debug)]
pub struct LogicalDevicePlan {
    pub queue_families: Vec<usize>,
    pub extensions: DeviceExtensions,
}

/// Plan the logical device for the resolved queue families: request one
/// queue from each unique family (one request when graphics and
/// presentation share a family, two otherwise), with the swapchain
/// extension enabled.
pub fn plan_logical_device(indices: &QueueFamilyIndices) -> (r: LogicalDevicePlan)
    ensures
        r.queue_families@ == indices.unique_indices_spec(),
        r.extensions.khr_swapchain,
        !r.extensions.khr_display_swapchain,
        !r.extensions.ext_debug_marker,
{
    LogicalDevicePlan {
        queue_families: indices.unique_indices(),
        extensions: required_device_extensions(),
    }
}

/// Take the first suitable physical device.
///
/// Returns the index of the first enumerated device that passes the
/// suitability predicate, and `NoSuitableDevice` exactly when no device
/// passes it.
pub fn pick_physical_device(devices: &Vec<PhysicalDeviceInfo>) -> (r: Result<
    usize,
    EngineError,
>)
    ensures
        r is Ok <==> exists|j: int|
            0 <= j < devices@.len() && is_suitable_spec(#[trigger] devices@[j]),
        r matches Ok(i) ==> {
            &&& i < devices@.len()
            &&& is_suitable_spec(devices@[i as int])
            &&& forall|j: int| 0 <= j < i ==> !is_suitable_spec(#[trigger] devices@[j])
        },
        r matches Err(e) ==> e == EngineError::NoSuitableDevice,
{
    let n = devices.len();
    let mut i: usize = 0;
    while i < n
        invariant
            n == devices@.len(),
            0 <= i <= n,
            forall|j: int| 0 <= j < i ==> !is_suitable_spec(#[trigger] devices@[j]),
        decreases n - i,
    {
        if is_device_suitable(&devices[i]) {
            return Ok(i);
        }
        i = i + 1;
    }
    Err(EngineError::NoSuitableDevice)
}

} // verus!
