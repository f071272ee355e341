//! Swapchain negotiation against surface capabilities.
//!
//! Given what the surface reports (formats, present modes, image-count
//! bounds, extent bounds) and the resolved queue families, these functions
//! deterministically decide every parameter of the swapchain: pixel format
//! and color space, presentation mode, extent, image count and sharing
//! mode.

use vstd::prelude::*;

use crate::queue_family_indices::QueueFamilyIndices;

verus! {

/// A presentation extent in physical pixels.
#[derive(Clone, Copy, Debug, PartialEq, Eq, Structural)]
pub struct Extent {
    pub width: u32,
    pub height: u32,
}

/// The pixel formats the engine distinguishes.
#[derive(Clone, Copy, Debug, PartialEq, Eq, Structural)]
pub enum Format {
    B8G8R8A8Srgb,
    B8G8R8A8Unorm,
    R8G8B8A8Srgb,
    R8G8B8A8Unorm,
}

/// The color spaces the engine distinguishes.
#[derive(Clone, Copy, Debug, PartialEq, Eq, Structural)]
pub enum ColorSpace {
    SrgbNonLinear,
    DisplayP3NonLinear,
    ExtendedSrgbLinear,
}

/// One pixel format / color space pair the surface supports.
#[derive(Clone, Copy, Debug, PartialEq, Eq, Structural)]
pub struct SurfaceFormat {
    pub format: Format,
    pub color_space: ColorSpace,
}

/// Which presentation modes the surface supports. FIFO support is
/// universal on conforming implementations, but it is still recorded here
/// because device suitability asks for at least one supported mode.
#[derive(Clone, Copy, Debug, PartialEq, Eq, Structural)]
pub struct PresentModes {
    pub immediate: bool,
    pub mailbox: bool,
    pub fifo: bool,
    pub relaxed: bool,
}

/// The presentation mode chosen for the swapchain.
#[derive(Clone, Copy, Debug, PartialEq, Eq, Structural)]
pub enum PresentMode {
    Immediate,
    Mailbox,
    Fifo,
    Relaxed,
}

/// How the swapchain images are shared between the graphics and the
/// present queue: exclusive when both roles live on one family, otherwise
/// concurrent across exactly the two family indices.
#[derive(Clone, Copy, Debug, PartialEq, Eq, Structural)]
pub enum SharingMode {
    Exclusive,
    Concurrent { graphics_family: usize, present_family: usize },
}

/// What the surface reports when queried against a physical device.
///
/// A `max_image_count` of zero means the surface places no upper bound on
/// the number of swapchain images.
#[derive(Debug)]
pub struct SurfaceCapabilities {
    pub min_image_count: u32,
    pub max_image_count: u32,
    pub current_extent: Option<Extent>,
    pub min_image_extent: Extent,
    pub max_image_extent: Extent,
    pub supported_formats: Vec<SurfaceFormat>,
    pub present_modes: PresentModes,
}

impl PresentModes {
    /// Whether the surface supports at least one presentation mode.
    pub fn any_supported(&self) -> (r: bool)
        ensures
            r == self.any_supported_spec(),
    {
        self.immediate || self.mailbox || self.fifo || self.relaxed
    }

    /// What `any_supported` returns.
    pub open spec fn any_supported_spec(&self) -> bool {
        self.immediate || self.mailbox || self.fifo || self.relaxed
    }
}

impl SurfaceCapabilities {
    /// The capabilities are coherent: the image-count bound (when present)
    /// and the extent bounds are ordered. Conforming surfaces always
    /// report such values.
    pub open spec fn wf(&self) -> bool {
        &&& self.max_image_count == 0 || self.min_image_count <= self.max_image_count
        &&& self.min_image_extent.width <= self.max_image_extent.width
        &&& self.min_image_extent.height <= self.max_image_extent.height
        &&& self.min_image_count < u32::MAX
    }
}

/// What `clamp` returns: `x` forced into `[lower, upper]`, the lower bound
/// winning when the bounds themselves are out of order.
pub open spec fn clamp_spec(x: u32, lower: u32, upper: u32) -> u32 {
    if (if x < upper { x } else { upper }) < lower {
        lower
    } else {
        if x < upper {
            x
        } else {
            upper
        }
    }
}

/// Force `x` into the interval `[lower, upper]`.
pub fn clamp(x: u32, lower: u32, upper: u32) -> (r: u32)
    ensures
        r == clamp_spec(x, lower, upper),
        lower <= upper ==> lower <= r <= upper,
        lower <= x <= upper ==> r == x,
{
    let low: u32 = if x < upper {
        x
    } else {
        upper
    };
    if low < lower {
        lower
    } else {
        low
    }
}

/// Whether `f` is the preferred pair: 8-bit BGRA sRGB with a non-linear
/// sRGB color space.
pub open spec fn is_preferred_format(f: SurfaceFormat) -> bool {
    f.format is B8G8R8A8Srgb && f.color_space is SrgbNonLinear
}

/// What `choose_swap_surface_format` returns: the preferred sRGB pair when
/// the surface offers it anywhere in its list, the first reported pair
/// otherwise.
pub open spec fn choose_swap_surface_format_spec(formats: Seq<SurfaceFormat>) -> SurfaceFormat {
    if exists|i: int| 0 <= i < formats.len() && is_preferred_format(#[trigger] formats[i]) {
        SurfaceFormat { format: Format::B8G8R8A8Srgb, color_space: ColorSpace::SrgbNonLinear }
    } else {
        formats[0]
    }
}

/// Select a format and color space from the formats the surface supports.
pub fn choose_swap_surface_format(formats: &Vec<SurfaceFormat>) -> (r: SurfaceFormat)
    requires
        formats@.len() > 0,
    ensures
        r == choose_swap_surface_format_spec(formats@),
{
    let n = formats.len();
    let mut i: usize = 0;
    while i < n
        invariant
            n == formats@.len(),
            0 <= i <= n,
            forall|j: int| 0 <= j < i ==> !is_preferred_format(#[trigger] formats@[j]),
        decreases n - i,
    {
        let f = formats[i];
        if matches!(f.format, Format::B8G8R8A8Srgb)
            && matches!(f.color_space, ColorSpace::SrgbNonLinear) {
            proof {
                assert(is_preferred_format(formats@[i as int]));
            }
            return f;
        }
        i = i + 1;
    }
    formats[0]
}

/// What `choose_swap_present_mode` returns: the low-latency mailbox mode
/// when the surface supports it, the universally available FIFO mode
/// otherwise.
pub open spec fn choose_swap_present_mode_spec(modes: PresentModes) -> PresentMode {
    if modes.mailbox {
        PresentMode::Mailbox
    } else {
        PresentMode::Fifo
    }
}

/// Select the presentation mode.
pub fn choose_swap_present_mode(modes: &PresentModes) -> (r: PresentMode)
    ensures
        r == choose_swap_present_mode_spec(*modes),
{
    if modes.mailbox {
        PresentMode::Mailbox
    } else {
        PresentMode::Fifo
    }
}

/// What `choose_swap_extent` returns: the surface's fixed current extent
/// verbatim when it reports one, otherwise the window's physical pixel
/// size clamped component-wise into the surface's extent bounds.
pub open spec fn choose_swap_extent_spec(caps: SurfaceCapabilities, window_size: Extent) -> Extent {
    match caps.current_extent {
        Some(extent) => extent,
        None => Extent {
            width: clamp_spec(
                window_size.width,
                caps.min_image_extent.width,
                caps.max_image_extent.width,
            ),
            height: clamp_spec(
                window_size.height,
                caps.min_image_extent.height,
                caps.max_image_extent.height,
            ),
        },
    }
}

/// Select the swapchain presentation extent. Some window managers fill the
/// surface's current extent; otherwise the extent is derived from the
/// window's physical pixel size.
pub fn choose_swap_extent(caps: &SurfaceCapabilities, window_size: Extent) -> (r: Extent)
    ensures
        r == choose_swap_extent_spec(*caps, window_size),
{
    match caps.current_extent {
        Some(extent) => extent,
        None => {
            let width = clamp(
                window_size.width,
                caps.min_image_extent.width,
                caps.max_image_extent.width,
            );
            let height = clamp(
                window_size.height,
                caps.min_image_extent.height,
                caps.max_image_extent.height,
            );
            Extent { width, height }
        },
    }
}

/// What `choose_image_count` returns: one more image than the surface's
/// minimum, capped at the maximum when the surface reports a bound.
pub open spec fn choose_image_count_spec(caps: SurfaceCapabilities) -> u32 {
    let suggested = (caps.min_image_count + 1) as u32;
    if caps.max_image_count != 0 && caps.max_image_count < suggested {
        caps.max_image_count
    } else {
        suggested
    }
}

/// Select how many images the swapchain owns.
pub fn choose_image_count(caps: &SurfaceCapabilities) -> (r: u32)
    requires
        caps.min_image_count < u32::MAX,
    ensures
        r == choose_image_count_spec(*caps),
{
    let suggested = caps.min_image_count + 1;
    if caps.max_image_count != 0 && caps.max_image_count < suggested {
        caps.max_image_count
    } else {
        suggested
    }
}

/// What `choose_sharing_mode` returns: exclusive sharing when graphics and
/// presentation share a queue family, concurrent sharing across exactly
/// the two families otherwise.
pub open spec fn choose_sharing_mode_spec(indices: QueueFamilyIndices) -> SharingMode {
    if indices.graphics_family == indices.present_family {
        SharingMode::Exclusive
    } else {
        SharingMode::Concurrent {
            graphics_family: indices.graphics_family,
            present_family: indices.present_family,
        }
    }
}

/// Select the image sharing mode for the resolved queue families.
pub fn choose_sharing_mode(indices: &QueueFamilyIndices) -> (r: SharingMode)
    ensures
        r == choose_sharing_mode_spec(*indices),
{
    if indices.is_same_queue() {
        SharingMode::Exclusive
    } else {
        SharingMode::Concurrent {
            graphics_family: indices.graphics_family,
            present_family: indices.present_family,
        }
    }
}

/// The full configuration of one swapchain, decided once at creation.
#[derive(Clone, Copy, Debug, PartialEq, Eq, Structural)]
pub struct SwapchainConfig {
    pub format: Format,
    pub color_space: ColorSpace,
    pub present_mode: PresentMode,
    pub extent: Extent,
    pub image_count: u32,
    pub sharing: SharingMode,
}

/// What `plan_swap_chain` returns: every swapchain parameter, each decided
/// by its own selection rule.
pub open spec fn plan_swap_chain_spec(
    caps: SurfaceCapabilities,
    window_size: Extent,
    indices: QueueFamilyIndices,
) -> SwapchainConfig {
    let chosen = choose_swap_surface_format_spec(caps.supported_formats@);
    SwapchainConfig {
        format: chosen.format,
        color_space: chosen.color_space,
        present_mode: choose_swap_present_mode_spec(caps.present_modes),
        extent: choose_swap_extent_spec(caps, window_size),
        image_count: choose_image_count_spec(caps),
        sharing: choose_sharing_mode_spec(indices),
    }
}

/// Decide the whole swapchain configuration for the current surface state.
///
/// Deterministic: the result depends only on the arguments, so re-running
/// the negotiation against an unchanged surface reproduces the same
/// configuration.
pub fn plan_swap_chain(
    caps: &SurfaceCapabilities,
    window_size: Extent,
    indices: &QueueFamilyIndices,
) -> (r: SwapchainConfig)
    requires
        caps.supported_formats@.len() > 0,
        caps.min_image_count < u32::MAX,
    ensures
        r == plan_swap_chain_spec(*caps, window_size, *indices),
{
    let chosen = choose_swap_surface_format(&caps.supported_formats);
    SwapchainConfig {
        format: chosen.format,
        color_space: chosen.color_space,
        present_mode: choose_swap_present_mode(&caps.present_modes),
        extent: choose_swap_extent(caps, window_size),
        image_count: choose_image_count(caps),
        sharing: choose_sharing_mode(indices),
    }
}

/// The chosen image count always lies inside the surface's reported
/// bounds: within `[min_image_count, max_image_count]` when the surface
/// bounds the count, and exactly `min_image_count + 1` otherwise.
pub proof fn lemma_image_count_in_range(caps: SurfaceCapabilities)
    requires
        caps.max_image_count == 0 || caps.min_image_count <= caps.max_image_count,
        caps.min_image_count < u32::MAX,
    ensures
        caps.max_image_count > 0 ==> caps.min_image_count <= choose_image_count_spec(caps),
        caps.max_image_count > 0 ==> choose_image_count_spec(caps) <= caps.max_image_count,
        caps.max_image_count == 0 ==> choose_image_count_spec(caps) == caps.min_image_count + 1,
{
}

/// Format selection prefers the sRGB BGRA pair with the non-linear sRGB
/// color space whenever the surface's list offers it, no matter where in
/// the list it appears; only when it is absent does the first reported
/// pair win.
pub proof fn lemma_format_preference(formats: Seq<SurfaceFormat>, i: int)
    requires
        0 <= i < formats.len(),
        is_preferred_format(formats[i]),
    ensures
        is_preferred_format(choose_swap_surface_format_spec(formats)),
        choose_swap_surface_format_spec(formats) == (SurfaceFormat {
            format: Format::B8G8R8A8Srgb,
            color_space: ColorSpace::SrgbNonLinear,
        }),
{
}

} // verus!
