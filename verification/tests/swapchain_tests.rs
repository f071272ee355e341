use triangle_engine::queue_family_indices::QueueFamilyIndices;
use triangle_engine::swapchain::{
    choose_image_count, choose_sharing_mode, choose_swap_extent, choose_swap_present_mode,
    choose_swap_surface_format, clamp, plan_swap_chain, ColorSpace, Extent, Format, PresentMode,
    PresentModes, SharingMode, SurfaceCapabilities, SurfaceFormat,
};

fn all_modes() -> PresentModes {
    PresentModes { immediate: true, mailbox: true, fifo: true, relaxed: true }
}

fn fifo_only() -> PresentModes {
    PresentModes { immediate: false, mailbox: false, fifo: true, relaxed: false }
}

fn caps(
    min_image_count: u32,
    max_image_count: u32,
    current_extent: Option<Extent>,
    formats: Vec<SurfaceFormat>,
    modes: PresentModes,
) -> SurfaceCapabilities {
    SurfaceCapabilities {
        min_image_count,
        max_image_count,
        current_extent,
        min_image_extent: Extent { width: 1, height: 1 },
        max_image_extent: Extent { width: 4096, height: 4096 },
        supported_formats: formats,
        present_modes: modes,
    }
}

fn srgb_bgra() -> SurfaceFormat {
    SurfaceFormat { format: Format::B8G8R8A8Srgb, color_space: ColorSpace::SrgbNonLinear }
}

#[test]
fn clamp_inside_interval() {
    assert_eq!(clamp(5, 1, 10), 5);
}

#[test]
fn clamp_below_lower_bound() {
    assert_eq!(clamp(0, 1, 10), 1);
}

#[test]
fn clamp_above_upper_bound() {
    assert_eq!(clamp(11, 1, 10), 10);
}

#[test]
fn clamp_lower_bound_wins_over_upper() {
    assert_eq!(clamp(5, 7, 3), 7);
}

#[test]
fn image_count_is_min_plus_one_when_unbounded() {
    let c = caps(2, 0, None, vec![srgb_bgra()], fifo_only());
    assert_eq!(choose_image_count(&c), 3);
}

#[test]
fn image_count_clamps_to_max() {
    let c = caps(3, 3, None, vec![srgb_bgra()], fifo_only());
    assert_eq!(choose_image_count(&c), 3);
}

#[test]
fn image_count_stays_in_reported_range() {
    let c = caps(2, 8, None, vec![srgb_bgra()], fifo_only());
    let count = choose_image_count(&c);
    assert!(c.min_image_count <= count && count <= c.max_image_count);
    assert_eq!(count, 3);
}

#[test]
fn format_prefers_srgb_bgra_regardless_of_position() {
    let other = SurfaceFormat {
        format: Format::R8G8B8A8Unorm,
        color_space: ColorSpace::DisplayP3NonLinear,
    };
    let front = choose_swap_surface_format(&vec![srgb_bgra(), other]);
    let middle = choose_swap_surface_format(&vec![other, srgb_bgra(), other]);
    let back = choose_swap_surface_format(&vec![other, other, srgb_bgra()]);
    assert_eq!(front, srgb_bgra());
    assert_eq!(middle, srgb_bgra());
    assert_eq!(back, srgb_bgra());
}

#[test]
fn format_requires_both_halves_of_the_preferred_pair() {
    let wrong_space =
        SurfaceFormat { format: Format::B8G8R8A8Srgb, color_space: ColorSpace::ExtendedSrgbLinear };
    let wrong_format =
        SurfaceFormat { format: Format::R8G8B8A8Srgb, color_space: ColorSpace::SrgbNonLinear };
    let chosen = choose_swap_surface_format(&vec![wrong_space, wrong_format]);
    assert_eq!(chosen, wrong_space);
}

#[test]
fn format_falls_back_to_first_reported_pair() {
    let first =
        SurfaceFormat { format: Format::R8G8B8A8Srgb, color_space: ColorSpace::SrgbNonLinear };
    let second =
        SurfaceFormat { format: Format::B8G8R8A8Unorm, color_space: ColorSpace::SrgbNonLinear };
    assert_eq!(choose_swap_surface_format(&vec![first, second]), first);
}

#[test]
fn present_mode_prefers_mailbox() {
    assert_eq!(choose_swap_present_mode(&all_modes()), PresentMode::Mailbox);
}

#[test]
fn present_mode_falls_back_to_fifo() {
    assert_eq!(choose_swap_present_mode(&fifo_only()), PresentMode::Fifo);
}

#[test]
fn extent_uses_fixed_current_extent_verbatim() {
    let c = caps(
        2,
        0,
        Some(Extent { width: 800, height: 600 }),
        vec![srgb_bgra()],
        fifo_only(),
    );
    let extent = choose_swap_extent(&c, Extent { width: 1366, height: 768 });
    assert_eq!(extent, Extent { width: 800, height: 600 });
}

#[test]
fn extent_derives_from_window_size_with_clamping() {
    let mut c = caps(2, 0, None, vec![srgb_bgra()], fifo_only());
    c.min_image_extent = Extent { width: 200, height: 200 };
    c.max_image_extent = Extent { width: 1024, height: 1024 };
    let extent = choose_swap_extent(&c, Extent { width: 1366, height: 100 });
    assert_eq!(extent, Extent { width: 1024, height: 200 });
}

#[test]
fn sharing_is_exclusive_for_a_shared_family() {
    let ind = QueueFamilyIndices { graphics_family: 1, present_family: 1 };
    assert_eq!(choose_sharing_mode(&ind), SharingMode::Exclusive);
}

#[test]
fn sharing_is_concurrent_across_two_families() {
    let ind = QueueFamilyIndices { graphics_family: 0, present_family: 2 };
    assert_eq!(
        choose_sharing_mode(&ind),
        SharingMode::Concurrent { graphics_family: 0, present_family: 2 }
    );
}

#[test]
fn scenario_fixed_extent_unbounded_count() {
    // Surface: min 2 images, no upper bound, fixed 800x600 extent, one
    // RGBA sRGB pair, FIFO only.
    let formats = vec![SurfaceFormat {
        format: Format::R8G8B8A8Srgb,
        color_space: ColorSpace::SrgbNonLinear,
    }];
    let c = caps(2, 0, Some(Extent { width: 800, height: 600 }), formats, fifo_only());
    let ind = QueueFamilyIndices { graphics_family: 0, present_family: 0 };
    let config = plan_swap_chain(&c, Extent { width: 1366, height: 768 }, &ind);
    assert_eq!(config.extent, Extent { width: 800, height: 600 });
    assert_eq!(config.image_count, 3);
    assert_eq!(config.format, Format::R8G8B8A8Srgb);
    assert_eq!(config.color_space, ColorSpace::SrgbNonLinear);
    assert_eq!(config.present_mode, PresentMode::Fifo);
    assert_eq!(config.sharing, SharingMode::Exclusive);
}

#[test]
fn scenario_bounded_count_clamps() {
    // min 3, max 3: the suggested min+1 = 4 clamps down to 3.
    let c = caps(3, 3, Some(Extent { width: 800, height: 600 }), vec![srgb_bgra()], fifo_only());
    let ind = QueueFamilyIndices { graphics_family: 0, present_family: 0 };
    let config = plan_swap_chain(&c, Extent { width: 1366, height: 768 }, &ind);
    assert_eq!(config.image_count, 3);
}

#[test]
fn plan_is_deterministic_for_one_surface_state() {
    let make = || caps(2, 4, None, vec![srgb_bgra()], all_modes());
    let ind = QueueFamilyIndices { graphics_family: 0, present_family: 1 };
    let window = Extent { width: 1366, height: 768 };
    let first = plan_swap_chain(&make(), window, &ind);
    let second = plan_swap_chain(&make(), window, &ind);
    assert_eq!(first, second);
}
