use triangle_renderer::swapchain::{
    choose_image_count, choose_swap_extent, choose_swap_present_mode, choose_swap_surface_format,
    preferred_format_index, swap_chain_settings, PresentMode, PresentModeSupport, SharingMode,
    SurfaceCapabilities, SurfaceFormat, SwapchainError, COLOR_SPACE_SRGB_NONLINEAR, DESIRED_HEIGHT,
    DESIRED_WIDTH, FORMAT_B8G8R8A8_UNORM,
};

const R8G8B8A8_SRGB: i32 = 43;
const B8G8R8A8_SRGB: i32 = 50;
const DISPLAY_P3_NONLINEAR: i32 = 1000104001;

fn fmt(format: i32, color_space: i32) -> SurfaceFormat {
    SurfaceFormat { format, color_space }
}

fn modes(immediate: bool, mailbox: bool, fifo: bool) -> PresentModeSupport {
    PresentModeSupport { immediate, mailbox, fifo, relaxed: false }
}

fn caps(current_extent: Option<[u32; 2]>, min: [u32; 2], max: [u32; 2]) -> SurfaceCapabilities {
    SurfaceCapabilities {
        min_image_count: 2,
        max_image_count: Some(8),
        current_extent,
        min_image_extent: min,
        max_image_extent: max,
        supported_formats: vec![fmt(R8G8B8A8_SRGB, COLOR_SPACE_SRGB_NONLINEAR)],
        present_modes: modes(false, false, true),
    }
}

#[test]
fn preferred_format_is_chosen_when_listed() {
    let preferred = fmt(FORMAT_B8G8R8A8_UNORM, COLOR_SPACE_SRGB_NONLINEAR);
    let available = vec![
        fmt(R8G8B8A8_SRGB, COLOR_SPACE_SRGB_NONLINEAR),
        fmt(FORMAT_B8G8R8A8_UNORM, DISPLAY_P3_NONLINEAR),
        preferred,
    ];
    assert_eq!(choose_swap_surface_format(&available), preferred);
    assert_eq!(preferred_format_index(&available), 2);
}

#[test]
fn first_format_is_chosen_otherwise() {
    let available = vec![
        fmt(B8G8R8A8_SRGB, COLOR_SPACE_SRGB_NONLINEAR),
        fmt(FORMAT_B8G8R8A8_UNORM, DISPLAY_P3_NONLINEAR),
    ];
    assert_eq!(choose_swap_surface_format(&available), available[0]);
    assert_eq!(preferred_format_index(&available), 0);
    let single = vec![fmt(R8G8B8A8_SRGB, DISPLAY_P3_NONLINEAR)];
    assert_eq!(choose_swap_surface_format(&single), single[0]);
}

#[test]
fn present_mode_preference_order() {
    for immediate in [false, true] {
        for fifo in [false, true] {
            assert_eq!(choose_swap_present_mode(modes(immediate, true, fifo)), PresentMode::Mailbox);
        }
        assert_eq!(
            choose_swap_present_mode(modes(immediate, false, true)),
            if immediate { PresentMode::Immediate } else { PresentMode::Fifo }
        );
    }
    assert_eq!(choose_swap_present_mode(modes(true, false, false)), PresentMode::Immediate);
    assert_eq!(choose_swap_present_mode(modes(false, false, false)), PresentMode::Fifo);
}

#[test]
fn current_extent_is_kept() {
    let c = caps(Some([800, 600]), [1024, 1024], [2048, 2048]);
    assert_eq!(choose_swap_extent(&c, 1024, 768), [800, 600]);
}

#[test]
fn desired_extent_within_bounds() {
    let c = caps(None, [640, 480], [1920, 1080]);
    assert_eq!(choose_swap_extent(&c, 1024, 768), [1024, 768]);
}

#[test]
fn desired_extent_is_clamped() {
    let c = caps(None, [640, 480], [1920, 1080]);
    assert_eq!(choose_swap_extent(&c, 4000, 100), [1920, 480]);
    assert_eq!(choose_swap_extent(&c, 10, 5000), [640, 1080]);
}

#[test]
fn image_count_one_above_minimum() {
    let mut c = caps(None, [1, 1], [10, 10]);
    c.min_image_count = 2;
    c.max_image_count = None;
    assert_eq!(choose_image_count(&c), 3);
    c.max_image_count = Some(3);
    assert_eq!(choose_image_count(&c), 3);
    c.max_image_count = Some(2);
    assert_eq!(choose_image_count(&c), 2);
    c.min_image_count = u32::MAX;
    c.max_image_count = None;
    assert_eq!(choose_image_count(&c), u32::MAX);
}

#[test]
fn settings_need_a_format() {
    let mut c = caps(None, [640, 480], [1920, 1080]);
    c.supported_formats = vec![];
    assert_eq!(
        swap_chain_settings(&c, DESIRED_WIDTH, DESIRED_HEIGHT, 0, 0),
        Err(SwapchainError::NoSurfaceFormats)
    );
}

#[test]
fn settings_from_capabilities() {
    let mut c = caps(None, [640, 480], [1920, 1080]);
    c.supported_formats = vec![
        fmt(R8G8B8A8_SRGB, COLOR_SPACE_SRGB_NONLINEAR),
        fmt(FORMAT_B8G8R8A8_UNORM, COLOR_SPACE_SRGB_NONLINEAR),
    ];
    c.present_modes = modes(true, true, true);
    let s = swap_chain_settings(&c, DESIRED_WIDTH, DESIRED_HEIGHT, 0, 0).unwrap();
    assert_eq!(s.format_index, 1);
    assert_eq!(s.surface_format, fmt(FORMAT_B8G8R8A8_UNORM, COLOR_SPACE_SRGB_NONLINEAR));
    assert_eq!(s.present_mode, PresentMode::Mailbox);
    assert_eq!(s.extent, [1024, 768]);
    assert_eq!(s.image_count, 3);
    assert_eq!(s.sharing, SharingMode::Exclusive);
    assert_eq!(s.layers, 1);
    assert!(s.clipped);

    let s = swap_chain_settings(&c, DESIRED_WIDTH, DESIRED_HEIGHT, 0, 1).unwrap();
    assert_eq!(s.sharing, SharingMode::Concurrent);
}
