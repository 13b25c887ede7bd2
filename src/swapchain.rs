use vstd::prelude::*;

verus! {

/// Pixel-format code of 8-bit blue, green, red and alpha channels, normalised unsigned.
pub const FORMAT_B8G8R8A8_UNORM: i32 = 44;

/// Color-space code of non-linear sRGB.
pub const COLOR_SPACE_SRGB_NONLINEAR: i32 = 0;

/// Width asked for when the surface leaves the swapchain extent to the application.
pub const DESIRED_WIDTH: u32 = 1024;

/// Height asked for when the surface leaves the swapchain extent to the application.
pub const DESIRED_HEIGHT: u32 = 768;

/// A format a surface can present, as the graphics API numbers it:
/// a pixel-format code and a color-space code.
#[derive(Clone, Copy, Debug, PartialEq, Eq, Structural)]
pub struct SurfaceFormat {
    pub format: i32,
    pub color_space: i32,
}

/// Which presentation modes a surface supports.
#[derive(Clone, Copy, Debug, PartialEq, Eq, Structural)]
pub struct PresentModeSupport {
    pub immediate: bool,
    pub mailbox: bool,
    pub fifo: bool,
    pub relaxed: bool,
}

/// How presented images reach the screen.
#[derive(Clone, Copy, Debug, PartialEq, Eq, Structural)]
pub enum PresentMode {
    /// Shown at once, possibly tearing.
    Immediate,
    /// Waits for the next vertical blank; a newer image replaces a waiting one.
    Mailbox,
    /// Queued and shown one per vertical blank; always supported.
    Fifo,
}

/// Whether swapchain images are owned by one queue family or shared between two.
#[derive(Clone, Copy, Debug, PartialEq, Eq, Structural)]
pub enum SharingMode {
    Exclusive,
    Concurrent,
}

/// What a surface reports about the swapchains it accepts.
#[derive(Debug)]
pub struct SurfaceCapabilities {
    pub min_image_count: u32,
    /// `None` when the surface sets no maximum.
    pub max_image_count: Option<u32>,
    /// `None` when the swapchain's extent decides the surface's size.
    pub current_extent: Option<[u32; 2]>,
    pub min_image_extent: [u32; 2],
    pub max_image_extent: [u32; 2],
    pub supported_formats: Vec<SurfaceFormat>,
    pub present_modes: PresentModeSupport,
}

/// Everything the renderer decides about a swapchain before building it.
#[derive(Clone, Copy, Debug, PartialEq, Eq)]
pub struct SwapchainSettings {
    /// Position of the chosen format in the surface's list of formats.
    pub format_index: usize,
    pub surface_format: SurfaceFormat,
    pub present_mode: PresentMode,
    pub extent: [u32; 2],
    pub image_count: u32,
    pub sharing: SharingMode,
    pub layers: u32,
    pub clipped: bool,
}

#[derive(Clone, Copy, Debug, PartialEq, Eq, Structural)]
pub enum SwapchainError {
    /// The surface reported no format at all.
    NoSurfaceFormats,
}

/// Four 8-bit channels in non-linear sRGB.
pub open spec fn preferred_format() -> SurfaceFormat {
    SurfaceFormat { format: FORMAT_B8G8R8A8_UNORM, color_space: COLOR_SPACE_SRGB_NONLINEAR }
}

pub open spec fn is_preferred_format(f: SurfaceFormat) -> bool {
    f.format == FORMAT_B8G8R8A8_UNORM && f.color_space == COLOR_SPACE_SRGB_NONLINEAR
}

/// The preferred format is the best choice; without it, the first format listed.
pub open spec fn format_choice(available: Seq<SurfaceFormat>) -> SurfaceFormat {
    if exists|k: int| 0 <= k < available.len() && is_preferred_format(#[trigger] available[k]) {
        preferred_format()
    } else {
        available[0]
    }
}

/// Mailbox before immediate, immediate before the always available FIFO.
pub open spec fn present_mode_choice(available: PresentModeSupport) -> PresentMode {
    if available.mailbox {
        PresentMode::Mailbox
    } else if available.immediate {
        PresentMode::Immediate
    } else {
        PresentMode::Fifo
    }
}

/// `desired` brought down to `max`, then up to `min`.
pub open spec fn clamp_dimension(desired: u32, min: u32, max: u32) -> u32 {
    let capped = if desired <= max {
        desired
    } else {
        max
    };
    if capped >= min {
        capped
    } else {
        min
    }
}

/// The surface's own extent where it has one, else the desired size clamped into the
/// surface's bounds, one dimension at a time.
pub open spec fn extent_choice(caps: SurfaceCapabilities, desired_width: u32, desired_height: u32) -> Seq<u32> {
    match caps.current_extent {
        Some(e) => e@,
        None => seq![
            clamp_dimension(desired_width, caps.min_image_extent[0], caps.max_image_extent[0]),
            clamp_dimension(desired_height, caps.min_image_extent[1], caps.max_image_extent[1]),
        ],
    }
}

/// One image more than the minimum, so that the renderer need not wait on the driver,
/// but never more than the maximum (nor than the largest `u32`).
pub open spec fn image_count_choice(caps: SurfaceCapabilities) -> u32 {
    let wanted: u32 = if caps.min_image_count < u32::MAX {
        (caps.min_image_count + 1) as u32
    } else {
        u32::MAX
    };
    match caps.max_image_count {
        Some(m) if wanted > m => m,
        _ => wanted,
    }
}

/// Position of the format to use: the first preferred one, else the first one.
pub fn preferred_format_index(available: &[SurfaceFormat]) -> (r: usize)
    requires
        available@.len() > 0,
    ensures
        r < available@.len(),
        available@[r as int] == format_choice(available@),
        (exists|k: int| 0 <= k < available@.len() && is_preferred_format(#[trigger] available@[k]))
            ==> forall|j: int| 0 <= j < r ==> !is_preferred_format(#[trigger] available@[j]),
        !(exists|k: int| 0 <= k < available@.len() && is_preferred_format(#[trigger] available@[k]))
            ==> r == 0,
{
    let mut i: usize = 0;
    while i < available.len()
        invariant
            i <= available@.len(),
            forall|j: int| 0 <= j < i ==> !is_preferred_format(#[trigger] available@[j]),
        decreases available@.len() - i,
    {
        let f = available[i];
        if f.format == FORMAT_B8G8R8A8_UNORM && f.color_space == COLOR_SPACE_SRGB_NONLINEAR {
            return i;
        }
        i += 1;
    }
    0
}

/// The surface format to use; the preferred one whenever the surface lists it.
pub fn choose_swap_surface_format(available: &[SurfaceFormat]) -> (r: SurfaceFormat)
    requires
        available@.len() > 0,
    ensures
        r == format_choice(available@),
{
    available[preferred_format_index(available)]
}

pub fn choose_swap_present_mode(available: PresentModeSupport) -> (r: PresentMode)
    ensures
        r == present_mode_choice(available),
{
    if available.mailbox {
        PresentMode::Mailbox
    } else if available.immediate {
        PresentMode::Immediate
    } else {
        PresentMode::Fifo
    }
}

pub fn choose_swap_extent(caps: &SurfaceCapabilities, desired_width: u32, desired_height: u32) -> (r: [u32; 2])
    ensures
        r@ == extent_choice(*caps, desired_width, desired_height),
{
    if let Some(current_extent) = caps.current_extent {
        current_extent
    } else {
        let width = caps.min_image_extent[0].max(caps.max_image_extent[0].min(desired_width));
        let height = caps.min_image_extent[1].max(caps.max_image_extent[1].min(desired_height));
        let r = [width, height];
        assert(r@ =~= extent_choice(*caps, desired_width, desired_height));
        r
    }
}

pub fn choose_image_count(caps: &SurfaceCapabilities) -> (r: u32)
    ensures
        r == image_count_choice(*caps),
{
    let mut image_count = caps.min_image_count.saturating_add(1);
    if let Some(max_image_count) = caps.max_image_count {
        if image_count > max_image_count {
            image_count = max_image_count;
        }
    }
    image_count
}

/// Settings for a swapchain on a surface with capabilities `caps`.
/// A surface that reports no format cannot be presented to.
/// Images are shared between queues only when graphics and presentation use two queues.
pub fn swap_chain_settings(
    caps: &SurfaceCapabilities,
    desired_width: u32,
    desired_height: u32,
    graphics_queue_index: u32,
    presentation_queue_index: u32,
) -> (r: Result<SwapchainSettings, SwapchainError>)
    ensures
        caps.supported_formats@.len() == 0 <==> r == Err::<SwapchainSettings, SwapchainError>(
            SwapchainError::NoSurfaceFormats,
        ),
        r matches Ok(s) ==> {
            &&& s.format_index < caps.supported_formats@.len()
            &&& caps.supported_formats@[s.format_index as int] == s.surface_format
            &&& s.surface_format == format_choice(caps.supported_formats@)
            &&& s.present_mode == present_mode_choice(caps.present_modes)
            &&& s.extent@ == extent_choice(*caps, desired_width, desired_height)
            &&& s.image_count == image_count_choice(*caps)
            &&& s.sharing == (if graphics_queue_index == presentation_queue_index {
                SharingMode::Exclusive
            } else {
                SharingMode::Concurrent
            })
            &&& s.layers == 1
            &&& s.clipped
        },
{
    if caps.supported_formats.len() == 0 {
        return Err(SwapchainError::NoSurfaceFormats);
    }
    let format_index = preferred_format_index(caps.supported_formats.as_slice());
    let surface_format = caps.supported_formats[format_index];
    let sharing = if graphics_queue_index == presentation_queue_index {
        SharingMode::Exclusive
    } else {
        SharingMode::Concurrent
    };
    Ok(
        SwapchainSettings {
            format_index,
            surface_format,
            present_mode: choose_swap_present_mode(caps.present_modes),
            extent: choose_swap_extent(caps, desired_width, desired_height),
            image_count: choose_image_count(caps),
            sharing,
            layers: 1,
            clipped: true,
        },
    )
}

/// Where the surface has an extent of its own, the swapchain takes it unchanged; where it
/// has none and its bounds are in order, the chosen extent lies within them in each
/// dimension, and a desired size already within them is kept.
pub proof fn lemma_extent_within_bounds(caps: SurfaceCapabilities, desired_width: u32, desired_height: u32)
    requires
        caps.current_extent is None ==> caps.min_image_extent[0] <= caps.max_image_extent[0]
            && caps.min_image_extent[1] <= caps.max_image_extent[1],
    ensures
        caps.current_extent matches Some(e) ==> extent_choice(caps, desired_width, desired_height)
            == e@,
        caps.current_extent is None ==> {
            let r = extent_choice(caps, desired_width, desired_height);
            &&& r.len() == 2
            &&& caps.min_image_extent[0] <= r[0] <= caps.max_image_extent[0]
            &&& caps.min_image_extent[1] <= r[1] <= caps.max_image_extent[1]
            &&& caps.min_image_extent[0] <= desired_width <= caps.max_image_extent[0] ==> r[0]
                == desired_width
            &&& caps.min_image_extent[1] <= desired_height <= caps.max_image_extent[1] ==> r[1]
                == desired_height
        },
{
}

/// The chosen surface format is the preferred one whenever the surface lists it, and the
/// first listed format otherwise.
pub proof fn lemma_format_preference(available: Seq<SurfaceFormat>)
    requires
        available.len() > 0,
    ensures
        available.contains(preferred_format()) ==> (format_choice(available) == preferred_format()),
        !available.contains(preferred_format()) ==> (format_choice(available) == available[0]),
{
    if available.contains(preferred_format()) {
        let k = choose|k: int| 0 <= k < available.len() && available[k] == preferred_format();
        assert(is_preferred_format(available[k]));
    } else {
        assert forall|k: int| 0 <= k < available.len() implies !is_preferred_format(
            #[trigger] available[k],
        ) by {
            if is_preferred_format(available[k]) {
                assert(available[k] == preferred_format());
            }
        }
    }
}

/// Mailbox is chosen whenever supported; immediate whenever supported and mailbox is not;
/// FIFO only when neither is.
pub proof fn lemma_present_mode_preference(available: PresentModeSupport)
    ensures
        available.mailbox ==> (present_mode_choice(available) == PresentMode::Mailbox),
        (!available.mailbox && available.immediate) ==> (present_mode_choice(available)
            == PresentMode::Immediate),
        (!available.mailbox && !available.immediate) ==> (present_mode_choice(available)
            == PresentMode::Fifo),
{
}

} // verus!
