//! The swapchain's configuration: surface format, present mode, extent,
//! image count and image sharing, chosen from what the surface supports,
//! and the settings fixed for every swapchain.
use vstd::prelude::*;
use crate::queue::QueueFamilyIndices;
use crate::vulkan::{
    color_space_srgb_nonlinear, format_b8g8r8_srgb, present_mode_fifo, present_mode_mailbox,
    COLOR_SPACE_SRGB_NONLINEAR, FORMAT_B8G8R8_SRGB, PRESENT_MODE_FIFO, PRESENT_MODE_MAILBOX,
    composite_alpha_opaque, image_usage_color_attachment, null_swapchain, COMPOSITE_ALPHA_OPAQUE,
    IMAGE_USAGE_COLOR_ATTACHMENT,
};

verus! {

/// A surface format: the raw values of a `vk::Format` and a
/// `vk::ColorSpaceKHR`.
#[derive(Clone, Copy, Debug, PartialEq, Eq, Structural)]
pub struct SurfaceFormat {
    pub format: i32,
    pub color_space: i32,
}

/// A two-dimensional extent in pixels.
#[derive(Clone, Copy, Debug, PartialEq, Eq, Structural)]
pub struct Extent2D {
    pub width: u32,
    pub height: u32,
}

/// What the application reads of a surface's `vk::SurfaceCapabilitiesKHR`;
/// `current_transform` holds the bits of its `vk::SurfaceTransformFlagsKHR`.
#[derive(Clone, Copy, Debug, PartialEq, Eq, Structural)]
pub struct SurfaceCapabilities {
    pub min_image_count: u32,
    pub max_image_count: u32,
    pub current_extent: Extent2D,
    pub min_image_extent: Extent2D,
    pub max_image_extent: Extent2D,
    pub current_transform: u32,
}

/// What a physical device supports for presenting to the surface; present
/// modes are raw `vk::PresentModeKHR` values.
#[derive(Debug)]
pub struct SwapchainSupport {
    pub capabilities: SurfaceCapabilities,
    pub formats: Vec<SurfaceFormat>,
    pub present_modes: Vec<i32>,
}

/// How the swapchain's images are shared between queue families.
#[derive(Clone, Copy, Debug, PartialEq, Eq, Structural)]
pub enum SharingMode {
    Exclusive,
    Concurrent,
}

/// The swapchain's configuration, as passed to `vkCreateSwapchainKHR`.
#[derive(Debug)]
pub struct SwapchainPlan {
    pub image_count: u32,
    pub surface_format: SurfaceFormat,
    pub extent: Extent2D,
    pub sharing_mode: SharingMode,
    pub queue_family_indices: Vec<u32>,
    pub present_mode: i32,
    pub pre_transform: u32,
    /// Layers per image.
    pub image_array_layers: u32,
    /// Bits of the images' `vk::ImageUsageFlags`.
    pub image_usage: u32,
    /// Bits of the `vk::CompositeAlphaFlagsKHR`.
    pub composite_alpha: u32,
    /// Whether pixels hidden by other windows may be discarded.
    pub clipped: bool,
    /// Raw handle of the swapchain replaced (0: none).
    pub old_swapchain: u64,
}

/// The format the application prefers: `B8G8R8_SRGB` in the
/// `SRGB_NONLINEAR` color space.
pub open spec fn preferred_surface_format() -> SurfaceFormat {
    SurfaceFormat { format: FORMAT_B8G8R8_SRGB, color_space: COLOR_SPACE_SRGB_NONLINEAR }
}

/// The preferred format when the surface offers it, else the first offered.
pub open spec fn chosen_surface_format(formats: Seq<SurfaceFormat>) -> SurfaceFormat {
    if formats.contains(preferred_surface_format()) {
        preferred_surface_format()
    } else {
        formats[0]
    }
}

/// Mailbox when the surface offers it, else FIFO.
pub open spec fn chosen_present_mode(present_modes: Seq<i32>) -> i32 {
    if present_modes.contains(PRESENT_MODE_MAILBOX) {
        PRESENT_MODE_MAILBOX
    } else {
        PRESENT_MODE_FIFO
    }
}

/// `value` held within `[low, high]`.
pub open spec fn clamped(value: u32, low: u32, high: u32) -> u32 {
    if value < low {
        low
    } else if value > high {
        high
    } else {
        value
    }
}

/// The surface fixes the extent unless its current width is `u32::MAX`;
/// then the window's size, held within the allowed extents, is used.
pub open spec fn chosen_extent(window_size: Extent2D, caps: SurfaceCapabilities) -> Extent2D {
    if caps.current_extent.width != u32::MAX {
        caps.current_extent
    } else {
        Extent2D {
            width: clamped(window_size.width, caps.min_image_extent.width, caps.max_image_extent.width),
            height: clamped(
                window_size.height,
                caps.min_image_extent.height,
                caps.max_image_extent.height,
            ),
        }
    }
}

/// The allowed extents form ranges wherever the window's size is used.
pub open spec fn extent_ranges_valid(caps: SurfaceCapabilities) -> bool {
    caps.current_extent.width == u32::MAX ==> {
        &&& caps.min_image_extent.width <= caps.max_image_extent.width
        &&& caps.min_image_extent.height <= caps.max_image_extent.height
    }
}

/// One image more than the minimum, but no more than the maximum when there
/// is one (a maximum of 0 means none).
pub open spec fn chosen_image_count(caps: SurfaceCapabilities) -> int {
    if caps.max_image_count != 0 && caps.min_image_count + 1 > caps.max_image_count {
        caps.max_image_count as int
    } else {
        caps.min_image_count + 1
    }
}

/// Concurrent sharing exactly when graphics and presentation use different
/// families.
pub open spec fn chosen_sharing_mode(indices: QueueFamilyIndices) -> SharingMode {
    if indices.graphics != indices.present {
        SharingMode::Concurrent
    } else {
        SharingMode::Exclusive
    }
}

/// The families named for concurrent sharing: both, graphics first; none for
/// exclusive sharing.
pub open spec fn sharing_families(indices: QueueFamilyIndices) -> Seq<u32> {
    if indices.graphics != indices.present {
        seq![indices.graphics, indices.present]
    } else {
        seq![]
    }
}

/// What a swapchain can be planned from without a failure.
pub open spec fn support_plannable(support: SwapchainSupport) -> bool {
    &&& support.formats.len() > 0
    &&& support.capabilities.min_image_count < u32::MAX
    &&& extent_ranges_valid(support.capabilities)
}

/// Chooses the surface format: the first offered one that is `B8G8R8_SRGB`
/// in `SRGB_NONLINEAR`, else the first offered one.
pub fn get_swapchain_surface_format(formats: &[SurfaceFormat]) -> (r: SurfaceFormat)
    requires
        formats@.len() > 0,
    ensures
        r == chosen_surface_format(formats@),
        formats@.contains(r),
{
    let want_format: i32 = format_b8g8r8_srgb();
    let want_color_space: i32 = color_space_srgb_nonlinear();
    let mut i: usize = 0;
    while i < formats.len()
        invariant
            0 <= i <= formats@.len(),
            want_format == FORMAT_B8G8R8_SRGB,
            want_color_space == COLOR_SPACE_SRGB_NONLINEAR,
            forall|j: int| 0 <= j < i ==> #[trigger] formats@[j] != preferred_surface_format(),
        decreases formats@.len() - i,
    {
        let f = formats[i];
        if f.format == want_format && f.color_space == want_color_space {
            assert(formats@[i as int] == preferred_surface_format());
            return f;
        }
        i += 1;
    }
    assert(formats@[0] == formats@[0]);
    formats[0]
}

/// Chooses the present mode: mailbox when offered, else FIFO.
pub fn get_swapchain_present_mode(present_modes: &[i32]) -> (r: i32)
    ensures
        r == chosen_present_mode(present_modes@),
{
    let mailbox: i32 = present_mode_mailbox();
    let mut i: usize = 0;
    while i < present_modes.len()
        invariant
            0 <= i <= present_modes@.len(),
            mailbox == PRESENT_MODE_MAILBOX,
            forall|j: int| 0 <= j < i ==> #[trigger] present_modes@[j] != PRESENT_MODE_MAILBOX,
        decreases present_modes@.len() - i,
    {
        if present_modes[i] == mailbox {
            assert(present_modes@[i as int] == PRESENT_MODE_MAILBOX);
            return present_modes[i];
        }
        i += 1;
    }
    present_mode_fifo()
}

/// `value` held within `[low, high]`, as `u32::clamp` does.
fn clamp_u32(value: u32, low: u32, high: u32) -> (r: u32)
    requires
        low <= high,
    ensures
        r == clamped(value, low, high),
{
    if value < low {
        low
    } else if value > high {
        high
    } else {
        value
    }
}

/// Chooses the swapchain's extent from the surface's capabilities and the
/// window's size in pixels.
pub fn get_swapchain_extent(window_size: Extent2D, capabilities: SurfaceCapabilities) -> (r:
    Extent2D)
    requires
        extent_ranges_valid(capabilities),
    ensures
        r == chosen_extent(window_size, capabilities),
{
    if capabilities.current_extent.width != u32::MAX {
        capabilities.current_extent
    } else {
        Extent2D {
            width: clamp_u32(
                window_size.width,
                capabilities.min_image_extent.width,
                capabilities.max_image_extent.width,
            ),
            height: clamp_u32(
                window_size.height,
                capabilities.min_image_extent.height,
                capabilities.max_image_extent.height,
            ),
        }
    }
}

/// Chooses how many images the swapchain asks for.
pub fn swapchain_image_count(capabilities: SurfaceCapabilities) -> (r: u32)
    requires
        capabilities.min_image_count < u32::MAX,
    ensures
        r == chosen_image_count(capabilities),
{
    let mut image_count: u32 = capabilities.min_image_count + 1;
    if capabilities.max_image_count != 0 && image_count > capabilities.max_image_count {
        image_count = capabilities.max_image_count;
    }
    image_count
}

/// Chooses the sharing mode and the families named for it.
pub fn image_sharing(indices: QueueFamilyIndices) -> (r: (SharingMode, Vec<u32>))
    ensures
        r.0 == chosen_sharing_mode(indices),
        r.1@ == sharing_families(indices),
{
    let mut queue_family_indices: Vec<u32> = Vec::new();
    let mode = if indices.graphics != indices.present {
        queue_family_indices.push(indices.graphics);
        queue_family_indices.push(indices.present);
        SharingMode::Concurrent
    } else {
        SharingMode::Exclusive
    };
    assert(queue_family_indices@ =~= sharing_families(indices));
    (mode, queue_family_indices)
}

/// Plans the swapchain for the chosen queue families, the surface's support
/// and the window's size.
pub fn plan_swapchain(
    indices: QueueFamilyIndices,
    support: &SwapchainSupport,
    window_size: Extent2D,
) -> (r: SwapchainPlan)
    requires
        support_plannable(*support),
    ensures
        r.surface_format == chosen_surface_format(support.formats@),
        r.present_mode == chosen_present_mode(support.present_modes@),
        r.extent == chosen_extent(window_size, support.capabilities),
        r.image_count == chosen_image_count(support.capabilities),
        r.sharing_mode == chosen_sharing_mode(indices),
        r.queue_family_indices@ == sharing_families(indices),
        r.pre_transform == support.capabilities.current_transform,
        r.image_array_layers == 1,
        r.image_usage == IMAGE_USAGE_COLOR_ATTACHMENT,
        r.composite_alpha == COMPOSITE_ALPHA_OPAQUE,
        r.clipped,
        r.old_swapchain == 0,
{
    let surface_format = get_swapchain_surface_format(support.formats.as_slice());
    let present_mode: i32 = get_swapchain_present_mode(support.present_modes.as_slice());
    let extent = get_swapchain_extent(window_size, support.capabilities);
    let image_count: u32 = swapchain_image_count(support.capabilities);
    let (sharing_mode, queue_family_indices) = image_sharing(indices);
    SwapchainPlan {
        image_count,
        surface_format,
        extent,
        sharing_mode,
        queue_family_indices,
        present_mode,
        pre_transform: support.capabilities.current_transform,
        image_array_layers: 1,
        image_usage: image_usage_color_attachment(),
        composite_alpha: composite_alpha_opaque(),
        clipped: true,
        old_swapchain: null_swapchain(),
    }
}

} // verus!
