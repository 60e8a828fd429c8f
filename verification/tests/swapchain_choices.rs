use vkinit::queue::QueueFamilyIndices;
use vkinit::swapchain::{
    get_swapchain_extent, get_swapchain_present_mode, get_swapchain_surface_format,
    image_sharing, plan_swapchain, swapchain_image_count, Extent2D, SharingMode,
    SurfaceCapabilities, SurfaceFormat, SwapchainSupport,
};

fn caps(min_count: u32, max_count: u32, current: Extent2D) -> SurfaceCapabilities {
    SurfaceCapabilities {
        min_image_count: min_count,
        max_image_count: max_count,
        current_extent: current,
        min_image_extent: Extent2D { width: 100, height: 50 },
        max_image_extent: Extent2D { width: 1000, height: 500 },
        current_transform: 1,
    }
}

#[test]
fn surface_format_prefers_b8g8r8_srgb_nonlinear() {
    let formats = [
        SurfaceFormat { format: 44, color_space: 0 },
        SurfaceFormat { format: 36, color_space: 1 },
        SurfaceFormat { format: 36, color_space: 0 },
    ];
    assert_eq!(get_swapchain_surface_format(&formats), SurfaceFormat { format: 36, color_space: 0 });
}

#[test]
fn surface_format_falls_back_to_first() {
    let formats = [SurfaceFormat { format: 50, color_space: 0 }, SurfaceFormat { format: 44, color_space: 0 }];
    assert_eq!(get_swapchain_surface_format(&formats), SurfaceFormat { format: 50, color_space: 0 });
}

#[test]
fn present_mode_prefers_mailbox() {
    assert_eq!(get_swapchain_present_mode(&[0, 2, 1, 3]), 1);
}

#[test]
fn present_mode_falls_back_to_fifo() {
    assert_eq!(get_swapchain_present_mode(&[0, 3]), 2);
    assert_eq!(get_swapchain_present_mode(&[]), 2);
}

#[test]
fn extent_fixed_by_surface() {
    let c = caps(2, 3, Extent2D { width: 640, height: 480 });
    assert_eq!(get_swapchain_extent(Extent2D { width: 800, height: 900 }, c), Extent2D { width: 640, height: 480 });
}

#[test]
fn extent_from_window_clamped() {
    let c = caps(2, 3, Extent2D { width: u32::MAX, height: u32::MAX });
    assert_eq!(get_swapchain_extent(Extent2D { width: 800, height: 900 }, c), Extent2D { width: 800, height: 500 });
    assert_eq!(get_swapchain_extent(Extent2D { width: 10, height: 60 }, c), Extent2D { width: 100, height: 60 });
}

#[test]
fn image_count_one_above_minimum() {
    assert_eq!(swapchain_image_count(caps(2, 8, Extent2D { width: 1, height: 1 })), 3);
    assert_eq!(swapchain_image_count(caps(2, 0, Extent2D { width: 1, height: 1 })), 3);
}

#[test]
fn image_count_capped_by_maximum() {
    assert_eq!(swapchain_image_count(caps(3, 3, Extent2D { width: 1, height: 1 })), 3);
    assert_eq!(swapchain_image_count(caps(4, 3, Extent2D { width: 1, height: 1 })), 3);
}

#[test]
fn sharing_exclusive_for_one_family() {
    let (mode, families) = image_sharing(QueueFamilyIndices { graphics: 1, present: 1 });
    assert_eq!(mode, SharingMode::Exclusive);
    assert!(families.is_empty());
}

#[test]
fn sharing_concurrent_for_two_families() {
    let (mode, families) = image_sharing(QueueFamilyIndices { graphics: 0, present: 2 });
    assert_eq!(mode, SharingMode::Concurrent);
    assert_eq!(families, vec![0, 2]);
}

#[test]
fn plan_combines_choices() {
    let support = SwapchainSupport {
        capabilities: caps(2, 0, Extent2D { width: u32::MAX, height: u32::MAX }),
        formats: vec![SurfaceFormat { format: 36, color_space: 0 }],
        present_modes: vec![2],
    };
    let plan = plan_swapchain(QueueFamilyIndices { graphics: 0, present: 1 }, &support, Extent2D { width: 800, height: 900 });
    assert_eq!(plan.image_count, 3);
    assert_eq!(plan.surface_format, SurfaceFormat { format: 36, color_space: 0 });
    assert_eq!(plan.extent, Extent2D { width: 800, height: 500 });
    assert_eq!(plan.sharing_mode, SharingMode::Concurrent);
    assert_eq!(plan.queue_family_indices, vec![0, 1]);
    assert_eq!(plan.present_mode, 2);
    assert_eq!(plan.pre_transform, 1);
    assert_eq!(plan.image_array_layers, 1);
    assert_eq!(plan.image_usage, 0x10);
    assert_eq!(plan.composite_alpha, 1);
    assert!(plan.clipped);
    assert_eq!(plan.old_swapchain, 0);
}
