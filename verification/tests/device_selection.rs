use vkinit::device::{
    check_physical_device, check_physical_device_extensions, device_extension_names, layer_names,
    pick_physical_device, plan_logical_device, DeviceInfo,
};
use vkinit::error::{DeviceError, SuitabilityError};
use vkinit::queue::{unique_queue_families, QueueFamily, QueueFamilyIndices};
use vkinit::swapchain::{Extent2D, SurfaceCapabilities, SurfaceFormat, SwapchainSupport};

fn support(formats: usize, modes: usize) -> SwapchainSupport {
    SwapchainSupport {
        capabilities: SurfaceCapabilities {
            min_image_count: 2,
            max_image_count: 0,
            current_extent: Extent2D { width: 800, height: 600 },
            min_image_extent: Extent2D { width: 1, height: 1 },
            max_image_extent: Extent2D { width: 4096, height: 4096 },
            current_transform: 1,
        },
        formats: vec![SurfaceFormat { format: 44, color_space: 0 }; formats],
        present_modes: vec![2; modes],
    }
}

fn good_device() -> DeviceInfo {
    DeviceInfo {
        queue_families: vec![
            QueueFamily { queue_flags: 0b110, supports_present: true },
            QueueFamily { queue_flags: 0b111, supports_present: true },
        ],
        swapchain_support: Ok(support(1, 1)),
        extensions: Ok(vec![b"VK_KHR_maintenance1".to_vec(), b"VK_KHR_swapchain".to_vec()]),
        device_type: 2,
        geometry_shader: 1,
    }
}

fn unsuitable(what: &'static str) -> Result<(), DeviceError> {
    Err(DeviceError::Unsuitable(SuitabilityError(what)))
}

#[test]
fn queue_families_first_graphics_and_first_present() {
    let families = [
        QueueFamily { queue_flags: 0b100, supports_present: false },
        QueueFamily { queue_flags: 0b011, supports_present: false },
        QueueFamily { queue_flags: 0b001, supports_present: true },
    ];
    let q = QueueFamilyIndices::get(&families).unwrap();
    assert_eq!(q, QueueFamilyIndices { graphics: 1, present: 2 });
}

#[test]
fn queue_families_missing() {
    let families = [QueueFamily { queue_flags: 0b010, supports_present: true }];
    let e = QueueFamilyIndices::get(&families).unwrap_err();
    assert_eq!(e, SuitabilityError("The queues on your device are not supported"));
    let none = QueueFamilyIndices::get(&[QueueFamily { queue_flags: 1, supports_present: false }]);
    assert!(none.is_err());
}

#[test]
fn suitability_message() {
    let e = SuitabilityError("We only support discrete GPUs");
    assert_eq!(e.message(), "Missing We only support discrete GPUs.");
}

#[test]
fn unique_families_one_or_two() {
    assert_eq!(unique_queue_families(QueueFamilyIndices { graphics: 3, present: 3 }), vec![3]);
    let mut both = unique_queue_families(QueueFamilyIndices { graphics: 4, present: 1 });
    both.sort();
    assert_eq!(both, vec![1, 4]);
}

#[test]
fn extensions_check() {
    assert_eq!(check_physical_device_extensions(&[b"VK_KHR_swapchain".to_vec()]), Ok(()));
    assert_eq!(
        check_physical_device_extensions(&[b"VK_KHR_swapchain2".to_vec(), b"VK_KHR".to_vec()]),
        Err(SuitabilityError("The device does not hvae the needed extentiosn"))
    );
}

#[test]
fn device_checks_in_order() {
    assert_eq!(check_physical_device(&good_device()), Ok(()));

    let mut d = good_device();
    d.queue_families = vec![QueueFamily { queue_flags: 0b10, supports_present: true }];
    d.device_type = 1;
    assert_eq!(check_physical_device(&d), unsuitable("The queues on your device are not supported"));

    let mut d = good_device();
    d.swapchain_support = Err(-1000000000);
    d.device_type = 1;
    assert_eq!(check_physical_device(&d), Err(DeviceError::Vulkan(-1000000000)));

    let mut d = good_device();
    d.swapchain_support = Ok(support(1, 0));
    assert_eq!(check_physical_device(&d), unsuitable("Your swap chain does not work"));
    d.swapchain_support = Ok(support(0, 1));
    assert_eq!(check_physical_device(&d), unsuitable("Your swap chain does not work"));

    let mut d = good_device();
    d.extensions = Err(-3);
    assert_eq!(check_physical_device(&d), Err(DeviceError::Vulkan(-3)));
    d.extensions = Ok(vec![]);
    assert_eq!(check_physical_device(&d), unsuitable("The device does not hvae the needed extentiosn"));

    let mut d = good_device();
    d.device_type = 1;
    assert_eq!(check_physical_device(&d), unsuitable("We only support discrete GPUs"));

    let mut d = good_device();
    d.geometry_shader = 0;
    assert_eq!(check_physical_device(&d), unsuitable("You need to have geometry shader support"));
}

#[test]
fn pick_first_suitable_device() {
    let mut integrated = good_device();
    integrated.device_type = 1;
    let devices = vec![integrated, good_device(), good_device()];
    let s = pick_physical_device(&devices);
    assert_eq!(s.chosen, Some(1));
    assert_eq!(s.rejected, vec![DeviceError::Unsuitable(SuitabilityError("We only support discrete GPUs"))]);
}

#[test]
fn pick_none() {
    let mut a = good_device();
    a.geometry_shader = 0;
    let mut b = good_device();
    b.extensions = Err(-7);
    let s = pick_physical_device(&[a, b]);
    assert_eq!(s.chosen, None);
    assert_eq!(
        s.rejected,
        vec![
            DeviceError::Unsuitable(SuitabilityError("You need to have geometry shader support")),
            DeviceError::Vulkan(-7),
        ]
    );
    assert_eq!(pick_physical_device(&[]).chosen, None);
}

#[test]
fn logical_device_layers_and_extensions() {
    assert_eq!(layer_names(true), vec![b"VK_LAYER_KHRONOS_validation".to_vec()]);
    assert!(layer_names(false).is_empty());
    assert_eq!(device_extension_names(false), vec![b"VK_KHR_swapchain".to_vec()]);
    assert_eq!(
        device_extension_names(true),
        vec![b"VK_KHR_swapchain".to_vec(), b"VK_KHR_portability_subset".to_vec()]
    );
    let plan = plan_logical_device(QueueFamilyIndices { graphics: 0, present: 0 }, true, false);
    assert_eq!(plan.queue_families, vec![0]);
    assert_eq!(plan.layers.len(), 1);
    assert_eq!(plan.extensions.len(), 1);
}
