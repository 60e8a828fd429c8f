//! Physical device suitability and selection, and the layers and extensions
//! that the logical device enables.
use vstd::prelude::*;
use crate::error::{DeviceError, SuitabilityError};
use crate::names::{contains_name, name_views, names_contain, names_contain_all};
use crate::queue::{queue_family_indices, queues_unsupported, QueueFamily, QueueFamilyIndices};
use crate::search::{first_index, is_first, lemma_first_index_is, lemma_first_index_none};
use crate::swapchain::SwapchainSupport;
use crate::vulkan::{
    device_type_discrete_gpu, portability_subset_extension, portability_subset_extension_name,
    extension_name_from_bytes, lemma_string_array_keeps_short_names, swapchain_extension,
    swapchain_extension_name, validation_layer,
    vk_true, DEVICE_TYPE_DISCRETE_GPU, VK_TRUE,
};

verus! {

/// What the application learns of one physical device. A failed query is
/// kept as its raw `vk::Result` code.
#[derive(Debug)]
pub struct DeviceInfo {
    /// Each queue family's flags and whether it can present to the surface.
    pub queue_families: Vec<QueueFamily>,
    /// The surface capabilities, formats and present modes.
    pub swapchain_support: Result<SwapchainSupport, i32>,
    /// The names of the device's extensions.
    pub extensions: Result<Vec<Vec<u8>>, i32>,
    /// Raw `vk::PhysicalDeviceType`.
    pub device_type: i32,
    /// The `geometry_shader` feature, a `vk::Bool32`.
    pub geometry_shader: u32,
}

/// The outcome of the search for a physical device.
#[derive(Debug)]
pub struct DeviceSelection {
    /// The index of the first suitable device, if any.
    pub chosen: Option<usize>,
    /// Why each device before the chosen one (or each device, when none is
    /// chosen) was skipped, in order.
    pub rejected: Vec<DeviceError>,
}

/// The layers and extensions a logical device enables, and the queue
/// families it asks one queue each of.
#[derive(Debug)]
pub struct LogicalDevicePlan {
    pub queue_families: Vec<u32>,
    pub layers: Vec<Vec<u8>>,
    pub extensions: Vec<Vec<u8>>,
}

/// The extensions every chosen device must have.
pub open spec fn required_device_extensions() -> Seq<Seq<u8>> {
    seq![swapchain_extension()]
}

/// A device refused for lacking `what`.
pub open spec fn unsuitable(what: &'static str) -> Result<(), DeviceError> {
    Err(DeviceError::Unsuitable(SuitabilityError(what)))
}

/// The text when a device offers no surface format or no present mode.
pub open spec fn swapchain_unsupported() -> &'static str {
    "Your swap chain does not work"
}

/// The text when a device lacks a required extension.
pub open spec fn extensions_missing() -> &'static str {
    "The device does not hvae the needed extentiosn"
}

/// The text when a device is not a discrete GPU.
pub open spec fn not_discrete() -> &'static str {
    "We only support discrete GPUs"
}

/// The text when a device lacks geometry shaders.
pub open spec fn no_geometry_shader() -> &'static str {
    "You need to have geometry shader support"
}

/// The verdict on a device, its checks taken in order: queue families,
/// swapchain support, extensions, device type, geometry shaders.
pub open spec fn device_verdict(info: DeviceInfo) -> Result<(), DeviceError> {
    if queue_family_indices(info.queue_families@) is None {
        unsuitable(queues_unsupported())
    } else {
        match info.swapchain_support {
            Err(code) => Err(DeviceError::Vulkan(code)),
            Ok(support) => if support.present_modes@.len() == 0 || support.formats@.len() == 0 {
                unsuitable(swapchain_unsupported())
            } else {
                match info.extensions {
                    Err(code) => Err(DeviceError::Vulkan(code)),
                    Ok(names) => if !names_contain_all(
                        name_views(names@),
                        required_device_extensions(),
                    ) {
                        unsuitable(extensions_missing())
                    } else if info.device_type != DEVICE_TYPE_DISCRETE_GPU {
                        unsuitable(not_discrete())
                    } else if info.geometry_shader != VK_TRUE {
                        unsuitable(no_geometry_shader())
                    } else {
                        Ok(())
                    },
                }
            },
        }
    }
}

/// Predicate: the device passes every check.
pub open spec fn suitable_device() -> spec_fn(DeviceInfo) -> bool {
    |info: DeviceInfo| device_verdict(info) is Ok
}

/// The device extensions to enable: the required ones, and the portability
/// subset where portability is on.
pub open spec fn device_extensions(portability: bool) -> Seq<Seq<u8>> {
    if portability {
        required_device_extensions().push(portability_subset_extension())
    } else {
        required_device_extensions()
    }
}

/// The layers to enable: the validation layer where validation is on.
pub open spec fn enabled_layers(validation: bool) -> Seq<Seq<u8>> {
    if validation {
        seq![validation_layer()]
    } else {
        seq![]
    }
}

/// Checks that the device offers every required extension.
pub fn check_physical_device_extensions(available: &[Vec<u8>]) -> (r: Result<(), SuitabilityError>)
    ensures
        r is Ok <==> names_contain_all(name_views(available@), required_device_extensions()),
        r is Err ==> r->Err_0.0 == extensions_missing(),
{
    let required = swapchain_extension_name();
    if contains_name(available, &required) {
        assert forall|k: int| 0 <= k < required_device_extensions().len() implies names_contain(
            name_views(available@),
            #[trigger] required_device_extensions()[k],
        ) by {
            assert(k == 0);
        }
        Ok(())
    } else {
        assert(!names_contain(name_views(available@), required_device_extensions()[0]));
        Err(SuitabilityError("The device does not hvae the needed extentiosn"))
    }
}

/// Checks a physical device, in order: a graphics and a presenting queue
/// family, at least one surface format and present mode, the required
/// extensions, a discrete GPU, geometry shaders.
pub fn check_physical_device(info: &DeviceInfo) -> (r: Result<(), DeviceError>)
    ensures
        r == device_verdict(*info),
{
    match QueueFamilyIndices::get(info.queue_families.as_slice()) {
        Ok(_) => {},
        Err(e) => {
            return Err(DeviceError::Unsuitable(e));
        },
    }
    let support = match &info.swapchain_support {
        Ok(s) => s,
        Err(code) => {
            return Err(DeviceError::Vulkan(*code));
        },
    };
    if support.present_modes.len() == 0 || support.formats.len() == 0 {
        return Err(DeviceError::Unsuitable(SuitabilityError("Your swap chain does not work")));
    }
    match &info.extensions {
        Ok(names) => match check_physical_device_extensions(names.as_slice()) {
            Ok(_) => {},
            Err(e) => {
                return Err(DeviceError::Unsuitable(e));
            },
        },
        Err(code) => {
            return Err(DeviceError::Vulkan(*code));
        },
    }
    if info.device_type != device_type_discrete_gpu() {
        return Err(DeviceError::Unsuitable(SuitabilityError("We only support discrete GPUs")));
    }
    if info.geometry_shader != vk_true() {
        return Err(
            DeviceError::Unsuitable(SuitabilityError("You need to have geometry shader support")),
        );
    }
    Ok(())
}

/// Picks the first suitable physical device, recording why each device
/// before it was skipped.
pub fn pick_physical_device(devices: &[DeviceInfo]) -> (r: DeviceSelection)
    ensures
        match first_index(devices@, suitable_device()) {
            Some(i) => r.chosen == Some(i as usize),
            None => r.chosen is None,
        },
        r.rejected@.len() == match r.chosen {
            Some(i) => i as int,
            None => devices@.len() as int,
        },
        forall|j: int|
            0 <= j < r.rejected@.len() ==> device_verdict(devices@[j]) == Err::<(), DeviceError>(
                #[trigger] r.rejected@[j],
            ),
{
    let mut rejected: Vec<DeviceError> = Vec::new();
    let mut i: usize = 0;
    while i < devices.len()
        invariant
            0 <= i <= devices@.len(),
            rejected@.len() == i,
            forall|j: int|
                0 <= j < i ==> device_verdict(devices@[j]) == Err::<(), DeviceError>(
                    #[trigger] rejected@[j],
                ),
        decreases devices@.len() - i,
    {
        match check_physical_device(&devices[i]) {
            Ok(_) => {
                proof {
                    assert forall|j: int| 0 <= j < i implies !suitable_device()(
                        #[trigger] devices@[j],
                    ) by {
                        assert(device_verdict(devices@[j]) == Err::<(), DeviceError>(
                            rejected@[j],
                        ));
                    }
                    assert(is_first(devices@, i as int, suitable_device()));
                    lemma_first_index_is(devices@, i as int, suitable_device());
                }
                return DeviceSelection { chosen: Some(i), rejected };
            },
            Err(e) => {
                rejected.push(e);
            },
        }
        i += 1;
    }
    proof {
        assert forall|j: int| 0 <= j < devices@.len() implies !suitable_device()(
            #[trigger] devices@[j],
        ) by {
            assert(device_verdict(devices@[j]) == Err::<(), DeviceError>(rejected@[j]));
        }
        lemma_first_index_none(devices@, suitable_device());
    }
    DeviceSelection { chosen: None, rejected }
}

/// The Khronos validation layer's name, as a `vk::ExtensionName` holds it.
pub fn validation_layer_name() -> (r: Vec<u8>)
    ensures
        r@ == validation_layer(),
{
    let bytes: Vec<u8> = vec![
        86u8, 75, 95, 76, 65, 89, 69, 82, 95, 75, 72, 82, 79, 78, 79, 83, 95, 118, 97, 108, 105,
        100, 97, 116, 105, 111, 110,
    ];
    proof {
        assert(bytes@ == validation_layer());
        assert forall|i: int| 0 <= i < bytes@.len() implies #[trigger] bytes@[i] != 0 by {}
        lemma_string_array_keeps_short_names(bytes@, 255);
    }
    extension_name_from_bytes(bytes.as_slice())
}

/// The layers to enable on the instance and on the logical device.
pub fn layer_names(validation: bool) -> (r: Vec<Vec<u8>>)
    ensures
        name_views(r@) == enabled_layers(validation),
{
    let mut layers: Vec<Vec<u8>> = Vec::new();
    if validation {
        layers.push(validation_layer_name());
    }
    assert(name_views(layers@) =~= enabled_layers(validation));
    layers
}

/// The extensions to enable on the logical device.
pub fn device_extension_names(portability: bool) -> (r: Vec<Vec<u8>>)
    ensures
        name_views(r@) == device_extensions(portability),
{
    let mut extensions: Vec<Vec<u8>> = Vec::new();
    extensions.push(swapchain_extension_name());
    if portability {
        extensions.push(portability_subset_extension_name());
    }
    assert(name_views(extensions@) =~= device_extensions(portability));
    extensions
}

/// Plans the logical device: one queue of each distinct chosen family, the
/// validation layer where validation is on, and the device extensions.
pub fn plan_logical_device(
    indices: QueueFamilyIndices,
    validation: bool,
    portability: bool,
) -> (r: LogicalDevicePlan)
    ensures
        r.queue_families@.no_duplicates(),
        r.queue_families@.to_set() == crate::queue::unique_families(indices),
        name_views(r.layers@) == enabled_layers(validation),
        name_views(r.extensions@) == device_extensions(portability),
{
    let queue_families = crate::queue::unique_queue_families(indices);
    let layers = layer_names(validation);
    let extensions = device_extension_names(portability);
    LogicalDevicePlan { queue_families, layers, extensions }
}

} // verus!
