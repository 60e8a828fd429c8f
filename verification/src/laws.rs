//! Properties that hold across the library's decisions.
use vstd::prelude::*;
use crate::debug::{severity_level, urgency, LogLevel};
use crate::device::{
    device_extensions, device_verdict, enabled_layers, required_device_extensions,
    suitable_device, DeviceInfo,
};
use crate::instance::{
    instance_extensions, instance_failure, instance_flags, portability_outcome, version_at_least,
    version_read, ApiVersion, InstanceError,
};
use crate::error::{DeviceError, SuitabilityError};
use crate::names::{name_views, names_contain, names_contain_all};
use crate::queue::{
    graphics_family, has_graphics, present_family, queue_family_indices, QueueFamily,
};
use crate::search::{first_index, lemma_first_index_found, lemma_first_index_none};
use crate::swapchain::{
    chosen_extent, chosen_image_count, chosen_present_mode, chosen_sharing_mode,
    chosen_surface_format, extent_ranges_valid, preferred_surface_format, sharing_families,
    Extent2D, SharingMode, SurfaceCapabilities, SurfaceFormat,
};
use crate::queue::QueueFamilyIndices;
use crate::vulkan::{
    debug_utils_extension, physical_device_properties2_extension, portability_subset_extension,
    portability_enumeration_extension, swapchain_extension, validation_layer,
    COLOR_SPACE_SRGB_NONLINEAR, FORMAT_B8G8R8_SRGB, INSTANCE_ENUMERATE_PORTABILITY,
    PRESENT_MODE_FIFO, PRESENT_MODE_MAILBOX,
};

verus! {

/// The chosen surface format is one the surface offers, and it is the
/// preferred one whenever the surface offers that.
pub proof fn law_surface_format_offered(formats: Seq<SurfaceFormat>)
    requires
        formats.len() > 0,
    ensures
        formats.contains(chosen_surface_format(formats)),
        formats.contains(preferred_surface_format()) ==> chosen_surface_format(formats)
            == preferred_surface_format(),
{
    assert(formats[0] == formats[0]);
}

/// `B8G8R8_SRGB` in `SRGB_NONLINEAR` is chosen exactly when the surface
/// offers it; otherwise the first offered format is chosen, whatever else is
/// offered.
pub proof fn law_surface_format_fallback(formats: Seq<SurfaceFormat>)
    requires
        formats.len() > 0,
    ensures
        ({
            let srgb = SurfaceFormat {
                format: FORMAT_B8G8R8_SRGB,
                color_space: COLOR_SPACE_SRGB_NONLINEAR,
            };
            &&& formats.contains(srgb) ==> chosen_surface_format(formats) == srgb
            &&& !formats.contains(srgb) ==> chosen_surface_format(formats) == formats[0]
            &&& (chosen_surface_format(formats) == srgb) <==> formats.contains(srgb)
        }),
        FORMAT_B8G8R8_SRGB == 36,
        COLOR_SPACE_SRGB_NONLINEAR == 0,
{
    let srgb = SurfaceFormat { format: FORMAT_B8G8R8_SRGB, color_space: COLOR_SPACE_SRGB_NONLINEAR };
    assert(srgb == preferred_surface_format());
    if chosen_surface_format(formats) == srgb && !formats.contains(srgb) {
        assert(formats[0] == srgb);
        assert(formats.contains(srgb));
    }
}

/// The chosen present mode is mailbox exactly when the surface offers it,
/// and FIFO otherwise.
pub proof fn law_present_mode(present_modes: Seq<i32>)
    ensures
        (chosen_present_mode(present_modes) == PRESENT_MODE_MAILBOX) <==> present_modes.contains(
            PRESENT_MODE_MAILBOX,
        ),
        !present_modes.contains(PRESENT_MODE_MAILBOX) ==> chosen_present_mode(present_modes)
            == PRESENT_MODE_FIFO,
{
}

/// The extent is the surface's own unless its width is `u32::MAX`; then it
/// lies within the allowed extents, and equals the window's size when that
/// already does.
pub proof fn law_extent_within_bounds(window_size: Extent2D, caps: SurfaceCapabilities)
    requires
        extent_ranges_valid(caps),
    ensures
        ({
            let e = chosen_extent(window_size, caps);
            &&& caps.current_extent.width != u32::MAX ==> e == caps.current_extent
            &&& caps.current_extent.width == u32::MAX ==> {
                &&& caps.min_image_extent.width <= e.width <= caps.max_image_extent.width
                &&& caps.min_image_extent.height <= e.height <= caps.max_image_extent.height
                &&& (caps.min_image_extent.width <= window_size.width
                    <= caps.max_image_extent.width && caps.min_image_extent.height
                    <= window_size.height <= caps.max_image_extent.height) ==> e == window_size
                &&& window_size.width < caps.min_image_extent.width ==> e.width
                    == caps.min_image_extent.width
                &&& window_size.width > caps.max_image_extent.width ==> e.width
                    == caps.max_image_extent.width
                &&& window_size.height < caps.min_image_extent.height ==> e.height
                    == caps.min_image_extent.height
                &&& window_size.height > caps.max_image_extent.height ==> e.height
                    == caps.max_image_extent.height
                &&& caps.min_image_extent.width <= window_size.width
                    <= caps.max_image_extent.width ==> e.width == window_size.width
                &&& caps.min_image_extent.height <= window_size.height
                    <= caps.max_image_extent.height ==> e.height == window_size.height
            }
        }),
{
}

/// The image count never exceeds one more than the minimum, nor the maximum
/// when there is one; it is one more than the minimum whenever the maximum
/// allows that.
pub proof fn law_image_count_bounds(caps: SurfaceCapabilities)
    ensures
        chosen_image_count(caps) <= caps.min_image_count + 1,
        caps.max_image_count != 0 ==> chosen_image_count(caps) <= caps.max_image_count,
        (caps.max_image_count == 0 || caps.min_image_count < caps.max_image_count)
            ==> chosen_image_count(caps) == caps.min_image_count + 1,
        caps.min_image_count <= caps.max_image_count || caps.max_image_count == 0
            ==> chosen_image_count(caps) >= caps.min_image_count,
        caps.max_image_count != 0 && caps.min_image_count + 1 > caps.max_image_count
            ==> chosen_image_count(caps) == caps.max_image_count,
{
}

/// Images are shared concurrently exactly when graphics and presentation use
/// different families; then both families are named, else none.
pub proof fn law_sharing(indices: QueueFamilyIndices)
    ensures
        (chosen_sharing_mode(indices) == SharingMode::Concurrent) <==> indices.graphics
            != indices.present,
        (chosen_sharing_mode(indices) == SharingMode::Exclusive) <==> sharing_families(
            indices,
        ).len() == 0,
        chosen_sharing_mode(indices) == SharingMode::Concurrent ==> sharing_families(indices).len()
            == 2 && sharing_families(indices).contains(indices.graphics) && sharing_families(
            indices,
        ).contains(indices.present),
{
    if indices.graphics != indices.present {
        assert(sharing_families(indices)[0] == indices.graphics);
        assert(sharing_families(indices)[1] == indices.present);
    }
}

/// The queue families found are the first that supports graphics and the
/// first that can present; none are found exactly when no family supports
/// graphics or none can present.
pub proof fn law_queue_families(families: Seq<QueueFamily>)
    requires
        families.len() <= u32::MAX + 1,
    ensures
        queue_family_indices(families) matches Some(q) ==> {
            &&& q.graphics < families.len()
            &&& has_graphics(families[q.graphics as int])
            &&& forall|j: int| 0 <= j < q.graphics ==> !has_graphics(#[trigger] families[j])
            &&& q.present < families.len()
            &&& families[q.present as int].supports_present
            &&& forall|j: int| 0 <= j < q.present ==> !(#[trigger] families[j]).supports_present
        },
        queue_family_indices(families) is None <==> (forall|j: int|
            0 <= j < families.len() ==> !has_graphics(#[trigger] families[j])) || (forall|j: int|
            0 <= j < families.len() ==> !(#[trigger] families[j]).supports_present),
{
    lemma_first_index_none(families, graphics_family());
    lemma_first_index_none(families, present_family());
    if queue_family_indices(families) is Some {
        lemma_first_index_found(families, graphics_family());
        lemma_first_index_found(families, present_family());
        let g = first_index(families, graphics_family())->0;
        let p = first_index(families, present_family())->0;
        assert(g as u32 == g);
        assert(p as u32 == p);
        assert forall|j: int| 0 <= j < g implies !has_graphics(#[trigger] families[j]) by {
            assert(!graphics_family()(families[j]));
        }
        assert forall|j: int| 0 <= j < p implies !(#[trigger] families[j]).supports_present by {
            assert(!present_family()(families[j]));
        }
        assert(graphics_family()(families[g]));
    } else {
        if first_index(families, graphics_family()) is None {
            assert forall|j: int| 0 <= j < families.len() implies !has_graphics(
                #[trigger] families[j],
            ) by {
                assert(!graphics_family()(families[j]));
            }
        } else {
            assert forall|j: int| 0 <= j < families.len() implies !(
            #[trigger] families[j]).supports_present by {
                assert(!present_family()(families[j]));
            }
        }
    }
}

/// A suitable device has a graphics and a presenting family, at least one
/// surface format and one present mode, the required extensions, is a
/// discrete GPU and has geometry shaders.
pub proof fn law_suitable_device_is_usable(info: DeviceInfo)
    requires
        device_verdict(info) is Ok,
    ensures
        queue_family_indices(info.queue_families@) is Some,
        info.swapchain_support matches Ok(support) && support.formats@.len() > 0
            && support.present_modes@.len() > 0,
        info.extensions matches Ok(names) && names_contain(name_views(names@), swapchain_extension()),
        info.device_type == crate::vulkan::DEVICE_TYPE_DISCRETE_GPU,
        info.geometry_shader == crate::vulkan::VK_TRUE,
{
    let names = info.extensions->Ok_0;
    assert(names_contain_all(name_views(names@), required_device_extensions()));
    assert(required_device_extensions()[0] == swapchain_extension());
}

/// A device with a graphics and a presenting family, at least one surface
/// format and one present mode, the swapchain extension, a discrete GPU
/// type and geometry shaders is suitable; a device lacking one of these is
/// refused for the first one it lacks, in that order, with that reason, or
/// with the code of the first query that failed.
pub proof fn law_device_verdict_cases(info: DeviceInfo)
    ensures
        ({
            let queues_ok = queue_family_indices(info.queue_families@) is Some;
            let unsuitable = |what: &'static str|
                Err::<(), DeviceError>(DeviceError::Unsuitable(SuitabilityError(what)));
            &&& !queues_ok ==> device_verdict(info) == unsuitable(
                "The queues on your device are not supported",
            )
            &&& queues_ok ==> match info.swapchain_support {
                Err(code) => device_verdict(info) == Err::<(), DeviceError>(
                    DeviceError::Vulkan(code),
                ),
                Ok(support) => if support.formats@.len() == 0 || support.present_modes@.len()
                    == 0 {
                    device_verdict(info) == unsuitable("Your swap chain does not work")
                } else {
                    match info.extensions {
                        Err(code) => device_verdict(info) == Err::<(), DeviceError>(
                            DeviceError::Vulkan(code),
                        ),
                        Ok(names) => if !names_contain(name_views(names@), swapchain_extension()) {
                            device_verdict(info) == unsuitable(
                                "The device does not hvae the needed extentiosn",
                            )
                        } else if info.device_type != 2 {
                            device_verdict(info) == unsuitable("We only support discrete GPUs")
                        } else if info.geometry_shader != 1 {
                            device_verdict(info) == unsuitable(
                                "You need to have geometry shader support",
                            )
                        } else {
                            device_verdict(info) == Ok::<(), DeviceError>(())
                        },
                    }
                },
            }
        }),
{
    if let Ok(names) = info.extensions {
        let views = name_views(names@);
        if names_contain(views, swapchain_extension()) {
            assert forall|k: int| 0 <= k < required_device_extensions().len() implies names_contain(
                views,
                #[trigger] required_device_extensions()[k],
            ) by {
                assert(k == 0);
            }
        } else {
            assert(required_device_extensions()[0] == swapchain_extension());
        }
    }
}

/// The logical device enables exactly the swapchain extension, and the
/// portability subset after it where portability is on.
pub proof fn law_device_extensions_exact(portability: bool)
    ensures
        device_extensions(false) == seq![swapchain_extension()],
        device_extensions(true) == seq![swapchain_extension(), portability_subset_extension()],
{
    assert(device_extensions(false) =~= seq![swapchain_extension()]);
    assert(device_extensions(true) =~= seq![swapchain_extension(), portability_subset_extension()]);
}

/// Planning the instance fails for a missing validation layer exactly when
/// validation is on and the layer is not available; otherwise it fails only
/// on macOS, when the version could not be read, with that code.
pub proof fn law_instance_failure_cases(
    available_layers: Seq<Seq<u8>>,
    validation: bool,
    is_macos: bool,
    version: Result<ApiVersion, i32>,
)
    ensures
        (instance_failure(available_layers, validation, is_macos, version) == Some(
            InstanceError::ValidationLayerUnavailable,
        )) <==> (validation && !names_contain(available_layers, validation_layer())),
        !(validation && !names_contain(available_layers, validation_layer())) ==> instance_failure(
            available_layers,
            validation,
            is_macos,
            version,
        ) == match (is_macos, version) {
            (true, Err(code)) => Some(InstanceError::Vulkan(code)),
            _ => None::<InstanceError>,
        },
{
}

/// The picked device is suitable and every device before it is not; when
/// none is picked, no device is suitable.
pub proof fn law_pick_first_suitable(devices: Seq<DeviceInfo>)
    ensures
        first_index(devices, suitable_device()) matches Some(i) ==> {
            &&& 0 <= i < devices.len()
            &&& device_verdict(devices[i]) is Ok
            &&& forall|j: int| 0 <= j < i ==> device_verdict(#[trigger] devices[j]) is Err
        },
        first_index(devices, suitable_device()) is None <==> forall|j: int|
            0 <= j < devices.len() ==> device_verdict(#[trigger] devices[j]) is Err,
{
    lemma_first_index_none(devices, suitable_device());
    if first_index(devices, suitable_device()) is Some {
        lemma_first_index_found(devices, suitable_device());
        let i = first_index(devices, suitable_device())->0;
        assert(suitable_device()(devices[i]));
        assert forall|j: int| 0 <= j < i implies device_verdict(#[trigger] devices[j]) is Err by {
            assert(!suitable_device()(devices[j]));
        }
    } else {
        assert forall|j: int| 0 <= j < devices.len() implies device_verdict(
            #[trigger] devices[j],
        ) is Err by {
            assert(!suitable_device()(devices[j]));
        }
    }
}

/// The logical device always enables the extensions every picked device is
/// checked to have.
pub proof fn law_device_extensions_include_required(portability: bool)
    ensures
        names_contain_all(device_extensions(portability), required_device_extensions()),
{
    assert forall|k: int| 0 <= k < required_device_extensions().len() implies names_contain(
        device_extensions(portability),
        #[trigger] required_device_extensions()[k],
    ) by {
        assert(device_extensions(portability)[0] == required_device_extensions()[0]);
    }
}

/// With validation on, the instance enables the validation layer and the
/// debug-utils extension; with it off, no layer.
pub proof fn law_validation_setup(
    window_extensions: Seq<Seq<u8>>,
    validation: bool,
    portability: bool,
)
    ensures
        validation ==> enabled_layers(validation) == seq![validation_layer()] && names_contain(
            instance_extensions(window_extensions, validation, portability),
            debug_utils_extension(),
        ),
        !validation ==> enabled_layers(validation).len() == 0,
        instance_extensions(window_extensions, validation, portability).subrange(
            0,
            window_extensions.len() as int,
        ) == window_extensions,
{
    let all = instance_extensions(window_extensions, validation, portability);
    if validation {
        assert(all[window_extensions.len() as int] == debug_utils_extension());
    }
    assert(all.subrange(0, window_extensions.len() as int) =~= window_extensions);
}

/// Portability adds exactly the two portability extensions, after all the
/// others, whether or not validation is on, and exactly the
/// portability-enumeration flag; validation adds the debug-utils extension
/// (named twice) right after the window system's; with neither, the window
/// system's extensions are all.
pub proof fn law_instance_extensions_compose(window_extensions: Seq<Seq<u8>>, validation: bool)
    ensures
        instance_extensions(window_extensions, validation, true) == instance_extensions(
            window_extensions,
            validation,
            false,
        ) + seq![physical_device_properties2_extension(), portability_enumeration_extension()],
        instance_extensions(window_extensions, true, false) == instance_extensions(
            window_extensions,
            false,
            false,
        ) + seq![debug_utils_extension(), debug_utils_extension()],
        instance_extensions(window_extensions, false, false) == window_extensions,
        instance_flags(true) == INSTANCE_ENUMERATE_PORTABILITY,
        instance_flags(false) == 0,
        INSTANCE_ENUMERATE_PORTABILITY != 0,
{
    assert(instance_extensions(window_extensions, validation, true) =~= instance_extensions(
        window_extensions,
        validation,
        false,
    ) + seq![physical_device_properties2_extension(), portability_enumeration_extension()]);
    assert(instance_extensions(window_extensions, true, false) =~= instance_extensions(
        window_extensions,
        false,
        false,
    ) + seq![debug_utils_extension(), debug_utils_extension()]);
    assert(instance_extensions(window_extensions, false, false) =~= window_extensions);
}

/// On macOS portability is on exactly from API version 1.3.216 on, versions
/// ordered by major, then minor, then patch number; a failed version read
/// is passed on; and a later version never turns portability off.
pub proof fn law_portability_from_1_3_216(v: ApiVersion, w: ApiVersion, code: i32)
    ensures
        portability_outcome(true, Ok(v)) == Ok::<bool, i32>(
            v.major > 1 || (v.major == 1 && v.minor > 3) || (v.major == 1 && v.minor == 3
                && v.patch >= 216),
        ),
        portability_outcome(true, Err(code)) == Err::<bool, i32>(code),
        (w.major > v.major || (w.major == v.major && w.minor > v.minor) || (w.major == v.major
            && w.minor == v.minor && w.patch >= v.patch)) && portability_outcome(true, Ok(v))
            == Ok::<bool, i32>(true) ==> portability_outcome(true, Ok(w)) == Ok::<bool, i32>(true),
{
}

/// A version is at least another exactly when it is ordered after or equal
/// to it by major, then minor, then patch number.
pub proof fn law_version_lexicographic(a: ApiVersion, b: ApiVersion)
    ensures
        version_at_least(a, b) <==> (a.major > b.major || (a.major == b.major && a.minor > b.minor)
            || (a.major == b.major && a.minor == b.minor && a.patch >= b.patch)),
{
}

/// Off macOS the portability extensions are never needed, and the version is
/// not consulted.
pub proof fn law_portability_only_on_macos(version: Result<ApiVersion, i32>)
    ensures
        portability_outcome(false, version) == Ok::<bool, i32>(false),
{
}

/// Where planning the instance does not read the API version, the version
/// changes neither whether planning fails nor whether portability is on.
pub proof fn law_instance_version_unread(
    available_layers: Seq<Seq<u8>>,
    validation: bool,
    is_macos: bool,
    v1: Result<ApiVersion, i32>,
    v2: Result<ApiVersion, i32>,
)
    requires
        !version_read(available_layers, validation, is_macos),
    ensures
        instance_failure(available_layers, validation, is_macos, v1) == instance_failure(
            available_layers,
            validation,
            is_macos,
            v2,
        ),
        instance_failure(available_layers, validation, is_macos, v1) is None ==> portability_outcome(
            is_macos,
            v1,
        ) == portability_outcome(is_macos, v2),
{
}

/// Versions are totally ordered: the order is reflexive, transitive,
/// antisymmetric and total.
pub proof fn law_version_order(a: ApiVersion, b: ApiVersion, c: ApiVersion)
    ensures
        version_at_least(a, a),
        version_at_least(a, b) && version_at_least(b, c) ==> version_at_least(a, c),
        version_at_least(a, b) && version_at_least(b, a) ==> a == b,
        version_at_least(a, b) || version_at_least(b, a),
{
}

/// Messages are logged at error level from severity bits `0x1000` up, at
/// warning level from `0x100`, at debug level from `0x10`, and at trace
/// level below.
pub proof fn law_level_thresholds(severity: u32)
    ensures
        severity >= 0x1000 ==> severity_level(severity) == LogLevel::Error,
        0x100 <= severity < 0x1000 ==> severity_level(severity) == LogLevel::Warn,
        0x10 <= severity < 0x100 ==> severity_level(severity) == LogLevel::Debug,
        severity < 0x10 ==> severity_level(severity) == LogLevel::Trace,
{
}

/// A more severe message is never logged at a less urgent level.
pub proof fn law_level_monotone(a: u32, b: u32)
    requires
        a <= b,
    ensures
        urgency(severity_level(a)) <= urgency(severity_level(b)),
{
}

} // verus!
