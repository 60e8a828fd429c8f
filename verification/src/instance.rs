//! The instance's layers, extensions and creation flags, and whether the
//! portability extensions are needed.
use vstd::prelude::*;
use crate::device::{enabled_layers, layer_names, validation_layer_name};
use crate::names::{contains_name, name_views, names_contain};
use crate::vulkan::{
    debug_utils_extension, debug_utils_extension_name, instance_enumerate_portability,
    physical_device_properties2_extension, physical_device_properties2_extension_name,
    portability_enumeration_extension, portability_enumeration_extension_name, validation_layer,
    INSTANCE_ENUMERATE_PORTABILITY, make_version, message_type_general, message_type_performance,
    message_type_validation, packed_version, severity_all, MESSAGE_TYPE_GENERAL,
    MESSAGE_TYPE_PERFORMANCE, MESSAGE_TYPE_VALIDATION, SEVERITY_ALL,
};

verus! {

/// A Vulkan API version.
#[derive(Clone, Copy, Debug, PartialEq, Eq, Structural)]
pub struct ApiVersion {
    pub major: u32,
    pub minor: u32,
    pub patch: u32,
}

/// The instance's configuration, as passed to `vkCreateInstance`.
#[derive(Debug)]
pub struct InstancePlan {
    pub extensions: Vec<Vec<u8>>,
    pub layers: Vec<Vec<u8>>,
    /// Bits of the `vk::InstanceCreateFlags`.
    pub flags: u32,
    /// The application's name, NUL-terminated.
    pub application_name: Vec<u8>,
    /// The application's version, packed as `vk::make_version` packs it.
    pub application_version: u32,
    /// The engine's name, NUL-terminated.
    pub engine_name: Vec<u8>,
    /// The engine's version, packed.
    pub engine_version: u32,
    /// The API version asked for, packed.
    pub api_version: u32,
    /// Whether a debug messenger is chained into the instance's creation and
    /// created with the instance.
    pub debug_messenger: bool,
    /// Bits of the severities the debug messenger reports.
    pub debug_severities: u32,
    /// Bits of the message types the debug messenger reports.
    pub debug_message_types: u32,
}

/// Why the instance cannot be created.
#[derive(Clone, Copy, Debug, PartialEq, Eq, Structural)]
pub enum InstanceError {
    /// Validation is on but the validation layer is not available.
    ValidationLayerUnavailable,
    /// Reading the API version failed with this raw `vk::Result` code.
    Vulkan(i32),
}

/// `my_first_app`, NUL-terminated.
pub open spec fn application_name() -> Seq<u8> {
    seq![109u8, 121, 95, 102, 105, 114, 115, 116, 95, 97, 112, 112, 0]
}

/// `No Engine`, NUL-terminated.
pub open spec fn engine_name() -> Seq<u8> {
    seq![78u8, 111, 32, 69, 110, 103, 105, 110, 101, 0]
}

/// The debug messenger reports general, validation and performance
/// messages.
pub open spec fn debug_message_types() -> u32 {
    MESSAGE_TYPE_GENERAL | MESSAGE_TYPE_VALIDATION | MESSAGE_TYPE_PERFORMANCE
}

/// Versions ordered by major, then minor, then patch number.
pub open spec fn version_at_least(v: ApiVersion, min: ApiVersion) -> bool {
    ||| v.major > min.major
    ||| v.major == min.major && v.minor > min.minor
    ||| v.major == min.major && v.minor == min.minor && v.patch >= min.patch
}

/// From this version on, the Vulkan SDK on macOS needs the portability
/// extensions.
pub open spec fn portability_macos_version() -> ApiVersion {
    ApiVersion { major: 1, minor: 3, patch: 216 }
}

/// Whether portability is on: only on macOS, and only from the portability
/// version on; the version is read only on macOS.
pub open spec fn portability_outcome(is_macos: bool, version: Result<ApiVersion, i32>) -> Result<
    bool,
    i32,
> {
    if !is_macos {
        Ok(false)
    } else {
        match version {
            Ok(v) => Ok(version_at_least(v, portability_macos_version())),
            Err(code) => Err(code),
        }
    }
}

/// The instance extensions: the window system's, the debug-utils extension
/// (named twice) where validation is on, and the two portability extensions
/// where portability is on.
pub open spec fn instance_extensions(
    window_extensions: Seq<Seq<u8>>,
    validation: bool,
    portability: bool,
) -> Seq<Seq<u8>> {
    window_extensions + (if validation {
        seq![debug_utils_extension(), debug_utils_extension()]
    } else {
        seq![]
    }) + (if portability {
        seq![physical_device_properties2_extension(), portability_enumeration_extension()]
    } else {
        seq![]
    })
}

/// The instance creation flags: portability enumeration where portability
/// is on.
pub open spec fn instance_flags(portability: bool) -> u32 {
    if portability {
        INSTANCE_ENUMERATE_PORTABILITY
    } else {
        0
    }
}

/// Why the instance cannot be planned, if it cannot.
pub open spec fn instance_failure(
    available_layers: Seq<Seq<u8>>,
    validation: bool,
    is_macos: bool,
    version: Result<ApiVersion, i32>,
) -> Option<InstanceError> {
    if validation && !names_contain(available_layers, validation_layer()) {
        Some(InstanceError::ValidationLayerUnavailable)
    } else {
        match portability_outcome(is_macos, version) {
            Err(code) => Some(InstanceError::Vulkan(code)),
            Ok(_) => None,
        }
    }
}

/// Whether planning the instance reads the API version: only on macOS, and
/// only once the validation-layer check has passed.
pub open spec fn version_read(available_layers: Seq<Seq<u8>>, validation: bool, is_macos: bool) -> bool {
    is_macos && !(validation && !names_contain(available_layers, validation_layer()))
}

/// Whether the API version must be read before the instance is planned.
pub fn instance_needs_version(available_layers: &[Vec<u8>], validation: bool, is_macos: bool) -> (r:
    bool)
    ensures
        r == version_read(name_views(available_layers@), validation, is_macos),
{
    is_macos && !(validation && !validation_layer_available(available_layers))
}

/// The version from which the portability extensions are needed on macOS.
pub fn portability_macos_version_value() -> (r: ApiVersion)
    ensures
        r == portability_macos_version(),
{
    ApiVersion { major: 1, minor: 3, patch: 216 }
}

/// Decides whether the portability extensions are needed.
pub fn portability_enabled(is_macos: bool, version: Result<ApiVersion, i32>) -> (r: Result<
    bool,
    i32,
>)
    ensures
        r == portability_outcome(is_macos, version),
{
    if !is_macos {
        return Ok(false);
    }
    match version {
        Ok(v) => Ok(version_ge(v, portability_macos_version_value())),
        Err(code) => Err(code),
    }
}

/// Whether `v` is `min` or a later version: the comparison that
/// `vulkanalia::Version` derives over major, minor and patch number.
pub fn version_ge(v: ApiVersion, min: ApiVersion) -> (r: bool)
    ensures
        r == version_at_least(v, min),
{
    if v.major != min.major {
        v.major > min.major
    } else if v.minor != min.minor {
        v.minor > min.minor
    } else {
        v.patch >= min.patch
    }
}

/// A copy of a name.
fn copy_name(name: &Vec<u8>) -> (r: Vec<u8>)
    ensures
        r@ == name@,
{
    let mut out: Vec<u8> = Vec::new();
    let mut i: usize = 0;
    while i < name.len()
        invariant
            0 <= i <= name@.len(),
            out@ == name@.subrange(0, i as int),
        decreases name@.len() - i,
    {
        out.push(name[i]);
        i += 1;
        assert(out@ =~= name@.subrange(0, i as int));
    }
    assert(out@ =~= name@);
    out
}

/// Whether the validation layer is among the available layers.
pub fn validation_layer_available(available_layers: &[Vec<u8>]) -> (r: bool)
    ensures
        r == names_contain(name_views(available_layers@), validation_layer()),
{
    let layer = validation_layer_name();
    contains_name(available_layers, &layer)
}

/// Plans the instance: its extensions, layers and flags. Fails when
/// validation is on but its layer is not available, or when on macOS the
/// API version could not be read.
pub fn plan_instance(
    window_extensions: &[Vec<u8>],
    available_layers: &[Vec<u8>],
    validation: bool,
    is_macos: bool,
    version: Result<ApiVersion, i32>,
) -> (r: Result<InstancePlan, InstanceError>)
    ensures
        match instance_failure(name_views(available_layers@), validation, is_macos, version) {
            Some(e) => r == Err::<InstancePlan, InstanceError>(e),
            None => r matches Ok(plan) && {
                let portability = portability_outcome(is_macos, version)->Ok_0;
                &&& name_views(plan.extensions@) == instance_extensions(
                    name_views(window_extensions@),
                    validation,
                    portability,
                )
                &&& name_views(plan.layers@) == enabled_layers(validation)
                &&& plan.flags == instance_flags(portability)
                &&& plan.application_name@ == application_name()
                &&& plan.engine_name@ == engine_name()
                &&& plan.application_version == packed_version(0, 0, 0)
                &&& plan.engine_version == packed_version(0, 0, 0)
                &&& plan.api_version == packed_version(0, 0, 0)
                &&& plan.debug_messenger == validation
                &&& plan.debug_severities == SEVERITY_ALL
                &&& plan.debug_message_types == debug_message_types()
            },
        },
{
    let application_name: Vec<u8> = vec![109u8, 121, 95, 102, 105, 114, 115, 116, 95, 97, 112, 112, 0];
    let engine_name: Vec<u8> = vec![78u8, 111, 32, 69, 110, 103, 105, 110, 101, 0];
    let application_version: u32 = make_version(0, 0, 0);
    let engine_version: u32 = make_version(0, 0, 0);
    let api_version: u32 = make_version(0, 0, 0);
    let mut extensions: Vec<Vec<u8>> = Vec::new();
    let mut i: usize = 0;
    while i < window_extensions.len()
        invariant
            0 <= i <= window_extensions@.len(),
            extensions@.len() == i,
            name_views(extensions@) == name_views(window_extensions@).subrange(0, i as int),
        decreases window_extensions@.len() - i,
    {
        let name = copy_name(&window_extensions[i]);
        let ghost prev = extensions@;
        extensions.push(name);
        assert(extensions@ == prev.push(name));
        assert(extensions@[i as int]@ == window_extensions@[i as int]@);
        assert(name_views(extensions@)[i as int] == name_views(window_extensions@)[i as int]);
        i += 1;
        assert(name_views(extensions@) =~= name_views(window_extensions@).subrange(0, i as int));
    }
    assert(name_views(window_extensions@).subrange(0, i as int) =~= name_views(
        window_extensions@,
    ));
    let ghost window_views = name_views(window_extensions@);
    if validation {
        extensions.push(debug_utils_extension_name());
    }
    if validation {
        extensions.push(debug_utils_extension_name());
    }
    let ghost after_validation = name_views(extensions@);
    assert(after_validation =~= window_views + (if validation {
        seq![debug_utils_extension(), debug_utils_extension()]
    } else {
        seq![]
    }));
    if validation && !validation_layer_available(available_layers) {
        return Err(InstanceError::ValidationLayerUnavailable);
    }
    let layers = layer_names(validation);
    let portability = match portability_enabled(is_macos, version) {
        Ok(p) => p,
        Err(code) => {
            return Err(InstanceError::Vulkan(code));
        },
    };
    let flags: u32 = if portability {
        extensions.push(physical_device_properties2_extension_name());
        extensions.push(portability_enumeration_extension_name());
        instance_enumerate_portability()
    } else {
        0
    };
    assert(name_views(extensions@) =~= instance_extensions(window_views, validation, portability));
    let debug_message_types: u32 = message_type_general() | message_type_validation()
        | message_type_performance();
    Ok(
        InstancePlan {
            extensions,
            layers,
            flags,
            application_name,
            application_version,
            engine_name,
            engine_version,
            api_version,
            debug_messenger: validation,
            debug_severities: severity_all(),
            debug_message_types,
        },
    )
}

} // verus!
