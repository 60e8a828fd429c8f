use vkinit::debug::{message_level, LogLevel};
use vkinit::instance::{
    instance_needs_version, plan_instance, portability_enabled, validation_layer_available, version_ge, ApiVersion,
    InstanceError,
};

fn v(major: u32, minor: u32, patch: u32) -> ApiVersion {
    ApiVersion { major, minor, patch }
}

#[test]
fn portability_version_threshold() {
    assert_eq!(portability_enabled(true, Ok(v(1, 3, 215))), Ok(false));
    assert_eq!(portability_enabled(true, Ok(v(1, 3, 216))), Ok(true));
    assert_eq!(portability_enabled(true, Ok(v(1, 4, 0))), Ok(true));
    assert_eq!(portability_enabled(true, Ok(v(2, 0, 0))), Ok(true));
    assert_eq!(portability_enabled(true, Ok(v(1, 2, 300))), Ok(false));
    assert_eq!(portability_enabled(false, Ok(v(1, 4, 0))), Ok(false));
    assert_eq!(portability_enabled(false, Err(-1)), Ok(false));
    assert_eq!(portability_enabled(true, Err(-1)), Err(-1));
}

#[test]
fn validation_layer_lookup() {
    assert!(validation_layer_available(&[b"X".to_vec(), b"VK_LAYER_KHRONOS_validation".to_vec()]));
    assert!(!validation_layer_available(&[b"VK_LAYER_KHRONOS_validatio".to_vec()]));
}

#[test]
fn instance_with_validation() {
    let window = vec![b"VK_KHR_surface".to_vec(), b"VK_KHR_xlib_surface".to_vec()];
    let layers = vec![b"VK_LAYER_KHRONOS_validation".to_vec()];
    let plan = plan_instance(&window, &layers, true, false, Err(-1)).unwrap();
    assert_eq!(
        plan.extensions,
        vec![
            b"VK_KHR_surface".to_vec(),
            b"VK_KHR_xlib_surface".to_vec(),
            b"VK_EXT_debug_utils".to_vec(),
            b"VK_EXT_debug_utils".to_vec(),
        ]
    );
    assert_eq!(plan.layers, vec![b"VK_LAYER_KHRONOS_validation".to_vec()]);
    assert_eq!(plan.flags, 0);
    assert_eq!(plan.application_name, b"my_first_app\0".to_vec());
    assert_eq!(plan.engine_name, b"No Engine\0".to_vec());
    assert_eq!(plan.application_version, 0);
    assert_eq!(plan.engine_version, 0);
    assert_eq!(plan.api_version, 0);
    assert!(plan.debug_messenger);
    assert_eq!(plan.debug_severities, 0x1111);
    assert_eq!(plan.debug_message_types, 7);
}

#[test]
fn version_comparison() {
    assert!(version_ge(v(1, 3, 216), v(1, 3, 216)));
    assert!(version_ge(v(1, 4, 0), v(1, 3, 216)));
    assert!(!version_ge(v(1, 3, 215), v(1, 3, 216)));
    assert!(!version_ge(v(0, 9, 999), v(1, 0, 0)));
}

#[test]
fn instance_on_macos_with_portability() {
    let window = vec![b"VK_EXT_metal_surface".to_vec()];
    let plan = plan_instance(&window, &[], false, true, Ok(v(1, 3, 250))).unwrap();
    assert_eq!(
        plan.extensions,
        vec![
            b"VK_EXT_metal_surface".to_vec(),
            b"VK_KHR_get_physical_device_properties2".to_vec(),
            b"VK_KHR_portability_enumeration".to_vec(),
        ]
    );
    assert!(plan.layers.is_empty());
    assert_eq!(plan.flags, 1);
    assert!(!plan.debug_messenger);
}

#[test]
fn instance_errors() {
    assert_eq!(
        plan_instance(&[], &[], true, false, Ok(v(1, 3, 0))).unwrap_err(),
        InstanceError::ValidationLayerUnavailable
    );
    assert_eq!(plan_instance(&[], &[], false, true, Err(-9)).unwrap_err(), InstanceError::Vulkan(-9));
}

#[test]
fn message_levels() {
    assert_eq!(message_level(0x1000), LogLevel::Error);
    assert_eq!(message_level(0x1100), LogLevel::Error);
    assert_eq!(message_level(0x100), LogLevel::Warn);
    assert_eq!(message_level(0x10), LogLevel::Debug);
    assert_eq!(message_level(0x1), LogLevel::Trace);
    assert_eq!(message_level(0xFFF), LogLevel::Warn);
}

#[test]
fn version_read_only_when_needed() {
    let with_layer = vec![b"VK_LAYER_KHRONOS_validation".to_vec()];
    assert!(instance_needs_version(&with_layer, true, true));
    assert!(instance_needs_version(&[], false, true));
    assert!(!instance_needs_version(&[], true, true));
    assert!(!instance_needs_version(&with_layer, true, false));
}
