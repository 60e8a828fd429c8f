//! The values this library takes from `vulkanalia`: enum values, flag bits,
//! extension and layer names, handle values and version numbers.
//!
//! Each executable function here reads one item of `vulkanalia` and hands it
//! back as a plain value; its contract states the value that the item has in
//! the `vulkanalia` source.
use vstd::prelude::*;
use vulkanalia::vk;
use vulkanalia::vk::Handle;

verus! {

/// Raw value of `vk::Format::B8G8R8_SRGB`.
pub const FORMAT_B8G8R8_SRGB: i32 = 36;

/// Raw value of `vk::ColorSpaceKHR::SRGB_NONLINEAR`.
pub const COLOR_SPACE_SRGB_NONLINEAR: i32 = 0;

/// Raw value of `vk::PresentModeKHR::MAILBOX`.
pub const PRESENT_MODE_MAILBOX: i32 = 1;

/// Raw value of `vk::PresentModeKHR::FIFO`.
pub const PRESENT_MODE_FIFO: i32 = 2;

/// Bits of `vk::QueueFlags::GRAPHICS`.
pub const QUEUE_GRAPHICS_BIT: u32 = 1;

/// Raw value of `vk::PhysicalDeviceType::DISCRETE_GPU`.
pub const DEVICE_TYPE_DISCRETE_GPU: i32 = 2;

/// Value of `vk::TRUE`.
pub const VK_TRUE: u32 = 1;

/// Bits of `vk::DebugUtilsMessageSeverityFlagsEXT::ERROR`.
pub const SEVERITY_ERROR: u32 = 0x1000;

/// Bits of `vk::DebugUtilsMessageSeverityFlagsEXT::WARNING`.
pub const SEVERITY_WARNING: u32 = 0x100;

/// Bits of `vk::DebugUtilsMessageSeverityFlagsEXT::INFO`.
pub const SEVERITY_INFO: u32 = 0x10;

/// Bits of `vk::InstanceCreateFlags::ENUMERATE_PORTABILITY_KHR`.
pub const INSTANCE_ENUMERATE_PORTABILITY: u32 = 1;

/// Bits of `vk::ImageUsageFlags::COLOR_ATTACHMENT`.
pub const IMAGE_USAGE_COLOR_ATTACHMENT: u32 = 0x10;

/// Bits of `vk::CompositeAlphaFlagsKHR::OPAQUE`.
pub const COMPOSITE_ALPHA_OPAQUE: u32 = 1;

/// Bits of `vk::DebugUtilsMessageSeverityFlagsEXT::all()`: verbose, info,
/// warning and error.
pub const SEVERITY_ALL: u32 = 0x1111;

/// Bits of `vk::DebugUtilsMessageTypeFlagsEXT::GENERAL`.
pub const MESSAGE_TYPE_GENERAL: u32 = 1;

/// Bits of `vk::DebugUtilsMessageTypeFlagsEXT::VALIDATION`.
pub const MESSAGE_TYPE_VALIDATION: u32 = 2;

/// Bits of `vk::DebugUtilsMessageTypeFlagsEXT::PERFORMANCE`.
pub const MESSAGE_TYPE_PERFORMANCE: u32 = 4;

/// `vk::make_version`: the major number in bits 22 and up, the minor number
/// in bits 12 to 21, the patch number below, combined with `|` on `u32`.
pub open spec fn packed_version(major: u32, minor: u32, patch: u32) -> u32 {
    (major << 22u32) | (minor << 12u32) | patch
}

/// What `vk::ExtensionName::from_bytes` keeps of `bytes`, read back up to
/// the terminating NUL: the bytes before the first NUL, at most `limit` of
/// them (the array's length less one).
pub open spec fn string_array_bytes(bytes: Seq<u8>, limit: nat) -> Seq<u8>
    decreases limit,
{
    if limit == 0 || bytes.len() == 0 || bytes[0] == 0 {
        seq![]
    } else {
        seq![bytes[0]] + string_array_bytes(bytes.drop_first(), (limit - 1) as nat)
    }
}

/// `VK_KHR_swapchain`, as bytes.
pub open spec fn swapchain_extension() -> Seq<u8> {
    seq![86u8, 75, 95, 75, 72, 82, 95, 115, 119, 97, 112, 99, 104, 97, 105, 110]
}

/// `VK_EXT_debug_utils`, as bytes.
pub open spec fn debug_utils_extension() -> Seq<u8> {
    seq![86u8, 75, 95, 69, 88, 84, 95, 100, 101, 98, 117, 103, 95, 117, 116, 105, 108, 115]
}

/// `VK_KHR_portability_subset`, as bytes.
pub open spec fn portability_subset_extension() -> Seq<u8> {
    seq![
        86u8, 75, 95, 75, 72, 82, 95, 112, 111, 114, 116, 97, 98, 105, 108, 105, 116, 121, 95,
        115, 117, 98, 115, 101, 116,
    ]
}

/// `VK_KHR_get_physical_device_properties2`, as bytes.
pub open spec fn physical_device_properties2_extension() -> Seq<u8> {
    seq![
        86u8, 75, 95, 75, 72, 82, 95, 103, 101, 116, 95, 112, 104, 121, 115, 105, 99, 97, 108,
        95, 100, 101, 118, 105, 99, 101, 95, 112, 114, 111, 112, 101, 114, 116, 105, 101, 115, 50,
    ]
}

/// `VK_KHR_portability_enumeration`, as bytes.
pub open spec fn portability_enumeration_extension() -> Seq<u8> {
    seq![
        86u8, 75, 95, 75, 72, 82, 95, 112, 111, 114, 116, 97, 98, 105, 108, 105, 116, 121, 95,
        101, 110, 117, 109, 101, 114, 97, 116, 105, 111, 110,
    ]
}

/// `VK_LAYER_KHRONOS_validation`, as bytes.
pub open spec fn validation_layer() -> Seq<u8> {
    seq![
        86u8, 75, 95, 76, 65, 89, 69, 82, 95, 75, 72, 82, 79, 78, 79, 83, 95, 118, 97, 108, 105,
        100, 97, 116, 105, 111, 110,
    ]
}

/// Reads `vk::Format::B8G8R8_SRGB` (a `#[repr(transparent)]` wrapper of
/// `i32`, defined as `Self(36)`) through `as_raw`.
#[verifier::external_body]
pub(crate) fn format_b8g8r8_srgb() -> (r: i32)
    ensures
        r == FORMAT_B8G8R8_SRGB,
{
    vk::Format::B8G8R8_SRGB.as_raw()
}

/// Reads `vk::ColorSpaceKHR::SRGB_NONLINEAR` (defined as `Self(0)`) through
/// `as_raw`.
#[verifier::external_body]
pub(crate) fn color_space_srgb_nonlinear() -> (r: i32)
    ensures
        r == COLOR_SPACE_SRGB_NONLINEAR,
{
    vk::ColorSpaceKHR::SRGB_NONLINEAR.as_raw()
}

/// Reads `vk::PresentModeKHR::MAILBOX` (defined as `Self(1)`) through
/// `as_raw`.
#[verifier::external_body]
pub(crate) fn present_mode_mailbox() -> (r: i32)
    ensures
        r == PRESENT_MODE_MAILBOX,
{
    vk::PresentModeKHR::MAILBOX.as_raw()
}

/// Reads `vk::PresentModeKHR::FIFO` (defined as `Self(2)`) through `as_raw`.
#[verifier::external_body]
pub(crate) fn present_mode_fifo() -> (r: i32)
    ensures
        r == PRESENT_MODE_FIFO,
{
    vk::PresentModeKHR::FIFO.as_raw()
}

/// Asks `vk::QueueFlags::contains` whether the flags with the given bits hold
/// `vk::QueueFlags::GRAPHICS`. The flags are made with `from_bits_truncate`,
/// which keeps the known bits; `GRAPHICS` is the known bit `1`, and in
/// bitflags 1.3 `contains(other)` is `(self.bits & other.bits) == other.bits`.
#[verifier::external_body]
pub(crate) fn queue_flags_have_graphics(bits: u32) -> (r: bool)
    ensures
        r == (bits & QUEUE_GRAPHICS_BIT == QUEUE_GRAPHICS_BIT),
{
    vk::QueueFlags::from_bits_truncate(bits).contains(vk::QueueFlags::GRAPHICS)
}

/// Reads `vk::PhysicalDeviceType::DISCRETE_GPU` (defined as `Self(2)`)
/// through `as_raw`.
#[verifier::external_body]
pub(crate) fn device_type_discrete_gpu() -> (r: i32)
    ensures
        r == DEVICE_TYPE_DISCRETE_GPU,
{
    vk::PhysicalDeviceType::DISCRETE_GPU.as_raw()
}

/// Reads `vk::TRUE` (defined as `1`).
#[verifier::external_body]
pub(crate) fn vk_true() -> (r: u32)
    ensures
        r == VK_TRUE,
{
    vk::TRUE
}

/// Reads the bits of `vk::DebugUtilsMessageSeverityFlagsEXT::ERROR`
/// (defined as `1 << 12`).
#[verifier::external_body]
pub(crate) fn severity_error() -> (r: u32)
    ensures
        r == SEVERITY_ERROR,
{
    vk::DebugUtilsMessageSeverityFlagsEXT::ERROR.bits()
}

/// Reads the bits of `vk::DebugUtilsMessageSeverityFlagsEXT::WARNING`
/// (defined as `1 << 8`).
#[verifier::external_body]
pub(crate) fn severity_warning() -> (r: u32)
    ensures
        r == SEVERITY_WARNING,
{
    vk::DebugUtilsMessageSeverityFlagsEXT::WARNING.bits()
}

/// Reads the bits of `vk::DebugUtilsMessageSeverityFlagsEXT::INFO`
/// (defined as `1 << 4`).
#[verifier::external_body]
pub(crate) fn severity_info() -> (r: u32)
    ensures
        r == SEVERITY_INFO,
{
    vk::DebugUtilsMessageSeverityFlagsEXT::INFO.bits()
}

/// Reads the bits of `vk::InstanceCreateFlags::ENUMERATE_PORTABILITY_KHR`
/// (defined as `1`).
#[verifier::external_body]
pub(crate) fn instance_enumerate_portability() -> (r: u32)
    ensures
        r == INSTANCE_ENUMERATE_PORTABILITY,
{
    vk::InstanceCreateFlags::ENUMERATE_PORTABILITY_KHR.bits()
}

/// The name of `vk::KHR_SWAPCHAIN_EXTENSION`, made by
/// `ExtensionName::from_bytes(b"VK_KHR_swapchain")`, read up to its
/// terminating NUL through `as_cstr`.
#[verifier::external_body]
pub(crate) fn swapchain_extension_name() -> (r: Vec<u8>)
    ensures
        r@ == swapchain_extension(),
{
    vk::KHR_SWAPCHAIN_EXTENSION.name.as_cstr().to_bytes().to_vec()
}

/// The name of `vk::EXT_DEBUG_UTILS_EXTENSION`
/// (`ExtensionName::from_bytes(b"VK_EXT_debug_utils")`), read up to its NUL.
#[verifier::external_body]
pub(crate) fn debug_utils_extension_name() -> (r: Vec<u8>)
    ensures
        r@ == debug_utils_extension(),
{
    vk::EXT_DEBUG_UTILS_EXTENSION.name.as_cstr().to_bytes().to_vec()
}

/// The name of `vk::KHR_PORTABILITY_SUBSET_EXTENSION`
/// (`ExtensionName::from_bytes(b"VK_KHR_portability_subset")`), read up to
/// its NUL.
#[verifier::external_body]
pub(crate) fn portability_subset_extension_name() -> (r: Vec<u8>)
    ensures
        r@ == portability_subset_extension(),
{
    vk::KHR_PORTABILITY_SUBSET_EXTENSION.name.as_cstr().to_bytes().to_vec()
}

/// The name of `vk::KHR_GET_PHYSICAL_DEVICE_PROPERTIES2_EXTENSION`
/// (`ExtensionName::from_bytes(b"VK_KHR_get_physical_device_properties2")`),
/// read up to its NUL.
#[verifier::external_body]
pub(crate) fn physical_device_properties2_extension_name() -> (r: Vec<u8>)
    ensures
        r@ == physical_device_properties2_extension(),
{
    vk::KHR_GET_PHYSICAL_DEVICE_PROPERTIES2_EXTENSION.name.as_cstr().to_bytes().to_vec()
}

/// The name of `vk::KHR_PORTABILITY_ENUMERATION_EXTENSION`
/// (`ExtensionName::from_bytes(b"VK_KHR_portability_enumeration")`), read up
/// to its NUL.
#[verifier::external_body]
pub(crate) fn portability_enumeration_extension_name() -> (r: Vec<u8>)
    ensures
        r@ == portability_enumeration_extension(),
{
    vk::KHR_PORTABILITY_ENUMERATION_EXTENSION.name.as_cstr().to_bytes().to_vec()
}


/// Reads the bits of `vk::ImageUsageFlags::COLOR_ATTACHMENT` (defined as
/// `1 << 4`).
#[verifier::external_body]
pub(crate) fn image_usage_color_attachment() -> (r: u32)
    ensures
        r == IMAGE_USAGE_COLOR_ATTACHMENT,
{
    vk::ImageUsageFlags::COLOR_ATTACHMENT.bits()
}

/// Reads the bits of `vk::CompositeAlphaFlagsKHR::OPAQUE` (defined as `1`).
#[verifier::external_body]
pub(crate) fn composite_alpha_opaque() -> (r: u32)
    ensures
        r == COMPOSITE_ALPHA_OPAQUE,
{
    vk::CompositeAlphaFlagsKHR::OPAQUE.bits()
}

/// Reads the raw value of `vk::SwapchainKHR::null()` (defined as `Self(0)`,
/// a `u64`).
#[verifier::external_body]
pub(crate) fn null_swapchain() -> (r: u64)
    ensures
        r == 0,
{
    vk::SwapchainKHR::null().as_raw()
}

/// Reads the bits of `vk::DebugUtilsMessageSeverityFlagsEXT::all()`: in
/// bitflags 1.3, the `|` of every declared flag (`1`, `1 << 4`, `1 << 8`,
/// `1 << 12`).
#[verifier::external_body]
pub(crate) fn severity_all() -> (r: u32)
    ensures
        r == SEVERITY_ALL,
{
    vk::DebugUtilsMessageSeverityFlagsEXT::all().bits()
}

/// Reads the bits of `vk::DebugUtilsMessageTypeFlagsEXT::GENERAL` (`1`).
#[verifier::external_body]
pub(crate) fn message_type_general() -> (r: u32)
    ensures
        r == MESSAGE_TYPE_GENERAL,
{
    vk::DebugUtilsMessageTypeFlagsEXT::GENERAL.bits()
}

/// Reads the bits of `vk::DebugUtilsMessageTypeFlagsEXT::VALIDATION`
/// (`1 << 1`).
#[verifier::external_body]
pub(crate) fn message_type_validation() -> (r: u32)
    ensures
        r == MESSAGE_TYPE_VALIDATION,
{
    vk::DebugUtilsMessageTypeFlagsEXT::VALIDATION.bits()
}

/// Reads the bits of `vk::DebugUtilsMessageTypeFlagsEXT::PERFORMANCE`
/// (`1 << 2`).
#[verifier::external_body]
pub(crate) fn message_type_performance() -> (r: u32)
    ensures
        r == MESSAGE_TYPE_PERFORMANCE,
{
    vk::DebugUtilsMessageTypeFlagsEXT::PERFORMANCE.bits()
}

/// Calls `vk::make_version`, defined as
/// `(major << 22) | (minor << 12) | patch` on `u32`.
#[verifier::external_body]
pub(crate) fn make_version(major: u32, minor: u32, patch: u32) -> (r: u32)
    ensures
        r == packed_version(major, minor, patch),
{
    vk::make_version(major, minor, patch)
}

/// Makes a `vk::ExtensionName` (a `StringArray<256>`) with `from_bytes`,
/// which copies the bytes before the first NUL, at most 255 of them, and
/// NUL-terminates; reads it back up to the NUL through `as_cstr`.
#[verifier::external_body]
pub(crate) fn extension_name_from_bytes(bytes: &[u8]) -> (r: Vec<u8>)
    ensures
        r@ == string_array_bytes(bytes@, 255),
{
    vk::ExtensionName::from_bytes(bytes).as_cstr().to_bytes().to_vec()
}

/// A byte string with no NUL and at most `limit` bytes is kept whole.
pub proof fn lemma_string_array_keeps_short_names(bytes: Seq<u8>, limit: nat)
    requires
        bytes.len() <= limit,
        forall|i: int| 0 <= i < bytes.len() ==> #[trigger] bytes[i] != 0,
    ensures
        string_array_bytes(bytes, limit) == bytes,
    decreases limit,
{
    if limit == 0 || bytes.len() == 0 {
        assert(bytes =~= seq![]);
    } else {
        let rest = bytes.drop_first();
        assert forall|i: int| 0 <= i < rest.len() implies #[trigger] rest[i] != 0 by {
            assert(rest[i] == bytes[i + 1]);
        }
        lemma_string_array_keeps_short_names(rest, (limit - 1) as nat);
        assert(bytes =~= seq![bytes[0]] + rest);
    }
}

} // verus!
