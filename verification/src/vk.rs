//! Values and helpers taken from the `ash` and `bytemuck` crates.
//!
//! Each function in this module calls into one of those crates.  Its contract
//! is taken on trust from the crate's source; the doc comment says what is
//! claimed.  The constants below name the claimed values so that contracts
//! elsewhere in the crate can speak of them.
use vstd::prelude::*;

verus! {

/// Raw code of the 8-bit BGRA sRGB format.
pub const FORMAT_B8G8R8A8_SRGB: i32 = 50;

/// Raw code of the sRGB non-linear colour space.
pub const COLOR_SPACE_SRGB_NONLINEAR: i32 = 0;

/// Raw code of the mailbox present mode.
pub const PRESENT_MODE_MAILBOX: i32 = 1;

/// Raw code of the FIFO present mode.
pub const PRESENT_MODE_FIFO: i32 = 2;

/// Raw code of the discrete-GPU device type.
pub const DEVICE_TYPE_DISCRETE_GPU: i32 = 2;

/// The value of a set 32-bit Vulkan boolean.
pub const BOOL_TRUE: u32 = 1;

/// Queue capability bit for graphics operations.
pub const QUEUE_GRAPHICS: u32 = 0x1;

/// Severity bit of a verbose diagnostic message.
pub const SEVERITY_VERBOSE: u32 = 0x1;

/// Severity bit of an informational diagnostic message.
pub const SEVERITY_INFO: u32 = 0x10;

/// Severity bit of a warning.
pub const SEVERITY_WARNING: u32 = 0x100;

/// Severity bit of an error.
pub const SEVERITY_ERROR: u32 = 0x1000;

/// Category bit of general messages.
pub const MESSAGE_GENERAL: u32 = 0x1;

/// Category bit of messages of the validation layer.
pub const MESSAGE_VALIDATION: u32 = 0x2;

/// Category bit of messages on performance.
pub const MESSAGE_PERFORMANCE: u32 = 0x4;

/// Category bit of messages on device address bindings.
pub const MESSAGE_DEVICE_ADDRESS_BINDING: u32 = 0x8;

/// The packed version number `major.minor.patch`: ten bits of major version
/// above ten bits of minor version above twelve bits of patch level.
pub open spec fn packed_version(major: u32, minor: u32, patch: u32) -> u32 {
    (major << 22) | (minor << 12) | patch
}

/// The byte that has the same bit pattern as a C `char`.
pub open spec fn byte_of_char(c: i8) -> u8 {
    if c >= 0 {
        c as u8
    } else {
        (c + 256) as u8
    }
}

/// The bytes that have the same bit patterns as a run of C `char`s.
pub open spec fn bytes_of_chars(chars: Seq<i8>) -> Seq<u8> {
    chars.map_values(|c: i8| byte_of_char(c))
}

/// `ash::vk::Format::B8G8R8A8_SRGB.as_raw()`: the constant wraps the integer 50
/// and `as_raw` hands the wrapped integer out.
#[verifier::external_body]
pub(crate) fn format_b8g8r8a8_srgb() -> (r: i32)
    ensures
        r == FORMAT_B8G8R8A8_SRGB,
{
    ash::vk::Format::B8G8R8A8_SRGB.as_raw()
}

/// `ash::vk::ColorSpaceKHR::SRGB_NONLINEAR.as_raw()`: the constant wraps 0.
#[verifier::external_body]
pub(crate) fn color_space_srgb_nonlinear() -> (r: i32)
    ensures
        r == COLOR_SPACE_SRGB_NONLINEAR,
{
    ash::vk::ColorSpaceKHR::SRGB_NONLINEAR.as_raw()
}

/// `ash::vk::PresentModeKHR::MAILBOX.as_raw()`: the constant wraps 1.
#[verifier::external_body]
pub(crate) fn present_mode_mailbox() -> (r: i32)
    ensures
        r == PRESENT_MODE_MAILBOX,
{
    ash::vk::PresentModeKHR::MAILBOX.as_raw()
}

/// `ash::vk::PresentModeKHR::FIFO.as_raw()`: the constant wraps 2.
#[verifier::external_body]
pub(crate) fn present_mode_fifo() -> (r: i32)
    ensures
        r == PRESENT_MODE_FIFO,
{
    ash::vk::PresentModeKHR::FIFO.as_raw()
}

/// `ash::vk::PhysicalDeviceType::DISCRETE_GPU.as_raw()`: the constant wraps 2.
#[verifier::external_body]
pub(crate) fn device_type_discrete_gpu() -> (r: i32)
    ensures
        r == DEVICE_TYPE_DISCRETE_GPU,
{
    ash::vk::PhysicalDeviceType::DISCRETE_GPU.as_raw()
}

/// `ash::vk::TRUE`: the constant is the 32-bit integer 1.
#[verifier::external_body]
pub(crate) fn bool_true() -> (r: u32)
    ensures
        r == BOOL_TRUE,
{
    ash::vk::TRUE
}

/// `ash::vk::QueueFlags::GRAPHICS.as_raw()`: the constant wraps the lowest bit.
#[verifier::external_body]
pub(crate) fn queue_graphics() -> (r: u32)
    ensures
        r == QUEUE_GRAPHICS,
{
    ash::vk::QueueFlags::GRAPHICS.as_raw()
}

/// `ash::vk::QueueFlags::contains`: whether every bit of `wanted` is set in
/// `flags`.  `from_raw` wraps an integer unchanged.
#[verifier::external_body]
pub(crate) fn queue_flags_contain(flags: u32, wanted: u32) -> (r: bool)
    ensures
        r == (flags & wanted == wanted),
{
    ash::vk::QueueFlags::from_raw(flags).contains(ash::vk::QueueFlags::from_raw(wanted))
}

/// `ash::vk::DebugUtilsMessageSeverityFlagsEXT::VERBOSE.as_raw()`: bit 0.
#[verifier::external_body]
pub(crate) fn severity_verbose() -> (r: u32)
    ensures
        r == SEVERITY_VERBOSE,
{
    ash::vk::DebugUtilsMessageSeverityFlagsEXT::VERBOSE.as_raw()
}

/// `ash::vk::DebugUtilsMessageSeverityFlagsEXT::INFO.as_raw()`: bit 4.
#[verifier::external_body]
pub(crate) fn severity_info() -> (r: u32)
    ensures
        r == SEVERITY_INFO,
{
    ash::vk::DebugUtilsMessageSeverityFlagsEXT::INFO.as_raw()
}

/// `ash::vk::DebugUtilsMessageSeverityFlagsEXT::WARNING.as_raw()`: bit 8.
#[verifier::external_body]
pub(crate) fn severity_warning() -> (r: u32)
    ensures
        r == SEVERITY_WARNING,
{
    ash::vk::DebugUtilsMessageSeverityFlagsEXT::WARNING.as_raw()
}

/// `ash::vk::DebugUtilsMessageSeverityFlagsEXT::ERROR.as_raw()`: bit 12.
#[verifier::external_body]
pub(crate) fn severity_error() -> (r: u32)
    ensures
        r == SEVERITY_ERROR,
{
    ash::vk::DebugUtilsMessageSeverityFlagsEXT::ERROR.as_raw()
}

/// `ash::vk::DebugUtilsMessageTypeFlagsEXT::GENERAL.as_raw()`: bit 0.
#[verifier::external_body]
pub(crate) fn message_general() -> (r: u32)
    ensures
        r == MESSAGE_GENERAL,
{
    ash::vk::DebugUtilsMessageTypeFlagsEXT::GENERAL.as_raw()
}

/// `ash::vk::DebugUtilsMessageTypeFlagsEXT::VALIDATION.as_raw()`: bit 1.
#[verifier::external_body]
pub(crate) fn message_validation() -> (r: u32)
    ensures
        r == MESSAGE_VALIDATION,
{
    ash::vk::DebugUtilsMessageTypeFlagsEXT::VALIDATION.as_raw()
}

/// `ash::vk::DebugUtilsMessageTypeFlagsEXT::PERFORMANCE.as_raw()`: bit 2.
#[verifier::external_body]
pub(crate) fn message_performance() -> (r: u32)
    ensures
        r == MESSAGE_PERFORMANCE,
{
    ash::vk::DebugUtilsMessageTypeFlagsEXT::PERFORMANCE.as_raw()
}

/// `ash::vk::DebugUtilsMessageTypeFlagsEXT::DEVICE_ADDRESS_BINDING.as_raw()`:
/// bit 3.
#[verifier::external_body]
pub(crate) fn message_device_address_binding() -> (r: u32)
    ensures
        r == MESSAGE_DEVICE_ADDRESS_BINDING,
{
    ash::vk::DebugUtilsMessageTypeFlagsEXT::DEVICE_ADDRESS_BINDING.as_raw()
}

/// `ash::vk::make_version`: shifts the major version left by 22 bits and the
/// minor version by 12, and joins both with the patch level by bitwise or.
/// Bits shifted out at the top are lost.
#[verifier::external_body]
#[allow(deprecated)]
pub(crate) fn make_version(major: u32, minor: u32, patch: u32) -> (r: u32)
    ensures
        r == packed_version(major, minor, patch),
{
    ash::vk::make_version(major, minor, patch)
}

/// `ash::extensions::khr::Surface::name()`: the C string `VK_KHR_surface`.
#[verifier::external_body]
pub(crate) fn surface_extension_name() -> (r: String)
    ensures
        r@ == "VK_KHR_surface"@,
{
    ash::extensions::khr::Surface::name().to_string_lossy().into_owned()
}

/// `ash::extensions::khr::XlibSurface::name()`: the C string
/// `VK_KHR_xlib_surface`.
#[verifier::external_body]
pub(crate) fn xlib_surface_extension_name() -> (r: String)
    ensures
        r@ == "VK_KHR_xlib_surface"@,
{
    ash::extensions::khr::XlibSurface::name().to_string_lossy().into_owned()
}

/// `ash::extensions::khr::XcbSurface::name()`: the C string
/// `VK_KHR_xcb_surface`.
#[verifier::external_body]
pub(crate) fn xcb_surface_extension_name() -> (r: String)
    ensures
        r@ == "VK_KHR_xcb_surface"@,
{
    ash::extensions::khr::XcbSurface::name().to_string_lossy().into_owned()
}

/// `ash::extensions::khr::WaylandSurface::name()`: the C string
/// `VK_KHR_wayland_surface`.
#[verifier::external_body]
pub(crate) fn wayland_surface_extension_name() -> (r: String)
    ensures
        r@ == "VK_KHR_wayland_surface"@,
{
    ash::extensions::khr::WaylandSurface::name().to_string_lossy().into_owned()
}

/// `ash::extensions::khr::Win32Surface::name()`: the C string
/// `VK_KHR_win32_surface`.
#[verifier::external_body]
pub(crate) fn win32_surface_extension_name() -> (r: String)
    ensures
        r@ == "VK_KHR_win32_surface"@,
{
    ash::extensions::khr::Win32Surface::name().to_string_lossy().into_owned()
}

/// `ash::extensions::ext::DebugUtils::name()`: the C string
/// `VK_EXT_debug_utils`.
#[verifier::external_body]
pub(crate) fn debug_utils_extension_name() -> (r: String)
    ensures
        r@ == "VK_EXT_debug_utils"@,
{
    ash::extensions::ext::DebugUtils::name().to_string_lossy().into_owned()
}

/// `ash::extensions::khr::Swapchain::name()`: the C string `VK_KHR_swapchain`.
#[verifier::external_body]
pub(crate) fn swapchain_extension_name() -> (r: String)
    ensures
        r@ == "VK_KHR_swapchain"@,
{
    ash::extensions::khr::Swapchain::name().to_string_lossy().into_owned()
}

/// `bytemuck::cast_slice` from `i8` to `u8`: the same memory read as bytes.
/// Both types have size and alignment 1, so the cast cannot fail; the result
/// has the length of the argument and each byte has the bit pattern of the
/// `i8` in its place.
#[verifier::external_body]
pub(crate) fn chars_as_bytes(buf: &[i8]) -> (r: &[u8])
    ensures
        r@ == bytes_of_chars(buf@),
{
    bytemuck::cast_slice(buf)
}

} // verus!
