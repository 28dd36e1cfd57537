use vk_bootstrap::error::FatalError;
use vk_bootstrap::instance::{
    classify_severity, debug_callback, debug_messenger_info, get_required_instance_extensions,
    instance_info, select_surface, Diagnostic, DisplayBackend, Severity, SurfaceKind,
    WindowBackend,
};

fn strings(names: &[&str]) -> Vec<String> {
    names.iter().map(|n| n.to_string()).collect()
}

#[test]
fn extensions_for_xlib() {
    assert_eq!(
        get_required_instance_extensions(WindowBackend::Xlib),
        Ok(strings(&["VK_KHR_surface", "VK_KHR_xlib_surface", "VK_EXT_debug_utils"]))
    );
}

#[test]
fn extensions_for_xcb() {
    assert_eq!(
        get_required_instance_extensions(WindowBackend::Xcb),
        Ok(strings(&["VK_KHR_surface", "VK_KHR_xcb_surface", "VK_EXT_debug_utils"]))
    );
}

#[test]
fn extensions_for_wayland() {
    assert_eq!(
        get_required_instance_extensions(WindowBackend::Wayland),
        Ok(strings(&["VK_KHR_surface", "VK_KHR_wayland_surface", "VK_EXT_debug_utils"]))
    );
}

#[test]
fn extensions_for_win32() {
    assert_eq!(
        get_required_instance_extensions(WindowBackend::Win32),
        Ok(strings(&["VK_KHR_surface", "VK_KHR_win32_surface", "VK_EXT_debug_utils"]))
    );
}

#[test]
fn extensions_for_an_unknown_window_system() {
    assert_eq!(
        get_required_instance_extensions(WindowBackend::Other),
        Err(FatalError::UnsupportedBackend)
    );
}

#[test]
fn surface_kind_follows_the_window_system() {
    assert_eq!(select_surface(DisplayBackend::Xlib, WindowBackend::Xlib), Ok(SurfaceKind::Xlib));
    assert_eq!(select_surface(DisplayBackend::Xcb, WindowBackend::Xcb), Ok(SurfaceKind::Xcb));
    assert_eq!(
        select_surface(DisplayBackend::Wayland, WindowBackend::Wayland),
        Ok(SurfaceKind::Wayland)
    );
    assert_eq!(
        select_surface(DisplayBackend::Windows, WindowBackend::Win32),
        Ok(SurfaceKind::Win32)
    );
}

#[test]
fn mismatched_or_unknown_handles_have_no_surface() {
    assert_eq!(
        select_surface(DisplayBackend::Xlib, WindowBackend::Xcb),
        Err(FatalError::UnsupportedBackend)
    );
    assert_eq!(
        select_surface(DisplayBackend::Wayland, WindowBackend::Win32),
        Err(FatalError::UnsupportedBackend)
    );
    assert_eq!(
        select_surface(DisplayBackend::Other, WindowBackend::Other),
        Err(FatalError::UnsupportedBackend)
    );
    assert_eq!(
        select_surface(DisplayBackend::Windows, WindowBackend::Other),
        Err(FatalError::UnsupportedBackend)
    );
    assert_eq!(
        select_surface(DisplayBackend::Other, WindowBackend::Xlib),
        Err(FatalError::UnsupportedBackend)
    );
}

#[test]
fn severity_flags_are_classified_as_their_level() {
    assert_eq!(classify_severity(ash::vk::DebugUtilsMessageSeverityFlagsEXT::ERROR.as_raw()), Severity::Error);
    assert_eq!(classify_severity(ash::vk::DebugUtilsMessageSeverityFlagsEXT::WARNING.as_raw()), Severity::Warning);
    assert_eq!(classify_severity(ash::vk::DebugUtilsMessageSeverityFlagsEXT::INFO.as_raw()), Severity::Info);
    assert_eq!(classify_severity(ash::vk::DebugUtilsMessageSeverityFlagsEXT::VERBOSE.as_raw()), Severity::Verbose);
}

#[test]
fn severity_is_at_least_the_level_reached() {
    assert_eq!(classify_severity(0), Severity::Verbose);
    assert_eq!(classify_severity(0x1), Severity::Verbose);
    assert_eq!(classify_severity(0xf), Severity::Verbose);
    assert_eq!(classify_severity(0x10), Severity::Info);
    assert_eq!(classify_severity(0x11), Severity::Info);
    assert_eq!(classify_severity(0xff), Severity::Info);
    assert_eq!(classify_severity(0x100), Severity::Warning);
    assert_eq!(classify_severity(0x111), Severity::Warning);
    assert_eq!(classify_severity(0xfff), Severity::Warning);
    assert_eq!(classify_severity(0x1000), Severity::Error);
    assert_eq!(classify_severity(0x1111), Severity::Error);
    assert_eq!(classify_severity(u32::MAX), Severity::Error);
}

#[test]
fn diagnostics_never_abort_the_call() {
    assert_eq!(debug_callback(0x1000), Diagnostic { level: Severity::Error, abort_call: false });
    assert_eq!(debug_callback(0x100), Diagnostic { level: Severity::Warning, abort_call: false });
    assert_eq!(debug_callback(0x10), Diagnostic { level: Severity::Info, abort_call: false });
    assert_eq!(debug_callback(0x1), Diagnostic { level: Severity::Verbose, abort_call: false });
}

#[test]
fn messenger_listens_to_everything() {
    let info = debug_messenger_info();
    assert_eq!(info.message_severity, 0x1111);
    assert_eq!(info.message_type, 0xf);
    assert_eq!(
        info.message_severity,
        (ash::vk::DebugUtilsMessageSeverityFlagsEXT::ERROR
            | ash::vk::DebugUtilsMessageSeverityFlagsEXT::WARNING
            | ash::vk::DebugUtilsMessageSeverityFlagsEXT::INFO
            | ash::vk::DebugUtilsMessageSeverityFlagsEXT::VERBOSE).as_raw()
    );
    assert_eq!(
        info.message_type,
        (ash::vk::DebugUtilsMessageTypeFlagsEXT::DEVICE_ADDRESS_BINDING
            | ash::vk::DebugUtilsMessageTypeFlagsEXT::GENERAL
            | ash::vk::DebugUtilsMessageTypeFlagsEXT::PERFORMANCE
            | ash::vk::DebugUtilsMessageTypeFlagsEXT::VALIDATION).as_raw()
    );
}

#[test]
fn instance_for_an_xcb_window() {
    let layers = strings(&["VK_LAYER_MESA_overlay", "VK_LAYER_KHRONOS_validation"]);
    let info = instance_info(WindowBackend::Xcb, &layers).unwrap();
    assert_eq!(info.application.application_name, "Hello Vulkan");
    assert_eq!(info.application.application_version, 4096);
    assert_eq!(info.application.engine_name, "vk");
    assert_eq!(info.application.engine_version, 4096);
    assert_eq!(info.application.api_version, 4194304);
    assert_eq!(info.layers, strings(&["VK_LAYER_KHRONOS_validation"]));
    assert_eq!(
        info.extensions,
        strings(&["VK_KHR_surface", "VK_KHR_xcb_surface", "VK_EXT_debug_utils"])
    );
    assert_eq!(info.flags, 0);
    assert_eq!(info.debug_messenger, debug_messenger_info());
}

#[test]
fn instance_versions_are_packed() {
    let layers = strings(&["VK_LAYER_KHRONOS_validation"]);
    let info = instance_info(WindowBackend::Wayland, &layers).unwrap();
    assert_eq!(info.application.application_version, 1 << 12);
    assert_eq!(info.application.api_version, 1 << 22);
    assert_eq!(info.application.api_version, ash::vk::make_api_version(0, 1, 0, 0));
}

#[test]
fn instance_needs_the_validation_layer() {
    assert_eq!(
        instance_info(WindowBackend::Xlib, &strings(&["VK_LAYER_MESA_overlay"])),
        Err(FatalError::ValidationLayerUnavailable)
    );
    assert_eq!(
        instance_info(WindowBackend::Xlib, &vec![]),
        Err(FatalError::ValidationLayerUnavailable)
    );
}

#[test]
fn missing_layer_is_reported_before_the_backend() {
    assert_eq!(
        instance_info(WindowBackend::Other, &vec![]),
        Err(FatalError::ValidationLayerUnavailable)
    );
    assert_eq!(
        instance_info(WindowBackend::Other, &strings(&["VK_LAYER_KHRONOS_validation"])),
        Err(FatalError::UnsupportedBackend)
    );
}

