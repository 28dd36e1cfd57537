//! Creating the instance: layers, extensions and the diagnostic callback.
use vstd::prelude::*;
use crate::error::FatalError;
use crate::names::{contains_name, spec_names, spec_validation_layer, validation_layer};
use crate::vk::{
    packed_version,
    make_version,
    debug_utils_extension_name,
    surface_extension_name,
    wayland_surface_extension_name,
    win32_surface_extension_name,
    xcb_surface_extension_name,
    xlib_surface_extension_name,
    message_device_address_binding,
    message_general,
    message_performance,
    message_validation,
    severity_error,
    severity_info,
    severity_verbose,
    severity_warning,
    MESSAGE_DEVICE_ADDRESS_BINDING,
    MESSAGE_GENERAL,
    MESSAGE_PERFORMANCE,
    MESSAGE_VALIDATION,
    SEVERITY_ERROR,
    SEVERITY_INFO,
    SEVERITY_VERBOSE,
    SEVERITY_WARNING,
};

verus! {

// ---------------------------------------------------------------------------
// Window system
// ---------------------------------------------------------------------------

/// The kind of window handle that the window system hands out.
#[derive(Clone, Copy, Debug, PartialEq, Eq, Structural)]
pub enum WindowBackend {
    Xlib,
    Xcb,
    Wayland,
    Win32,
    /// Any window system without a surface type of its own here.
    Other,
}

/// The kind of display handle that the window system hands out.
#[derive(Clone, Copy, Debug, PartialEq, Eq, Structural)]
pub enum DisplayBackend {
    Xlib,
    Xcb,
    Wayland,
    Windows,
    /// Any window system without a surface type of its own here.
    Other,
}

/// The kinds of presentation surface.
#[derive(Clone, Copy, Debug, PartialEq, Eq, Structural)]
pub enum SurfaceKind {
    Xlib,
    Xcb,
    Wayland,
    Win32,
}

/// The surface kind for a pair of handles, if the two belong to one window
/// system that has a surface kind.
pub open spec fn spec_surface_kind(display: DisplayBackend, window: WindowBackend) -> Option<
    SurfaceKind,
> {
    match (display, window) {
        (DisplayBackend::Xcb, WindowBackend::Xcb) => Some(SurfaceKind::Xcb),
        (DisplayBackend::Xlib, WindowBackend::Xlib) => Some(SurfaceKind::Xlib),
        (DisplayBackend::Windows, WindowBackend::Win32) => Some(SurfaceKind::Win32),
        (DisplayBackend::Wayland, WindowBackend::Wayland) => Some(SurfaceKind::Wayland),
        _ => None,
    }
}

/// Picks the kind of surface to create for a window.
///
/// The display handle and the window handle must come from the same window
/// system, one of Xlib, Xcb, Wayland and Win32.  Every other pair is refused
/// as an unsupported backend.
pub fn select_surface(display: DisplayBackend, window: WindowBackend) -> (r: Result<
    SurfaceKind,
    FatalError,
>)
    ensures
        match r {
            Ok(kind) => spec_surface_kind(display, window) == Some(kind),
            Err(e) => spec_surface_kind(display, window) is None && e
                == FatalError::UnsupportedBackend,
        },
{
    match (display, window) {
        (DisplayBackend::Xcb, WindowBackend::Xcb) => Ok(SurfaceKind::Xcb),
        (DisplayBackend::Xlib, WindowBackend::Xlib) => Ok(SurfaceKind::Xlib),
        (DisplayBackend::Windows, WindowBackend::Win32) => Ok(SurfaceKind::Win32),
        (DisplayBackend::Wayland, WindowBackend::Wayland) => Ok(SurfaceKind::Wayland),
        _ => Err(FatalError::UnsupportedBackend),
    }
}

/// The instance extensions for a window of the given kind: the surface
/// extension, the surface extension of the window system, and the debug
/// utilities.  A window system without a surface kind has none.
pub open spec fn spec_required_instance_extensions(window: WindowBackend) -> Option<
    Seq<Seq<char>>,
> {
    match window {
        WindowBackend::Wayland => Some(
            seq!["VK_KHR_surface"@, "VK_KHR_wayland_surface"@, "VK_EXT_debug_utils"@],
        ),
        WindowBackend::Xcb => Some(
            seq!["VK_KHR_surface"@, "VK_KHR_xcb_surface"@, "VK_EXT_debug_utils"@],
        ),
        WindowBackend::Xlib => Some(
            seq!["VK_KHR_surface"@, "VK_KHR_xlib_surface"@, "VK_EXT_debug_utils"@],
        ),
        WindowBackend::Win32 => Some(
            seq!["VK_KHR_surface"@, "VK_KHR_win32_surface"@, "VK_EXT_debug_utils"@],
        ),
        WindowBackend::Other => None,
    }
}

/// The instance extensions that presenting to a window of the given kind
/// needs, in the order in which they are enabled.
pub fn get_required_instance_extensions(window: WindowBackend) -> (r: Result<
    Vec<String>,
    FatalError,
>)
    ensures
        match r {
            Ok(names) => spec_required_instance_extensions(window) == Some(spec_names(names@)),
            Err(e) => spec_required_instance_extensions(window) is None && e
                == FatalError::UnsupportedBackend,
        },
{
    let platform = match window {
        WindowBackend::Wayland => wayland_surface_extension_name(),
        WindowBackend::Xcb => xcb_surface_extension_name(),
        WindowBackend::Xlib => xlib_surface_extension_name(),
        WindowBackend::Win32 => win32_surface_extension_name(),
        WindowBackend::Other => {
            return Err(FatalError::UnsupportedBackend);
        },
    };
    let mut names: Vec<String> = Vec::new();
    names.push(surface_extension_name());
    names.push(platform);
    names.push(debug_utils_extension_name());
    assert(spec_names(names@) =~= spec_required_instance_extensions(window)->0);
    Ok(names)
}

// ---------------------------------------------------------------------------
// Diagnostics
// ---------------------------------------------------------------------------

/// How severe a diagnostic message is.
#[derive(Clone, Copy, Debug, PartialEq, Eq, Structural)]
pub enum Severity {
    Verbose,
    Info,
    Warning,
    Error,
}

/// What to do with a diagnostic message.
#[derive(Clone, Copy, Debug, PartialEq, Eq, Structural)]
pub struct Diagnostic {
    /// The level at which the message is logged.
    pub level: Severity,
    /// Whether the driver call that caused the message is to be aborted.
    pub abort_call: bool,
}

/// The place of a severity in the order from least to most severe.
pub open spec fn spec_rank(level: Severity) -> int {
    match level {
        Severity::Verbose => 0,
        Severity::Info => 1,
        Severity::Warning => 2,
        Severity::Error => 3,
    }
}

/// The severity of a message with the given severity flags: the most severe
/// level whose flag the value reaches.
pub open spec fn spec_classify_severity(severity: u32) -> Severity {
    if severity >= SEVERITY_ERROR {
        Severity::Error
    } else if severity >= SEVERITY_WARNING {
        Severity::Warning
    } else if severity >= SEVERITY_INFO {
        Severity::Info
    } else {
        Severity::Verbose
    }
}

/// Classifies a diagnostic message by its severity flags.
pub fn classify_severity(severity: u32) -> (level: Severity)
    ensures
        level == spec_classify_severity(severity),
{
    if severity >= severity_error() {
        Severity::Error
    } else if severity >= severity_warning() {
        Severity::Warning
    } else if severity >= severity_info() {
        Severity::Info
    } else {
        Severity::Verbose
    }
}

/// Decides what happens with a diagnostic message of the driver: it is logged
/// at the level of its severity, and the call that caused it goes on.
pub fn debug_callback(severity: u32) -> (d: Diagnostic)
    ensures
        d == (Diagnostic { level: spec_classify_severity(severity), abort_call: false }),
{
    Diagnostic { level: classify_severity(severity), abort_call: false }
}

/// A message with greater severity flags is never classified as less severe.
pub proof fn lemma_classification_is_monotonic(a: u32, b: u32)
    requires
        a <= b,
    ensures
        spec_rank(spec_classify_severity(a)) <= spec_rank(spec_classify_severity(b)),
{
}

/// Each of the four severity flags is classified as its own level.
pub proof fn lemma_classification_of_flags()
    ensures
        spec_classify_severity(SEVERITY_ERROR) == Severity::Error,
        spec_classify_severity(SEVERITY_WARNING) == Severity::Warning,
        spec_classify_severity(SEVERITY_INFO) == Severity::Info,
        spec_classify_severity(SEVERITY_VERBOSE) == Severity::Verbose,
{
}

// ---------------------------------------------------------------------------
// Instance
// ---------------------------------------------------------------------------

/// What the application says of itself.
#[derive(Clone, Debug, PartialEq, Eq)]
pub struct ApplicationInfo {
    pub application_name: String,
    pub application_version: u32,
    pub engine_name: String,
    pub engine_version: u32,
    pub api_version: u32,
}

/// Which messages the diagnostic callback gets.
#[derive(Clone, Copy, Debug, PartialEq, Eq, Structural)]
pub struct DebugMessengerInfo {
    pub message_severity: u32,
    pub message_type: u32,
}

/// Everything that creating the instance takes.
#[derive(Clone, Debug, PartialEq, Eq)]
pub struct InstanceInfo {
    pub application: ApplicationInfo,
    pub layers: Vec<String>,
    pub extensions: Vec<String>,
    pub flags: u32,
    /// The callback is attached to the instance at creation and registered
    /// once more, with the same settings, as a messenger of its own.
    pub debug_messenger: DebugMessengerInfo,
}

/// All four severities.
pub open spec fn spec_all_severities() -> u32 {
    SEVERITY_ERROR | SEVERITY_WARNING | SEVERITY_INFO | SEVERITY_VERBOSE
}

/// All four categories of message.
pub open spec fn spec_all_message_types() -> u32 {
    MESSAGE_DEVICE_ADDRESS_BINDING | MESSAGE_GENERAL | MESSAGE_PERFORMANCE | MESSAGE_VALIDATION
}

/// The settings of the diagnostic callback: every severity, every category.
pub fn debug_messenger_info() -> (r: DebugMessengerInfo)
    ensures
        r.message_severity == spec_all_severities(),
        r.message_type == spec_all_message_types(),
{
    DebugMessengerInfo {
        message_severity: severity_error() | severity_warning() | severity_info()
            | severity_verbose(),
        message_type: message_device_address_binding() | message_general()
            | message_performance() | message_validation(),
    }
}

/// The two masks as numbers.
pub proof fn lemma_messenger_masks()
    ensures
        spec_all_severities() == 0x1111,
        spec_all_message_types() == 0xf,
{
    assert(0x1000u32 | 0x100u32 | 0x10u32 | 0x1u32 == 0x1111u32) by (bit_vector);
    assert(0x8u32 | 0x1u32 | 0x4u32 | 0x2u32 == 0xfu32) by (bit_vector);
}

/// The three version numbers that the instance is created with: 0.1.0 for
/// the application and the engine, 1.0.0 for the API.
pub proof fn lemma_version_numbers()
    ensures
        packed_version(0, 1, 0) == 4096,
        packed_version(1, 0, 0) == 4194304,
{
    assert((0u32 << 22) | (1u32 << 12) | 0u32 == 4096u32) by (bit_vector);
    assert((1u32 << 22) | (0u32 << 12) | 0u32 == 4194304u32) by (bit_vector);
}

/// What `info` must hold for a window of kind `window`.
pub open spec fn spec_instance_info(info: InstanceInfo, window: WindowBackend) -> bool {
    &&& info.application.application_name@ == "Hello Vulkan"@
    &&& info.application.application_version == packed_version(0, 1, 0)
    &&& info.application.engine_name@ == "vk"@
    &&& info.application.engine_version == packed_version(0, 1, 0)
    &&& info.application.api_version == packed_version(1, 0, 0)
    &&& spec_names(info.layers@) == seq![spec_validation_layer()]
    &&& spec_required_instance_extensions(window) == Some(spec_names(info.extensions@))
    &&& info.flags == 0
    &&& info.debug_messenger.message_severity == spec_all_severities()
    &&& info.debug_messenger.message_type == spec_all_message_types()
}

/// Describes the instance to create for a window of kind `window`, given the
/// names of the layers that the loader offers.
///
/// The validation layer is mandatory: without it among `available_layers`
/// there is no instance.  With it, a window system without a surface kind is
/// refused.  Otherwise the instance enables the validation layer and the
/// required extensions and has the diagnostic callback attached.
pub fn instance_info(window: WindowBackend, available_layers: &Vec<String>) -> (r: Result<
    InstanceInfo,
    FatalError,
>)
    ensures
        match r {
            Ok(info) => {
                &&& spec_names(available_layers@).contains(spec_validation_layer())
                &&& window != WindowBackend::Other
                &&& spec_instance_info(info, window)
            },
            Err(e) => if !spec_names(available_layers@).contains(spec_validation_layer()) {
                e == FatalError::ValidationLayerUnavailable
            } else {
                window == WindowBackend::Other && e == FatalError::UnsupportedBackend
            },
        },
{
    let layer = validation_layer();
    if !contains_name(available_layers, &layer) {
        return Err(FatalError::ValidationLayerUnavailable);
    }
    let extensions = match get_required_instance_extensions(window) {
        Ok(names) => names,
        Err(e) => {
            return Err(e);
        },
    };
    let application = ApplicationInfo {
        application_name: "Hello Vulkan".to_owned(),
        application_version: make_version(0, 1, 0),
        engine_name: "vk".to_owned(),
        engine_version: make_version(0, 1, 0),
        api_version: make_version(1, 0, 0),
    };
    let mut layers: Vec<String> = Vec::new();
    layers.push(layer);
    assert(spec_names(layers@) =~= seq![spec_validation_layer()]);
    Ok(
        InstanceInfo {
            application,
            layers,
            extensions,
            flags: 0,
            debug_messenger: debug_messenger_info(),
        },
    )
}

} // verus!
