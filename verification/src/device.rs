//! Selecting the physical device and describing the logical device.
use vstd::prelude::*;
use crate::error::FatalError;
use crate::names::{contains_all_names, spec_names, spec_validation_layer, validation_layer};
use crate::swapchain::SwapchainSupport;
use crate::vk::{
    bool_true,
    device_type_discrete_gpu,
    queue_flags_contain,
    queue_graphics,
    swapchain_extension_name,
    BOOL_TRUE,
    DEVICE_TYPE_DISCRETE_GPU,
    QUEUE_GRAPHICS,
};

verus! {

/// One queue family of a physical device.
#[derive(Clone, Copy, Debug, PartialEq, Eq, Structural)]
pub struct QueueFamily {
    /// The capabilities of the queues, as raw flag bits.
    pub flags: u32,
    /// Whether the queues can present to the surface.
    pub supports_present: bool,
}

/// What is known of a candidate device.
#[derive(Clone, Debug, PartialEq, Eq)]
pub struct DeviceCapabilities {
    /// The kind of device, as a raw code.
    pub device_type: i32,
    /// The geometry-shader feature, as a 32-bit boolean.
    pub geometry_shader: u32,
    pub queue_families: Vec<QueueFamily>,
    /// The names of the device extensions.
    pub extensions: Vec<String>,
    pub swapchain: SwapchainSupport,
}

/// The queue families chosen for graphics and for presentation.  The two may
/// be one and the same.
#[derive(Clone, Copy, Debug, PartialEq, Eq, Structural)]
pub struct QueueFamilyIndices {
    pub graphics: u32,
    pub present: u32,
}

// ---------------------------------------------------------------------------
// Queue families
// ---------------------------------------------------------------------------

/// The queues of the family run graphics commands.
pub open spec fn spec_supports_graphics(family: QueueFamily) -> bool {
    family.flags & QUEUE_GRAPHICS == QUEUE_GRAPHICS
}

/// `i` is the first family that runs graphics commands.
pub open spec fn spec_first_graphics(families: Seq<QueueFamily>, i: int) -> bool {
    &&& 0 <= i < families.len()
    &&& spec_supports_graphics(families[i])
    &&& forall|k: int| 0 <= k < i ==> !spec_supports_graphics(#[trigger] families[k])
}

/// `i` is the first family that presents to the surface.
pub open spec fn spec_first_present(families: Seq<QueueFamily>, i: int) -> bool {
    &&& 0 <= i < families.len()
    &&& families[i].supports_present
    &&& forall|k: int| 0 <= k < i ==> !(#[trigger] families[k]).supports_present
}

/// Some family runs graphics commands and some family presents.
pub open spec fn spec_has_queue_families(families: Seq<QueueFamily>) -> bool {
    &&& exists|i: int|
        0 <= i < families.len() && spec_supports_graphics(#[trigger] families[i])
    &&& exists|i: int| 0 <= i < families.len() && (#[trigger] families[i]).supports_present
}

/// Finds the first family that runs graphics commands.
pub fn first_graphics_family(families: &Vec<QueueFamily>) -> (r: Option<usize>)
    ensures
        match r {
            Some(i) => spec_first_graphics(families@, i as int),
            None => forall|k: int|
                0 <= k < families@.len() ==> !spec_supports_graphics(#[trigger] families@[k]),
        },
{
    let graphics_bit = queue_graphics();
    let mut i: usize = 0;
    while i < families.len()
        invariant
            graphics_bit == QUEUE_GRAPHICS,
            i <= families@.len(),
            forall|k: int| 0 <= k < i ==> !spec_supports_graphics(#[trigger] families@[k]),
        decreases families@.len() - i,
    {
        if queue_flags_contain(families[i].flags, graphics_bit) {
            return Some(i);
        }
        i = i + 1;
    }
    None
}

/// Finds the first family that presents to the surface.
pub fn first_present_family(families: &Vec<QueueFamily>) -> (r: Option<usize>)
    ensures
        match r {
            Some(i) => spec_first_present(families@, i as int),
            None => forall|k: int|
                0 <= k < families@.len() ==> !(#[trigger] families@[k]).supports_present,
        },
{
    let mut i: usize = 0;
    while i < families.len()
        invariant
            i <= families@.len(),
            forall|k: int| 0 <= k < i ==> !(#[trigger] families@[k]).supports_present,
        decreases families@.len() - i,
    {
        if families[i].supports_present {
            return Some(i);
        }
        i = i + 1;
    }
    None
}

/// Whether some family runs graphics commands and some family presents.
pub fn has_queue_families(families: &Vec<QueueFamily>) -> (b: bool)
    ensures
        b == spec_has_queue_families(families@),
{
    first_graphics_family(families).is_some() && first_present_family(families).is_some()
}

impl QueueFamilyIndices {
    /// Finds the queue families to use: for graphics the first family that
    /// runs graphics commands, for presentation the first that presents to
    /// the surface.  Without either there are no indices.
    pub fn get(families: &Vec<QueueFamily>) -> (r: Option<QueueFamilyIndices>)
        requires
            families@.len() <= u32::MAX,
        ensures
            r is Some <==> spec_has_queue_families(families@),
            r matches Some(indices) ==> {
                &&& spec_first_graphics(families@, indices.graphics as int)
                &&& spec_first_present(families@, indices.present as int)
            },
    {
        match (first_graphics_family(families), first_present_family(families)) {
            (Some(g), Some(p)) => Some(QueueFamilyIndices { graphics: g as u32, present: p as u32 }),
            _ => None,
        }
    }
}

/// The first family of a kind is unique, so the indices that
/// [`QueueFamilyIndices::get`] finds are determined by the families.
pub proof fn lemma_queue_family_indices_are_unique(
    families: Seq<QueueFamily>,
    a: QueueFamilyIndices,
    b: QueueFamilyIndices,
)
    requires
        spec_first_graphics(families, a.graphics as int),
        spec_first_present(families, a.present as int),
        spec_first_graphics(families, b.graphics as int),
        spec_first_present(families, b.present as int),
    ensures
        a == b,
{
}

// ---------------------------------------------------------------------------
// Extensions
// ---------------------------------------------------------------------------

/// The names of the device extensions that the renderer needs.
pub open spec fn spec_device_extensions() -> Seq<Seq<char>> {
    seq!["VK_KHR_swapchain"@]
}

/// The device extensions that the renderer needs.
pub fn device_extensions() -> (r: Vec<String>)
    ensures
        spec_names(r@) == spec_device_extensions(),
{
    let mut r: Vec<String> = Vec::new();
    r.push(swapchain_extension_name());
    assert(spec_names(r@) =~= spec_device_extensions());
    r
}

/// Every required device extension is among `available`.
pub open spec fn spec_has_device_extensions(available: Seq<Seq<char>>) -> bool {
    forall|k: int|
        0 <= k < spec_device_extensions().len() ==> available.contains(
            #[trigger] spec_device_extensions()[k],
        )
}

/// Whether a device with the extensions `available` has all that the
/// renderer needs.
pub fn check_physical_device_extensions(available: &Vec<String>) -> (b: bool)
    ensures
        b == spec_has_device_extensions(spec_names(available@)),
{
    let required = device_extensions();
    contains_all_names(available, &required)
}

// ---------------------------------------------------------------------------
// Suitability
// ---------------------------------------------------------------------------

impl DeviceCapabilities {
    /// The device is suitable: it is a discrete GPU with geometry shaders, it
    /// has a queue family for graphics and one for presentation, it has
    /// every required extension, and it offers at least one surface format
    /// and one present mode.
    pub open spec fn spec_suitable(&self) -> bool {
        &&& self.device_type == DEVICE_TYPE_DISCRETE_GPU
        &&& self.geometry_shader == BOOL_TRUE
        &&& spec_has_queue_families(self.queue_families@)
        &&& spec_has_device_extensions(spec_names(self.extensions@))
        &&& self.swapchain.formats@.len() > 0
        &&& self.swapchain.present_modes@.len() > 0
    }
}

/// Whether the renderer can run on the device.
pub fn check_physical_device(device: &DeviceCapabilities) -> (b: bool)
    ensures
        b == device.spec_suitable(),
{
    if device.device_type != device_type_discrete_gpu() {
        return false;
    }
    if device.geometry_shader != bool_true() {
        return false;
    }
    if !has_queue_families(&device.queue_families) {
        return false;
    }
    if !check_physical_device_extensions(&device.extensions) {
        return false;
    }
    if !device.swapchain.adequate() {
        return false;
    }
    true
}

/// `i` is the first suitable device of the list.
pub open spec fn spec_first_suitable(devices: Seq<DeviceCapabilities>, i: int) -> bool {
    &&& 0 <= i < devices.len()
    &&& devices[i].spec_suitable()
    &&& forall|k: int| 0 <= k < i ==> !(#[trigger] devices[k]).spec_suitable()
}

/// Picks the device to render on: the first suitable one, in the order in
/// which the driver lists the devices.  Without a suitable device the
/// bootstrap fails.
pub fn pick_physical_device(devices: &Vec<DeviceCapabilities>) -> (r: Result<usize, FatalError>)
    ensures
        match r {
            Ok(i) => spec_first_suitable(devices@, i as int),
            Err(e) => e == FatalError::NoSuitableDevice && forall|k: int|
                0 <= k < devices@.len() ==> !(#[trigger] devices@[k]).spec_suitable(),
        },
{
    let mut i: usize = 0;
    while i < devices.len()
        invariant
            i <= devices@.len(),
            forall|k: int| 0 <= k < i ==> !(#[trigger] devices@[k]).spec_suitable(),
        decreases devices@.len() - i,
    {
        if check_physical_device(&devices[i]) {
            return Ok(i);
        }
        i = i + 1;
    }
    Err(FatalError::NoSuitableDevice)
}

// ---------------------------------------------------------------------------
// Logical device
// ---------------------------------------------------------------------------

/// The queues to create in one family.
#[derive(Clone, Copy, Debug, PartialEq, Eq, Structural)]
pub struct QueueInfo {
    pub family_index: u32,
    pub queue_count: u32,
    /// The priority of each queue, a whole number; 1 is the highest.
    pub priority: u32,
}

/// A queue of the logical device: its family and its index in the family.
#[derive(Clone, Copy, Debug, PartialEq, Eq, Structural)]
pub struct QueueRef {
    pub family_index: u32,
    pub queue_index: u32,
}

/// Everything that creating the logical device takes.
#[derive(Clone, Debug, PartialEq, Eq)]
pub struct DeviceInfo {
    pub queues: Vec<QueueInfo>,
    pub layers: Vec<String>,
    pub extensions: Vec<String>,
    /// Whether any optional feature is switched on.
    pub enables_features: bool,
    /// The queue that commands are submitted to.
    pub graphics_queue: QueueRef,
    /// The queue that images are presented on.
    pub present_queue: QueueRef,
}

/// The families to create queues in: the graphics family and, where it is
/// another one, the presentation family.
pub open spec fn spec_unique_queue_families(indices: QueueFamilyIndices) -> Seq<u32> {
    if indices.graphics == indices.present {
        seq![indices.graphics]
    } else {
        seq![indices.graphics, indices.present]
    }
}

/// Lists the families to create queues in, each once.
pub fn unique_queue_families(indices: QueueFamilyIndices) -> (r: Vec<u32>)
    ensures
        r@ == spec_unique_queue_families(indices),
{
    let mut r: Vec<u32> = Vec::new();
    r.push(indices.graphics);
    if indices.present != indices.graphics {
        r.push(indices.present);
    }
    assert(r@ =~= spec_unique_queue_families(indices));
    r
}

/// The families to create queues in are the graphics family and the
/// presentation family and no other, none of them twice: one family where
/// the two coincide, else two.
pub proof fn lemma_unique_queue_families(indices: QueueFamilyIndices)
    ensures
        spec_unique_queue_families(indices).no_duplicates(),
        spec_unique_queue_families(indices).to_set() == set![indices.graphics, indices.present],
        spec_unique_queue_families(indices).to_set().len() == (if indices.graphics
            == indices.present {
            1nat
        } else {
            2nat
        }),
        spec_unique_queue_families(indices).len() == spec_unique_queue_families(
            indices,
        ).to_set().len(),
{
    let s = spec_unique_queue_families(indices);
    let target = set![indices.graphics, indices.present];
    assert forall|x: u32| s.to_set().contains(x) <==> target.contains(x) by {
        if s.to_set().contains(x) {
            let i = choose|i: int| 0 <= i < s.len() && s[i] == x;
        }
        if target.contains(x) {
            if x == indices.graphics {
                assert(s[0] == x);
            } else {
                assert(s[1] == x);
            }
        }
    }
    assert(s.to_set() =~= target);
    s.unique_seq_to_set();
}

/// What `info` must hold for the given queue families.
pub open spec fn spec_device_info(info: DeviceInfo, indices: QueueFamilyIndices) -> bool {
    &&& info.queues@ == spec_unique_queue_families(indices).map_values(
        |family: u32| QueueInfo { family_index: family, queue_count: 1, priority: 1 },
    )
    &&& spec_names(info.layers@) == seq![spec_validation_layer()]
    &&& spec_names(info.extensions@) == spec_device_extensions()
    &&& !info.enables_features
    &&& info.graphics_queue == (QueueRef { family_index: indices.graphics, queue_index: 0 })
    &&& info.present_queue == (QueueRef { family_index: indices.present, queue_index: 0 })
}

/// Describes the logical device: one queue of the highest priority in each
/// family needed, the validation layer, the swapchain extension, and no
/// optional feature.  The first queue of the graphics family takes the
/// submissions, the first queue of the presentation family presents.
pub fn device_info(indices: QueueFamilyIndices) -> (info: DeviceInfo)
    ensures
        spec_device_info(info, indices),
{
    let families = unique_queue_families(indices);
    let mut queues: Vec<QueueInfo> = Vec::new();
    let mut i: usize = 0;
    while i < families.len()
        invariant
            i <= families@.len(),
            queues@.len() == i,
            forall|k: int|
                0 <= k < i ==> queues@[k] == (QueueInfo {
                    family_index: families@[k],
                    queue_count: 1,
                    priority: 1,
                }),
        decreases families@.len() - i,
    {
        queues.push(QueueInfo { family_index: families[i], queue_count: 1, priority: 1 });
        i = i + 1;
    }
    assert(queues@ =~= spec_unique_queue_families(indices).map_values(
        |family: u32| QueueInfo { family_index: family, queue_count: 1, priority: 1 },
    ));
    let mut layers: Vec<String> = Vec::new();
    layers.push(validation_layer());
    assert(spec_names(layers@) =~= seq![spec_validation_layer()]);
    DeviceInfo {
        queues,
        layers,
        extensions: device_extensions(),
        enables_features: false,
        graphics_queue: QueueRef { family_index: indices.graphics, queue_index: 0 },
        present_queue: QueueRef { family_index: indices.present, queue_index: 0 },
    }
}

} // verus!
