//! Configuring the swapchain and the views of its images.
use vstd::prelude::*;
use crate::device::QueueFamilyIndices;
use crate::types::{Extent2D, SurfaceFormat};
use crate::vk::{
    color_space_srgb_nonlinear,
    format_b8g8r8a8_srgb,
    present_mode_fifo,
    present_mode_mailbox,
    COLOR_SPACE_SRGB_NONLINEAR,
    FORMAT_B8G8R8A8_SRGB,
    PRESENT_MODE_FIFO,
    PRESENT_MODE_MAILBOX,
};

verus! {

/// What a surface can do, as far as the swapchain depends on it.
#[derive(Clone, Copy, Debug, PartialEq, Eq, Structural)]
pub struct SurfaceCapabilities {
    pub min_image_count: u32,
    /// The greatest number of images, or 0 if there is no limit.
    pub max_image_count: u32,
    /// The extent of the surface.  A width of `u32::MAX` says that the
    /// surface takes its extent from the swapchain.
    pub current_extent: Extent2D,
    pub min_image_extent: Extent2D,
    pub max_image_extent: Extent2D,
    /// The current transform of the surface, as raw flag bits.
    pub current_transform: u32,
}

/// What a physical device offers for a surface.
#[derive(Clone, Debug, PartialEq, Eq)]
pub struct SwapchainSupport {
    pub capabilities: SurfaceCapabilities,
    pub formats: Vec<SurfaceFormat>,
    /// The present modes, as raw codes.
    pub present_modes: Vec<i32>,
}

/// How the images of a swapchain are shared between queue families.
#[derive(Clone, Copy, Debug, PartialEq, Eq, Structural)]
pub enum SharingMode {
    Exclusive,
    Concurrent,
}

/// What the images of the swapchain are used for.
#[derive(Clone, Copy, Debug, PartialEq, Eq, Structural)]
pub enum ImageUsage {
    ColorAttachment,
}

/// How the alpha channel is treated when the image is composed on screen.
#[derive(Clone, Copy, Debug, PartialEq, Eq, Structural)]
pub enum CompositeAlpha {
    Opaque,
}

/// Everything that creating the swapchain takes, but the surface.
#[derive(Clone, Debug, PartialEq, Eq)]
pub struct SwapchainInfo {
    pub min_image_count: u32,
    pub format: SurfaceFormat,
    pub extent: Extent2D,
    pub array_layers: u32,
    pub usage: ImageUsage,
    pub sharing_mode: SharingMode,
    /// The queue families that share the images; empty when one family owns
    /// them.
    pub queue_family_indices: Vec<u32>,
    pub pre_transform: u32,
    pub composite_alpha: CompositeAlpha,
    pub present_mode: i32,
    pub clipped: bool,
    /// The swapchain that this one replaces; 0 for none.
    pub old_swapchain: u64,
}

// ---------------------------------------------------------------------------
// Surface format
// ---------------------------------------------------------------------------

/// The preferred format: 8-bit BGRA sRGB in the sRGB non-linear colour space.
pub open spec fn spec_preferred_format() -> SurfaceFormat {
    SurfaceFormat { format: FORMAT_B8G8R8A8_SRGB, color_space: COLOR_SPACE_SRGB_NONLINEAR }
}

/// The format to use: the preferred one if it is offered, else the first.
pub open spec fn spec_surface_format(formats: Seq<SurfaceFormat>) -> SurfaceFormat {
    if formats.contains(spec_preferred_format()) {
        spec_preferred_format()
    } else {
        formats[0]
    }
}

/// Picks the surface format from those that the device offers: the preferred
/// format wherever it stands in the list, else the first of the list.
pub fn get_swapchain_surface_format(formats: &[SurfaceFormat]) -> (r: SurfaceFormat)
    requires
        formats@.len() > 0,
    ensures
        r == spec_surface_format(formats@),
{
    let format = format_b8g8r8a8_srgb();
    let color_space = color_space_srgb_nonlinear();
    let mut i: usize = 0;
    while i < formats.len()
        invariant
            i <= formats@.len(),
            format == FORMAT_B8G8R8A8_SRGB,
            color_space == COLOR_SPACE_SRGB_NONLINEAR,
            forall|k: int| 0 <= k < i ==> formats@[k] != spec_preferred_format(),
        decreases formats@.len() - i,
    {
        if formats[i].format == format && formats[i].color_space == color_space {
            assert(formats@[i as int] == spec_preferred_format());
            return formats[i];
        }
        i = i + 1;
    }
    formats[0]
}

/// Selecting from the same list gives the same format, and selecting once
/// more from the selected format alone gives it again.
pub proof fn lemma_surface_format_selection_is_idempotent(formats: Seq<SurfaceFormat>)
    requires
        formats.len() > 0,
    ensures
        spec_surface_format(seq![spec_surface_format(formats)]) == spec_surface_format(formats),
{
    let chosen = spec_surface_format(formats);
    let single = seq![chosen];
    assert(single[0] == chosen);
    if single.contains(spec_preferred_format()) {
        let i = choose|i: int| 0 <= i < single.len() && single[i] == spec_preferred_format();
        assert(chosen == spec_preferred_format());
    }
}

/// The preferred format is selected whenever it is offered, at whatever
/// position.
pub proof fn lemma_preferred_format_is_selected(formats: Seq<SurfaceFormat>, i: int)
    requires
        0 <= i < formats.len(),
        formats[i] == spec_preferred_format(),
    ensures
        spec_surface_format(formats) == spec_preferred_format(),
{
}

/// The selected format is one of those offered.
pub proof fn lemma_selected_format_is_offered(formats: Seq<SurfaceFormat>)
    requires
        formats.len() > 0,
    ensures
        formats.contains(spec_surface_format(formats)),
{
    if !formats.contains(spec_preferred_format()) {
        assert(formats[0] == spec_surface_format(formats));
    }
}

// ---------------------------------------------------------------------------
// Present mode
// ---------------------------------------------------------------------------

/// The present mode to use: mailbox if it is offered, else FIFO.
pub open spec fn spec_present_mode(present_modes: Seq<i32>) -> i32 {
    if present_modes.contains(PRESENT_MODE_MAILBOX) {
        PRESENT_MODE_MAILBOX
    } else {
        PRESENT_MODE_FIFO
    }
}

/// Picks the present mode from those that the device offers: mailbox if it
/// is among them, else FIFO, which every device has.
pub fn get_swapchain_present_modes(present_modes: &[i32]) -> (r: i32)
    ensures
        r == spec_present_mode(present_modes@),
{
    let mailbox = present_mode_mailbox();
    let mut i: usize = 0;
    while i < present_modes.len()
        invariant
            i <= present_modes@.len(),
            mailbox == PRESENT_MODE_MAILBOX,
            forall|k: int| 0 <= k < i ==> present_modes@[k] != PRESENT_MODE_MAILBOX,
        decreases present_modes@.len() - i,
    {
        if present_modes[i] == mailbox {
            return mailbox;
        }
        i = i + 1;
    }
    present_mode_fifo()
}

/// The selection never fails and never yields a third mode: it is mailbox
/// exactly when mailbox is offered, and FIFO otherwise.
pub proof fn lemma_present_mode_is_mailbox_or_fifo(present_modes: Seq<i32>)
    ensures
        present_modes.contains(PRESENT_MODE_MAILBOX) ==> spec_present_mode(present_modes)
            == PRESENT_MODE_MAILBOX,
        !present_modes.contains(PRESENT_MODE_MAILBOX) ==> spec_present_mode(present_modes)
            == PRESENT_MODE_FIFO,
        spec_present_mode(present_modes) == PRESENT_MODE_MAILBOX || spec_present_mode(
            present_modes,
        ) == PRESENT_MODE_FIFO,
{
}

// ---------------------------------------------------------------------------
// Extent
// ---------------------------------------------------------------------------

/// `v`, moved into the range from `low` to `high`.
pub open spec fn spec_clamp(v: u32, low: u32, high: u32) -> u32 {
    if v < low {
        low
    } else if v > high {
        high
    } else {
        v
    }
}

/// The extent of the swapchain images: the extent of the surface if it has
/// one, else the size of the window moved into the bounds of the surface.
pub open spec fn spec_swapchain_extent(
    window_size: Extent2D,
    capabilities: SurfaceCapabilities,
) -> Extent2D {
    if capabilities.current_extent.width != u32::MAX {
        capabilities.current_extent
    } else {
        Extent2D {
            width: spec_clamp(
                window_size.width,
                capabilities.min_image_extent.width,
                capabilities.max_image_extent.width,
            ),
            height: spec_clamp(
                window_size.height,
                capabilities.min_image_extent.height,
                capabilities.max_image_extent.height,
            ),
        }
    }
}

impl SurfaceCapabilities {
    /// Whether the surface has an extent of its own.
    pub open spec fn spec_has_extent(&self) -> bool {
        self.current_extent.width != u32::MAX
    }

    /// The bounds on the extent are a range: no minimum exceeds its maximum.
    pub open spec fn spec_extent_bounds_ordered(&self) -> bool {
        &&& self.min_image_extent.width <= self.max_image_extent.width
        &&& self.min_image_extent.height <= self.max_image_extent.height
    }

    /// The number of images to ask for is a 32-bit number.
    pub open spec fn spec_image_count_fits(&self) -> bool {
        spec_image_count(*self) <= u32::MAX
    }

    /// A swapchain can be configured for these capabilities.
    pub open spec fn spec_usable(&self) -> bool {
        &&& !self.spec_has_extent() ==> self.spec_extent_bounds_ordered()
        &&& self.spec_image_count_fits()
    }

    /// Whether a swapchain can be configured for these capabilities.
    pub fn usable(&self) -> (b: bool)
        ensures
            b == self.spec_usable(),
    {
        let extent_ok = self.current_extent.width != u32::MAX || (self.min_image_extent.width
            <= self.max_image_extent.width && self.min_image_extent.height
            <= self.max_image_extent.height);
        let count_ok = self.max_image_count != 0 || self.min_image_count < u32::MAX;
        extent_ok && count_ok
    }
}

fn clamp(v: u32, low: u32, high: u32) -> (r: u32)
    ensures
        r == spec_clamp(v, low, high),
{
    if v < low {
        low
    } else if v > high {
        high
    } else {
        v
    }
}

/// Computes the extent of the swapchain images for a window of the given
/// size.
pub fn get_swapchain_extent(window_size: Extent2D, capabilities: SurfaceCapabilities) -> (r:
    Extent2D)
    requires
        !capabilities.spec_has_extent() ==> capabilities.spec_extent_bounds_ordered(),
    ensures
        r == spec_swapchain_extent(window_size, capabilities),
{
    if capabilities.current_extent.width != u32::MAX {
        capabilities.current_extent
    } else {
        Extent2D {
            width: clamp(
                window_size.width,
                capabilities.min_image_extent.width,
                capabilities.max_image_extent.width,
            ),
            height: clamp(
                window_size.height,
                capabilities.min_image_extent.height,
                capabilities.max_image_extent.height,
            ),
        }
    }
}

/// A surface with an extent of its own dictates the extent.  Otherwise each
/// dimension lies within the bounds of the surface: it is the dimension of
/// the window where that lies within the bounds, else the bound nearest to
/// it.
pub proof fn lemma_extent_is_current_or_clamped(
    window_size: Extent2D,
    capabilities: SurfaceCapabilities,
)
    requires
        !capabilities.spec_has_extent() ==> capabilities.spec_extent_bounds_ordered(),
    ensures
        capabilities.spec_has_extent() ==> spec_swapchain_extent(window_size, capabilities)
            == capabilities.current_extent,
        !capabilities.spec_has_extent() ==> ({
            let r = spec_swapchain_extent(window_size, capabilities);
            let low = capabilities.min_image_extent;
            let high = capabilities.max_image_extent;
            &&& low.width <= r.width <= high.width
            &&& low.height <= r.height <= high.height
            &&& low.width <= window_size.width <= high.width ==> r.width == window_size.width
            &&& low.height <= window_size.height <= high.height ==> r.height
                == window_size.height
            &&& window_size.width < low.width ==> r.width == low.width
            &&& window_size.width > high.width ==> r.width == high.width
            &&& window_size.height < low.height ==> r.height == low.height
            &&& window_size.height > high.height ==> r.height == high.height
        }),
{
}

// ---------------------------------------------------------------------------
// Image count
// ---------------------------------------------------------------------------

/// The number of images to ask for: one more than the minimum, but no more
/// than the maximum where there is one.
pub open spec fn spec_image_count(capabilities: SurfaceCapabilities) -> int {
    if capabilities.max_image_count != 0 && capabilities.min_image_count + 1
        > capabilities.max_image_count {
        capabilities.max_image_count as int
    } else {
        capabilities.min_image_count + 1
    }
}

/// Computes the number of images to ask for.
pub fn swapchain_image_count(capabilities: SurfaceCapabilities) -> (r: u32)
    requires
        capabilities.spec_image_count_fits(),
    ensures
        r == spec_image_count(capabilities),
{
    if capabilities.max_image_count != 0 && capabilities.min_image_count
        >= capabilities.max_image_count {
        capabilities.max_image_count
    } else {
        capabilities.min_image_count + 1
    }
}

/// The image count exceeds the minimum by one unless the maximum forbids it,
/// and respects the maximum wherever the maximum is not below the minimum.
pub proof fn lemma_image_count_bounds(capabilities: SurfaceCapabilities)
    ensures
        capabilities.max_image_count == 0 ==> spec_image_count(capabilities)
            == capabilities.min_image_count + 1,
        capabilities.max_image_count != 0 ==> spec_image_count(capabilities)
            <= capabilities.max_image_count,
        capabilities.max_image_count > capabilities.min_image_count ==> spec_image_count(
            capabilities,
        ) == capabilities.min_image_count + 1,
{
}

// ---------------------------------------------------------------------------
// Sharing and the swapchain as a whole
// ---------------------------------------------------------------------------

/// How the images are shared: by both families where graphics and
/// presentation differ, else owned by the one family.
pub open spec fn spec_sharing_mode(indices: QueueFamilyIndices) -> SharingMode {
    if indices.graphics != indices.present {
        SharingMode::Concurrent
    } else {
        SharingMode::Exclusive
    }
}

/// The families that share the images.
pub open spec fn spec_sharing_indices(indices: QueueFamilyIndices) -> Seq<u32> {
    if indices.graphics != indices.present {
        seq![indices.graphics, indices.present]
    } else {
        seq![]
    }
}

impl SwapchainSupport {
    /// The device offers at least one format and one present mode.
    pub open spec fn spec_adequate(&self) -> bool {
        self.formats@.len() > 0 && self.present_modes@.len() > 0
    }

    /// Whether the device offers at least one format and one present mode.
    pub fn adequate(&self) -> (b: bool)
        ensures
            b == self.spec_adequate(),
    {
        self.formats.len() > 0 && self.present_modes.len() > 0
    }

    /// A swapchain can be configured from this support.
    pub open spec fn spec_usable(&self) -> bool {
        self.formats@.len() > 0 && self.capabilities.spec_usable()
    }

    /// Whether a swapchain can be configured from this support.
    pub fn usable(&self) -> (b: bool)
        ensures
            b == self.spec_usable(),
    {
        self.formats.len() > 0 && self.capabilities.usable()
    }
}

/// What `info` must hold for a window of the given size.
pub open spec fn spec_swapchain_info(
    info: SwapchainInfo,
    window_size: Extent2D,
    indices: QueueFamilyIndices,
    support: SwapchainSupport,
) -> bool {
    &&& info.min_image_count == spec_image_count(support.capabilities)
    &&& info.format == spec_surface_format(support.formats@)
    &&& info.extent == spec_swapchain_extent(window_size, support.capabilities)
    &&& info.array_layers == 1
    &&& info.usage == ImageUsage::ColorAttachment
    &&& info.sharing_mode == spec_sharing_mode(indices)
    &&& info.queue_family_indices@ == spec_sharing_indices(indices)
    &&& info.pre_transform == support.capabilities.current_transform
    &&& info.composite_alpha == CompositeAlpha::Opaque
    &&& info.present_mode == spec_present_mode(support.present_modes@)
    &&& info.clipped
    &&& info.old_swapchain == 0
}

/// Describes the swapchain for a window of the given size.
///
/// Format, present mode, extent and image count follow the policies of this
/// module.  The images have one layer and are colour attachments; they keep
/// the current transform of the surface, are opaque on screen, and pixels
/// that are hidden need not be rendered.  No earlier swapchain is replaced.
pub fn swapchain_info(
    window_size: Extent2D,
    indices: QueueFamilyIndices,
    support: &SwapchainSupport,
) -> (info: SwapchainInfo)
    requires
        support.spec_usable(),
    ensures
        spec_swapchain_info(info, window_size, indices, *support),
{
    let format = get_swapchain_surface_format(support.formats.as_slice());
    let present_mode = get_swapchain_present_modes(support.present_modes.as_slice());
    let extent = get_swapchain_extent(window_size, support.capabilities);
    let min_image_count = swapchain_image_count(support.capabilities);
    let mut queue_family_indices: Vec<u32> = Vec::new();
    let sharing_mode = if indices.graphics != indices.present {
        queue_family_indices.push(indices.graphics);
        queue_family_indices.push(indices.present);
        SharingMode::Concurrent
    } else {
        SharingMode::Exclusive
    };
    assert(queue_family_indices@ =~= spec_sharing_indices(indices));
    SwapchainInfo {
        min_image_count,
        format,
        extent,
        array_layers: 1,
        usage: ImageUsage::ColorAttachment,
        sharing_mode,
        queue_family_indices,
        pre_transform: support.capabilities.current_transform,
        composite_alpha: CompositeAlpha::Opaque,
        present_mode,
        clipped: true,
        old_swapchain: 0,
    }
}

// ---------------------------------------------------------------------------
// Image views
// ---------------------------------------------------------------------------

/// The dimensionality of an image view.
#[derive(Clone, Copy, Debug, PartialEq, Eq, Structural)]
pub enum ImageViewType {
    TwoD,
}

/// Where a channel of a view takes its value from.
#[derive(Clone, Copy, Debug, PartialEq, Eq, Structural)]
pub enum ComponentSwizzle {
    Identity,
}

/// The part of an image that a view shows.
#[derive(Clone, Copy, Debug, PartialEq, Eq, Structural)]
pub enum ImageAspect {
    Color,
}

/// Everything that creating one image view takes.
#[derive(Clone, Copy, Debug, PartialEq, Eq, Structural)]
pub struct ImageViewInfo {
    pub image: u64,
    pub view_type: ImageViewType,
    pub format: i32,
    pub red: ComponentSwizzle,
    pub green: ComponentSwizzle,
    pub blue: ComponentSwizzle,
    pub alpha: ComponentSwizzle,
    pub aspect: ImageAspect,
    pub base_mip_level: u32,
    pub level_count: u32,
    pub base_array_layer: u32,
    pub layer_count: u32,
}

/// The view of a swapchain image: two-dimensional, in the format of the
/// swapchain, every channel mapped to itself, showing the colour of the one
/// mip level and the one layer.
pub open spec fn spec_image_view_info(image: u64, format: i32) -> ImageViewInfo {
    ImageViewInfo {
        image,
        view_type: ImageViewType::TwoD,
        format,
        red: ComponentSwizzle::Identity,
        green: ComponentSwizzle::Identity,
        blue: ComponentSwizzle::Identity,
        alpha: ComponentSwizzle::Identity,
        aspect: ImageAspect::Color,
        base_mip_level: 0,
        level_count: 1,
        base_array_layer: 0,
        layer_count: 1,
    }
}

/// Describes the image views of the swapchain: one for each image, in the
/// order of the images.
pub fn image_view_infos(images: &Vec<u64>, format: i32) -> (infos: Vec<ImageViewInfo>)
    ensures
        infos@ == images@.map_values(|image: u64| spec_image_view_info(image, format)),
{
    let mut infos: Vec<ImageViewInfo> = Vec::new();
    let mut i: usize = 0;
    while i < images.len()
        invariant
            i <= images@.len(),
            infos@.len() == i,
            forall|k: int| 0 <= k < i ==> infos@[k] == spec_image_view_info(images@[k], format),
        decreases images@.len() - i,
    {
        infos.push(
            ImageViewInfo {
                image: images[i],
                view_type: ImageViewType::TwoD,
                format,
                red: ComponentSwizzle::Identity,
                green: ComponentSwizzle::Identity,
                blue: ComponentSwizzle::Identity,
                alpha: ComponentSwizzle::Identity,
                aspect: ImageAspect::Color,
                base_mip_level: 0,
                level_count: 1,
                base_array_layer: 0,
                layer_count: 1,
            },
        );
        i = i + 1;
    }
    assert(infos@ =~= images@.map_values(|image: u64| spec_image_view_info(image, format)));
    infos
}

} // verus!
