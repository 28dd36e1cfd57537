use vk_bootstrap::device::QueueFamilyIndices;
use vk_bootstrap::swapchain::{
    get_swapchain_extent, get_swapchain_present_modes, get_swapchain_surface_format,
    image_view_infos, swapchain_image_count, swapchain_info, ComponentSwizzle, CompositeAlpha,
    ImageAspect, ImageUsage, ImageViewType, SharingMode, SurfaceCapabilities, SwapchainSupport,
};
use vk_bootstrap::types::{Extent2D, SurfaceFormat};

fn caps(min_count: u32, max_count: u32) -> SurfaceCapabilities {
    SurfaceCapabilities {
        min_image_count: min_count,
        max_image_count: max_count,
        current_extent: Extent2D { width: 800, height: 600 },
        min_image_extent: Extent2D { width: 1, height: 1 },
        max_image_extent: Extent2D { width: 4096, height: 4096 },
        current_transform: 1,
    }
}

fn undefined_extent_caps() -> SurfaceCapabilities {
    SurfaceCapabilities {
        min_image_count: 2,
        max_image_count: 8,
        current_extent: Extent2D { width: u32::MAX, height: u32::MAX },
        min_image_extent: Extent2D { width: 100, height: 50 },
        max_image_extent: Extent2D { width: 2000, height: 1000 },
        current_transform: 1,
    }
}

fn preferred() -> SurfaceFormat {
    SurfaceFormat {
        format: ash::vk::Format::B8G8R8A8_SRGB.as_raw(),
        color_space: ash::vk::ColorSpaceKHR::SRGB_NONLINEAR.as_raw(),
    }
}

#[test]
fn preferred_format_has_the_documented_codes() {
    assert_eq!(preferred(), SurfaceFormat { format: 50, color_space: 0 });
    assert_eq!(vk_bootstrap::vk::FORMAT_B8G8R8A8_SRGB, 50);
    assert_eq!(vk_bootstrap::vk::COLOR_SPACE_SRGB_NONLINEAR, 0);
}

#[test]
fn surface_format_prefers_bgra_srgb_at_any_position() {
    let other_a = SurfaceFormat { format: 37, color_space: 0 };
    let other_b = SurfaceFormat { format: 44, color_space: 0 };
    assert_eq!(get_swapchain_surface_format(&[preferred(), other_a, other_b]), preferred());
    assert_eq!(get_swapchain_surface_format(&[other_a, preferred(), other_b]), preferred());
    assert_eq!(get_swapchain_surface_format(&[other_a, other_b, preferred()]), preferred());
}

#[test]
fn surface_format_falls_back_to_the_first() {
    let other_a = SurfaceFormat { format: 37, color_space: 0 };
    let other_b = SurfaceFormat { format: 44, color_space: 0 };
    assert_eq!(get_swapchain_surface_format(&[other_a, other_b]), other_a);
    assert_eq!(get_swapchain_surface_format(&[other_b, other_a]), other_b);
}

#[test]
fn surface_format_needs_format_and_color_space_to_match() {
    let wrong_space = SurfaceFormat { format: 50, color_space: 1000104001 };
    let wrong_format = SurfaceFormat { format: 44, color_space: 0 };
    assert_eq!(get_swapchain_surface_format(&[wrong_space, wrong_format]), wrong_space);
    assert_eq!(get_swapchain_surface_format(&[wrong_format, wrong_space]), wrong_format);
}

#[test]
fn surface_format_selection_is_repeatable_and_idempotent() {
    let formats = [SurfaceFormat { format: 37, color_space: 0 }, preferred()];
    let first = get_swapchain_surface_format(&formats);
    let second = get_swapchain_surface_format(&formats);
    assert_eq!(first, second);
    assert_eq!(get_swapchain_surface_format(&[first]), first);
    let fallback = [SurfaceFormat { format: 37, color_space: 0 }];
    let chosen = get_swapchain_surface_format(&fallback);
    assert_eq!(get_swapchain_surface_format(&[chosen]), chosen);
}

#[test]
fn present_mode_is_mailbox_when_offered() {
    let mailbox = ash::vk::PresentModeKHR::MAILBOX.as_raw();
    let fifo = ash::vk::PresentModeKHR::FIFO.as_raw();
    let immediate = ash::vk::PresentModeKHR::IMMEDIATE.as_raw();
    assert_eq!(mailbox, 1);
    assert_eq!(get_swapchain_present_modes(&[fifo, mailbox]), mailbox);
    assert_eq!(get_swapchain_present_modes(&[mailbox]), mailbox);
    assert_eq!(get_swapchain_present_modes(&[immediate, fifo, mailbox]), 1);
}

#[test]
fn present_mode_is_fifo_otherwise() {
    let fifo = ash::vk::PresentModeKHR::FIFO.as_raw();
    let immediate = ash::vk::PresentModeKHR::IMMEDIATE.as_raw();
    let relaxed = ash::vk::PresentModeKHR::FIFO_RELAXED.as_raw();
    assert_eq!(fifo, 2);
    assert_eq!(get_swapchain_present_modes(&[fifo]), fifo);
    assert_eq!(get_swapchain_present_modes(&[immediate, relaxed]), 2);
    assert_eq!(get_swapchain_present_modes(&[immediate]), fifo);
    assert_eq!(get_swapchain_present_modes(&[]), fifo);
}

#[test]
fn extent_is_the_current_extent_when_defined() {
    let c = caps(2, 0);
    let r = get_swapchain_extent(Extent2D { width: 5000, height: 5000 }, c);
    assert_eq!(r, Extent2D { width: 800, height: 600 });
}

#[test]
fn extent_with_defined_width_keeps_any_height() {
    let mut c = caps(2, 0);
    c.current_extent = Extent2D { width: 640, height: u32::MAX };
    let r = get_swapchain_extent(Extent2D { width: 10, height: 10 }, c);
    assert_eq!(r, Extent2D { width: 640, height: u32::MAX });
}

#[test]
fn extent_is_the_window_size_within_bounds() {
    let r = get_swapchain_extent(Extent2D { width: 800, height: 600 }, undefined_extent_caps());
    assert_eq!(r, Extent2D { width: 800, height: 600 });
}

#[test]
fn extent_is_clamped_to_the_bounds() {
    let c = undefined_extent_caps();
    assert_eq!(
        get_swapchain_extent(Extent2D { width: 10, height: 5000 }, c),
        Extent2D { width: 100, height: 1000 }
    );
    assert_eq!(
        get_swapchain_extent(Extent2D { width: 3000, height: 10 }, c),
        Extent2D { width: 2000, height: 50 }
    );
    assert_eq!(
        get_swapchain_extent(Extent2D { width: 100, height: 1000 }, c),
        Extent2D { width: 100, height: 1000 }
    );
    assert_eq!(
        get_swapchain_extent(Extent2D { width: 0, height: u32::MAX }, c),
        Extent2D { width: 100, height: 1000 }
    );
}

#[test]
fn image_count_is_min_plus_one_without_a_maximum() {
    assert_eq!(swapchain_image_count(caps(2, 0)), 3);
}

#[test]
fn image_count_is_capped_at_the_maximum() {
    assert_eq!(swapchain_image_count(caps(2, 2)), 2);
}

#[test]
fn image_count_below_the_maximum_is_min_plus_one() {
    assert_eq!(swapchain_image_count(caps(2, 3)), 3);
    assert_eq!(swapchain_image_count(caps(2, 8)), 3);
    assert_eq!(swapchain_image_count(caps(0, 0)), 1);
    assert_eq!(swapchain_image_count(caps(1, 1)), 1);
}

#[test]
fn image_count_at_the_top_of_the_range() {
    assert_eq!(swapchain_image_count(caps(u32::MAX, 5)), 5);
    assert_eq!(swapchain_image_count(caps(u32::MAX - 1, 0)), u32::MAX);
    assert_eq!(swapchain_image_count(caps(u32::MAX, u32::MAX)), u32::MAX);
}

#[test]
fn capabilities_say_whether_they_are_usable() {
    assert!(caps(2, 0).usable());
    assert!(undefined_extent_caps().usable());
    assert!(!caps(u32::MAX, 0).usable());
    assert!(caps(u32::MAX, 7).usable());
    let mut crossed = undefined_extent_caps();
    crossed.min_image_extent = Extent2D { width: 3000, height: 50 };
    assert!(!crossed.usable());
    crossed.current_extent = Extent2D { width: 800, height: 600 };
    assert!(crossed.usable());
    let mut crossed_height = undefined_extent_caps();
    crossed_height.max_image_extent = Extent2D { width: 2000, height: 10 };
    assert!(!crossed_height.usable());
}

#[test]
fn support_is_adequate_with_a_format_and_a_present_mode() {
    let full = SwapchainSupport {
        capabilities: caps(2, 0),
        formats: vec![preferred()],
        present_modes: vec![2],
    };
    assert!(full.adequate());
    assert!(full.usable());
    let no_formats =
        SwapchainSupport { capabilities: caps(2, 0), formats: vec![], present_modes: vec![2] };
    assert!(!no_formats.adequate());
    assert!(!no_formats.usable());
    let no_modes = SwapchainSupport {
        capabilities: caps(2, 0),
        formats: vec![preferred()],
        present_modes: vec![],
    };
    assert!(!no_modes.adequate());
    assert!(no_modes.usable());
}

#[test]
fn swapchain_is_exclusive_for_one_queue_family() {
    let support = SwapchainSupport {
        capabilities: caps(2, 0),
        formats: vec![SurfaceFormat { format: 37, color_space: 0 }, preferred()],
        present_modes: vec![2, 1],
    };
    let info = swapchain_info(
        Extent2D { width: 1024, height: 768 },
        QueueFamilyIndices { graphics: 0, present: 0 },
        &support,
    );
    assert_eq!(info.min_image_count, 3);
    assert_eq!(info.format, preferred());
    assert_eq!(info.extent, Extent2D { width: 800, height: 600 });
    assert_eq!(info.array_layers, 1);
    assert_eq!(info.usage, ImageUsage::ColorAttachment);
    assert_eq!(info.sharing_mode, SharingMode::Exclusive);
    assert_eq!(info.queue_family_indices, Vec::<u32>::new());
    assert_eq!(info.pre_transform, 1);
    assert_eq!(info.composite_alpha, CompositeAlpha::Opaque);
    assert_eq!(info.present_mode, 1);
    assert!(info.clipped);
    assert_eq!(info.old_swapchain, 0);
}

#[test]
fn swapchain_is_concurrent_for_two_queue_families() {
    let mut capabilities = undefined_extent_caps();
    capabilities.current_transform = 0x100;
    let support = SwapchainSupport {
        capabilities,
        formats: vec![SurfaceFormat { format: 37, color_space: 0 }],
        present_modes: vec![0],
    };
    let info = swapchain_info(
        Extent2D { width: 5000, height: 20 },
        QueueFamilyIndices { graphics: 2, present: 5 },
        &support,
    );
    assert_eq!(info.min_image_count, 3);
    assert_eq!(info.format, SurfaceFormat { format: 37, color_space: 0 });
    assert_eq!(info.extent, Extent2D { width: 2000, height: 50 });
    assert_eq!(info.sharing_mode, SharingMode::Concurrent);
    assert_eq!(info.queue_family_indices, vec![2, 5]);
    assert_eq!(info.pre_transform, 0x100);
    assert_eq!(info.present_mode, 2);
}

#[test]
fn image_views_follow_the_images_one_to_one() {
    let infos = image_view_infos(&vec![11, 22, 33], 50);
    assert_eq!(infos.len(), 3);
    for (i, image) in [11u64, 22, 33].iter().enumerate() {
        assert_eq!(infos[i].image, *image);
        assert_eq!(infos[i].view_type, ImageViewType::TwoD);
        assert_eq!(infos[i].format, 50);
        assert_eq!(infos[i].red, ComponentSwizzle::Identity);
        assert_eq!(infos[i].green, ComponentSwizzle::Identity);
        assert_eq!(infos[i].blue, ComponentSwizzle::Identity);
        assert_eq!(infos[i].alpha, ComponentSwizzle::Identity);
        assert_eq!(infos[i].aspect, ImageAspect::Color);
        assert_eq!(infos[i].base_mip_level, 0);
        assert_eq!(infos[i].level_count, 1);
        assert_eq!(infos[i].base_array_layer, 0);
        assert_eq!(infos[i].layer_count, 1);
    }
    assert!(image_view_infos(&vec![], 50).is_empty());
}

#[test]
fn swapchain_image_count_is_capped_end_to_end() {
    let support = SwapchainSupport {
        capabilities: caps(2, 2),
        formats: vec![preferred()],
        present_modes: vec![2],
    };
    let info = swapchain_info(
        Extent2D { width: 800, height: 600 },
        QueueFamilyIndices { graphics: 0, present: 0 },
        &support,
    );
    assert_eq!(info.min_image_count, 2);
}

#[test]
fn swapchain_image_count_is_uncapped_end_to_end() {
    let support = SwapchainSupport {
        capabilities: caps(2, 0),
        formats: vec![preferred()],
        present_modes: vec![2],
    };
    let info = swapchain_info(
        Extent2D { width: 800, height: 600 },
        QueueFamilyIndices { graphics: 0, present: 1 },
        &support,
    );
    assert_eq!(info.min_image_count, 3);
}
