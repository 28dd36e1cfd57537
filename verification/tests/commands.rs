use vk_bootstrap::commands::{
    command_buffer_allocate_info, command_pool_info, framebuffer_infos, recording, recordings,
    ClearColor, Command, CommandBufferAllocateInfo, CommandBufferLevel, CommandPoolInfo,
    FramebufferInfo,
};
use vk_bootstrap::device::QueueFamilyIndices;
use vk_bootstrap::types::{Extent2D, Rect2D};

#[test]
fn one_framebuffer_per_image_view() {
    let extent = Extent2D { width: 640, height: 480 };
    let infos = framebuffer_infos(&vec![5, 6, 7], 99, extent);
    assert_eq!(
        infos,
        vec![
            FramebufferInfo { render_pass: 99, attachment: 5, width: 640, height: 480, layers: 1 },
            FramebufferInfo { render_pass: 99, attachment: 6, width: 640, height: 480, layers: 1 },
            FramebufferInfo { render_pass: 99, attachment: 7, width: 640, height: 480, layers: 1 },
        ]
    );
    assert!(framebuffer_infos(&vec![], 99, extent).is_empty());
}

#[test]
fn command_pool_serves_the_graphics_family() {
    assert_eq!(
        command_pool_info(QueueFamilyIndices { graphics: 2, present: 5 }),
        CommandPoolInfo { queue_family_index: 2, transient: false, resettable: false }
    );
}

#[test]
fn one_primary_command_buffer_per_framebuffer() {
    assert_eq!(
        command_buffer_allocate_info(77, 3),
        CommandBufferAllocateInfo { command_pool: 77, level: CommandBufferLevel::Primary, count: 3 }
    );
    assert_eq!(command_buffer_allocate_info(77, 0).count, 0);
}

#[test]
fn a_command_buffer_records_one_triangle() {
    let extent = Extent2D { width: 800, height: 600 };
    assert_eq!(
        recording(11, 22, 33, extent),
        vec![
            Command::Begin,
            Command::BeginRenderPass {
                render_pass: 22,
                framebuffer: 11,
                render_area: Rect2D { x: 0, y: 0, extent },
                clear_color: ClearColor { red: 0, green: 0, blue: 0, alpha: 1 },
            },
            Command::BindPipeline { pipeline: 33 },
            Command::Draw { vertex_count: 3, instance_count: 1, first_vertex: 0, first_instance: 0 },
            Command::EndRenderPass,
            Command::End,
        ]
    );
}

#[test]
fn each_command_buffer_renders_to_its_framebuffer() {
    let extent = Extent2D { width: 800, height: 600 };
    let all = recordings(&vec![11, 12, 13], 22, 33, extent);
    assert_eq!(all.len(), 3);
    for (i, framebuffer) in [11u64, 12, 13].iter().enumerate() {
        assert_eq!(all[i], recording(*framebuffer, 22, 33, extent));
        assert_eq!(all[i].len(), 6);
    }
    assert!(recordings(&vec![], 22, 33, extent).is_empty());
}

