use vk_bootstrap::lifecycle::{
    dependencies, setup_order, shutdown_steps, teardown_order, Lifecycle, LifecycleError,
    Resource, ShutdownStep,
};

fn all_resources() -> Vec<Resource> {
    vec![
        Resource::Instance,
        Resource::Surface,
        Resource::DebugMessenger,
        Resource::Device,
        Resource::Swapchain,
        Resource::ImageViews,
        Resource::RenderPass,
        Resource::PipelineLayout,
        Resource::Pipeline,
        Resource::Framebuffers,
        Resource::CommandPool,
        Resource::Semaphores,
    ]
}

fn booted() -> Lifecycle {
    let mut lifecycle = Lifecycle::new();
    for r in setup_order() {
        assert_eq!(lifecycle.create(r), Ok(()));
    }
    lifecycle
}

#[test]
fn setup_creates_all_twelve_resources_in_order() {
    assert_eq!(setup_order(), all_resources());
}

#[test]
fn teardown_order_is_semaphores_first_instance_last() {
    assert_eq!(
        teardown_order(),
        vec![
            Resource::Semaphores,
            Resource::CommandPool,
            Resource::Framebuffers,
            Resource::Pipeline,
            Resource::PipelineLayout,
            Resource::RenderPass,
            Resource::ImageViews,
            Resource::Swapchain,
            Resource::Device,
            Resource::DebugMessenger,
            Resource::Surface,
            Resource::Instance,
        ]
    );
}

#[test]
fn teardown_order_is_the_reverse_of_setup_order() {
    let mut reversed = setup_order();
    reversed.reverse();
    assert_eq!(teardown_order(), reversed);
}

#[test]
fn setup_order_is_accepted_step_by_step() {
    let lifecycle = booted();
    assert_eq!(lifecycle.len(), 12);
    for r in all_resources() {
        assert!(lifecycle.is_live(r));
    }
}

#[test]
fn teardown_order_is_accepted_step_by_step() {
    let mut lifecycle = booted();
    assert_eq!(lifecycle.teardown_plan(), teardown_order());
    for r in teardown_order() {
        assert_eq!(lifecycle.destroy(r), Ok(()));
        assert!(!lifecycle.is_live(r));
    }
    assert_eq!(lifecycle.len(), 0);
    assert!(lifecycle.teardown_plan().is_empty());
}

#[test]
fn destroying_the_device_before_the_pipeline_is_flagged() {
    let mut lifecycle = booted();
    assert_eq!(lifecycle.destroy(Resource::Device), Err(LifecycleError::OutOfOrder));
    assert_eq!(lifecycle.len(), 12);
    assert!(lifecycle.is_live(Resource::Device));
    assert!(lifecycle.is_live(Resource::Pipeline));
}

#[test]
fn every_destruction_out_of_order_is_flagged() {
    let mut lifecycle = booted();
    for r in all_resources() {
        if r != Resource::Semaphores {
            assert_eq!(lifecycle.destroy(r), Err(LifecycleError::OutOfOrder));
        }
    }
    assert_eq!(lifecycle.destroy(Resource::Semaphores), Ok(()));
    assert_eq!(lifecycle.destroy(Resource::Semaphores), Err(LifecycleError::NotLive));
    assert_eq!(lifecycle.destroy(Resource::Framebuffers), Err(LifecycleError::OutOfOrder));
    assert_eq!(lifecycle.destroy(Resource::CommandPool), Ok(()));
}

#[test]
fn destroying_what_is_not_alive_is_flagged() {
    let mut lifecycle = Lifecycle::new();
    assert_eq!(lifecycle.destroy(Resource::Instance), Err(LifecycleError::NotLive));
    assert_eq!(lifecycle.create(Resource::Instance), Ok(()));
    assert_eq!(lifecycle.destroy(Resource::Surface), Err(LifecycleError::NotLive));
    assert_eq!(lifecycle.destroy(Resource::Instance), Ok(()));
    assert_eq!(lifecycle.destroy(Resource::Instance), Err(LifecycleError::NotLive));
}

#[test]
fn creating_before_the_dependencies_is_refused() {
    let mut lifecycle = Lifecycle::new();
    assert_eq!(lifecycle.create(Resource::Device), Err(LifecycleError::MissingDependency));
    assert_eq!(lifecycle.create(Resource::Pipeline), Err(LifecycleError::MissingDependency));
    assert_eq!(lifecycle.create(Resource::Instance), Ok(()));
    assert_eq!(lifecycle.create(Resource::Device), Err(LifecycleError::MissingDependency));
    assert_eq!(lifecycle.create(Resource::Surface), Ok(()));
    assert_eq!(lifecycle.create(Resource::Device), Ok(()));
    assert_eq!(lifecycle.create(Resource::Framebuffers), Err(LifecycleError::MissingDependency));
    assert_eq!(lifecycle.create(Resource::Pipeline), Err(LifecycleError::MissingDependency));
    assert_eq!(lifecycle.len(), 3);
}

#[test]
fn creating_twice_is_refused() {
    let mut lifecycle = Lifecycle::new();
    assert_eq!(lifecycle.create(Resource::Instance), Ok(()));
    assert_eq!(lifecycle.create(Resource::Instance), Err(LifecycleError::AlreadyLive));
    assert_eq!(lifecycle.len(), 1);
}

#[test]
fn another_sound_order_is_torn_down_in_its_own_reverse() {
    let order = vec![
        Resource::Instance,
        Resource::DebugMessenger,
        Resource::Surface,
        Resource::Device,
        Resource::Semaphores,
        Resource::CommandPool,
        Resource::Swapchain,
    ];
    let mut lifecycle = Lifecycle::new();
    for r in order.iter() {
        assert_eq!(lifecycle.create(*r), Ok(()));
    }
    let mut reversed = order.clone();
    reversed.reverse();
    assert_eq!(lifecycle.teardown_plan(), reversed);
    assert_eq!(lifecycle.destroy(Resource::Semaphores), Err(LifecycleError::OutOfOrder));
    for r in reversed {
        assert_eq!(lifecycle.destroy(r), Ok(()));
    }
    assert_eq!(lifecycle.len(), 0);
}

#[test]
fn dependencies_of_each_resource() {
    assert_eq!(dependencies(Resource::Instance), vec![]);
    assert_eq!(dependencies(Resource::Surface), vec![Resource::Instance]);
    assert_eq!(dependencies(Resource::DebugMessenger), vec![Resource::Instance]);
    assert_eq!(dependencies(Resource::Device), vec![Resource::Instance, Resource::Surface]);
    assert_eq!(dependencies(Resource::Swapchain), vec![Resource::Device, Resource::Surface]);
    assert_eq!(dependencies(Resource::ImageViews), vec![Resource::Device, Resource::Swapchain]);
    assert_eq!(dependencies(Resource::RenderPass), vec![Resource::Device, Resource::Swapchain]);
    assert_eq!(dependencies(Resource::PipelineLayout), vec![Resource::Device]);
    assert_eq!(
        dependencies(Resource::Pipeline),
        vec![
            Resource::Device,
            Resource::Swapchain,
            Resource::RenderPass,
            Resource::PipelineLayout
        ]
    );
    assert_eq!(
        dependencies(Resource::Framebuffers),
        vec![Resource::Device, Resource::ImageViews, Resource::RenderPass]
    );
    assert_eq!(dependencies(Resource::CommandPool), vec![Resource::Device]);
    assert_eq!(dependencies(Resource::Semaphores), vec![Resource::Device]);
}

#[test]
fn bootstrap_is_complete_when_everything_is_alive() {
    let mut lifecycle = Lifecycle::new();
    assert!(!lifecycle.is_complete());
    for r in setup_order() {
        assert!(!lifecycle.is_complete());
        assert_eq!(lifecycle.create(r), Ok(()));
    }
    assert!(lifecycle.is_complete());
    assert_eq!(lifecycle.destroy(Resource::Semaphores), Ok(()));
    assert!(!lifecycle.is_complete());
}

#[test]
fn bootstrap_in_another_order_is_not_complete() {
    let mut lifecycle = Lifecycle::new();
    let order = [
        Resource::Instance,
        Resource::DebugMessenger,
        Resource::Surface,
        Resource::Device,
        Resource::Swapchain,
        Resource::ImageViews,
        Resource::RenderPass,
        Resource::PipelineLayout,
        Resource::Pipeline,
        Resource::Framebuffers,
        Resource::CommandPool,
        Resource::Semaphores,
    ];
    for r in order {
        assert_eq!(lifecycle.create(r), Ok(()));
    }
    assert_eq!(lifecycle.len(), 12);
    assert!(!lifecycle.is_complete());
}

#[test]
fn shutdown_waits_for_the_device_then_tears_down() {
    let steps = shutdown_steps();
    assert_eq!(steps.len(), 13);
    assert_eq!(steps[0], ShutdownStep::WaitDeviceIdle);
    let order = teardown_order();
    for i in 0..12 {
        assert_eq!(steps[i + 1], ShutdownStep::Destroy(order[i]));
    }
    assert_eq!(steps[1], ShutdownStep::Destroy(Resource::Semaphores));
    assert_eq!(steps[12], ShutdownStep::Destroy(Resource::Instance));
}
