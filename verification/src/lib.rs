//! Bootstrap logic for a minimal Vulkan renderer.
//!
//! The crate holds every decision that bringing up a swapchain-backed
//! rendering context involves: which instance extensions to ask for, which
//! physical device qualifies, how the swapchain is configured, what the fixed
//! pipeline looks like, what each command buffer records, how one frame is
//! acquired, submitted and presented, and in which order everything is torn
//! down again.  Nothing here talks to a driver: every function maps plain
//! values to plain values, and the caller performs the driver calls that the
//! returned descriptions ask for.
pub mod commands;
pub mod device;
pub mod error;
pub mod event_loop;
pub mod frame;
pub mod instance;
pub mod lifecycle;
pub mod names;
pub mod pipeline;
pub mod swapchain;
pub mod types;
pub mod vk;
