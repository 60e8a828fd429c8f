//! Decisions behind a Vulkan application's start-up: which physical device
//! is suitable and is picked, which queue families serve graphics and
//! presentation, how the swapchain is configured, which layers and
//! extensions are enabled, and at which level a validation message is
//! logged.
pub mod vulkan;
pub mod error;
pub mod search;
pub mod queue;
pub mod swapchain;
pub mod names;
pub mod device;
pub mod instance;
pub mod debug;
pub mod laws;
pub mod inspect;
