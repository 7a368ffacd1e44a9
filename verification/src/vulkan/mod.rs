//! Rules of the Vulkan backend.

pub mod device;
pub mod frame_sync;
pub mod images;
pub mod instance;
pub mod memory;
pub mod physical_device;
pub mod pipeline;
pub mod render_loop;
pub mod renderer;
pub mod swapchain;
pub mod teardown;
