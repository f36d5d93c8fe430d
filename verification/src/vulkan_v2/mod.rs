//! The second-generation Vulkan backend: conversions, device and swapchain
//! decisions, and the frame loop's bookkeeping.
pub mod command_buffer_allocator;
pub mod conv;
pub mod frame;
pub mod image;
pub mod numbering;
pub mod physical_device;
pub mod pipeline;
pub mod resources;
pub mod setup;
pub mod swapchain;
