//! The first-generation Vulkan backend: instance, adapter, device,
//! swapchain, render pass and command buffer decisions.
pub mod adapter;
pub mod base_renderer;
pub mod buffer;
pub mod command_buffer;
pub mod context;
pub mod conv;
pub mod device;
pub mod image_view;
pub mod instance;
pub mod pipeline;
pub mod render_pass;
pub mod renderer;
pub mod shader;
pub mod swapchain;
