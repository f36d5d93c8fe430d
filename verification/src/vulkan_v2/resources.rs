//! The per-frame and per-swapchain objects the second-generation renderer
//! creates: command pools and buffers, semaphores and fences, the depth
//! image and the image views.
use vstd::prelude::*;

use crate::rhi_types::{QueueFamilyIndices, RHIExtent2D};
use crate::types_v2::RHICommandBufferLevel;
use crate::vk;
use crate::vulkan::buffer::MemoryLocation;

verus! {

/// The Vulkan level of a command buffer level.
pub fn map_command_buffer_level(level: RHICommandBufferLevel) -> (r: vk::CommandBufferLevel)
    ensures
        r.0 == match level {
            RHICommandBufferLevel::PRIMARY => vk::CommandBufferLevel::PRIMARY,
            RHICommandBufferLevel::SECONDARY => vk::CommandBufferLevel::SECONDARY,
        },
{
    match level {
        RHICommandBufferLevel::PRIMARY => vk::CommandBufferLevel(vk::CommandBufferLevel::PRIMARY),
        RHICommandBufferLevel::SECONDARY => vk::CommandBufferLevel(
            vk::CommandBufferLevel::SECONDARY,
        ),
    }
}

/// The command pools the renderer creates, all in the graphics family: one
/// whose buffers can be reset one by one, and one per frame in flight for
/// short-lived buffers.
pub struct CommandPoolPlan {
    pub queue_family_index: u32,
    pub main_flags: vk::CommandPoolCreateFlags,
    pub per_frame_flags: Vec<vk::CommandPoolCreateFlags>,
}

pub fn plan_command_pools(indices: &QueueFamilyIndices, max_frames_in_flight: u8) -> (r:
    CommandPoolPlan)
    requires
        indices.graphics_family is Some,
    ensures
        r.queue_family_index == indices.graphics_family->0,
        r.main_flags.0 == vk::CommandPoolCreateFlags::RESET_COMMAND_BUFFER,
        r.per_frame_flags@.len() == max_frames_in_flight,
        forall|i: int|
            0 <= i < max_frames_in_flight ==> (#[trigger] r.per_frame_flags@[i]).0
                == vk::CommandPoolCreateFlags::TRANSIENT,
{
    let mut per_frame_flags: Vec<vk::CommandPoolCreateFlags> = Vec::new();
    let mut i: u8 = 0;
    while i < max_frames_in_flight
        invariant
            i <= max_frames_in_flight,
            per_frame_flags@.len() == i,
            forall|k: int|
                0 <= k < i ==> (#[trigger] per_frame_flags@[k]).0
                    == vk::CommandPoolCreateFlags::TRANSIENT,
        decreases max_frames_in_flight - i,
    {
        per_frame_flags.push(vk::CommandPoolCreateFlags(vk::CommandPoolCreateFlags::TRANSIENT));
        i = i + 1;
    }
    CommandPoolPlan {
        queue_family_index: indices.graphics_family.unwrap(),
        main_flags: vk::CommandPoolCreateFlags(vk::CommandPoolCreateFlags::RESET_COMMAND_BUFFER),
        per_frame_flags,
    }
}

/// The semaphores and fences the renderer creates for its frames in flight.
/// For each frame it creates a semaphore that signals an image is available
/// and a fence created signaled; the semaphores that signal an image is
/// finished it creates twice per frame, and none for texture copies.
#[derive(Debug, Clone, Copy, PartialEq, Eq, Structural)]
pub struct SyncObjectPlan {
    pub image_available_for_render_semaphores: u32,
    pub image_finished_for_presentation_semaphores: u32,
    pub image_available_for_textures_copy_semaphores: u32,
    pub frame_in_flight_fences: u32,
    pub fence_flags: vk::FenceCreateFlags,
}

pub fn plan_sync_objects(max_frames_in_flight: u8) -> (r: SyncObjectPlan)
    ensures
        r.image_available_for_render_semaphores == max_frames_in_flight,
        r.image_finished_for_presentation_semaphores == 2 * max_frames_in_flight,
        r.image_available_for_textures_copy_semaphores == 0,
        r.frame_in_flight_fences == max_frames_in_flight,
        r.fence_flags.0 == vk::FenceCreateFlags::SIGNALED,
{
    let frames = max_frames_in_flight as u32;
    SyncObjectPlan {
        image_available_for_render_semaphores: frames,
        image_finished_for_presentation_semaphores: 2 * frames,
        image_available_for_textures_copy_semaphores: 0,
        frame_in_flight_fences: frames,
        fence_flags: vk::FenceCreateFlags(vk::FenceCreateFlags::SIGNALED),
    }
}

/// What an image is created with.
#[derive(Debug, Clone, Copy, PartialEq, Eq, Structural)]
pub struct ImageCreatePlan {
    pub image_type_2d: bool,
    pub extent: vk::Extent3D,
    pub flags: vk::ImageCreateFlags,
    pub mip_levels: u32,
    pub array_layers: u32,
    pub format: vk::Format,
    pub tiling: vk::ImageTiling,
    pub initial_layout: vk::ImageLayout,
    pub usage: vk::ImageUsageFlags,
    pub samples: vk::SampleCountFlags,
    pub sharing_mode: vk::SharingMode,
    pub memory_location: MemoryLocation,
}

/// A two-dimensional image of the extent, one sample, owned by one queue
/// family, starting undefined, in device memory.
pub open spec fn spec_image_create_plan(
    extent: RHIExtent2D,
    format: vk::Format,
    tiling: vk::ImageTiling,
    usage: vk::ImageUsageFlags,
    flags: vk::ImageCreateFlags,
    array_layers: u32,
    mip_levels: u32,
) -> ImageCreatePlan {
    ImageCreatePlan {
        image_type_2d: true,
        extent: vk::Extent3D { width: extent.width, height: extent.height, depth: 1 },
        flags,
        mip_levels,
        array_layers,
        format,
        tiling,
        initial_layout: vk::ImageLayout(vk::ImageLayout::UNDEFINED),
        usage,
        samples: vk::SampleCountFlags(vk::SampleCountFlags::TYPE_1),
        sharing_mode: vk::SharingMode(vk::SharingMode::EXCLUSIVE),
        memory_location: MemoryLocation::GpuOnly,
    }
}

pub fn create_image_plan(
    extent: RHIExtent2D,
    format: vk::Format,
    tiling: vk::ImageTiling,
    usage: vk::ImageUsageFlags,
    flags: vk::ImageCreateFlags,
    array_layers: u32,
    mip_levels: u32,
) -> (r: ImageCreatePlan)
    ensures
        r == spec_image_create_plan(extent, format, tiling, usage, flags, array_layers, mip_levels),
{
    ImageCreatePlan {
        image_type_2d: true,
        extent: vk::Extent3D { width: extent.width, height: extent.height, depth: 1 },
        flags,
        mip_levels,
        array_layers,
        format,
        tiling,
        initial_layout: vk::ImageLayout(vk::ImageLayout::UNDEFINED),
        usage,
        samples: vk::SampleCountFlags(vk::SampleCountFlags::TYPE_1),
        sharing_mode: vk::SharingMode(vk::SharingMode::EXCLUSIVE),
        memory_location: MemoryLocation::GpuOnly,
    }
}

/// What an image view is created with, over all of its first layers and
/// mip levels.
#[derive(Debug, Clone, Copy, PartialEq, Eq, Structural)]
pub struct ImageViewCreatePlan {
    pub format: vk::Format,
    pub aspect_mask: vk::ImageAspectFlags,
    pub view_type: vk::ImageViewType,
    pub layer_count: u32,
    pub mip_levels: u32,
}

/// The depth image of the swapchain's size: optimally tiled, usable as an
/// input attachment, a depth-stencil attachment and a copy source; and its
/// two-dimensional depth view.
pub fn depth_image_plan(depth_format: vk::Format, swapchain_extent: RHIExtent2D) -> (r: (
    ImageCreatePlan,
    ImageViewCreatePlan,
))
    ensures
        r.0 == spec_image_create_plan(
            swapchain_extent,
            depth_format,
            vk::ImageTiling(vk::ImageTiling::OPTIMAL),
            vk::ImageUsageFlags(
                vk::ImageUsageFlags::INPUT_ATTACHMENT | vk::ImageUsageFlags::DEPTH_STENCIL_ATTACHMENT
                    | vk::ImageUsageFlags::TRANSFER_SRC,
            ),
            vk::ImageCreateFlags(0),
            1,
            1,
        ),
        r.1 == (ImageViewCreatePlan {
            format: depth_format,
            aspect_mask: vk::ImageAspectFlags(vk::ImageAspectFlags::DEPTH),
            view_type: vk::ImageViewType(vk::ImageViewType::TYPE_2D),
            layer_count: 1,
            mip_levels: 1,
        }),
{
    let image = create_image_plan(
        swapchain_extent,
        depth_format,
        vk::ImageTiling(vk::ImageTiling::OPTIMAL),
        vk::ImageUsageFlags(
            vk::ImageUsageFlags::INPUT_ATTACHMENT | vk::ImageUsageFlags::DEPTH_STENCIL_ATTACHMENT
                | vk::ImageUsageFlags::TRANSFER_SRC,
        ),
        vk::ImageCreateFlags(0),
        1,
        1,
    );
    let view = ImageViewCreatePlan {
        format: depth_format,
        aspect_mask: vk::ImageAspectFlags(vk::ImageAspectFlags::DEPTH),
        view_type: vk::ImageViewType(vk::ImageViewType::TYPE_2D),
        layer_count: 1,
        mip_levels: 1,
    };
    (image, view)
}

/// The view of each swapchain image: two-dimensional, color, one layer and
/// one mip level, in the surface format.
pub fn swapchain_image_view_plan(surface_format: vk::Format) -> (r: ImageViewCreatePlan)
    ensures
        r == (ImageViewCreatePlan {
            format: surface_format,
            aspect_mask: vk::ImageAspectFlags(vk::ImageAspectFlags::COLOR),
            view_type: vk::ImageViewType(vk::ImageViewType::TYPE_2D),
            layer_count: 1,
            mip_levels: 1,
        }),
{
    ImageViewCreatePlan {
        format: surface_format,
        aspect_mask: vk::ImageAspectFlags(vk::ImageAspectFlags::COLOR),
        view_type: vk::ImageViewType(vk::ImageViewType::TYPE_2D),
        layer_count: 1,
        mip_levels: 1,
    }
}

} // verus!
