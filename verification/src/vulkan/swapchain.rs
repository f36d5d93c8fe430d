//! The first-generation swapchain: how it chooses its format, presentation
//! mode, extent, image count and memory, and how it reads presentation
//! results.
use vstd::prelude::*;

use crate::error::{DeviceError, SurfaceError};
use crate::types::{
    AttachmentLoadOp, AttachmentStoreOp, ImageFormat, QueueFamilyIndices, RenderPassClearFlags,
    RenderTargetAttachment, RenderTargetAttachmentType,
};
use crate::vk;
use crate::vulkan_v2::swapchain::{
    clamp_u32, spec_choose_swapchain_extent, spec_choose_swapchain_format, spec_clamp,
    spec_extent_range_is_valid, spec_preferred_surface_format, SwapchainProperties,
};

verus! {

/// What a surface offers a swapchain.
pub struct SwapChainSupportDetail {
    pub capabilities: vk::SurfaceCapabilitiesKHR,
    pub surface_formats: Vec<vk::SurfaceFormatKHR>,
    pub present_modes: Vec<vk::PresentModeKHR>,
}

/// Mailbox presentation when the surface offers it, else immediate
/// presentation when it offers that, else first-in-first-out presentation.
pub open spec fn spec_choose_swapchain_present_mode(modes: Seq<vk::PresentModeKHR>) -> vk::PresentModeKHR {
    if modes.contains(vk::PresentModeKHR(vk::PresentModeKHR::MAILBOX)) {
        vk::PresentModeKHR(vk::PresentModeKHR::MAILBOX)
    } else if modes.contains(vk::PresentModeKHR(vk::PresentModeKHR::IMMEDIATE)) {
        vk::PresentModeKHR(vk::PresentModeKHR::IMMEDIATE)
    } else {
        vk::PresentModeKHR(vk::PresentModeKHR::FIFO)
    }
}

/// The first-generation renderer prefers mailbox presentation (Vulkan mode
/// 1) whenever the surface lists it, then immediate presentation (0), and
/// falls back to FIFO (2), which every surface supports.
pub proof fn lemma_first_generation_present_mode_preference(modes: Seq<vk::PresentModeKHR>)
    ensures
        (exists|i: int| 0 <= i < modes.len() && (#[trigger] modes[i]).0 == 1)
            ==> spec_choose_swapchain_present_mode(modes).0 == 1,
        !(exists|i: int| 0 <= i < modes.len() && (#[trigger] modes[i]).0 == 1) && (exists|i: int|
            0 <= i < modes.len() && (#[trigger] modes[i]).0 == 0)
            ==> spec_choose_swapchain_present_mode(modes).0 == 0,
        !(exists|i: int| 0 <= i < modes.len() && (#[trigger] modes[i]).0 == 1) && !(exists|i: int|
            0 <= i < modes.len() && (#[trigger] modes[i]).0 == 0)
            ==> spec_choose_swapchain_present_mode(modes).0 == 2,
{
    let mailbox = vk::PresentModeKHR(vk::PresentModeKHR::MAILBOX);
    let immediate = vk::PresentModeKHR(vk::PresentModeKHR::IMMEDIATE);
    if exists|i: int| 0 <= i < modes.len() && (#[trigger] modes[i]).0 == 1 {
        let i = choose|i: int| 0 <= i < modes.len() && (#[trigger] modes[i]).0 == 1;
        assert(modes[i] == mailbox);
        assert(modes.contains(mailbox));
    } else {
        if modes.contains(mailbox) {
            let i = choose|i: int| 0 <= i < modes.len() && modes[i] == mailbox;
            assert(modes[i].0 == 1);
        }
        if exists|i: int| 0 <= i < modes.len() && (#[trigger] modes[i]).0 == 0 {
            let i = choose|i: int| 0 <= i < modes.len() && (#[trigger] modes[i]).0 == 0;
            assert(modes[i] == immediate);
            assert(modes.contains(immediate));
        } else if modes.contains(immediate) {
            let i = choose|i: int| 0 <= i < modes.len() && modes[i] == immediate;
            assert(modes[i].0 == 0);
        }
    }
}

impl SwapChainSupportDetail {
    pub fn get_ideal_swapchain_properties(&self, preferred_dimensions: [u32; 2]) -> (r:
        SwapchainProperties)
        requires
            self.surface_formats.len() > 0,
            spec_extent_range_is_valid(self.capabilities),
        ensures
            r.surface_format == spec_choose_swapchain_format(self.surface_formats@),
            r.present_mode == spec_choose_swapchain_present_mode(self.present_modes@),
            r.extent == spec_choose_swapchain_extent(self.capabilities, preferred_dimensions),
    {
        let format = Self::choose_swapchain_format(&self.surface_formats);
        let present_mode = Self::choose_swapchain_present_mode(self.present_modes.as_slice());
        let extent = Self::choose_swapchain_extent(&self.capabilities, preferred_dimensions);
        SwapchainProperties { surface_format: format, present_mode, extent }
    }

    pub fn choose_swapchain_format(available_formats: &Vec<vk::SurfaceFormatKHR>) -> (r:
        vk::SurfaceFormatKHR)
        requires
            available_formats.len() > 0,
        ensures
            r == spec_choose_swapchain_format(available_formats@),
    {
        let mut i: usize = 0;
        while i < available_formats.len()
            invariant
                0 <= i <= available_formats.len(),
                forall|j: int| 0 <= j < i ==> available_formats@[j] != spec_preferred_surface_format(),
            decreases available_formats.len() - i,
        {
            let available_format = available_formats[i];
            if available_format.format.0 == vk::Format::B8G8R8A8_UNORM
                && available_format.color_space.0 == vk::ColorSpaceKHR::SRGB_NONLINEAR {
                proof {
                    assert(available_formats@.contains(spec_preferred_surface_format()));
                }
                return available_format;
            }
            i = i + 1;
        }
        available_formats[0]
    }

    pub fn choose_swapchain_present_mode(available_present_modes: &[vk::PresentModeKHR]) -> (r:
        vk::PresentModeKHR)
        ensures
            r == spec_choose_swapchain_present_mode(available_present_modes@),
    {
        let ghost modes = available_present_modes@;
        let ghost mailbox = vk::PresentModeKHR(vk::PresentModeKHR::MAILBOX);
        let ghost immediate = vk::PresentModeKHR(vk::PresentModeKHR::IMMEDIATE);
        let mut best_mode = vk::PresentModeKHR(vk::PresentModeKHR::FIFO);
        let mut i: usize = 0;
        while i < available_present_modes.len()
            invariant
                0 <= i <= modes.len(),
                modes == available_present_modes@,
                mailbox == vk::PresentModeKHR(vk::PresentModeKHR::MAILBOX),
                immediate == vk::PresentModeKHR(vk::PresentModeKHR::IMMEDIATE),
                forall|j: int| 0 <= j < i ==> modes[j] != mailbox,
                best_mode == (if modes.take(i as int).contains(immediate) {
                    immediate
                } else {
                    vk::PresentModeKHR(vk::PresentModeKHR::FIFO)
                }),
            decreases available_present_modes.len() - i,
        {
            let available_present_mode = available_present_modes[i];
            proof {
                assert(modes[i as int] == available_present_mode);
                assert(modes.take(i + 1) =~= modes.take(i as int).push(available_present_mode));
            }
            if available_present_mode.0 == vk::PresentModeKHR::MAILBOX {
                proof {
                    assert(available_present_mode == mailbox);
                    assert(modes.contains(mailbox));
                }
                return available_present_mode;
            } else if available_present_mode.0 == vk::PresentModeKHR::IMMEDIATE {
                best_mode = vk::PresentModeKHR(vk::PresentModeKHR::IMMEDIATE);
                proof {
                    assert(available_present_mode == immediate);
                    assert(modes.take(i + 1)[i as int] == immediate);
                }
            } else {
                proof {
                    assert(available_present_mode != immediate);
                }
            }
            i = i + 1;
        }
        proof {
            assert(modes.take(modes.len() as int) =~= modes);
            assert(!modes.contains(mailbox));
        }
        best_mode
    }

    pub fn choose_swapchain_extent(capabilities: &vk::SurfaceCapabilitiesKHR, preferred_dimensions: [u32; 2]) -> (r:
        vk::Extent2D)
        requires
            spec_extent_range_is_valid(*capabilities),
        ensures
            r == spec_choose_swapchain_extent(*capabilities, preferred_dimensions),
    {
        if capabilities.current_extent.width != u32::MAX {
            capabilities.current_extent
        } else {
            let width = preferred_dimensions[0];
            let height = preferred_dimensions[1];
            vk::Extent2D {
                width: clamp_u32(
                    width,
                    capabilities.min_image_extent.width,
                    capabilities.max_image_extent.width,
                ),
                height: clamp_u32(
                    height,
                    capabilities.min_image_extent.height,
                    capabilities.max_image_extent.height,
                ),
            }
        }
    }
}

/// The number of images to ask for: one more than the surface's minimum, at
/// least the frames in flight, and no more than the surface's maximum when it
/// has one.
pub open spec fn spec_swapchain_image_count(
    capabilities: vk::SurfaceCapabilitiesKHR,
    max_frames_in_flight: u32,
) -> u32 {
    let wanted = if capabilities.min_image_count + 1 >= max_frames_in_flight {
        (capabilities.min_image_count + 1) as u32
    } else {
        max_frames_in_flight
    };
    if capabilities.max_image_count > 0 && capabilities.max_image_count < wanted {
        capabilities.max_image_count
    } else {
        wanted
    }
}

pub fn swapchain_image_count(capabilities: &vk::SurfaceCapabilitiesKHR, max_frames_in_flight: u32) -> (r:
    u32)
    requires
        capabilities.min_image_count < u32::MAX,
    ensures
        r == spec_swapchain_image_count(*capabilities, max_frames_in_flight),
{
    let mut image_count = capabilities.min_image_count + 1;
    if image_count < max_frames_in_flight {
        image_count = max_frames_in_flight;
    }
    if capabilities.max_image_count > 0 && capabilities.max_image_count < image_count {
        capabilities.max_image_count
    } else {
        image_count
    }
}

/// The surface's capabilities with a current extent of at least one pixel
/// each way.
pub fn capabilities_with_nonzero_extent(capabilities: vk::SurfaceCapabilitiesKHR) -> (r:
    vk::SurfaceCapabilitiesKHR)
    ensures
        r.current_extent.width == (if capabilities.current_extent.width == 0 {
            1
        } else {
            capabilities.current_extent.width
        }),
        r.current_extent.height == (if capabilities.current_extent.height == 0 {
            1
        } else {
            capabilities.current_extent.height
        }),
        r == (vk::SurfaceCapabilitiesKHR { current_extent: r.current_extent, ..capabilities }),
{
    let mut capabilities = capabilities;
    if capabilities.current_extent.width < 1 {
        capabilities.current_extent.width = 1;
    }
    if capabilities.current_extent.height < 1 {
        capabilities.current_extent.height = 1;
    }
    capabilities
}

/// Memory type `i` may hold the resource and has every property asked for.
pub open spec fn spec_memory_type_suitable(
    memory_properties: vk::PhysicalDeviceMemoryProperties,
    properties: vk::MemoryPropertyFlags,
    requirements: vk::MemoryRequirements,
    i: u32,
) -> bool {
    &&& requirements.memory_type_bits & (1u32 << i) != 0
    &&& memory_properties.memory_types@[i as int].property_flags.0 & properties.0 == properties.0
}

/// The first memory type that may hold the resource and has the properties.
pub fn get_memory_type_index(
    memory_properties: vk::PhysicalDeviceMemoryProperties,
    properties: vk::MemoryPropertyFlags,
    requirements: vk::MemoryRequirements,
) -> (r: u32)
    requires
        memory_properties.memory_type_count <= 32,
        exists|i: u32|
            i < memory_properties.memory_type_count && spec_memory_type_suitable(
                memory_properties,
                properties,
                requirements,
                i,
            ),
    ensures
        r < memory_properties.memory_type_count,
        spec_memory_type_suitable(memory_properties, properties, requirements, r),
        forall|j: u32| j < r ==> !spec_memory_type_suitable(memory_properties, properties, requirements, j),
{
    let mut i: u32 = 0;
    while i < memory_properties.memory_type_count
        invariant
            i <= memory_properties.memory_type_count <= 32,
            forall|j: u32| j < i ==> !spec_memory_type_suitable(memory_properties, properties, requirements, j),
            exists|k: u32|
                k < memory_properties.memory_type_count && spec_memory_type_suitable(
                    memory_properties,
                    properties,
                    requirements,
                    k,
                ),
        decreases memory_properties.memory_type_count - i,
    {
        let suitable = (requirements.memory_type_bits & (1u32 << i)) != 0;
        let memory_type = memory_properties.memory_types[i as usize];
        if suitable && memory_type.property_flags.0 & properties.0 == properties.0 {
            return i;
        }
        i = i + 1;
    }
    proof {
        let k = choose|k: u32|
            k < memory_properties.memory_type_count && spec_memory_type_suitable(
                memory_properties,
                properties,
                requirements,
                k,
            );
        assert(!spec_memory_type_suitable(memory_properties, properties, requirements, k));
    }
    0
}

/// The attachments of each framebuffer: the swapchain image view of that
/// frame, followed by the views every frame shares.
pub fn framebuffer_attachments(
    swapchain_image_views: &[vk::ImageView],
    other_image_views: &[vk::ImageView],
    frames_in_flight: u32,
) -> (r: Vec<Vec<vk::ImageView>>)
    requires
        frames_in_flight <= swapchain_image_views.len(),
    ensures
        r.len() == frames_in_flight,
        forall|i: int|
            0 <= i < frames_in_flight ==> #[trigger] r[i]@ == seq![swapchain_image_views@[i]]
                + other_image_views@,
{
    let mut framebuffers: Vec<Vec<vk::ImageView>> = Vec::new();
    let mut index: u32 = 0;
    while index < frames_in_flight
        invariant
            index <= frames_in_flight <= swapchain_image_views.len(),
            framebuffers.len() == index,
            forall|i: int|
                0 <= i < index ==> #[trigger] framebuffers[i]@ == seq![swapchain_image_views@[i]]
                    + other_image_views@,
        decreases frames_in_flight - index,
    {
        let mut image_views: Vec<vk::ImageView> = Vec::new();
        image_views.push(swapchain_image_views[index as usize]);
        let mut k: usize = 0;
        while k < other_image_views.len()
            invariant
                0 <= k <= other_image_views.len(),
                index < frames_in_flight <= swapchain_image_views.len(),
                image_views@ == seq![swapchain_image_views@[index as int]] + other_image_views@.take(
                    k as int,
                ),
            decreases other_image_views.len() - k,
        {
            image_views.push(other_image_views[k]);
            proof {
                assert(other_image_views@.take(k + 1) =~= other_image_views@.take(k as int).push(
                    other_image_views@[k as int],
                ));
                assert(seq![swapchain_image_views@[index as int]] + other_image_views@.take(k + 1)
                    =~= (seq![swapchain_image_views@[index as int]] + other_image_views@.take(
                    k as int,
                )).push(other_image_views@[k as int]));
            }
            k = k + 1;
        }
        proof {
            assert(other_image_views@.take(other_image_views@.len() as int) =~= other_image_views@);
        }
        framebuffers.push(image_views);
        index = index + 1;
    }
    framebuffers
}

/// An image the swapchain handed out, and whether the swapchain still fits
/// the surface exactly.
#[derive(Clone, Copy, Debug, PartialEq, Eq, Structural)]
pub struct AcquiredImage {
    pub image_index: u32,
    pub is_suboptimal: bool,
}

/// What acquiring an image means for the renderer: the image, or an error
/// that says the swapchain is out of date or the surface lost.
pub open spec fn spec_acquire_result(result: Result<(u32, bool), vk::VkResult>) -> Result<
    AcquiredImage,
    DeviceError,
> {
    match result {
        Ok(pair) => Ok(AcquiredImage { image_index: pair.0, is_suboptimal: pair.1 }),
        Err(error) => if error.0 == vk::VkResult::ERROR_OUT_OF_DATE_KHR || error.0
            == vk::VkResult::NOT_READY {
            Err(DeviceError::Other("Out of Date"))
        } else if error.0 == vk::VkResult::ERROR_SURFACE_LOST_KHR {
            Err(DeviceError::Other("Lost"))
        } else {
            Err(DeviceError::VulkanError(error))
        },
    }
}

pub fn acquire_result(result: Result<(u32, bool), vk::VkResult>) -> (r: Result<
    AcquiredImage,
    DeviceError,
>)
    ensures
        r == spec_acquire_result(result),
{
    match result {
        Ok(pair) => Ok(AcquiredImage { image_index: pair.0, is_suboptimal: pair.1 }),
        Err(error) => {
            if error.0 == vk::VkResult::ERROR_OUT_OF_DATE_KHR || error.0 == vk::VkResult::NOT_READY {
                Err(DeviceError::Other("Out of Date"))
            } else if error.0 == vk::VkResult::ERROR_SURFACE_LOST_KHR {
                Err(DeviceError::Other("Lost"))
            } else {
                Err(DeviceError::VulkanError(error))
            }
        },
    }
}

/// What presenting means for the renderer: whether the swapchain is
/// suboptimal, or an error that says it is out of date or the surface lost.
pub open spec fn spec_queue_present_result(result: Result<bool, vk::VkResult>) -> Result<
    bool,
    SurfaceError,
> {
    match result {
        Ok(suboptimal) => Ok(suboptimal),
        Err(error) => if error.0 == vk::VkResult::ERROR_OUT_OF_DATE_KHR || error.0
            == vk::VkResult::NOT_READY {
            Err(SurfaceError::OutOfDate)
        } else if error.0 == vk::VkResult::ERROR_SURFACE_LOST_KHR {
            Err(SurfaceError::Lost)
        } else {
            Err(SurfaceError::Device(DeviceError::VulkanError(error)))
        },
    }
}

pub fn queue_present_result(result: Result<bool, vk::VkResult>) -> (r: Result<bool, SurfaceError>)
    ensures
        r == spec_queue_present_result(result),
{
    match result {
        Ok(suboptimal) => Ok(suboptimal),
        Err(error) => {
            if error.0 == vk::VkResult::ERROR_OUT_OF_DATE_KHR || error.0 == vk::VkResult::NOT_READY {
                Err(SurfaceError::OutOfDate)
            } else if error.0 == vk::VkResult::ERROR_SURFACE_LOST_KHR {
                Err(SurfaceError::Lost)
            } else {
                Err(SurfaceError::Device(DeviceError::VulkanError(error)))
            }
        },
    }
}

/// What the swapchain does after submitting a frame and presenting it.
#[derive(Clone, Copy, Debug, PartialEq, Eq, Structural)]
pub enum PresentStep {
    /// The frame was presented: move on to the next image.
    Advance { next_image_index: u32 },
    /// The swapchain no longer fits the surface: recreate it at its current
    /// extent and keep the image index.
    Resize,
    /// Presenting failed for another reason, which the renderer treats as fatal.
    Fail,
}

/// The step after presenting, from the presentation result.
pub open spec fn spec_present_step(
    result: Result<bool, SurfaceError>,
    image_index: u32,
    max_frames_in_flight: u32,
) -> PresentStep {
    match result {
        Ok(_) => PresentStep::Advance {
            next_image_index: ((image_index + 1) % (max_frames_in_flight as int)) as u32,
        },
        Err(SurfaceError::OutOfDate) => PresentStep::Resize,
        Err(_) => PresentStep::Fail,
    }
}

pub fn present_step(result: &Result<bool, SurfaceError>, image_index: u32, max_frames_in_flight: u32) -> (r:
    PresentStep)
    requires
        max_frames_in_flight > 0,
        image_index < max_frames_in_flight,
    ensures
        r == spec_present_step(*result, image_index, max_frames_in_flight),
{
    match result {
        Ok(_) => PresentStep::Advance { next_image_index: (image_index + 1) % max_frames_in_flight },
        Err(SurfaceError::OutOfDate) => PresentStep::Resize,
        Err(_) => PresentStep::Fail,
    }
}

/// How the swapchain's images are shared: between the graphics and present
/// families when they are different ones, else owned by one family.
pub open spec fn spec_image_sharing(indices: QueueFamilyIndices) -> (vk::SharingMode, Seq<u32>) {
    if indices.graphics_family != indices.present_family {
        (
            vk::SharingMode(vk::SharingMode::CONCURRENT),
            seq![indices.graphics_family->0, indices.present_family->0],
        )
    } else {
        (vk::SharingMode(vk::SharingMode::EXCLUSIVE), Seq::empty())
    }
}

pub fn image_sharing(indices: &QueueFamilyIndices) -> (r: (vk::SharingMode, Vec<u32>))
    requires
        indices.graphics_family != indices.present_family ==> indices.graphics_family is Some
            && indices.present_family is Some,
    ensures
        r.0 == spec_image_sharing(*indices).0,
        r.1@ == spec_image_sharing(*indices).1,
{
    if indices.graphics_family != indices.present_family {
        let mut families: Vec<u32> = Vec::new();
        families.push(indices.graphics_family.unwrap());
        families.push(indices.present_family.unwrap());
        proof {
            assert(families@ =~= spec_image_sharing(*indices).1);
        }
        (vk::SharingMode(vk::SharingMode::CONCURRENT), families)
    } else {
        let families: Vec<u32> = Vec::new();
        proof {
            assert(families@ =~= spec_image_sharing(*indices).1);
        }
        (vk::SharingMode(vk::SharingMode::EXCLUSIVE), families)
    }
}

/// The swapchain to replace: the old one's handle, or the null handle.
pub fn old_swapchain_handle(old_swapchain: Option<u64>) -> (r: u64)
    ensures
        r == match old_swapchain {
            Some(h) => h,
            None => 0,
        },
{
    match old_swapchain {
        Some(h) => h,
        None => 0,
    }
}

/// The render targets of the swapchain's render pass: the swapchain image
/// and the depth image, both cleared and kept.
pub open spec fn spec_swapchain_render_targets(
    surface_format: ImageFormat,
    depth_format: ImageFormat,
) -> Seq<RenderTargetAttachment> {
    seq![
        RenderTargetAttachment {
            format: surface_format,
            ty: RenderTargetAttachmentType::Color,
            load_op: AttachmentLoadOp::Clear,
            store_op: AttachmentStoreOp::Store,
        },
        RenderTargetAttachment {
            format: depth_format,
            ty: RenderTargetAttachmentType::Depth,
            load_op: AttachmentLoadOp::Clear,
            store_op: AttachmentStoreOp::Store,
        },
    ]
}

pub fn swapchain_render_targets(surface_format: ImageFormat, depth_format: ImageFormat) -> (r: Vec<
    RenderTargetAttachment,
>)
    ensures
        r@ == spec_swapchain_render_targets(surface_format, depth_format),
{
    let mut targets: Vec<RenderTargetAttachment> = Vec::new();
    targets.push(
        RenderTargetAttachment {
            format: surface_format,
            ty: RenderTargetAttachmentType::Color,
            load_op: AttachmentLoadOp::Clear,
            store_op: AttachmentStoreOp::Store,
        },
    );
    targets.push(
        RenderTargetAttachment {
            format: depth_format,
            ty: RenderTargetAttachmentType::Depth,
            load_op: AttachmentLoadOp::Clear,
            store_op: AttachmentStoreOp::Store,
        },
    );
    proof {
        assert(targets@ =~= spec_swapchain_render_targets(surface_format, depth_format));
    }
    targets
}

/// The swapchain's render pass clears its color and depth buffers.
pub fn swapchain_clear_flags() -> (r: RenderPassClearFlags)
    ensures
        r.bits == RenderPassClearFlags::COLOR_BUFFER | RenderPassClearFlags::DEPTH_BUFFER,
{
    RenderPassClearFlags::from_bits_retain(
        RenderPassClearFlags::COLOR_BUFFER | RenderPassClearFlags::DEPTH_BUFFER,
    )
}

/// The swapchain's render pass draws color to attachment 0 and depth to
/// attachment 1, and orders both against the outside: four dependencies.
pub proof fn lemma_swapchain_render_pass_layout(surface_format: ImageFormat, depth_format: ImageFormat)
    ensures
        ({
            let targets = spec_swapchain_render_targets(surface_format, depth_format);
            &&& crate::vulkan::render_pass::spec_color_attachment_refs(targets, 2) == seq![
                vk::AttachmentReference {
                    attachment: 0,
                    layout: vk::ImageLayout(vk::ImageLayout::COLOR_ATTACHMENT_OPTIMAL),
                },
            ]
            &&& crate::vulkan::render_pass::spec_depth_attachment_ref(targets, 2) == Some(
                vk::AttachmentReference {
                    attachment: 1,
                    layout: vk::ImageLayout(vk::ImageLayout::DEPTH_STENCIL_ATTACHMENT_OPTIMAL),
                },
            )
            &&& crate::vulkan::render_pass::spec_get_dependency(true, true).len() == 4
        }),
{
    let targets = spec_swapchain_render_targets(surface_format, depth_format);
    let r0 = crate::vulkan::render_pass::spec_color_attachment_refs(targets, 0);
    let r1 = crate::vulkan::render_pass::spec_color_attachment_refs(targets, 1);
    let r2 = crate::vulkan::render_pass::spec_color_attachment_refs(targets, 2);
    assert(r0 =~= Seq::empty());
    assert(targets[0].ty == RenderTargetAttachmentType::Color);
    assert(targets[1].ty == RenderTargetAttachmentType::Depth);
    assert(r2 == r1);
    assert(r1 =~= seq![
        vk::AttachmentReference {
            attachment: 0,
            layout: vk::ImageLayout(vk::ImageLayout::COLOR_ATTACHMENT_OPTIMAL),
        },
    ]);
}

/// What a first-generation swapchain is created with.
pub struct SwapchainCreatePlan {
    pub min_image_count: u32,
    pub surface_format: vk::SurfaceFormatKHR,
    pub present_mode: vk::PresentModeKHR,
    pub extent: vk::Extent2D,
    pub image_usage: vk::ImageUsageFlags,
    pub image_sharing_mode: vk::SharingMode,
    pub queue_family_indices: Vec<u32>,
    pub pre_transform: u32,
    pub composite_alpha: vk::CompositeAlphaFlagsKHR,
    pub clipped: bool,
    pub image_array_layers: u32,
    /// The swapchain replaced, or the null handle.
    pub old_swapchain: u64,
}

/// The swapchain the first-generation renderer creates: the ideal format,
/// mode and extent for the dimensions, the image count for the frames in
/// flight, the sharing between the queue families, the surface's current
/// transform, color attachment use, opaque composition, clipping, one layer, and the swapchain
/// it replaces.
pub fn plan_swapchain(
    support: &SwapChainSupportDetail,
    dimensions: [u32; 2],
    max_frames_in_flight: u32,
    indices: &QueueFamilyIndices,
    old_swapchain: Option<u64>,
) -> (r: SwapchainCreatePlan)
    requires
        support.surface_formats.len() > 0,
        spec_extent_range_is_valid(support.capabilities),
        support.capabilities.min_image_count < u32::MAX,
        indices.graphics_family != indices.present_family ==> indices.graphics_family is Some
            && indices.present_family is Some,
    ensures
        r.surface_format == spec_choose_swapchain_format(support.surface_formats@),
        r.present_mode == spec_choose_swapchain_present_mode(support.present_modes@),
        r.extent == spec_choose_swapchain_extent(support.capabilities, dimensions),
        r.min_image_count == spec_swapchain_image_count(support.capabilities, max_frames_in_flight),
        r.image_sharing_mode == spec_image_sharing(*indices).0,
        r.queue_family_indices@ == spec_image_sharing(*indices).1,
        r.image_usage.0 == vk::ImageUsageFlags::COLOR_ATTACHMENT,
        r.pre_transform == support.capabilities.current_transform,
        r.composite_alpha.0 == vk::CompositeAlphaFlagsKHR::OPAQUE,
        r.clipped,
        r.image_array_layers == 1,
        r.old_swapchain == match old_swapchain {
            Some(h) => h,
            None => 0,
        },
{
    let properties = support.get_ideal_swapchain_properties(dimensions);
    let min_image_count = swapchain_image_count(&support.capabilities, max_frames_in_flight);
    let (image_sharing_mode, queue_family_indices) = image_sharing(indices);
    SwapchainCreatePlan {
        min_image_count,
        surface_format: properties.surface_format,
        present_mode: properties.present_mode,
        extent: properties.extent,
        image_usage: vk::ImageUsageFlags(vk::ImageUsageFlags::COLOR_ATTACHMENT),
        image_sharing_mode,
        queue_family_indices,
        pre_transform: support.capabilities.current_transform,
        composite_alpha: vk::CompositeAlphaFlagsKHR(vk::CompositeAlphaFlagsKHR::OPAQUE),
        clipped: true,
        image_array_layers: 1,
        old_swapchain: old_swapchain_handle(old_swapchain),
    }
}

} // verus!
