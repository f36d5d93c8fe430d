use ysera_rhi::error::{DeviceError, SurfaceError};
use ysera_rhi::rhi_types::QueueFamilyIndices as RhiQueueFamilyIndices;
use ysera_rhi::types::{ImageFormat, QueueFamilyIndices};
use ysera_rhi::vk;
use ysera_rhi::vulkan::swapchain as v1;
use ysera_rhi::vulkan_v2::swapchain as v2;

fn format(f: i32, c: i32) -> vk::SurfaceFormatKHR {
    vk::SurfaceFormatKHR { format: vk::Format(f), color_space: vk::ColorSpaceKHR(c) }
}

fn mode(m: i32) -> vk::PresentModeKHR {
    vk::PresentModeKHR(m)
}

fn caps(current: (u32, u32), min: (u32, u32), max: (u32, u32)) -> vk::SurfaceCapabilitiesKHR {
    vk::SurfaceCapabilitiesKHR {
        current_extent: vk::Extent2D { width: current.0, height: current.1 },
        min_image_extent: vk::Extent2D { width: min.0, height: min.1 },
        max_image_extent: vk::Extent2D { width: max.0, height: max.1 },
        ..Default::default()
    }
}

#[test]
fn preferred_format_or_the_first() {
    let preferred = format(vk::Format::B8G8R8A8_UNORM, vk::ColorSpaceKHR::SRGB_NONLINEAR);
    let other = format(vk::Format::D32_SFLOAT, 0);
    assert_eq!(v1::SwapChainSupportDetail::choose_swapchain_format(&vec![other, preferred]), preferred);
    assert_eq!(v1::SwapChainSupportDetail::choose_swapchain_format(&vec![other]), other);
    assert_eq!(v2::SwapChainSupportDetail::choose_swapchain_format(&vec![other, preferred]), preferred);
    let wrong_space = format(vk::Format::B8G8R8A8_UNORM, 5);
    assert_eq!(v2::SwapChainSupportDetail::choose_swapchain_format(&vec![wrong_space]), wrong_space);
}

#[test]
fn first_generation_present_mode() {
    let pick = |m: &[vk::PresentModeKHR]| v1::SwapChainSupportDetail::choose_swapchain_present_mode(m).0;
    assert_eq!(pick(&[mode(vk::PresentModeKHR::FIFO), mode(vk::PresentModeKHR::MAILBOX)]), vk::PresentModeKHR::MAILBOX);
    assert_eq!(pick(&[mode(vk::PresentModeKHR::IMMEDIATE), mode(vk::PresentModeKHR::FIFO)]), vk::PresentModeKHR::IMMEDIATE);
    assert_eq!(pick(&[mode(vk::PresentModeKHR::FIFO_RELAXED)]), vk::PresentModeKHR::FIFO);
    assert_eq!(pick(&[]), vk::PresentModeKHR::FIFO);
}

#[test]
fn second_generation_present_mode_follows_vsync() {
    let pick = |m: &[vk::PresentModeKHR], vsync: bool| {
        v2::SwapChainSupportDetail::choose_swapchain_present_mode(m, vsync).0
    };
    let modes = [
        mode(vk::PresentModeKHR::IMMEDIATE),
        mode(vk::PresentModeKHR::FIFO),
        mode(vk::PresentModeKHR::MAILBOX),
    ];
    assert_eq!(pick(&modes, false), vk::PresentModeKHR::IMMEDIATE);
    assert_eq!(pick(&modes, true), vk::PresentModeKHR::FIFO);
    assert_eq!(pick(&[mode(vk::PresentModeKHR::MAILBOX)], true), vk::PresentModeKHR::IMMEDIATE);
    assert_eq!(pick(&[], false), vk::PresentModeKHR::IMMEDIATE);
}

#[test]
fn extent_is_the_surfaces_or_clamped() {
    let fixed = caps((800, 600), (1, 1), (4096, 4096));
    assert_eq!(
        v1::SwapChainSupportDetail::choose_swapchain_extent(&fixed, [1920, 1080]),
        vk::Extent2D { width: 800, height: 600 }
    );
    let free = caps((u32::MAX, u32::MAX), (100, 100), (1000, 500));
    // num::clamp holds each side within the surface's limits
    assert_eq!(
        v1::SwapChainSupportDetail::choose_swapchain_extent(&free, [1920, 50]),
        vk::Extent2D { width: 1000, height: 100 }
    );
    assert_eq!(
        v2::SwapChainSupportDetail::choose_swapchain_extent(&free, [640, 480]),
        vk::Extent2D { width: 640, height: 480 }
    );
}

#[test]
fn ideal_properties() {
    let detail = v1::SwapChainSupportDetail {
        capabilities: caps((u32::MAX, u32::MAX), (10, 10), (20, 20)),
        surface_formats: vec![format(vk::Format::D32_SFLOAT, 0)],
        present_modes: vec![mode(vk::PresentModeKHR::MAILBOX)],
    };
    let p = detail.get_ideal_swapchain_properties([5, 50]);
    assert_eq!(p.surface_format, format(vk::Format::D32_SFLOAT, 0));
    assert_eq!(p.present_mode.0, vk::PresentModeKHR::MAILBOX);
    assert_eq!(p.extent, vk::Extent2D { width: 10, height: 20 });
}

#[test]
fn image_counts() {
    let mut c = caps((1, 1), (1, 1), (1, 1));
    c.min_image_count = 2;
    c.max_image_count = 0;
    assert_eq!(v1::swapchain_image_count(&c, 3), 3);
    assert_eq!(v1::swapchain_image_count(&c, 2), 3);
    assert_eq!(v2::swapchain_image_count(&c), 4);
    c.max_image_count = 3;
    assert_eq!(v1::swapchain_image_count(&c, 5), 3);
    assert_eq!(v2::swapchain_image_count(&c), 3);
}

#[test]
fn image_sharing_between_families() {
    let same = RhiQueueFamilyIndices {
        graphics_family: Some(0),
        present_family: Some(0),
        compute_family: None,
        transfer_family: None,
    };
    let (mode, families) = v2::image_sharing(&same);
    assert_eq!(mode.0, vk::SharingMode::EXCLUSIVE);
    assert!(families.is_empty());
    let split = RhiQueueFamilyIndices { present_family: Some(1), ..same };
    let (mode, families) = v2::image_sharing(&split);
    assert_eq!(mode.0, vk::SharingMode::CONCURRENT);
    assert_eq!(families, vec![0, 1]);
    let split1 = QueueFamilyIndices {
        graphics_family: Some(3),
        present_family: Some(4),
        compute_family: None,
        transfer_family: None,
    };
    assert_eq!(v1::image_sharing(&split1).1, vec![3, 4]);
    assert_eq!(v1::old_swapchain_handle(None), 0);
    assert_eq!(v1::old_swapchain_handle(Some(9)), 9);
}

#[test]
fn nonzero_extent() {
    let c = v1::capabilities_with_nonzero_extent(caps((0, 0), (1, 1), (9, 9)));
    assert_eq!(c.current_extent, vk::Extent2D { width: 1, height: 1 });
    let c = v1::capabilities_with_nonzero_extent(caps((5, 7), (1, 1), (9, 9)));
    assert_eq!(c.current_extent, vk::Extent2D { width: 5, height: 7 });
}

#[test]
fn memory_type_index_is_the_first_suitable() {
    let host = vk::MemoryPropertyFlags(vk::MemoryPropertyFlags::HOST_VISIBLE | vk::MemoryPropertyFlags::HOST_COHERENT);
    let mut types = [vk::MemoryType::default(); 32];
    types[0].property_flags = vk::MemoryPropertyFlags(vk::MemoryPropertyFlags::DEVICE_LOCAL);
    types[1].property_flags = vk::MemoryPropertyFlags(7);
    types[2].property_flags = host;
    let props = vk::PhysicalDeviceMemoryProperties { memory_type_count: 3, memory_types: types };
    let req = vk::MemoryRequirements { size: 16, alignment: 4, memory_type_bits: 0b111 };
    assert_eq!(v1::get_memory_type_index(props, host, req), 1);
    let req = vk::MemoryRequirements { memory_type_bits: 0b101, ..req };
    assert_eq!(v1::get_memory_type_index(props, host, req), 2);
}

#[test]
fn framebuffers_put_the_swapchain_image_first() {
    let views = [vk::ImageView(10), vk::ImageView(11), vk::ImageView(12)];
    let shared = [vk::ImageView(99)];
    let fbs = v1::framebuffer_attachments(&views, &shared, 2);
    assert_eq!(fbs, vec![vec![vk::ImageView(10), vk::ImageView(99)], vec![vk::ImageView(11), vk::ImageView(99)]]);
}

#[test]
fn acquire_and_present_results() {
    let ood = vk::VkResult(vk::VkResult::ERROR_OUT_OF_DATE_KHR);
    let lost = vk::VkResult(vk::VkResult::ERROR_SURFACE_LOST_KHR);
    let other = vk::VkResult(vk::VkResult::ERROR_OUT_OF_HOST_MEMORY);
    assert_eq!(
        v1::acquire_result(Ok((2, true))),
        Ok(v1::AcquiredImage { image_index: 2, is_suboptimal: true })
    );
    assert_eq!(v1::acquire_result(Err(ood)), Err(DeviceError::Other("Out of Date")));
    assert_eq!(v1::acquire_result(Err(vk::VkResult(vk::VkResult::NOT_READY))), Err(DeviceError::Other("Out of Date")));
    assert_eq!(v1::acquire_result(Err(lost)), Err(DeviceError::Other("Lost")));
    assert_eq!(v1::acquire_result(Err(other)), Err(DeviceError::VulkanError(other)));
    assert_eq!(v1::queue_present_result(Ok(false)), Ok(false));
    assert_eq!(v1::queue_present_result(Err(ood)), Err(SurfaceError::OutOfDate));
    assert_eq!(v1::queue_present_result(Err(lost)), Err(SurfaceError::Lost));
    assert_eq!(
        v1::queue_present_result(Err(other)),
        Err(SurfaceError::Device(DeviceError::VulkanError(other)))
    );
}

#[test]
fn presenting_steps() {
    assert_eq!(v1::present_step(&Ok(true), 1, 3), v1::PresentStep::Advance { next_image_index: 2 });
    assert_eq!(v1::present_step(&Ok(false), 2, 3), v1::PresentStep::Advance { next_image_index: 0 });
    assert_eq!(v1::present_step(&Err(SurfaceError::OutOfDate), 2, 3), v1::PresentStep::Resize);
    assert_eq!(v1::present_step(&Err(SurfaceError::Lost), 2, 3), v1::PresentStep::Fail);
}

#[test]
fn swapchain_render_targets_are_color_then_depth() {
    let t = v1::swapchain_render_targets(ImageFormat::Bgra8UnormSrgb, ImageFormat::Depth32Float);
    assert_eq!(t.len(), 2);
    assert_eq!(t[1].format, ImageFormat::Depth32Float);
    assert_eq!(v1::swapchain_clear_flags().bits(), 0b110);
}
