use std::collections::HashSet;

use ysera_rhi::rhi_types::{
    DeviceFeatures as RhiDeviceFeatures, DeviceRequirement, InstanceDescriptor as RhiInstanceDescriptor,
    InstanceFlags as RhiInstanceFlags, LevelFilter, PhysicalDeviceRequirements,
    QueueFamilyIndices as RhiQueueFamilyIndices, RHIExtent2D,
};
use ysera_rhi::types::{
    AdapterRequirements, DeviceRequirements, InstanceFlags, QueueFamilyIndices, Extent3d,
};
use ysera_rhi::types_v2::RHICommandBufferLevel;
use ysera_rhi::vk;
use ysera_rhi::vulkan::buffer::MemoryLocation;
use ysera_rhi::vulkan::device::{
    check_device_extension_support, device_extension_names, plan_logical_device,
};
use ysera_rhi::vulkan::swapchain as v1;
use ysera_rhi::types::Features;
use ysera_rhi::vulkan_v2::image::{ImageDescriptor, ImageType, ImageViewCache, ImageViewDescriptorKey, ViewRequest};
use ysera_rhi::vulkan_v2::physical_device::{
    get_required_extensions, open_queue_family_indices, partition_extensions, required_device_extensions,
    supported_extension, DownlevelSupport, PhysicalDeviceFeatures,
};
use ysera_rhi::vulkan_v2::resources::{
    create_image_plan, depth_image_plan, map_command_buffer_level, plan_command_pools,
    plan_sync_objects, swapchain_image_view_plan,
};
use ysera_rhi::vulkan_v2::setup::{plan_instance, plan_logical_device as plan_logical_device_v2};
use ysera_rhi::vulkan_v2::swapchain as v2;

fn surface_caps() -> vk::SurfaceCapabilitiesKHR {
    vk::SurfaceCapabilitiesKHR {
        min_image_count: 2,
        max_image_count: 8,
        current_extent: vk::Extent2D { width: u32::MAX, height: u32::MAX },
        min_image_extent: vk::Extent2D { width: 1, height: 1 },
        max_image_extent: vk::Extent2D { width: 1024, height: 768 },
        max_image_array_layers: 1,
        current_transform: 1,
        ..Default::default()
    }
}

fn preferred_format() -> vk::SurfaceFormatKHR {
    vk::SurfaceFormatKHR {
        format: vk::Format(vk::Format::B8G8R8A8_UNORM),
        color_space: vk::ColorSpaceKHR(vk::ColorSpaceKHR::SRGB_NONLINEAR),
    }
}

#[test]
fn command_buffer_levels() {
    assert_eq!(map_command_buffer_level(RHICommandBufferLevel::PRIMARY).0, vk::CommandBufferLevel::PRIMARY);
    assert_eq!(
        map_command_buffer_level(RHICommandBufferLevel::SECONDARY).0,
        vk::CommandBufferLevel::SECONDARY
    );
}

#[test]
fn command_pools_one_per_frame() {
    let indices = RhiQueueFamilyIndices {
        graphics_family: Some(3),
        present_family: Some(1),
        compute_family: None,
        transfer_family: None,
    };
    let plan = plan_command_pools(&indices, 3);
    assert_eq!(plan.queue_family_index, 3);
    assert_eq!(plan.main_flags.0, vk::CommandPoolCreateFlags::RESET_COMMAND_BUFFER);
    assert_eq!(plan.per_frame_flags.len(), 3);
    assert!(plan.per_frame_flags.iter().all(|f| f.0 == vk::CommandPoolCreateFlags::TRANSIENT));
    assert!(plan_command_pools(&indices, 0).per_frame_flags.is_empty());
}

#[test]
fn sync_objects_for_frames_in_flight() {
    let plan = plan_sync_objects(3);
    assert_eq!(plan.image_available_for_render_semaphores, 3);
    assert_eq!(plan.image_finished_for_presentation_semaphores, 6);
    assert_eq!(plan.image_available_for_textures_copy_semaphores, 0);
    assert_eq!(plan.frame_in_flight_fences, 3);
    assert_eq!(plan.fence_flags.0, vk::FenceCreateFlags::SIGNALED);
}

#[test]
fn depth_image_and_its_view() {
    let extent = RHIExtent2D { width: 800, height: 600 };
    let depth = vk::Format(vk::Format::D32_SFLOAT);
    let (image, view) = depth_image_plan(depth, extent);
    assert!(image.image_type_2d);
    assert_eq!(image.extent, vk::Extent3D { width: 800, height: 600, depth: 1 });
    assert_eq!(image.format, depth);
    assert_eq!(image.tiling.0, vk::ImageTiling::OPTIMAL);
    assert_eq!(image.usage.0, 128 | 32 | 1);
    assert_eq!(image.flags.0, 0);
    assert_eq!(image.mip_levels, 1);
    assert_eq!(image.array_layers, 1);
    assert_eq!(image.initial_layout.0, vk::ImageLayout::UNDEFINED);
    assert_eq!(image.samples.0, vk::SampleCountFlags::TYPE_1);
    assert_eq!(image.sharing_mode.0, vk::SharingMode::EXCLUSIVE);
    assert_eq!(image.memory_location, MemoryLocation::GpuOnly);
    assert_eq!(view.format, depth);
    assert_eq!(view.aspect_mask.0, vk::ImageAspectFlags::DEPTH);
    assert_eq!(view.view_type.0, vk::ImageViewType::TYPE_2D);
    assert_eq!((view.layer_count, view.mip_levels), (1, 1));
}

#[test]
fn image_plan_keeps_what_it_is_given() {
    let plan = create_image_plan(
        RHIExtent2D { width: 16, height: 8 },
        vk::Format(vk::Format::B8G8R8A8_UNORM),
        vk::ImageTiling(vk::ImageTiling::OPTIMAL),
        vk::ImageUsageFlags(vk::ImageUsageFlags::COLOR_ATTACHMENT),
        vk::ImageCreateFlags(0),
        6,
        4,
    );
    assert_eq!(plan.extent, vk::Extent3D { width: 16, height: 8, depth: 1 });
    assert_eq!(plan.array_layers, 6);
    assert_eq!(plan.mip_levels, 4);
    assert_eq!(plan.usage.0, vk::ImageUsageFlags::COLOR_ATTACHMENT);
}

#[test]
fn swapchain_image_views_are_color() {
    let view = swapchain_image_view_plan(vk::Format(vk::Format::B8G8R8A8_UNORM));
    assert_eq!(view.format.0, vk::Format::B8G8R8A8_UNORM);
    assert_eq!(view.aspect_mask.0, vk::ImageAspectFlags::COLOR);
    assert_eq!(view.view_type.0, vk::ImageViewType::TYPE_2D);
    assert_eq!((view.layer_count, view.mip_levels), (1, 1));
}

#[test]
fn swapchain_images_are_described_as_color_attachments() {
    let d = v2::swapchain_image_descriptor(vk::Extent2D { width: 640, height: 480 });
    assert_eq!(
        d,
        ImageDescriptor {
            image_type: ImageType::Tex2d,
            usage: vk::ImageUsageFlags(vk::ImageUsageFlags::COLOR_ATTACHMENT),
            flags: vk::ImageCreateFlags(0),
            format: vk::Format(vk::Format::B8G8R8A8_UNORM),
            extent: Extent3d { width: 640, height: 480, depth_or_array_layers: 0 },
            tiling: vk::ImageTiling(vk::ImageTiling::OPTIMAL),
            mip_levels: 1,
            array_elements: 1,
        }
    );
}

#[test]
fn first_generation_swapchain_plan() {
    let other = vk::SurfaceFormatKHR { format: vk::Format(vk::Format::D32_SFLOAT), color_space: vk::ColorSpaceKHR(0) };
    let support = v1::SwapChainSupportDetail {
        capabilities: surface_caps(),
        surface_formats: vec![other, preferred_format()],
        present_modes: vec![vk::PresentModeKHR(vk::PresentModeKHR::FIFO), vk::PresentModeKHR(vk::PresentModeKHR::MAILBOX)],
    };
    let indices = QueueFamilyIndices {
        graphics_family: Some(0),
        present_family: Some(2),
        compute_family: None,
        transfer_family: None,
    };
    let plan = v1::plan_swapchain(&support, [2000, 500], 3, &indices, Some(77));
    assert_eq!(plan.surface_format, preferred_format());
    assert_eq!(plan.present_mode.0, vk::PresentModeKHR::MAILBOX);
    assert_eq!(plan.extent, vk::Extent2D { width: 1024, height: 500 });
    assert_eq!(plan.min_image_count, 3);
    assert_eq!(plan.image_sharing_mode.0, vk::SharingMode::CONCURRENT);
    assert_eq!(plan.queue_family_indices, vec![0, 2]);
    assert_eq!(plan.image_usage.0, vk::ImageUsageFlags::COLOR_ATTACHMENT);
    assert_eq!(plan.pre_transform, 1);
    assert_eq!(plan.composite_alpha.0, vk::CompositeAlphaFlagsKHR::OPAQUE);
    assert!(plan.clipped);
    assert_eq!(plan.image_array_layers, 1);
    assert_eq!(plan.old_swapchain, 77);
    let fresh = v1::plan_swapchain(&support, [10, 10], 3, &indices, None);
    assert_eq!(fresh.old_swapchain, 0);
    assert_eq!(fresh.extent, vk::Extent2D { width: 10, height: 10 });
}

#[test]
fn second_generation_swapchain_plan() {
    let support = v2::SwapChainSupportDetail {
        capabilities: surface_caps(),
        surface_formats: vec![preferred_format()],
        present_modes: vec![
            vk::PresentModeKHR(vk::PresentModeKHR::IMMEDIATE),
            vk::PresentModeKHR(vk::PresentModeKHR::FIFO),
        ],
    };
    let same = RhiQueueFamilyIndices {
        graphics_family: Some(1),
        present_family: Some(1),
        compute_family: None,
        transfer_family: None,
    };
    let config = v2::SwapchainDescriptor { width: 800, height: 600, vsync: true };
    let plan = v2::plan_swapchain(&support, config, &same, None);
    assert_eq!(plan.surface_format, preferred_format());
    assert_eq!(plan.present_mode.0, vk::PresentModeKHR::FIFO);
    assert_eq!(plan.extent, vk::Extent2D { width: 800, height: 600 });
    assert_eq!(plan.min_image_count, 4);
    assert_eq!(plan.image_sharing_mode.0, vk::SharingMode::EXCLUSIVE);
    assert!(plan.queue_family_indices.is_empty());
    assert_eq!(plan.old_swapchain, 0);
    assert_eq!(plan.composite_alpha.0, vk::CompositeAlphaFlagsKHR::OPAQUE);
    let no_vsync = v2::SwapchainDescriptor { width: 800, height: 600, vsync: false };
    let plan = v2::plan_swapchain(&support, no_vsync, &same, Some(5));
    assert_eq!(plan.present_mode.0, vk::PresentModeKHR::IMMEDIATE);
    assert_eq!(plan.old_swapchain, 5);
}

#[test]
fn first_generation_device_extensions() {
    let asked: [&str; 1] = ["VK_KHR_a"];
    let req = DeviceRequirements::builder(&asked);
    assert_eq!(device_extension_names(&req), vec!["VK_KHR_a".to_string(), "VK_KHR_swapchain".to_string()]);
    let headless = DeviceRequirements::builder(&asked).use_swapchain(false);
    assert_eq!(device_extension_names(&headless), vec!["VK_KHR_a".to_string()]);
    let available = vec!["VK_KHR_swapchain".to_string(), "VK_KHR_a".to_string()];
    assert!(check_device_extension_support(&available, &["VK_KHR_a"], true));
    assert!(check_device_extension_support(&available, &[], true));
    assert!(!check_device_extension_support(&available, &["VK_KHR_b"], true));
    let no_swapchain = vec!["VK_KHR_a".to_string()];
    assert!(!check_device_extension_support(&no_swapchain, &["VK_KHR_a"], true));
    assert!(check_device_extension_support(&no_swapchain, &["VK_KHR_a"], false));
}

#[test]
fn first_generation_logical_device() {
    let indices = QueueFamilyIndices {
        graphics_family: Some(0),
        present_family: Some(0),
        compute_family: None,
        transfer_family: None,
    };
    let adapter = AdapterRequirements::builder();
    let asked: [&str; 0] = [];
    let req = DeviceRequirements::builder(&asked);
    let plan = plan_logical_device(&indices, &adapter, &req, InstanceFlags::all());
    assert_eq!(plan.queue_families, HashSet::from([0]));
    assert_eq!(plan.layers, vec!["VK_LAYER_KHRONOS_validation"]);
    assert_eq!(plan.extension_names, vec!["VK_KHR_swapchain".to_string()]);
    assert_eq!(plan.features.sampler_anisotropy, 1);
    assert_eq!(plan.features.sample_rate_shading, 1);
    assert_eq!(plan.features_12.buffer_device_address, 0);
    let quiet = plan_logical_device(&indices, &adapter, &req, InstanceFlags::empty());
    assert!(quiet.layers.is_empty());
    let split = QueueFamilyIndices { present_family: Some(4), ..indices };
    assert_eq!(plan_logical_device(&split, &adapter, &req, InstanceFlags::empty()).queue_families, HashSet::from([0, 4]));
}

#[test]
fn second_generation_logical_device() {
    let indices = RhiQueueFamilyIndices {
        graphics_family: Some(2),
        present_family: Some(5),
        compute_family: None,
        transfer_family: None,
    };
    let mut physical = PhysicalDeviceRequirements::builder();
    physical.extra_features = RhiDeviceFeatures { geometry_shader: true, ..RhiDeviceFeatures::builder() };
    let req = DeviceRequirement { required_extension: vec!["VK_KHR_x".to_string()], use_swapchain: true };
    let plan = plan_logical_device_v2(&indices, &physical, &req, RhiInstanceFlags::all());
    assert_eq!(plan.queue_families, HashSet::from([2, 5]));
    assert_eq!(plan.layers, vec!["VK_LAYER_KHRONOS_validation"]);
    assert_eq!(plan.extension_names, vec!["VK_KHR_x".to_string(), "VK_KHR_swapchain".to_string()]);
    assert_eq!(plan.features.geometry_shader, 1);
    assert_eq!(plan.features.independent_blend, 1);
    assert_eq!(plan.features_13.synchronization2, 1);
    assert_eq!(plan.features_13.dynamic_rendering, 0);
    assert_eq!(plan.features_ray_tracing_pipeline.ray_tracing_pipeline, 0);
}

#[test]
fn second_generation_instance() {
    let desc = RhiInstanceDescriptor::builder().debug_level_filter(LevelFilter::Error);
    let plan = plan_instance(&desc, true);
    assert!(plan.enable_validation && plan.enable_debug);
    assert_eq!(plan.layers, vec!["VK_LAYER_KHRONOS_validation"]);
    assert_eq!(plan.extension_names.len(), 3);
    assert_eq!(plan.extension_names[2], "VK_EXT_debug_utils");
    assert_eq!(plan.debug_severity.map(|s| s.0), Some(0x1000));
    let missing_layer = plan_instance(&desc, false);
    assert!(!missing_layer.enable_validation && !missing_layer.enable_debug);
    assert!(missing_layer.layers.is_empty());
    assert_eq!(missing_layer.extension_names.len(), 2);
    assert_eq!(missing_layer.debug_severity, None);
}

#[test]
fn headless_devices_use_family_zero() {
    let families = [vk::QueueFamilyProperties { queue_flags: vk::QueueFlags(vk::QueueFlags::GRAPHICS), queue_count: 1 }];
    let headless = open_queue_family_indices(false, &families, &[false]);
    assert_eq!(headless.graphics_family, Some(0));
    assert_eq!(headless.present_family, Some(0));
    assert_eq!(headless.compute_family, Some(0));
    assert_eq!(headless.transfer_family, Some(0));
    let windowed = open_queue_family_indices(true, &families, &[false]);
    assert_eq!(windowed.graphics_family, Some(0));
    assert_eq!(windowed.present_family, None);
    assert_eq!(windowed.compute_family, None);
}

#[test]
fn device_extensions_split_into_offered_and_lacking() {
    assert_eq!(get_required_extensions(Features::empty()), vec!["VK_KHR_swapchain".to_string()]);
    let offered = vec!["VK_KHR_a".to_string(), "VK_KHR_swapchain".to_string()];
    assert!(supported_extension(&offered, &"VK_KHR_a".to_string()));
    assert!(!supported_extension(&offered, &"VK_KHR_b".to_string()));
    let (ok, missing) = required_device_extensions(&offered, Features::empty());
    assert_eq!(ok, vec!["VK_KHR_swapchain".to_string()]);
    assert!(missing.is_empty());
    let (ok, missing) = required_device_extensions(&[], Features::empty());
    assert!(ok.is_empty());
    assert_eq!(missing, vec!["VK_KHR_swapchain".to_string()]);
    let required = vec!["c".to_string(), "a".to_string(), "b".to_string(), "a".to_string()];
    let (ok, missing) = partition_extensions(&required, &["a".to_string()]);
    assert_eq!(ok, vec!["a".to_string(), "a".to_string()]);
    assert_eq!(missing, vec!["c".to_string(), "b".to_string()]);
}

#[test]
fn core_features_follow_downlevel_support() {
    for (a, m) in [(false, false), (true, false), (false, true), (true, true)] {
        let support = DownlevelSupport { anisotropic_filtering: a, multisampled_shading: m };
        let features = PhysicalDeviceFeatures::from_extensions_and_requested_features(&[], Features::empty(), support);
        assert_eq!(features.core.sampler_anisotropy, a as u32);
        assert_eq!(features.core.sample_rate_shading, m as u32);
        assert_eq!(features.core.geometry_shader, 0);
        let (optional, back) = features.get_features_and_downlevel_flags();
        assert_eq!(optional.bits, 0);
        assert_eq!(back, support);
    }
}

#[test]
fn a_view_asked_for_again_is_the_cached_one() {
    let image = ImageDescriptor {
        image_type: ImageType::Tex2d,
        usage: vk::ImageUsageFlags(vk::ImageUsageFlags::COLOR_ATTACHMENT),
        flags: vk::ImageCreateFlags(0),
        format: vk::Format(vk::Format::B8G8R8A8_UNORM),
        extent: Extent3d { width: 4, height: 4, depth_or_array_layers: 1 },
        tiling: vk::ImageTiling(vk::ImageTiling::OPTIMAL),
        mip_levels: 1,
        array_elements: 1,
    };
    let key = ImageViewDescriptorKey {
        aspect_mask: vk::ImageAspectFlags(vk::ImageAspectFlags::COLOR),
        ..Default::default()
    };
    let other = ImageViewDescriptorKey { base_mip_level: 1, ..key };
    let mut cache = ImageViewCache::new();
    assert_eq!(cache.cached_view(key), None);
    let first = cache.get_view(key, &image).unwrap();
    match first {
        ViewRequest::Create(plan) => {
            assert_eq!(plan.format.0, vk::Format::B8G8R8A8_UNORM);
            assert_eq!(plan.layer_count, 1);
        }
        ViewRequest::Cached(_) => panic!("nothing was cached yet"),
    }
    cache.record_view(key, vk::ImageView(42));
    assert_eq!(cache.get_view(key, &image), Ok(ViewRequest::Cached(vk::ImageView(42))));
    assert_eq!(cache.cached_view(key), Some(vk::ImageView(42)));
    assert_eq!(cache.cached_view(other), None);
    let depth = ImageDescriptor { format: vk::Format(vk::Format::D32_SFLOAT), ..image };
    assert!(cache.get_view(other, &depth).is_err());
    assert_eq!(cache.get_view(key, &depth), Ok(ViewRequest::Cached(vk::ImageView(42))));
}
